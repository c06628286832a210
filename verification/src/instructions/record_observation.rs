//! Recording one observation run over a repository.
//!
//! Guards, in this order: the lifecycle must allow writes, the configuration
//! must be active, the repository must be active and must allow observation;
//! lines of code and files must be above zero and within their bounds, the
//! modules touched within theirs; revision and note must fit; the repository
//! must be below its observation cap; and no counter of the repository or of
//! the aggregate may overflow. Any signer may record an observation.

use vstd::prelude::*;
use crate::constants::{
    MAX_FILES_PER_OBSERVATION, MAX_LOC_PER_OBSERVATION, MAX_MODULES_PER_OBSERVATION,
};
use crate::errors::Unit09Error;
use crate::events::ObservationRecorded;
use crate::ledger::{Clock, Pubkey};
use crate::state::{Config, Lifecycle, Metrics, Repo};

verus! {

/// The summary of one observation run.
#[derive(Clone, Debug, PartialEq, Eq)]
pub struct RecordObservationArgs {
    /// Lines of code processed; at least one.
    pub lines_of_code: u64,
    /// Files processed; at least one.
    pub files_processed: u32,
    /// Modules detected, updated or touched; may be zero.
    pub modules_touched: u32,
    /// Commit or revision that was observed; may be empty.
    pub revision: String,
    /// Short note on the run; may be empty.
    pub note: String,
}

/// The records and signers that the instruction works on.
#[derive(Clone, Debug, PartialEq, Eq)]
pub struct RecordObservation {
    /// The signer who recorded the observation.
    pub observer: Pubkey,
    /// The global configuration.
    pub config: Config,
    /// The global phase gate.
    pub lifecycle: Lifecycle,
    /// The aggregate counters.
    pub metrics: Metrics,
    /// The repository that was observed.
    pub repo: Repo,
    /// Address under which the repository's record is stored.
    pub repo_address: Pubkey,
    /// The ledger's clock.
    pub clock: Clock,
}

/// The error, if any, with which the three numbers of an observation are
/// refused.
pub open spec fn numbers_rejection(
    lines_of_code: u64,
    files_processed: u32,
    modules_touched: u32,
) -> Option<Unit09Error> {
    if lines_of_code == 0 {
        Some(Unit09Error::ValueOutOfRange)
    } else if lines_of_code > MAX_LOC_PER_OBSERVATION {
        Some(Unit09Error::ObservationDataTooLarge)
    } else if files_processed == 0 {
        Some(Unit09Error::ValueOutOfRange)
    } else if files_processed > MAX_FILES_PER_OBSERVATION {
        Some(Unit09Error::ObservationDataTooLarge)
    } else if modules_touched > MAX_MODULES_PER_OBSERVATION {
        Some(Unit09Error::ObservationDataTooLarge)
    } else {
        None
    }
}

/// The error, if any, with which one of the guards ahead of all field
/// validation refuses the instruction.
pub open spec fn guard_rejection(ctx: RecordObservation) -> Option<Unit09Error> {
    if !ctx.lifecycle.writes_allowed() {
        Some(Unit09Error::InvalidLifecycleState)
    } else if !ctx.config.is_active {
        Some(Unit09Error::InvalidLifecycleState)
    } else if !ctx.repo.is_active {
        Some(Unit09Error::RepoInactive)
    } else if !ctx.repo.allow_observation {
        Some(Unit09Error::ObservationNotAllowed)
    } else {
        None
    }
}

/// The error, if any, with which the instruction is refused.
pub open spec fn rejection(ctx: RecordObservation, args: RecordObservationArgs) -> Option<
    Unit09Error,
> {
    if guard_rejection(ctx) is Some {
        guard_rejection(ctx)
    } else if numbers_rejection(args.lines_of_code, args.files_processed, args.modules_touched)
        is Some {
        numbers_rejection(args.lines_of_code, args.files_processed, args.modules_touched)
    } else if ctx.repo.observation_rejection(
        args.lines_of_code,
        args.files_processed,
        args.modules_touched,
        args.revision@,
        args.note@,
    ) is Some {
        ctx.repo.observation_rejection(
            args.lines_of_code,
            args.files_processed,
            args.modules_touched,
            args.revision@,
            args.note@,
        )
    } else if !ctx.metrics.fits_observation(args.lines_of_code, args.files_processed) {
        Some(Unit09Error::CounterOverflow)
    } else {
        None
    }
}

/// The records that the instruction leaves behind where it is accepted: the
/// observation is added to the repository and to the aggregate.
pub open spec fn recorded(ctx: RecordObservation, args: RecordObservationArgs) -> RecordObservation {
    RecordObservation {
        repo: ctx.repo.with_observation(
            args.lines_of_code,
            args.files_processed,
            args.modules_touched,
            args.revision,
            args.note,
            ctx.observer,
            ctx.clock.unix_timestamp,
        ),
        metrics: ctx.metrics.with_observation(
            args.lines_of_code,
            args.files_processed,
            ctx.clock.unix_timestamp,
        ),
        ..ctx
    }
}

/// The event that reports the observation `args` on the records `ctx`.
pub open spec fn event_of(ctx: RecordObservation, args: RecordObservationArgs) -> ObservationRecorded {
    ObservationRecorded {
        repo: ctx.repo_address,
        observer: ctx.observer,
        lines_of_code: args.lines_of_code,
        files_processed: args.files_processed,
        modules_touched: args.modules_touched,
        revision: args.revision,
        note: args.note,
        observed_at: ctx.clock.unix_timestamp,
    }
}

/// Checks the three numbers of an observation against their bounds.
pub fn check_numbers(lines_of_code: u64, files_processed: u32, modules_touched: u32) -> (r: Result<
    (),
    Unit09Error,
>)
    ensures
        match r {
            Ok(()) => numbers_rejection(lines_of_code, files_processed, modules_touched) is None,
            Err(e) => numbers_rejection(lines_of_code, files_processed, modules_touched) == Some(
                e,
            ),
        },
        lines_of_code == 0 ==> r == Err::<(), Unit09Error>(Unit09Error::ValueOutOfRange),
        lines_of_code > MAX_LOC_PER_OBSERVATION ==> r == Err::<(), Unit09Error>(
            Unit09Error::ObservationDataTooLarge,
        ),
{
    if lines_of_code == 0 {
        return Err(Unit09Error::ValueOutOfRange);
    }
    if lines_of_code > MAX_LOC_PER_OBSERVATION {
        return Err(Unit09Error::ObservationDataTooLarge);
    }
    if files_processed == 0 {
        return Err(Unit09Error::ValueOutOfRange);
    }
    if files_processed > MAX_FILES_PER_OBSERVATION {
        return Err(Unit09Error::ObservationDataTooLarge);
    }
    if modules_touched > MAX_MODULES_PER_OBSERVATION {
        return Err(Unit09Error::ObservationDataTooLarge);
    }
    Ok(())
}

/// Records an observation on the repository and on the aggregate counters.
///
/// On success the repository and the aggregate have both taken the
/// observation, and the event mirrors it. A refused instruction leaves every
/// record as it was, the aggregate included.
pub fn handle(ctx: &mut RecordObservation, args: RecordObservationArgs) -> (r: Result<
    ObservationRecorded,
    Unit09Error,
>)
    ensures
        match r {
            Ok(event) => rejection(*old(ctx), args) is None && *final(ctx) == recorded(
                *old(ctx),
                args,
            ) && event == event_of(*old(ctx), args),
            Err(e) => rejection(*old(ctx), args) == Some(e) && *final(ctx) == *old(ctx),
        },
        !old(ctx).lifecycle.writes_allowed() ==> r == Err::<ObservationRecorded, Unit09Error>(
            Unit09Error::InvalidLifecycleState,
        ) && *final(ctx) == *old(ctx),
        old(ctx).lifecycle.writes_allowed() && old(ctx).config.is_active && old(ctx).repo.is_active
            && !old(ctx).repo.allow_observation ==> r == Err::<ObservationRecorded, Unit09Error>(
            Unit09Error::ObservationNotAllowed,
        ) && final(ctx).metrics == old(ctx).metrics,
        r is Err ==> final(ctx).metrics == old(ctx).metrics && final(ctx).repo == old(ctx).repo,
        r is Ok ==> r->Ok_0.observed_at == final(ctx).repo.last_observed_at,
{
    ctx.lifecycle.assert_writes_allowed()?;
    ctx.config.assert_active()?;
    ctx.repo.assert_active()?;
    ctx.repo.assert_observable()?;

    check_numbers(args.lines_of_code, args.files_processed, args.modules_touched)?;

    ctx.repo.check_observation(
        args.lines_of_code,
        args.files_processed,
        args.modules_touched,
        args.revision.as_str(),
        args.note.as_str(),
    )?;
    if ctx.metrics.observation_overflows(args.lines_of_code, args.files_processed) {
        return Err(Unit09Error::CounterOverflow);
    }

    let observer = ctx.observer;
    let clock = ctx.clock;
    ctx.repo.record_observation(
        args.lines_of_code,
        args.files_processed,
        args.modules_touched,
        args.revision.clone(),
        args.note.clone(),
        observer,
        &clock,
    )?;
    ctx.metrics.record_observation(args.lines_of_code, args.files_processed, &clock)?;
    ctx.metrics.updated_at = clock.unix_timestamp;

    Ok(
        ObservationRecorded {
            repo: ctx.repo_address,
            observer: ctx.observer,
            lines_of_code: args.lines_of_code,
            files_processed: args.files_processed,
            modules_touched: args.modules_touched,
            revision: args.revision,
            note: args.note,
            observed_at: ctx.repo.last_observed_at,
        },
    )
}

} // verus!
