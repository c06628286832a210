//! Reconciling the aggregate counters.
//!
//! Only the admin may do this. Each value that is given replaces its counter;
//! nothing is added. Records of repositories and modules are not touched.
//!
//! Guards, in this order: the lifecycle must allow writes, the signer must be
//! the admin, the configuration must be active, and none of the given values
//! may be `u64::MAX`.

use vstd::prelude::*;
use crate::errors::Unit09Error;
use crate::events::MetricsReconciled;
use crate::ledger::{Clock, Pubkey};
use crate::state::{Config, Lifecycle, Metrics};

verus! {

/// The counters to overwrite; `None` keeps a counter as it is.
#[derive(Clone, Copy, Debug, PartialEq, Eq)]
pub struct RecordMetricsArgs {
    /// New number of repositories.
    pub total_repos: Option<u64>,
    /// New number of modules.
    pub total_modules: Option<u64>,
    /// New number of forks.
    pub total_forks: Option<u64>,
    /// New number of observation runs.
    pub total_observations: Option<u64>,
    /// New total of lines of code.
    pub total_lines_of_code: Option<u64>,
    /// New total of files.
    pub total_files_processed: Option<u64>,
}

/// The records and signers that the instruction works on.
#[derive(Clone, Copy, Debug, PartialEq, Eq)]
pub struct RecordMetrics {
    /// The signer, who has to be the admin.
    pub admin: Pubkey,
    /// The global configuration.
    pub config: Config,
    /// The global phase gate.
    pub lifecycle: Lifecycle,
    /// The counters to reconcile.
    pub metrics: Metrics,
    /// The ledger's clock.
    pub clock: Clock,
}

impl RecordMetricsArgs {
    /// Whether any of the given values is the reserved `u64::MAX`.
    pub open spec fn any_sentinel(&self) -> bool {
        Metrics::any_sentinel(
            self.total_repos,
            self.total_modules,
            self.total_forks,
            self.total_observations,
            self.total_lines_of_code,
            self.total_files_processed,
        )
    }
}

/// The error, if any, with which the instruction is refused.
pub open spec fn rejection(ctx: RecordMetrics, args: RecordMetricsArgs) -> Option<Unit09Error> {
    if !ctx.lifecycle.writes_allowed() {
        Some(Unit09Error::InvalidLifecycleState)
    } else if ctx.admin != ctx.config.admin {
        Some(Unit09Error::InvalidAdmin)
    } else if !ctx.config.is_active {
        Some(Unit09Error::InvalidLifecycleState)
    } else if args.any_sentinel() {
        Some(Unit09Error::ValueOutOfRange)
    } else {
        None
    }
}

/// The counters that the instruction leaves behind where it is accepted.
pub open spec fn reconciled(ctx: RecordMetrics, args: RecordMetricsArgs) -> Metrics {
    ctx.metrics.adjusted(
        args.total_repos,
        args.total_modules,
        args.total_forks,
        args.total_observations,
        args.total_lines_of_code,
        args.total_files_processed,
        ctx.clock.unix_timestamp,
    )
}

/// The records after the instruction: as before where it is refused, with
/// the reconciled counters where it is accepted.
pub open spec fn state_after(ctx: RecordMetrics, args: RecordMetricsArgs) -> RecordMetrics {
    if rejection(ctx, args) is Some {
        ctx
    } else {
        RecordMetrics { metrics: reconciled(ctx, args), ..ctx }
    }
}

/// The event that reports the counters `metrics` as reconciled by `admin`.
pub open spec fn event_of(admin: Pubkey, metrics: Metrics) -> MetricsReconciled {
    MetricsReconciled {
        admin,
        total_repos: metrics.total_repos,
        total_modules: metrics.total_modules,
        total_forks: metrics.total_forks,
        total_observations: metrics.total_observations,
        total_lines_of_code: metrics.total_lines_of_code,
        total_files_processed: metrics.total_files_processed,
        updated_at: metrics.updated_at,
    }
}

/// Reconciles the aggregate counters.
///
/// On success only the counters have changed, and the event mirrors them.
/// A refused instruction leaves every record as it was: if one of the six
/// values is refused, none of the others is applied.
pub fn handle(ctx: &mut RecordMetrics, args: RecordMetricsArgs) -> (r: Result<
    MetricsReconciled,
    Unit09Error,
>)
    ensures
        match r {
            Ok(event) => rejection(*old(ctx), args) is None && event == event_of(
                old(ctx).config.admin,
                final(ctx).metrics,
            ),
            Err(e) => rejection(*old(ctx), args) == Some(e),
        },
        *final(ctx) == state_after(*old(ctx), args),
        !old(ctx).lifecycle.writes_allowed() ==> r == Err::<MetricsReconciled, Unit09Error>(
            Unit09Error::InvalidLifecycleState,
        ) && *final(ctx) == *old(ctx),
        r is Err ==> *final(ctx) == *old(ctx),
{
    ctx.lifecycle.assert_writes_allowed()?;
    ctx.config.assert_admin(&ctx.admin)?;
    ctx.config.assert_active()?;

    let clock = ctx.clock;
    ctx.metrics.adjust_aggregate(
        args.total_repos,
        args.total_modules,
        args.total_forks,
        args.total_observations,
        args.total_lines_of_code,
        args.total_files_processed,
        &clock,
    )?;
    ctx.metrics.updated_at = clock.unix_timestamp;

    Ok(
        MetricsReconciled {
            admin: ctx.config.admin,
            total_repos: ctx.metrics.total_repos,
            total_modules: ctx.metrics.total_modules,
            total_forks: ctx.metrics.total_forks,
            total_observations: ctx.metrics.total_observations,
            total_lines_of_code: ctx.metrics.total_lines_of_code,
            total_files_processed: ctx.metrics.total_files_processed,
            updated_at: ctx.metrics.updated_at,
        },
    )
}

/// Reconciliation is idempotent: where the instruction is accepted, running
/// it once more with the same values is accepted too and leaves the records
/// exactly as the first run left them.
pub proof fn lemma_record_metrics_idempotent(ctx: RecordMetrics, args: RecordMetricsArgs)
    requires
        rejection(ctx, args) is None,
    ensures
        rejection(state_after(ctx, args), args) is None,
        state_after(state_after(ctx, args), args) == state_after(ctx, args),
{
}

/// Run again at a later moment, reconciliation with the same values gives the
/// same counters; only the time of the update moves.
pub proof fn lemma_record_metrics_overwrites(
    ctx: RecordMetrics,
    args: RecordMetricsArgs,
    later: Clock,
)
    requires
        rejection(ctx, args) is None,
    ensures
        state_after(RecordMetrics { clock: later, ..state_after(ctx, args) }, args).metrics
            == (Metrics { updated_at: later.unix_timestamp, ..state_after(ctx, args).metrics }),
{
}

/// A frozen lifecycle refuses the instruction and nothing changes.
pub proof fn lemma_record_metrics_frozen(ctx: RecordMetrics, args: RecordMetricsArgs)
    requires
        !ctx.lifecycle.writes_allowed(),
    ensures
        rejection(ctx, args) == Some(Unit09Error::InvalidLifecycleState),
        state_after(ctx, args) == ctx,
{
}

} // verus!
