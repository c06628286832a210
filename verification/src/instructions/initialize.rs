//! Initialising a deployment.
//!
//! It fills the configuration, starts all aggregate counters at zero, opens
//! the lifecycle for writes and blanks the global metadata.
//!
//! Guards, in this order: the lifecycle record handed in must not be frozen
//! (a blank one is not), fee and module cap must be valid, and the address
//! derivation must have supplied the nonce of each of the four records. The
//! configuration cannot be asked whether it is active: it is this
//! instruction that makes it so.

use vstd::prelude::*;
use crate::errors::Unit09Error;
use crate::events::Initialized;
use crate::ledger::{Clock, Pubkey};
use crate::state::{Config, GlobalMetadata, Lifecycle, Metrics};

verus! {

/// The values a deployment starts with.
#[derive(Clone, Copy, Debug, PartialEq, Eq)]
pub struct InitializeArgs {
    /// The admin of the deployment.
    pub admin: Pubkey,
    /// Fee in basis points.
    pub fee_bps: u16,
    /// Module cap of a repository.
    pub max_modules_per_repo: u32,
    /// Reference to an off-chain policy document.
    pub policy_ref: [u8; 32],
}

/// The records and signers that the instruction works on.
#[derive(Clone, Debug, PartialEq, Eq)]
pub struct Initialize {
    /// Who pays for the new records.
    pub payer: Pubkey,
    /// The configuration record to fill.
    pub config: Config,
    /// The counters to start.
    pub metrics: Metrics,
    /// The lifecycle to open.
    pub lifecycle: Lifecycle,
    /// The metadata to blank.
    pub metadata: GlobalMetadata,
    /// Nonce found for the configuration record, if any.
    pub config_bump: Option<u8>,
    /// Nonce found for the metrics record, if any.
    pub metrics_bump: Option<u8>,
    /// Nonce found for the lifecycle record, if any.
    pub lifecycle_bump: Option<u8>,
    /// Nonce found for the metadata record, if any.
    pub metadata_bump: Option<u8>,
    /// The ledger's clock.
    pub clock: Clock,
}

/// The error, if any, with which the instruction is refused.
pub open spec fn rejection(ctx: Initialize, args: InitializeArgs) -> Option<Unit09Error> {
    if !ctx.lifecycle.writes_allowed() {
        Some(Unit09Error::InvalidLifecycleState)
    } else if Config::rejection(Some(args.fee_bps), Some(args.max_modules_per_repo)) is Some {
        Config::rejection(Some(args.fee_bps), Some(args.max_modules_per_repo))
    } else if ctx.config_bump is None || ctx.metrics_bump is None || ctx.lifecycle_bump is None
        || ctx.metadata_bump is None {
        Some(Unit09Error::InternalError)
    } else {
        None
    }
}

/// Whether `after` is what the instruction leaves behind where it is
/// accepted: the configuration as given, every counter at zero, the lifecycle
/// open, the metadata blank, and nothing else changed.
pub open spec fn initialized(ctx: Initialize, args: InitializeArgs, after: Initialize) -> bool {
    &&& after.config == Config::initialized(
        args.admin,
        args.fee_bps,
        args.max_modules_per_repo,
        args.policy_ref,
        ctx.config_bump->0,
        ctx.clock.unix_timestamp,
    )
    &&& after.metrics == (Metrics {
        total_repos: 0,
        total_modules: 0,
        total_forks: 0,
        total_observations: 0,
        total_lines_of_code: 0,
        total_files_processed: 0,
        updated_at: ctx.clock.unix_timestamp,
        bump: ctx.metrics_bump->0,
    })
    &&& after.lifecycle == (Lifecycle {
        is_frozen: false,
        updated_at: ctx.clock.unix_timestamp,
        bump: ctx.lifecycle_bump->0,
    })
    &&& after.metadata.is_blank(ctx.metadata_bump->0, ctx.clock.unix_timestamp)
    &&& after == (Initialize {
        config: after.config,
        metrics: after.metrics,
        lifecycle: after.lifecycle,
        metadata: after.metadata,
        ..ctx
    })
}

/// The event that reports the configuration `config` as initialised.
pub open spec fn event_of(config: Config) -> Initialized {
    Initialized {
        admin: config.admin,
        fee_bps: config.fee_bps,
        max_modules_per_repo: config.max_modules_per_repo,
        schema_version: config.schema_version,
        created_at: config.created_at,
    }
}

/// Initialises configuration, counters, lifecycle and metadata of a
/// deployment.
///
/// A refused instruction leaves every record as it was.
pub fn handle(ctx: &mut Initialize, args: InitializeArgs) -> (r: Result<Initialized, Unit09Error>)
    ensures
        match r {
            Ok(event) => rejection(*old(ctx), args) is None && initialized(
                *old(ctx),
                args,
                *final(ctx),
            ) && event == event_of(final(ctx).config),
            Err(e) => rejection(*old(ctx), args) == Some(e) && *final(ctx) == *old(ctx),
        },
        !old(ctx).lifecycle.writes_allowed() ==> r == Err::<Initialized, Unit09Error>(
            Unit09Error::InvalidLifecycleState,
        ) && *final(ctx) == *old(ctx),
        r is Ok ==> final(ctx).config.wf() && final(ctx).config.is_active && final(ctx).lifecycle.writes_allowed(),
{
    ctx.lifecycle.assert_writes_allowed()?;
    Config::validate_fee_bps(args.fee_bps)?;
    Config::validate_max_modules(args.max_modules_per_repo)?;
    let (config_bump, metrics_bump, lifecycle_bump, metadata_bump) = match (
        ctx.config_bump,
        ctx.metrics_bump,
        ctx.lifecycle_bump,
        ctx.metadata_bump,
    ) {
        (Some(c), Some(m), Some(l), Some(g)) => (c, m, l, g),
        _ => {
            return Err(Unit09Error::InternalError);
        },
    };

    let clock = ctx.clock;
    ctx.config.init(
        args.admin,
        args.fee_bps,
        args.max_modules_per_repo,
        args.policy_ref,
        config_bump,
        &clock,
    )?;
    ctx.metrics.init(metrics_bump, &clock);
    ctx.lifecycle.init(lifecycle_bump, &clock);
    ctx.metadata.init(metadata_bump, &clock);

    Ok(
        Initialized {
            admin: ctx.config.admin,
            fee_bps: ctx.config.fee_bps,
            max_modules_per_repo: ctx.config.max_modules_per_repo,
            schema_version: ctx.config.schema_version,
            created_at: ctx.config.created_at,
        },
    )
}

} // verus!
