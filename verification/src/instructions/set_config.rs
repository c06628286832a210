//! Changing the global configuration.
//!
//! Guards, in this order: the lifecycle must allow writes, the signer must be
//! the admin, the configuration must be active, and the numbers that are
//! given must be valid. Since an inactive configuration refuses every
//! instruction that writes, this one included, deactivating a deployment
//! cannot be undone through it.

use vstd::prelude::*;
use crate::errors::Unit09Error;
use crate::events::ConfigUpdated;
use crate::ledger::{Clock, Pubkey};
use crate::state::{Config, Lifecycle};

verus! {

/// The fields to change; `None` keeps a field as it is.
#[derive(Clone, Copy, Debug, PartialEq, Eq)]
pub struct SetConfigArgs {
    /// New fee in basis points.
    pub fee_bps: Option<u16>,
    /// New module cap of a repository.
    pub max_modules_per_repo: Option<u32>,
    /// New active flag.
    pub is_active: Option<bool>,
    /// New policy reference.
    pub policy_ref: Option<[u8; 32]>,
}

/// The records and signers that the instruction works on.
#[derive(Clone, Copy, Debug, PartialEq, Eq)]
pub struct SetConfig {
    /// The signer, who has to be the admin.
    pub admin: Pubkey,
    /// The configuration to change.
    pub config: Config,
    /// The global phase gate.
    pub lifecycle: Lifecycle,
    /// The ledger's clock.
    pub clock: Clock,
}

/// The error, if any, with which the instruction is refused.
pub open spec fn rejection(ctx: SetConfig, args: SetConfigArgs) -> Option<Unit09Error> {
    if !ctx.lifecycle.writes_allowed() {
        Some(Unit09Error::InvalidLifecycleState)
    } else if ctx.admin != ctx.config.admin {
        Some(Unit09Error::InvalidAdmin)
    } else if !ctx.config.is_active {
        Some(Unit09Error::InvalidLifecycleState)
    } else {
        Config::rejection(args.fee_bps, args.max_modules_per_repo)
    }
}

/// The event that reports the configuration `config`.
pub open spec fn event_of(config: Config) -> ConfigUpdated {
    ConfigUpdated {
        admin: config.admin,
        fee_bps: config.fee_bps,
        max_modules_per_repo: config.max_modules_per_repo,
        is_active: config.is_active,
        updated_at: config.updated_at,
    }
}

/// Applies a sparse update to the configuration.
///
/// On success only the configuration has changed, and the event mirrors
/// it. A refused instruction leaves every record as it was.
pub fn handle(ctx: &mut SetConfig, args: SetConfigArgs) -> (r: Result<ConfigUpdated, Unit09Error>)
    ensures
        match r {
            Ok(event) => rejection(*old(ctx), args) is None && *final(ctx) == (SetConfig {
                config: old(ctx).config.updated(
                    args.fee_bps,
                    args.max_modules_per_repo,
                    args.is_active,
                    args.policy_ref,
                    old(ctx).clock.unix_timestamp,
                ),
                ..*old(ctx)
            }) && event == event_of(final(ctx).config),
            Err(e) => rejection(*old(ctx), args) == Some(e) && *final(ctx) == *old(ctx),
        },
        !old(ctx).lifecycle.writes_allowed() ==> r == Err::<ConfigUpdated, Unit09Error>(
            Unit09Error::InvalidLifecycleState,
        ) && *final(ctx) == *old(ctx),
        old(ctx).config.wf() ==> final(ctx).config.wf(),
{
    ctx.lifecycle.assert_writes_allowed()?;
    ctx.config.assert_admin(&ctx.admin)?;
    ctx.config.assert_active()?;

    let clock = ctx.clock;
    ctx.config.apply_update(
        args.fee_bps,
        args.max_modules_per_repo,
        args.is_active,
        args.policy_ref,
        &clock,
    )?;

    Ok(
        ConfigUpdated {
            admin: ctx.config.admin,
            fee_bps: ctx.config.fee_bps,
            max_modules_per_repo: ctx.config.max_modules_per_repo,
            is_active: ctx.config.is_active,
            updated_at: ctx.config.updated_at,
        },
    )
}

} // verus!
