//! Changing a fork.
//!
//! Only the owner of a fork may change it, and ownership never moves.
//!
//! Guards, in this order: the lifecycle must allow writes, the configuration
//! must be active, the signer must own the fork, and every text that is given
//! must be within its bounds.

use vstd::prelude::*;
use crate::errors::Unit09Error;
use crate::events::ForkStateUpdated;
use crate::ledger::{Clock, Pubkey};
use crate::state::{Config, Fork, Lifecycle};

verus! {

/// The fields to change; `None` keeps a field as it is.
#[derive(Clone, Debug, PartialEq, Eq)]
pub struct UpdateForkStateArgs {
    /// New label; must not be empty.
    pub label: Option<String>,
    /// New metadata URI; must not be empty.
    pub metadata_uri: Option<String>,
    /// New tags; may be empty.
    pub tags: Option<String>,
    /// New active flag.
    pub is_active: Option<bool>,
}

/// The records and signers that the instruction works on.
#[derive(Clone, Debug, PartialEq, Eq)]
pub struct UpdateForkState {
    /// The signer, who has to own the fork.
    pub owner: Pubkey,
    /// The global configuration.
    pub config: Config,
    /// The global phase gate.
    pub lifecycle: Lifecycle,
    /// The fork to change.
    pub fork: Fork,
    /// Address under which the fork's record is stored.
    pub fork_address: Pubkey,
    /// The ledger's clock.
    pub clock: Clock,
}

/// The error, if any, with which the instruction is refused.
pub open spec fn rejection(ctx: UpdateForkState, args: UpdateForkStateArgs) -> Option<Unit09Error> {
    if !ctx.lifecycle.writes_allowed() {
        Some(Unit09Error::InvalidLifecycleState)
    } else if !ctx.config.is_active {
        Some(Unit09Error::InvalidLifecycleState)
    } else if ctx.owner != ctx.fork.owner {
        Some(Unit09Error::InvalidForkOwner)
    } else {
        Fork::update_rejection(args.label, args.metadata_uri, args.tags)
    }
}

/// The event that reports the fork record `fork` stored under `address`.
pub open spec fn event_of(address: Pubkey, fork: Fork) -> ForkStateUpdated {
    ForkStateUpdated {
        fork: address,
        owner: fork.owner,
        is_active: fork.is_active,
        updated_at: fork.updated_at,
    }
}

/// Changes label, metadata URI, tags and active flag of a fork.
///
/// On success only the fork record has changed, and the event mirrors it.
/// A refused instruction leaves every record as it was.
pub fn handle(ctx: &mut UpdateForkState, args: UpdateForkStateArgs) -> (r: Result<
    ForkStateUpdated,
    Unit09Error,
>)
    ensures
        match r {
            Ok(event) => rejection(*old(ctx), args) is None && *final(ctx) == (UpdateForkState {
                fork: old(ctx).fork.updated(
                    args.label,
                    args.metadata_uri,
                    args.tags,
                    args.is_active,
                    old(ctx).clock.unix_timestamp,
                ),
                ..*old(ctx)
            }) && event == event_of(old(ctx).fork_address, final(ctx).fork),
            Err(e) => rejection(*old(ctx), args) == Some(e) && *final(ctx) == *old(ctx),
        },
        !old(ctx).lifecycle.writes_allowed() ==> r == Err::<ForkStateUpdated, Unit09Error>(
            Unit09Error::InvalidLifecycleState,
        ) && *final(ctx) == *old(ctx),
        old(ctx).lifecycle.writes_allowed() && old(ctx).config.is_active && old(ctx).owner != old(ctx).fork.owner ==> r == Err::<ForkStateUpdated, Unit09Error>(Unit09Error::InvalidForkOwner),
        final(ctx).fork.owner == old(ctx).fork.owner,
{
    ctx.lifecycle.assert_writes_allowed()?;
    ctx.config.assert_active()?;
    ctx.fork.assert_owner(&ctx.owner)?;

    let clock = ctx.clock;
    ctx.fork.apply_update(args.label, args.metadata_uri, args.tags, args.is_active, &clock)?;

    Ok(
        ForkStateUpdated {
            fork: ctx.fork_address,
            owner: ctx.fork.owner,
            is_active: ctx.fork.is_active,
            updated_at: ctx.fork.updated_at,
        },
    )
}

} // verus!
