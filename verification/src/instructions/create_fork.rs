//! Creating a fork.
//!
//! Guards, in this order: the lifecycle must allow writes, the configuration
//! must be active, label and metadata URI must be present and within bounds,
//! the tags within bounds, and the address derivation must have supplied the
//! nonce of the new record. Any signer may become the owner of a fork.

use vstd::prelude::*;
use crate::errors::Unit09Error;
use crate::events::ForkCreated;
use crate::ledger::{Clock, Pubkey};
use crate::state::{Config, Fork, Lifecycle};

verus! {

/// What the caller asks for.
#[derive(Clone, Debug, PartialEq, Eq)]
pub struct CreateForkArgs {
    /// The key from which the fork's address is derived.
    pub fork_key: Pubkey,
    /// The parent fork, if any.
    pub parent: Option<Pubkey>,
    /// Human-readable label; required.
    pub label: String,
    /// Where the fork's metadata lives; required.
    pub metadata_uri: String,
    /// Comma-separated tags; may be empty.
    pub tags: String,
    /// Whether the fork is a root of the tree.
    pub is_root: bool,
    /// Explicit depth; without one a root gets 0 and any other fork 1.
    pub depth: Option<u16>,
}

/// The records and signers that the instruction works on.
#[derive(Clone, Debug, PartialEq, Eq)]
pub struct CreateFork {
    /// Who pays for the new record.
    pub payer: Pubkey,
    /// The signer that becomes the owner of the fork.
    pub owner: Pubkey,
    /// The global configuration.
    pub config: Config,
    /// The global phase gate.
    pub lifecycle: Lifecycle,
    /// The record to fill.
    pub fork: Fork,
    /// Address under which the record is stored.
    pub fork_address: Pubkey,
    /// Nonce that the address derivation found for the record, if any.
    pub fork_bump: Option<u8>,
    /// The ledger's clock.
    pub clock: Clock,
}

/// The parent that is stored: the one given, else the default key.
pub open spec fn stored_parent(parent: Option<Pubkey>) -> Pubkey {
    if parent is Some {
        parent->0
    } else {
        Pubkey::zero()
    }
}

/// The error, if any, with which the instruction is refused.
pub open spec fn rejection(ctx: CreateFork, args: CreateForkArgs) -> Option<Unit09Error> {
    if !ctx.lifecycle.writes_allowed() {
        Some(Unit09Error::InvalidLifecycleState)
    } else if !ctx.config.is_active {
        Some(Unit09Error::InvalidLifecycleState)
    } else if Fork::text_rejection(args.label@, args.metadata_uri@, args.tags@) is Some {
        Fork::text_rejection(args.label@, args.metadata_uri@, args.tags@)
    } else if ctx.fork_bump is None {
        Some(Unit09Error::InternalError)
    } else {
        None
    }
}

/// The fork record that the instruction leaves behind where it is accepted.
pub open spec fn created_fork(ctx: CreateFork, args: CreateForkArgs) -> Fork {
    Fork::initialized(
        args.fork_key,
        stored_parent(args.parent),
        ctx.owner,
        args.label,
        args.metadata_uri,
        args.tags,
        args.is_root,
        Fork::resolved_depth(args.is_root, args.depth),
        ctx.fork_bump->0,
        ctx.clock.unix_timestamp,
    )
}

/// The event that reports a fork record stored under `address`.
pub open spec fn event_of(address: Pubkey, fork: Fork) -> ForkCreated {
    ForkCreated {
        fork: address,
        owner: fork.owner,
        parent: fork.parent,
        is_root: fork.is_root,
        depth: fork.depth,
        created_at: fork.created_at,
    }
}

/// Creates a fork.
///
/// On success only the fork record has changed, and the event mirrors it.
/// A refused instruction leaves every record as it was.
pub fn handle(ctx: &mut CreateFork, args: CreateForkArgs) -> (r: Result<ForkCreated, Unit09Error>)
    ensures
        match r {
            Ok(event) => rejection(*old(ctx), args) is None && *final(ctx) == (CreateFork {
                fork: created_fork(*old(ctx), args),
                ..*old(ctx)
            }) && event == event_of(old(ctx).fork_address, final(ctx).fork),
            Err(e) => rejection(*old(ctx), args) == Some(e) && *final(ctx) == *old(ctx),
        },
        !old(ctx).lifecycle.writes_allowed() ==> r == Err::<ForkCreated, Unit09Error>(
            Unit09Error::InvalidLifecycleState,
        ) && *final(ctx) == *old(ctx),
        r is Ok ==> final(ctx).fork.depth == Fork::resolved_depth(args.is_root, args.depth),
{
    ctx.lifecycle.assert_writes_allowed()?;
    ctx.config.assert_active()?;

    Fork::check_texts(args.label.as_str(), args.metadata_uri.as_str(), args.tags.as_str())?;

    let fork_bump = match ctx.fork_bump {
        Some(bump) => bump,
        None => {
            return Err(Unit09Error::InternalError);
        },
    };

    let parent = match args.parent {
        Some(parent) => parent,
        None => Pubkey::default(),
    };
    let depth = Fork::resolve_depth(args.is_root, args.depth);

    let owner = ctx.owner;
    let clock = ctx.clock;
    ctx.fork.init(
        args.fork_key,
        parent,
        owner,
        args.label,
        args.metadata_uri,
        args.tags,
        args.is_root,
        depth,
        fork_bump,
        &clock,
    )?;

    Ok(
        ForkCreated {
            fork: ctx.fork_address,
            owner: ctx.fork.owner,
            parent: ctx.fork.parent,
            is_root: ctx.fork.is_root,
            depth: ctx.fork.depth,
            created_at: ctx.fork.created_at,
        },
    )
}

} // verus!
