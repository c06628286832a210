//! Registering a repository.
//!
//! Any signer may register a repository and becomes its authority.
//!
//! Guards, in this order: the lifecycle must allow writes, the configuration
//! must be active, name and URL must be present and within bounds, the tags
//! within bounds, the address derivation must have supplied the nonce of the
//! new record, and the aggregate must have room for one more repository.

use vstd::prelude::*;
use crate::errors::Unit09Error;
use crate::events::RepoRegistered;
use crate::ledger::{Clock, Pubkey};
use crate::state::{Config, Lifecycle, Metrics, Repo};

verus! {

/// What the caller asks for.
#[derive(Clone, Debug, PartialEq, Eq)]
pub struct RegisterRepoArgs {
    /// The key from which the repository's address is derived.
    pub repo_key: Pubkey,
    /// Human-readable name; required.
    pub name: String,
    /// Where the repository lives; required.
    pub url: String,
    /// Comma-separated tags; may be empty.
    pub tags: String,
}

/// The records and signers that the instruction works on.
#[derive(Clone, Debug, PartialEq, Eq)]
pub struct RegisterRepo {
    /// Who pays for the new record.
    pub payer: Pubkey,
    /// The signer that becomes the authority of the repository.
    pub authority: Pubkey,
    /// The global configuration.
    pub config: Config,
    /// The global phase gate.
    pub lifecycle: Lifecycle,
    /// The aggregate counters.
    pub metrics: Metrics,
    /// The record to fill.
    pub repo: Repo,
    /// Address under which the record is stored.
    pub repo_address: Pubkey,
    /// Nonce that the address derivation found for the record, if any.
    pub repo_bump: Option<u8>,
    /// The ledger's clock.
    pub clock: Clock,
}

/// The error, if any, with which the instruction is refused.
pub open spec fn rejection(ctx: RegisterRepo, args: RegisterRepoArgs) -> Option<Unit09Error> {
    if !ctx.lifecycle.writes_allowed() {
        Some(Unit09Error::InvalidLifecycleState)
    } else if !ctx.config.is_active {
        Some(Unit09Error::InvalidLifecycleState)
    } else if Repo::text_rejection(args.name@, args.url@, args.tags@) is Some {
        Repo::text_rejection(args.name@, args.url@, args.tags@)
    } else if ctx.repo_bump is None {
        Some(Unit09Error::InternalError)
    } else if ctx.metrics.total_repos == u64::MAX {
        Some(Unit09Error::CounterOverflow)
    } else {
        None
    }
}

/// Whether `after` is what the instruction leaves behind where it is
/// accepted: a fresh repository, one more repository in the aggregate, and
/// nothing else changed.
pub open spec fn registered(ctx: RegisterRepo, args: RegisterRepoArgs, after: RegisterRepo) -> bool {
    &&& after.repo.is_fresh(
        args.repo_key,
        ctx.authority,
        args.name,
        args.url,
        args.tags,
        ctx.repo_bump->0,
        ctx.clock.unix_timestamp,
    )
    &&& after.metrics == (Metrics {
        total_repos: (ctx.metrics.total_repos + 1) as u64,
        updated_at: ctx.clock.unix_timestamp,
        ..ctx.metrics
    })
    &&& after == (RegisterRepo { repo: after.repo, metrics: after.metrics, ..ctx })
}

/// The event that reports the repository record `repo` stored under `address`.
pub open spec fn event_of(address: Pubkey, repo: Repo) -> RepoRegistered {
    RepoRegistered {
        repo: address,
        repo_key: repo.repo_key,
        authority: repo.authority,
        created_at: repo.created_at,
    }
}

/// Registers a repository and counts it in the aggregate.
///
/// A refused instruction leaves every record as it was.
pub fn handle(ctx: &mut RegisterRepo, args: RegisterRepoArgs) -> (r: Result<
    RepoRegistered,
    Unit09Error,
>)
    ensures
        match r {
            Ok(event) => rejection(*old(ctx), args) is None && registered(
                *old(ctx),
                args,
                *final(ctx),
            ) && event == event_of(old(ctx).repo_address, final(ctx).repo),
            Err(e) => rejection(*old(ctx), args) == Some(e) && *final(ctx) == *old(ctx),
        },
        !old(ctx).lifecycle.writes_allowed() ==> r == Err::<RepoRegistered, Unit09Error>(
            Unit09Error::InvalidLifecycleState,
        ) && *final(ctx) == *old(ctx),
{
    ctx.lifecycle.assert_writes_allowed()?;
    ctx.config.assert_active()?;

    Repo::check_texts(args.name.as_str(), args.url.as_str(), args.tags.as_str())?;
    let repo_bump = match ctx.repo_bump {
        Some(bump) => bump,
        None => {
            return Err(Unit09Error::InternalError);
        },
    };
    if ctx.metrics.total_repos == u64::MAX {
        return Err(Unit09Error::CounterOverflow);
    }

    let authority = ctx.authority;
    let clock = ctx.clock;
    ctx.repo.init(args.repo_key, authority, args.name, args.url, args.tags, repo_bump, &clock)?;
    ctx.metrics.count_repo(&clock)?;

    Ok(
        RepoRegistered {
            repo: ctx.repo_address,
            repo_key: ctx.repo.repo_key,
            authority: ctx.repo.authority,
            created_at: ctx.repo.created_at,
        },
    )
}

} // verus!
