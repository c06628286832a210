//! Changing a repository.
//!
//! Only the authority of a repository may change it.
//!
//! Guards, in this order: the lifecycle must allow writes, the configuration
//! must be active, the signer must be the authority of the repository, and
//! every text that is given must be within its bounds. An inactive
//! repository can be changed, so that it can be made active again.

use vstd::prelude::*;
use crate::errors::Unit09Error;
use crate::events::RepoUpdated;
use crate::ledger::{Clock, Pubkey};
use crate::state::{Config, Lifecycle, Repo};

verus! {

/// The fields to change; `None` keeps a field as it is.
#[derive(Clone, Debug, PartialEq, Eq)]
pub struct UpdateRepoArgs {
    /// New name; must not be empty.
    pub name: Option<String>,
    /// New URL; must not be empty.
    pub url: Option<String>,
    /// New tags; may be empty.
    pub tags: Option<String>,
    /// New active flag.
    pub is_active: Option<bool>,
    /// New observation flag.
    pub allow_observation: Option<bool>,
    /// New observation cap.
    pub observation_limit: Option<u64>,
}

/// The records and signers that the instruction works on.
#[derive(Clone, Debug, PartialEq, Eq)]
pub struct UpdateRepo {
    /// The signer, who has to be the authority of the repository.
    pub authority: Pubkey,
    /// The global configuration.
    pub config: Config,
    /// The global phase gate.
    pub lifecycle: Lifecycle,
    /// The repository to change.
    pub repo: Repo,
    /// Address under which the repository's record is stored.
    pub repo_address: Pubkey,
    /// The ledger's clock.
    pub clock: Clock,
}

/// The error, if any, with which the instruction is refused.
pub open spec fn rejection(ctx: UpdateRepo, args: UpdateRepoArgs) -> Option<Unit09Error> {
    if !ctx.lifecycle.writes_allowed() {
        Some(Unit09Error::InvalidLifecycleState)
    } else if !ctx.config.is_active {
        Some(Unit09Error::InvalidLifecycleState)
    } else if ctx.authority != ctx.repo.authority {
        Some(Unit09Error::InvalidAuthority)
    } else {
        Repo::update_rejection(args.name, args.url, args.tags)
    }
}

/// The repository that the instruction leaves behind where it is accepted.
pub open spec fn updated_repo(ctx: UpdateRepo, args: UpdateRepoArgs) -> Repo {
    ctx.repo.updated(
        args.name,
        args.url,
        args.tags,
        args.is_active,
        args.allow_observation,
        args.observation_limit,
        ctx.clock.unix_timestamp,
    )
}

/// The event that reports the repository record `repo` stored under `address`.
pub open spec fn event_of(address: Pubkey, repo: Repo) -> RepoUpdated {
    RepoUpdated {
        repo: address,
        authority: repo.authority,
        is_active: repo.is_active,
        allow_observation: repo.allow_observation,
        updated_at: repo.updated_at,
    }
}

/// Changes texts, flags and observation cap of a repository.
///
/// On success only the repository has changed, and the event mirrors it.
/// A refused instruction leaves every record as it was.
pub fn handle(ctx: &mut UpdateRepo, args: UpdateRepoArgs) -> (r: Result<RepoUpdated, Unit09Error>)
    ensures
        match r {
            Ok(event) => rejection(*old(ctx), args) is None && *final(ctx) == (UpdateRepo {
                repo: updated_repo(*old(ctx), args),
                ..*old(ctx)
            }) && event == event_of(old(ctx).repo_address, final(ctx).repo),
            Err(e) => rejection(*old(ctx), args) == Some(e) && *final(ctx) == *old(ctx),
        },
        !old(ctx).lifecycle.writes_allowed() ==> r == Err::<RepoUpdated, Unit09Error>(
            Unit09Error::InvalidLifecycleState,
        ) && *final(ctx) == *old(ctx),
{
    ctx.lifecycle.assert_writes_allowed()?;
    ctx.config.assert_active()?;
    ctx.repo.assert_authority(&ctx.authority)?;

    let clock = ctx.clock;
    ctx.repo.apply_update(
        args.name,
        args.url,
        args.tags,
        args.is_active,
        args.allow_observation,
        args.observation_limit,
        &clock,
    )?;

    Ok(
        RepoUpdated {
            repo: ctx.repo_address,
            authority: ctx.repo.authority,
            is_active: ctx.repo.is_active,
            allow_observation: ctx.repo.allow_observation,
            updated_at: ctx.repo.updated_at,
        },
    )
}

} // verus!
