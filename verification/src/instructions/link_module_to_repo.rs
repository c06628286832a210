//! Linking a module to a repository.
//!
//! The link names the target repository by key. Linking a module to the
//! repository it is linked to already changes nothing but the time of the
//! module's last update. Linking it to another repository counts it there;
//! the count of the repository it leaves is not part of this instruction.
//!
//! Guards, in this order: the lifecycle must allow writes, the configuration
//! must be active, the signer must be the authority of the module, the
//! module must be active, the key given must be the key of the repository
//! handed in, that repository must be active, and, where the link changes,
//! it must hold fewer modules than the configuration allows.

use vstd::prelude::*;
use crate::errors::Unit09Error;
use crate::events::ModuleLinked;
use crate::ledger::{Clock, Pubkey};
use crate::state::{Config, Lifecycle, Module, Repo};

verus! {

/// What the caller asks for.
#[derive(Clone, Copy, Debug, PartialEq, Eq)]
pub struct LinkModuleToRepoArgs {
    /// Key of the repository to link the module to.
    pub repo_key: Pubkey,
}

/// The records and signers that the instruction works on.
#[derive(Clone, Debug, PartialEq, Eq)]
pub struct LinkModuleToRepo {
    /// The signer, who has to be the authority of the module.
    pub authority: Pubkey,
    /// The global configuration.
    pub config: Config,
    /// The global phase gate.
    pub lifecycle: Lifecycle,
    /// The module to link.
    pub module: Module,
    /// The repository to link it to.
    pub repo: Repo,
    /// Address under which the module's record is stored.
    pub module_address: Pubkey,
    /// The ledger's clock.
    pub clock: Clock,
}

/// Whether the instruction moves the module to another repository.
pub open spec fn changes_link(ctx: LinkModuleToRepo) -> bool {
    ctx.module.repo != ctx.repo.repo_key
}

/// The error, if any, with which the instruction is refused.
pub open spec fn rejection(ctx: LinkModuleToRepo, args: LinkModuleToRepoArgs) -> Option<
    Unit09Error,
> {
    if !ctx.lifecycle.writes_allowed() {
        Some(Unit09Error::InvalidLifecycleState)
    } else if !ctx.config.is_active {
        Some(Unit09Error::InvalidLifecycleState)
    } else if ctx.authority != ctx.module.authority {
        Some(Unit09Error::InvalidAuthority)
    } else if !ctx.module.is_active {
        Some(Unit09Error::ModuleInactive)
    } else if args.repo_key != ctx.repo.repo_key {
        Some(Unit09Error::RepoKeyMismatch)
    } else if !ctx.repo.is_active {
        Some(Unit09Error::RepoInactive)
    } else if changes_link(ctx) && !ctx.repo.has_module_room(ctx.config.max_modules_per_repo) {
        Some(Unit09Error::RepoModuleLimitReached)
    } else {
        None
    }
}

/// The records that the instruction leaves behind where it is accepted.
pub open spec fn linked(ctx: LinkModuleToRepo) -> LinkModuleToRepo {
    LinkModuleToRepo {
        module: Module {
            repo: ctx.repo.repo_key,
            updated_at: ctx.clock.unix_timestamp,
            ..ctx.module
        },
        repo: if changes_link(ctx) {
            Repo {
                module_count: (ctx.repo.module_count + 1) as u32,
                updated_at: ctx.clock.unix_timestamp,
                ..ctx.repo
            }
        } else {
            ctx.repo
        },
        ..ctx
    }
}

/// The event that reports the link of `module`, stored under `address`, to
/// `repo`.
pub open spec fn event_of(address: Pubkey, module: Module, repo: Repo) -> ModuleLinked {
    ModuleLinked {
        module: address,
        repo: module.repo,
        module_count: repo.module_count,
        updated_at: module.updated_at,
    }
}

/// Links a module to a repository.
///
/// A refused instruction leaves every record as it was.
pub fn handle(ctx: &mut LinkModuleToRepo, args: LinkModuleToRepoArgs) -> (r: Result<
    ModuleLinked,
    Unit09Error,
>)
    ensures
        match r {
            Ok(event) => rejection(*old(ctx), args) is None && *final(ctx) == linked(*old(ctx))
                && event == event_of(old(ctx).module_address, final(ctx).module, final(ctx).repo),
            Err(e) => rejection(*old(ctx), args) == Some(e) && *final(ctx) == *old(ctx),
        },
        !old(ctx).lifecycle.writes_allowed() ==> r == Err::<ModuleLinked, Unit09Error>(
            Unit09Error::InvalidLifecycleState,
        ) && *final(ctx) == *old(ctx),
        r is Ok ==> final(ctx).module.repo == args.repo_key,
{
    ctx.lifecycle.assert_writes_allowed()?;
    ctx.config.assert_active()?;
    ctx.module.assert_authority(&ctx.authority)?;
    ctx.module.assert_active()?;
    if !args.repo_key.same_as(&ctx.repo.repo_key) {
        return Err(Unit09Error::RepoKeyMismatch);
    }
    ctx.repo.assert_active()?;

    let clock = ctx.clock;
    let repo_key = ctx.repo.repo_key;
    let cap = ctx.config.max_modules_per_repo;
    if !ctx.module.repo.same_as(&repo_key) {
        ctx.repo.count_module(cap, &clock)?;
    }
    ctx.module.link_to(repo_key, &clock);

    Ok(
        ModuleLinked {
            module: ctx.module_address,
            repo: ctx.module.repo,
            module_count: ctx.repo.module_count,
            updated_at: ctx.module.updated_at,
        },
    )
}

} // verus!
