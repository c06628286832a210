//! Registering a module for a repository.
//!
//! Only the authority of a repository may add modules to it, and becomes the
//! authority of the module.
//!
//! Guards, in this order: the lifecycle must allow writes, the configuration
//! must be active, the repository must be active, the signer must be its
//! authority, the texts must be within bounds, the repository must hold
//! fewer modules than the configuration allows, the address derivation must
//! have supplied the nonce of the new record, and the aggregate must have
//! room for one more module.

use vstd::prelude::*;
use crate::errors::Unit09Error;
use crate::events::ModuleRegistered;
use crate::ledger::{Clock, Pubkey};
use crate::state::{Config, Lifecycle, Metrics, Module, Repo, Version};

verus! {

/// What the caller asks for.
#[derive(Clone, Debug, PartialEq, Eq)]
pub struct RegisterModuleArgs {
    /// The key from which the module's address is derived.
    pub module_key: Pubkey,
    /// Human-readable name; required.
    pub name: String,
    /// Where the module's metadata lives; required.
    pub metadata_uri: String,
    /// Category of the module; may be empty.
    pub category: String,
    /// Comma-separated tags; may be empty.
    pub tags: String,
    /// Version the module starts with.
    pub version: Version,
}

/// The records and signers that the instruction works on.
#[derive(Clone, Debug, PartialEq, Eq)]
pub struct RegisterModule {
    /// Who pays for the new record.
    pub payer: Pubkey,
    /// The signer, who has to be the authority of the repository.
    pub authority: Pubkey,
    /// The global configuration.
    pub config: Config,
    /// The global phase gate.
    pub lifecycle: Lifecycle,
    /// The aggregate counters.
    pub metrics: Metrics,
    /// The repository that the module belongs to.
    pub repo: Repo,
    /// The record to fill.
    pub module: Module,
    /// Address under which the module's record is stored.
    pub module_address: Pubkey,
    /// Nonce that the address derivation found for the record, if any.
    pub module_bump: Option<u8>,
    /// The ledger's clock.
    pub clock: Clock,
}

/// The error, if any, with which the instruction is refused.
pub open spec fn rejection(ctx: RegisterModule, args: RegisterModuleArgs) -> Option<Unit09Error> {
    if !ctx.lifecycle.writes_allowed() {
        Some(Unit09Error::InvalidLifecycleState)
    } else if !ctx.config.is_active {
        Some(Unit09Error::InvalidLifecycleState)
    } else if !ctx.repo.is_active {
        Some(Unit09Error::RepoInactive)
    } else if ctx.authority != ctx.repo.authority {
        Some(Unit09Error::InvalidAuthority)
    } else if Module::text_rejection(args.name@, args.metadata_uri@, args.category@, args.tags@)
        is Some {
        Module::text_rejection(args.name@, args.metadata_uri@, args.category@, args.tags@)
    } else if !ctx.repo.has_module_room(ctx.config.max_modules_per_repo) {
        Some(Unit09Error::RepoModuleLimitReached)
    } else if ctx.module_bump is None {
        Some(Unit09Error::InternalError)
    } else if ctx.metrics.total_modules == u64::MAX {
        Some(Unit09Error::CounterOverflow)
    } else {
        None
    }
}

/// The records that the instruction leaves behind where it is accepted: the
/// new module, and one more module in the repository and in the aggregate.
pub open spec fn registered(ctx: RegisterModule, args: RegisterModuleArgs) -> RegisterModule {
    RegisterModule {
        module: Module::initialized(
            args.module_key,
            ctx.repo.repo_key,
            ctx.authority,
            args.name,
            args.metadata_uri,
            args.category,
            args.tags,
            args.version,
            ctx.module_bump->0,
            ctx.clock.unix_timestamp,
        ),
        repo: Repo {
            module_count: (ctx.repo.module_count + 1) as u32,
            updated_at: ctx.clock.unix_timestamp,
            ..ctx.repo
        },
        metrics: Metrics {
            total_modules: (ctx.metrics.total_modules + 1) as u64,
            updated_at: ctx.clock.unix_timestamp,
            ..ctx.metrics
        },
        ..ctx
    }
}

/// The event that reports the module record `module` stored under `address`.
pub open spec fn event_of(address: Pubkey, module: Module) -> ModuleRegistered {
    ModuleRegistered {
        module: address,
        repo: module.repo,
        authority: module.authority,
        version: module.version,
        created_at: module.created_at,
    }
}

/// Registers a module and counts it in its repository and in the aggregate.
///
/// A refused instruction leaves every record as it was.
pub fn handle(ctx: &mut RegisterModule, args: RegisterModuleArgs) -> (r: Result<
    ModuleRegistered,
    Unit09Error,
>)
    ensures
        match r {
            Ok(event) => rejection(*old(ctx), args) is None && *final(ctx) == registered(
                *old(ctx),
                args,
            ) && event == event_of(old(ctx).module_address, final(ctx).module),
            Err(e) => rejection(*old(ctx), args) == Some(e) && *final(ctx) == *old(ctx),
        },
        !old(ctx).lifecycle.writes_allowed() ==> r == Err::<ModuleRegistered, Unit09Error>(
            Unit09Error::InvalidLifecycleState,
        ) && *final(ctx) == *old(ctx),
        r is Ok ==> final(ctx).repo.module_count <= old(ctx).config.max_modules_per_repo,
{
    ctx.lifecycle.assert_writes_allowed()?;
    ctx.config.assert_active()?;
    ctx.repo.assert_active()?;
    ctx.repo.assert_authority(&ctx.authority)?;

    Module::check_texts(
        args.name.as_str(),
        args.metadata_uri.as_str(),
        args.category.as_str(),
        args.tags.as_str(),
    )?;
    ctx.repo.assert_module_room(ctx.config.max_modules_per_repo)?;
    let module_bump = match ctx.module_bump {
        Some(bump) => bump,
        None => {
            return Err(Unit09Error::InternalError);
        },
    };
    if ctx.metrics.total_modules == u64::MAX {
        return Err(Unit09Error::CounterOverflow);
    }

    let authority = ctx.authority;
    let clock = ctx.clock;
    let repo_key = ctx.repo.repo_key;
    let cap = ctx.config.max_modules_per_repo;
    ctx.module.init(
        args.module_key,
        repo_key,
        authority,
        args.name,
        args.metadata_uri,
        args.category,
        args.tags,
        args.version,
        module_bump,
        &clock,
    )?;
    ctx.repo.count_module(cap, &clock)?;
    ctx.metrics.count_module(&clock)?;

    Ok(
        ModuleRegistered {
            module: ctx.module_address,
            repo: ctx.module.repo,
            authority: ctx.module.authority,
            version: ctx.module.version,
            created_at: ctx.module.created_at,
        },
    )
}

} // verus!
