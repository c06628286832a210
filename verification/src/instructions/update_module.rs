//! Changing a module.
//!
//! Only the authority of a module may change it.
//!
//! Guards, in this order: the lifecycle must allow writes, the configuration
//! must be active, the signer must be the authority of the module, and every
//! text that is given must be within its bounds. An inactive module can be
//! changed, so that it can be made active again.

use vstd::prelude::*;
use crate::errors::Unit09Error;
use crate::events::ModuleUpdated;
use crate::ledger::{Clock, Pubkey};
use crate::state::{Config, Lifecycle, Module, Version};

verus! {

/// The fields to change; `None` keeps a field as it is.
#[derive(Clone, Debug, PartialEq, Eq)]
pub struct UpdateModuleArgs {
    /// New name; must not be empty.
    pub name: Option<String>,
    /// New metadata URI; must not be empty.
    pub metadata_uri: Option<String>,
    /// New category; may be empty.
    pub category: Option<String>,
    /// New tags; may be empty.
    pub tags: Option<String>,
    /// New version.
    pub version: Option<Version>,
    /// New active flag.
    pub is_active: Option<bool>,
    /// New deprecation flag.
    pub is_deprecated: Option<bool>,
}

/// The records and signers that the instruction works on.
#[derive(Clone, Debug, PartialEq, Eq)]
pub struct UpdateModule {
    /// The signer, who has to be the authority of the module.
    pub authority: Pubkey,
    /// The global configuration.
    pub config: Config,
    /// The global phase gate.
    pub lifecycle: Lifecycle,
    /// The module to change.
    pub module: Module,
    /// Address under which the module's record is stored.
    pub module_address: Pubkey,
    /// The ledger's clock.
    pub clock: Clock,
}

/// The error, if any, with which the instruction is refused.
pub open spec fn rejection(ctx: UpdateModule, args: UpdateModuleArgs) -> Option<Unit09Error> {
    if !ctx.lifecycle.writes_allowed() {
        Some(Unit09Error::InvalidLifecycleState)
    } else if !ctx.config.is_active {
        Some(Unit09Error::InvalidLifecycleState)
    } else if ctx.authority != ctx.module.authority {
        Some(Unit09Error::InvalidAuthority)
    } else {
        Module::update_rejection(args.name, args.metadata_uri, args.category, args.tags)
    }
}

/// The module that the instruction leaves behind where it is accepted.
pub open spec fn updated_module(ctx: UpdateModule, args: UpdateModuleArgs) -> Module {
    ctx.module.updated(
        args.name,
        args.metadata_uri,
        args.category,
        args.tags,
        args.version,
        args.is_active,
        args.is_deprecated,
        ctx.clock.unix_timestamp,
    )
}

/// The event that reports the module record `module` stored under `address`.
pub open spec fn event_of(address: Pubkey, module: Module) -> ModuleUpdated {
    ModuleUpdated {
        module: address,
        authority: module.authority,
        version: module.version,
        is_active: module.is_active,
        is_deprecated: module.is_deprecated,
        updated_at: module.updated_at,
    }
}

/// Changes texts, version and flags of a module.
///
/// On success only the module has changed, and the event mirrors it.
/// A refused instruction leaves every record as it was.
pub fn handle(ctx: &mut UpdateModule, args: UpdateModuleArgs) -> (r: Result<
    ModuleUpdated,
    Unit09Error,
>)
    ensures
        match r {
            Ok(event) => rejection(*old(ctx), args) is None && *final(ctx) == (UpdateModule {
                module: updated_module(*old(ctx), args),
                ..*old(ctx)
            }) && event == event_of(old(ctx).module_address, final(ctx).module),
            Err(e) => rejection(*old(ctx), args) == Some(e) && *final(ctx) == *old(ctx),
        },
        !old(ctx).lifecycle.writes_allowed() ==> r == Err::<ModuleUpdated, Unit09Error>(
            Unit09Error::InvalidLifecycleState,
        ) && *final(ctx) == *old(ctx),
{
    ctx.lifecycle.assert_writes_allowed()?;
    ctx.config.assert_active()?;
    ctx.module.assert_authority(&ctx.authority)?;

    let clock = ctx.clock;
    ctx.module.apply_update(
        args.name,
        args.metadata_uri,
        args.category,
        args.tags,
        args.version,
        args.is_active,
        args.is_deprecated,
        &clock,
    )?;

    Ok(
        ModuleUpdated {
            module: ctx.module_address,
            authority: ctx.module.authority,
            version: ctx.module.version,
            is_active: ctx.module.is_active,
            is_deprecated: ctx.module.is_deprecated,
            updated_at: ctx.module.updated_at,
        },
    )
}

} // verus!
