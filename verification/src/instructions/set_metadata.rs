//! Changing the global metadata.
//!
//! Guards, in this order: the lifecycle must allow writes, the signer must be
//! the admin, the configuration must be active, and every text that is given
//! must be within its bounds.

use vstd::prelude::*;
use crate::errors::Unit09Error;
use crate::events::MetadataUpdated;
use crate::ledger::{Clock, Pubkey};
use crate::state::{Config, GlobalMetadata, Lifecycle};

verus! {

/// The texts to change; `None` keeps a text as it is.
#[derive(Clone, Debug, PartialEq, Eq)]
pub struct SetMetadataArgs {
    /// New description.
    pub description: Option<String>,
    /// New tags.
    pub tags: Option<String>,
    /// New location of the documentation.
    pub docs_uri: Option<String>,
    /// New location of a dashboard.
    pub dashboard_uri: Option<String>,
}

/// The records and signers that the instruction works on.
#[derive(Clone, Debug, PartialEq, Eq)]
pub struct SetMetadata {
    /// The signer, who has to be the admin.
    pub admin: Pubkey,
    /// The global configuration.
    pub config: Config,
    /// The global phase gate.
    pub lifecycle: Lifecycle,
    /// The metadata to change.
    pub metadata: GlobalMetadata,
    /// The ledger's clock.
    pub clock: Clock,
}

/// The error, if any, with which the instruction is refused.
pub open spec fn rejection(ctx: SetMetadata, args: SetMetadataArgs) -> Option<Unit09Error> {
    if !ctx.lifecycle.writes_allowed() {
        Some(Unit09Error::InvalidLifecycleState)
    } else if ctx.admin != ctx.config.admin {
        Some(Unit09Error::InvalidAdmin)
    } else if !ctx.config.is_active {
        Some(Unit09Error::InvalidLifecycleState)
    } else {
        GlobalMetadata::update_rejection(
            args.description,
            args.tags,
            args.docs_uri,
            args.dashboard_uri,
        )
    }
}

/// The metadata that the instruction leaves behind where it is accepted.
pub open spec fn updated_metadata(ctx: SetMetadata, args: SetMetadataArgs) -> GlobalMetadata {
    ctx.metadata.updated(
        args.description,
        args.tags,
        args.docs_uri,
        args.dashboard_uri,
        ctx.clock.unix_timestamp,
    )
}

/// Changes the texts of the global metadata.
///
/// On success only the metadata has changed. A refused instruction leaves
/// every record as it was.
pub fn handle(ctx: &mut SetMetadata, args: SetMetadataArgs) -> (r: Result<
    MetadataUpdated,
    Unit09Error,
>)
    ensures
        match r {
            Ok(event) => rejection(*old(ctx), args) is None && *final(ctx) == (SetMetadata {
                metadata: updated_metadata(*old(ctx), args),
                ..*old(ctx)
            }) && event == (MetadataUpdated {
                admin: old(ctx).config.admin,
                updated_at: old(ctx).clock.unix_timestamp,
            }),
            Err(e) => rejection(*old(ctx), args) == Some(e) && *final(ctx) == *old(ctx),
        },
        !old(ctx).lifecycle.writes_allowed() ==> r == Err::<MetadataUpdated, Unit09Error>(
            Unit09Error::InvalidLifecycleState,
        ) && *final(ctx) == *old(ctx),
{
    ctx.lifecycle.assert_writes_allowed()?;
    ctx.config.assert_admin(&ctx.admin)?;
    ctx.config.assert_active()?;

    let clock = ctx.clock;
    ctx.metadata.apply_update(
        args.description,
        args.tags,
        args.docs_uri,
        args.dashboard_uri,
        &clock,
    )?;

    Ok(MetadataUpdated { admin: ctx.config.admin, updated_at: ctx.metadata.updated_at })
}

} // verus!
