//! The instructions of the registry.
//!
//! Every instruction that writes follows one sequence: the lifecycle gate,
//! the configuration guards, the guards of the record concerned, validation
//! of every field, then the mutation through the record's own method, and at
//! last the event. Nothing is written before all checks have passed, so an
//! instruction that is refused leaves every record as it was. In particular
//! a frozen lifecycle refuses every instruction before any record changes.

pub mod create_fork;
pub mod initialize;
pub mod link_module_to_repo;
pub mod record_metrics;
pub mod record_observation;
pub mod register_module;
pub mod register_repo;
pub mod set_config;
pub mod set_metadata;
pub mod update_fork_state;
pub mod update_module;
pub mod update_repo;

pub use create_fork::{CreateFork, CreateForkArgs};
pub use initialize::{Initialize, InitializeArgs};
pub use link_module_to_repo::{LinkModuleToRepo, LinkModuleToRepoArgs};
pub use record_metrics::{RecordMetrics, RecordMetricsArgs};
pub use record_observation::{RecordObservation, RecordObservationArgs};
pub use register_module::{RegisterModule, RegisterModuleArgs};
pub use register_repo::{RegisterRepo, RegisterRepoArgs};
pub use set_config::{SetConfig, SetConfigArgs};
pub use set_metadata::{SetMetadata, SetMetadataArgs};
pub use update_fork_state::{UpdateForkState, UpdateForkStateArgs};
pub use update_module::{UpdateModule, UpdateModuleArgs};
pub use update_repo::{UpdateRepo, UpdateRepoArgs};

use vstd::prelude::*;
use crate::errors::Unit09Error;
use crate::events::{
    ConfigUpdated, ForkCreated, ForkStateUpdated, Initialized, MetadataUpdated, MetricsReconciled,
    ModuleLinked, ModuleRegistered, ModuleUpdated, ObservationRecorded, RepoRegistered,
    RepoUpdated,
};

verus! {

/// Initialises a deployment: configuration, counters, lifecycle and metadata.
pub fn initialize(ctx: &mut Initialize, args: InitializeArgs) -> (r: Result<
    Initialized,
    Unit09Error,
>)
    ensures
        match r {
            Ok(event) => initialize::rejection(*old(ctx), args) is None
                && initialize::initialized(*old(ctx), args, *final(ctx)) && event
                == initialize::event_of(final(ctx).config),
            Err(e) => initialize::rejection(*old(ctx), args) == Some(e) && *final(ctx) == *old(ctx),
        },
        !old(ctx).lifecycle.writes_allowed() ==> r == Err::<Initialized, Unit09Error>(
            Unit09Error::InvalidLifecycleState,
        ) && *final(ctx) == *old(ctx),
{
    initialize::handle(ctx, args)
}

/// Changes the global configuration; admin only.
pub fn set_config(ctx: &mut SetConfig, args: SetConfigArgs) -> (r: Result<
    ConfigUpdated,
    Unit09Error,
>)
    ensures
        match r {
            Ok(event) => set_config::rejection(*old(ctx), args) is None && *final(ctx)
                == (SetConfig {
                config: old(ctx).config.updated(
                    args.fee_bps,
                    args.max_modules_per_repo,
                    args.is_active,
                    args.policy_ref,
                    old(ctx).clock.unix_timestamp,
                ),
                ..*old(ctx)
            }) && event == set_config::event_of(final(ctx).config),
            Err(e) => set_config::rejection(*old(ctx), args) == Some(e) && *final(ctx) == *old(ctx),
        },
        !old(ctx).lifecycle.writes_allowed() ==> r == Err::<ConfigUpdated, Unit09Error>(
            Unit09Error::InvalidLifecycleState,
        ) && *final(ctx) == *old(ctx),
{
    set_config::handle(ctx, args)
}

/// Registers a repository; the signer becomes its authority.
pub fn register_repo(ctx: &mut RegisterRepo, args: RegisterRepoArgs) -> (r: Result<
    RepoRegistered,
    Unit09Error,
>)
    ensures
        match r {
            Ok(event) => register_repo::rejection(*old(ctx), args) is None
                && register_repo::registered(*old(ctx), args, *final(ctx)) && event
                == register_repo::event_of(old(ctx).repo_address, final(ctx).repo),
            Err(e) => register_repo::rejection(*old(ctx), args) == Some(e) && *final(ctx) == *old(ctx),
        },
        !old(ctx).lifecycle.writes_allowed() ==> r == Err::<RepoRegistered, Unit09Error>(
            Unit09Error::InvalidLifecycleState,
        ) && *final(ctx) == *old(ctx),
{
    register_repo::handle(ctx, args)
}

/// Changes a repository; its authority only.
pub fn update_repo(ctx: &mut UpdateRepo, args: UpdateRepoArgs) -> (r: Result<
    RepoUpdated,
    Unit09Error,
>)
    ensures
        match r {
            Ok(event) => update_repo::rejection(*old(ctx), args) is None && *final(ctx)
                == (UpdateRepo { repo: update_repo::updated_repo(*old(ctx), args), ..*old(ctx) })
                && event == update_repo::event_of(old(ctx).repo_address, final(ctx).repo),
            Err(e) => update_repo::rejection(*old(ctx), args) == Some(e) && *final(ctx) == *old(ctx),
        },
        !old(ctx).lifecycle.writes_allowed() ==> r == Err::<RepoUpdated, Unit09Error>(
            Unit09Error::InvalidLifecycleState,
        ) && *final(ctx) == *old(ctx),
{
    update_repo::handle(ctx, args)
}

/// Registers a module for a repository; the repository's authority only.
pub fn register_module(ctx: &mut RegisterModule, args: RegisterModuleArgs) -> (r: Result<
    ModuleRegistered,
    Unit09Error,
>)
    ensures
        match r {
            Ok(event) => register_module::rejection(*old(ctx), args) is None && *final(ctx)
                == register_module::registered(*old(ctx), args) && event
                == register_module::event_of(old(ctx).module_address, final(ctx).module),
            Err(e) => register_module::rejection(*old(ctx), args) == Some(e) && *final(ctx)
                == *old(ctx),
        },
        !old(ctx).lifecycle.writes_allowed() ==> r == Err::<ModuleRegistered, Unit09Error>(
            Unit09Error::InvalidLifecycleState,
        ) && *final(ctx) == *old(ctx),
{
    register_module::handle(ctx, args)
}

/// Changes a module; its authority only.
pub fn update_module(ctx: &mut UpdateModule, args: UpdateModuleArgs) -> (r: Result<
    ModuleUpdated,
    Unit09Error,
>)
    ensures
        match r {
            Ok(event) => update_module::rejection(*old(ctx), args) is None && *final(ctx)
                == (UpdateModule {
                module: update_module::updated_module(*old(ctx), args),
                ..*old(ctx)
            }) && event == update_module::event_of(old(ctx).module_address, final(ctx).module),
            Err(e) => update_module::rejection(*old(ctx), args) == Some(e) && *final(ctx) == *old(ctx),
        },
        !old(ctx).lifecycle.writes_allowed() ==> r == Err::<ModuleUpdated, Unit09Error>(
            Unit09Error::InvalidLifecycleState,
        ) && *final(ctx) == *old(ctx),
{
    update_module::handle(ctx, args)
}

/// Links a module to a repository; the module's authority only.
pub fn link_module_to_repo(ctx: &mut LinkModuleToRepo, args: LinkModuleToRepoArgs) -> (r: Result<
    ModuleLinked,
    Unit09Error,
>)
    ensures
        match r {
            Ok(event) => link_module_to_repo::rejection(*old(ctx), args) is None && *final(ctx)
                == link_module_to_repo::linked(*old(ctx)) && event
                == link_module_to_repo::event_of(
                old(ctx).module_address,
                final(ctx).module,
                final(ctx).repo,
            ),
            Err(e) => link_module_to_repo::rejection(*old(ctx), args) == Some(e) && *final(ctx)
                == *old(ctx),
        },
        !old(ctx).lifecycle.writes_allowed() ==> r == Err::<ModuleLinked, Unit09Error>(
            Unit09Error::InvalidLifecycleState,
        ) && *final(ctx) == *old(ctx),
{
    link_module_to_repo::handle(ctx, args)
}

/// Creates a fork owned by the signer.
pub fn create_fork(ctx: &mut CreateFork, args: CreateForkArgs) -> (r: Result<
    ForkCreated,
    Unit09Error,
>)
    ensures
        match r {
            Ok(event) => create_fork::rejection(*old(ctx), args) is None && *final(ctx)
                == (CreateFork {
                fork: create_fork::created_fork(*old(ctx), args),
                ..*old(ctx)
            }) && event == create_fork::event_of(old(ctx).fork_address, final(ctx).fork),
            Err(e) => create_fork::rejection(*old(ctx), args) == Some(e) && *final(ctx) == *old(ctx),
        },
        !old(ctx).lifecycle.writes_allowed() ==> r == Err::<ForkCreated, Unit09Error>(
            Unit09Error::InvalidLifecycleState,
        ) && *final(ctx) == *old(ctx),
{
    create_fork::handle(ctx, args)
}

/// Changes a fork; owner only.
pub fn update_fork_state(ctx: &mut UpdateForkState, args: UpdateForkStateArgs) -> (r: Result<
    ForkStateUpdated,
    Unit09Error,
>)
    ensures
        match r {
            Ok(event) => update_fork_state::rejection(*old(ctx), args) is None && *final(ctx)
                == (UpdateForkState {
                fork: old(ctx).fork.updated(
                    args.label,
                    args.metadata_uri,
                    args.tags,
                    args.is_active,
                    old(ctx).clock.unix_timestamp,
                ),
                ..*old(ctx)
            }) && event == update_fork_state::event_of(old(ctx).fork_address, final(ctx).fork),
            Err(e) => update_fork_state::rejection(*old(ctx), args) == Some(e) && *final(ctx)
                == *old(ctx),
        },
        !old(ctx).lifecycle.writes_allowed() ==> r == Err::<ForkStateUpdated, Unit09Error>(
            Unit09Error::InvalidLifecycleState,
        ) && *final(ctx) == *old(ctx),
{
    update_fork_state::handle(ctx, args)
}

/// Records one observation run on a repository and on the aggregate.
pub fn record_observation(ctx: &mut RecordObservation, args: RecordObservationArgs) -> (r: Result<
    ObservationRecorded,
    Unit09Error,
>)
    ensures
        match r {
            Ok(event) => record_observation::rejection(*old(ctx), args) is None && *final(ctx)
                == record_observation::recorded(*old(ctx), args) && event
                == record_observation::event_of(*old(ctx), args),
            Err(e) => record_observation::rejection(*old(ctx), args) == Some(e) && *final(ctx)
                == *old(ctx),
        },
        !old(ctx).lifecycle.writes_allowed() ==> r == Err::<ObservationRecorded, Unit09Error>(
            Unit09Error::InvalidLifecycleState,
        ) && *final(ctx) == *old(ctx),
{
    record_observation::handle(ctx, args)
}

/// Overwrites aggregate counters; admin only.
pub fn record_metrics(ctx: &mut RecordMetrics, args: RecordMetricsArgs) -> (r: Result<
    MetricsReconciled,
    Unit09Error,
>)
    ensures
        match r {
            Ok(event) => record_metrics::rejection(*old(ctx), args) is None && event
                == record_metrics::event_of(old(ctx).config.admin, final(ctx).metrics),
            Err(e) => record_metrics::rejection(*old(ctx), args) == Some(e),
        },
        *final(ctx) == record_metrics::state_after(*old(ctx), args),
        !old(ctx).lifecycle.writes_allowed() ==> r == Err::<MetricsReconciled, Unit09Error>(
            Unit09Error::InvalidLifecycleState,
        ) && *final(ctx) == *old(ctx),
{
    record_metrics::handle(ctx, args)
}

/// Changes the global metadata; admin only.
pub fn set_metadata(ctx: &mut SetMetadata, args: SetMetadataArgs) -> (r: Result<
    MetadataUpdated,
    Unit09Error,
>)
    ensures
        match r {
            Ok(event) => set_metadata::rejection(*old(ctx), args) is None && *final(ctx)
                == (SetMetadata {
                metadata: set_metadata::updated_metadata(*old(ctx), args),
                ..*old(ctx)
            }) && event == (MetadataUpdated {
                admin: old(ctx).config.admin,
                updated_at: old(ctx).clock.unix_timestamp,
            }),
            Err(e) => set_metadata::rejection(*old(ctx), args) == Some(e) && *final(ctx) == *old(ctx),
        },
        !old(ctx).lifecycle.writes_allowed() ==> r == Err::<MetadataUpdated, Unit09Error>(
            Unit09Error::InvalidLifecycleState,
        ) && *final(ctx) == *old(ctx),
{
    set_metadata::handle(ctx, args)
}

} // verus!
