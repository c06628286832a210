//! What an instruction reports once it has committed.
//!
//! Each event mirrors the part of the resulting state that matters to whoever
//! indexes the registry. The handlers return them; sending them is up to the
//! caller.

use vstd::prelude::*;
use crate::ledger::Pubkey;
use crate::state::Version;

verus! {

/// A fork was created.
#[derive(Clone, Copy, Debug, PartialEq, Eq)]
pub struct ForkCreated {
    /// Address of the fork's record.
    pub fork: Pubkey,
    /// Owner of the fork.
    pub owner: Pubkey,
    /// Parent of the fork; the default key where it has none.
    pub parent: Pubkey,
    /// Whether the fork is a root.
    pub is_root: bool,
    /// Depth the fork was stored with.
    pub depth: u16,
    /// When the fork was created, in Unix seconds.
    pub created_at: i64,
}

/// An observation of a repository was recorded.
#[derive(Clone, Debug, PartialEq, Eq)]
pub struct ObservationRecorded {
    /// Address of the repository's record.
    pub repo: Pubkey,
    /// Who recorded the observation.
    pub observer: Pubkey,
    /// Lines of code reported.
    pub lines_of_code: u64,
    /// Files reported.
    pub files_processed: u32,
    /// Modules reported as touched.
    pub modules_touched: u32,
    /// Revision that was observed.
    pub revision: String,
    /// Note on the observation.
    pub note: String,
    /// When the observation was recorded, in Unix seconds.
    pub observed_at: i64,
}

/// The admin reconciled the aggregate counters.
#[derive(Clone, Copy, Debug, PartialEq, Eq)]
pub struct MetricsReconciled {
    /// The admin who reconciled.
    pub admin: Pubkey,
    /// Repositories after reconciliation.
    pub total_repos: u64,
    /// Modules after reconciliation.
    pub total_modules: u64,
    /// Forks after reconciliation.
    pub total_forks: u64,
    /// Observations after reconciliation.
    pub total_observations: u64,
    /// Lines of code after reconciliation.
    pub total_lines_of_code: u64,
    /// Files after reconciliation.
    pub total_files_processed: u64,
    /// When the counters were reconciled, in Unix seconds.
    pub updated_at: i64,
}

/// The owner changed a fork.
#[derive(Clone, Copy, Debug, PartialEq, Eq)]
pub struct ForkStateUpdated {
    /// Address of the fork's record.
    pub fork: Pubkey,
    /// Owner of the fork.
    pub owner: Pubkey,
    /// Whether the fork is active after the change.
    pub is_active: bool,
    /// When the fork was changed, in Unix seconds.
    pub updated_at: i64,
}

/// The admin changed the configuration.
#[derive(Clone, Copy, Debug, PartialEq, Eq)]
pub struct ConfigUpdated {
    /// The admin who changed it.
    pub admin: Pubkey,
    /// Fee in basis points after the change.
    pub fee_bps: u16,
    /// Module cap after the change.
    pub max_modules_per_repo: u32,
    /// Whether the deployment is active after the change.
    pub is_active: bool,
    /// When the configuration was changed, in Unix seconds.
    pub updated_at: i64,
}

/// The deployment was initialised.
#[derive(Clone, Copy, Debug, PartialEq, Eq)]
pub struct Initialized {
    /// The admin of the deployment.
    pub admin: Pubkey,
    /// Fee in basis points.
    pub fee_bps: u16,
    /// Module cap of a repository.
    pub max_modules_per_repo: u32,
    /// Version of the record layout.
    pub schema_version: u8,
    /// When the deployment was initialised, in Unix seconds.
    pub created_at: i64,
}

/// A repository was registered.
#[derive(Clone, Copy, Debug, PartialEq, Eq)]
pub struct RepoRegistered {
    /// Address of the repository's record.
    pub repo: Pubkey,
    /// Key of the repository.
    pub repo_key: Pubkey,
    /// Authority of the repository.
    pub authority: Pubkey,
    /// When the repository was registered, in Unix seconds.
    pub created_at: i64,
}

/// The authority changed a repository.
#[derive(Clone, Copy, Debug, PartialEq, Eq)]
pub struct RepoUpdated {
    /// Address of the repository's record.
    pub repo: Pubkey,
    /// Authority of the repository.
    pub authority: Pubkey,
    /// Whether the repository is active after the change.
    pub is_active: bool,
    /// Whether the repository takes observations after the change.
    pub allow_observation: bool,
    /// When the repository was changed, in Unix seconds.
    pub updated_at: i64,
}

/// A module was registered.
#[derive(Clone, Copy, Debug, PartialEq, Eq)]
pub struct ModuleRegistered {
    /// Address of the module's record.
    pub module: Pubkey,
    /// Key of the repository that the module is linked to.
    pub repo: Pubkey,
    /// Authority of the module.
    pub authority: Pubkey,
    /// Version the module starts with.
    pub version: Version,
    /// When the module was registered, in Unix seconds.
    pub created_at: i64,
}

/// The authority changed a module.
#[derive(Clone, Copy, Debug, PartialEq, Eq)]
pub struct ModuleUpdated {
    /// Address of the module's record.
    pub module: Pubkey,
    /// Authority of the module.
    pub authority: Pubkey,
    /// Version of the module after the change.
    pub version: Version,
    /// Whether the module is active after the change.
    pub is_active: bool,
    /// Whether the module is deprecated after the change.
    pub is_deprecated: bool,
    /// When the module was changed, in Unix seconds.
    pub updated_at: i64,
}

/// A module was linked to a repository.
#[derive(Clone, Copy, Debug, PartialEq, Eq)]
pub struct ModuleLinked {
    /// Address of the module's record.
    pub module: Pubkey,
    /// Key of the repository that the module is linked to now.
    pub repo: Pubkey,
    /// Number of modules of that repository after the link.
    pub module_count: u32,
    /// When the module was linked, in Unix seconds.
    pub updated_at: i64,
}

/// The admin changed the global metadata.
#[derive(Clone, Copy, Debug, PartialEq, Eq)]
pub struct MetadataUpdated {
    /// The admin who changed it.
    pub admin: Pubkey,
    /// When the metadata was changed, in Unix seconds.
    pub updated_at: i64,
}

} // verus!
