//! The records of the registry and their validated mutations.

pub mod config;
pub mod fork;
pub mod lifecycle;
pub mod metadata;
pub mod metrics;
pub mod module;
pub mod repo;

pub use config::Config;
pub use fork::Fork;
pub use lifecycle::Lifecycle;
pub use metadata::GlobalMetadata;
pub use metrics::Metrics;
pub use module::{Module, Version};
pub use repo::Repo;
