//! Limits, seeds and labels used across the registry.

use vstd::prelude::*;
use crate::errors::Unit09Error;

verus! {

/// Schema version stamped on every freshly initialised configuration.
pub const CURRENT_SCHEMA_VERSION: u8 = 1;

/// Largest fee, in basis points, that a configuration may hold (50%).
pub const MAX_FEE_BPS: u16 = 5_000;

/// One hundred percent, in basis points.
pub const BPS_DENOMINATOR: u16 = 10_000;

/// Seed of the global configuration record.
pub const CONFIG_SEED: &'static str = "config";

/// Seed of the global metrics record.
pub const METRICS_SEED: &'static str = "metrics";

/// Seed of the global metadata record.
pub const GLOBAL_METADATA_SEED: &'static str = "global_metadata";

/// Seed of repository records.
pub const REPO_SEED: &'static str = "repo";

/// Seed of module records.
pub const MODULE_SEED: &'static str = "module";

/// Seed of module version records.
pub const MODULE_VERSION_SEED: &'static str = "module_version";

/// Seed of fork records.
pub const FORK_SEED: &'static str = "fork";

/// Seed of authority records.
pub const AUTHORITY_SEED: &'static str = "authority";

/// Seed of the lifecycle record.
pub const LIFECYCLE_SEED: &'static str = "lifecycle";

/// Longest name, in bytes: repository names, module names, fork labels.
pub const MAX_NAME_LEN: usize = 64;

/// Longest repository URL, in bytes.
pub const MAX_URL_LEN: usize = 256;

/// Longest metadata URI, in bytes.
pub const MAX_METADATA_URI_LEN: usize = 256;

/// Longest free-text description, in bytes.
pub const MAX_DESCRIPTION_LEN: usize = 512;

/// Longest comma-separated tag list, in bytes.
pub const MAX_TAGS_LEN: usize = 128;

/// Longest tag list of a repository, in bytes.
pub const MAX_REPO_TAGS_LEN: usize = 128;

/// Longest module category, in bytes.
pub const MAX_MODULE_CATEGORY_LEN: usize = 64;

/// Longest revision identifier of an observation, in bytes.
pub const MAX_REVISION_LEN: usize = 64;

/// Longest note attached to an observation, in bytes.
pub const MAX_OBSERVATION_NOTE_LEN: usize = 256;

/// Module cap of a repository when the deployment names none.
pub const DEFAULT_MAX_MODULES_PER_REPO: u32 = 1_000;

/// Number of forks after which tooling is expected to archive old ones.
pub const SOFT_MAX_FORKS: u32 = 10_000;

/// Observation cap that a repository starts with.
pub const SOFT_MAX_OBSERVATIONS_PER_REPO: u64 = 1_000_000;

/// Most lines of code that one observation may report.
pub const MAX_LOC_PER_OBSERVATION: u64 = 10_000_000;

/// Most files that one observation may report.
pub const MAX_FILES_PER_OBSERVATION: u32 = 100_000;

/// Most modules that one observation may report as touched.
pub const MAX_MODULES_PER_OBSERVATION: u32 = 10_000;

/// Approximate duration of a slot, in milliseconds.
pub const APPROX_SLOT_DURATION_MS: u64 = 400;

/// Seconds in a day.
pub const SECONDS_PER_DAY: i64 = 86_400;

/// Approximate number of slots in a day.
pub const SLOTS_PER_DAY_APPROX: u64 = 216_000;

/// Name of the protocol, for indexers and dashboards.
pub const PROTOCOL_NAME: &'static str = "Unit09";

/// One-line description of the protocol.
pub const PROTOCOL_TAGLINE: &'static str =
    "A story-driven on-chain AI raccoon that consumes code and produces modules.";

/// Role label of the primary admin.
pub const ROLE_LABEL_ADMIN: &'static str = "admin";

/// Role label of maintainers.
pub const ROLE_LABEL_MAINTAINER: &'static str = "maintainer";

/// Role label of observers.
pub const ROLE_LABEL_OBSERVER: &'static str = "observer";

/// Length of a text in bytes, as it is stored: the length of its UTF-8
/// encoding.
pub open spec fn byte_len(text: Seq<char>) -> nat {
    vstd::utf8::encode_utf8(text).len()
}

/// The length of a text in bytes.
pub fn text_len(value: &str) -> (r: usize)
    ensures
        r == byte_len(value@),
{
    value.as_bytes().len()
}

/// Rejects a text that is longer than `max_len` bytes.
pub fn assert_max_len(value: &str, max_len: usize) -> (r: Result<(), Unit09Error>)
    ensures
        byte_len(value@) <= max_len ==> r == Ok::<(), Unit09Error>(()),
        byte_len(value@) > max_len ==> r == Err::<(), Unit09Error>(Unit09Error::StringTooLong),
{
    if text_len(value) > max_len {
        return Err(Unit09Error::StringTooLong);
    }
    Ok(())
}

} // verus!
