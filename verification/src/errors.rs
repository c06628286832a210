//! Error codes of the registry.
//!
//! Every guard and validation failure aborts the whole instruction with one of
//! these. Each error has a fixed numeric code, counted from
//! [`ERROR_CODE_OFFSET`] in declaration order, and a fixed message.

use vstd::prelude::*;

verus! {

/// Code of the first error; the others follow in declaration order.
pub const ERROR_CODE_OFFSET: u32 = 6000;

/// Number of distinct errors.
pub const ERROR_COUNT: u32 = 46;

/// Everything that can make an instruction fail.
#[derive(Clone, Copy, Debug, PartialEq, Eq, Structural)]
pub enum Unit09Error {
    /// An unexpected internal condition was reached.
    InternalError,
    /// A counter would no longer fit in its integer type.
    CounterOverflow,
    /// A validation failed that no more specific error covers.
    ValidationFailed,
    /// The signer is not the admin that the configuration names.
    InvalidAdmin,
    /// A caller without admin rights attempted an admin action.
    UnauthorizedAdminAction,
    /// The fee in basis points is above the allowed maximum.
    InvalidFeeBps,
    /// The configuration carries a schema version that is not supported.
    UnsupportedConfigVersion,
    /// The signer is not the authority of the target record.
    InvalidAuthority,
    /// A required authority record is absent.
    MissingAuthority,
    /// The role of the authority does not permit the action.
    AuthorityRoleNotAllowed,
    /// A text is longer than its field allows.
    StringTooLong,
    /// A required text is empty.
    StringEmpty,
    /// A number is outside the range allowed for it.
    ValueOutOfRange,
    /// A URL fails the basic structural checks.
    InvalidUrl,
    /// The repository is inactive.
    RepoInactive,
    /// The repository already holds as many modules as the configuration allows.
    RepoModuleLimitReached,
    /// The repository has reached its observation cap.
    RepoObservationLimitReached,
    /// The repository record does not belong to the given repository key.
    RepoKeyMismatch,
    /// The module is inactive.
    ModuleInactive,
    /// The requested module version does not exist.
    ModuleVersionNotFound,
    /// The module version exists already.
    ModuleVersionAlreadyExists,
    /// The module is not linked to the expected repository.
    ModuleRepoMismatch,
    /// The module is locked against changes.
    ModuleImmutable,
    /// The fork is inactive.
    ForkInactive,
    /// The parent of the fork is invalid or absent.
    InvalidForkParent,
    /// No further fork may be created.
    ForkLimitReached,
    /// The signer is not the owner of the fork.
    InvalidForkOwner,
    /// An observation reports more than the configured bounds allow.
    ObservationDataTooLarge,
    /// The target does not accept observations.
    ObservationNotAllowed,
    /// A metrics update contradicts the current state.
    MetricsInconsistent,
    /// A metadata field is longer than allowed.
    MetadataTooLong,
    /// Required metadata is absent.
    MetadataMissing,
    /// Metadata is malformed or of an unsupported format.
    MetadataInvalid,
    /// The current lifecycle phase forbids the operation.
    InvalidLifecycleState,
    /// A migration has to run before the instruction may.
    MigrationRequired,
    /// The migration step was applied before.
    MigrationAlreadyApplied,
    /// A required record was not handed to the instruction.
    MissingRequiredAccount,
    /// A record is not owned by the expected program.
    InvalidAccountOwner,
    /// A record does not have the expected layout.
    InvalidAccountDiscriminator,
    /// A system record was expected.
    ExpectedSystemAccount,
    /// A signer was expected.
    ExpectedSigner,
    /// A writable record was expected.
    ExpectedWritableAccount,
    /// The action is attempted again before its cooldown has passed.
    CooldownActive,
    /// The caller or resource has reached its rate limit.
    RateLimitReached,
    /// A timestamp lies further in the future than the allowed drift.
    TimestampInFuture,
    /// The start of a time range lies after its end.
    InvalidTimeRange,
}

impl Unit09Error {
    /// Position of this error in declaration order, starting at zero.
    pub open spec fn ordinal(self) -> nat {
        match self {
            Unit09Error::InternalError => 0,
            Unit09Error::CounterOverflow => 1,
            Unit09Error::ValidationFailed => 2,
            Unit09Error::InvalidAdmin => 3,
            Unit09Error::UnauthorizedAdminAction => 4,
            Unit09Error::InvalidFeeBps => 5,
            Unit09Error::UnsupportedConfigVersion => 6,
            Unit09Error::InvalidAuthority => 7,
            Unit09Error::MissingAuthority => 8,
            Unit09Error::AuthorityRoleNotAllowed => 9,
            Unit09Error::StringTooLong => 10,
            Unit09Error::StringEmpty => 11,
            Unit09Error::ValueOutOfRange => 12,
            Unit09Error::InvalidUrl => 13,
            Unit09Error::RepoInactive => 14,
            Unit09Error::RepoModuleLimitReached => 15,
            Unit09Error::RepoObservationLimitReached => 16,
            Unit09Error::RepoKeyMismatch => 17,
            Unit09Error::ModuleInactive => 18,
            Unit09Error::ModuleVersionNotFound => 19,
            Unit09Error::ModuleVersionAlreadyExists => 20,
            Unit09Error::ModuleRepoMismatch => 21,
            Unit09Error::ModuleImmutable => 22,
            Unit09Error::ForkInactive => 23,
            Unit09Error::InvalidForkParent => 24,
            Unit09Error::ForkLimitReached => 25,
            Unit09Error::InvalidForkOwner => 26,
            Unit09Error::ObservationDataTooLarge => 27,
            Unit09Error::ObservationNotAllowed => 28,
            Unit09Error::MetricsInconsistent => 29,
            Unit09Error::MetadataTooLong => 30,
            Unit09Error::MetadataMissing => 31,
            Unit09Error::MetadataInvalid => 32,
            Unit09Error::InvalidLifecycleState => 33,
            Unit09Error::MigrationRequired => 34,
            Unit09Error::MigrationAlreadyApplied => 35,
            Unit09Error::MissingRequiredAccount => 36,
            Unit09Error::InvalidAccountOwner => 37,
            Unit09Error::InvalidAccountDiscriminator => 38,
            Unit09Error::ExpectedSystemAccount => 39,
            Unit09Error::ExpectedSigner => 40,
            Unit09Error::ExpectedWritableAccount => 41,
            Unit09Error::CooldownActive => 42,
            Unit09Error::RateLimitReached => 43,
            Unit09Error::TimestampInFuture => 44,
            Unit09Error::InvalidTimeRange => 45,
        }
    }

    /// The message that accompanies this error.
    pub open spec fn message_text(self) -> Seq<char> {
        match self {
            Unit09Error::InternalError => "Internal error: unexpected state."@,
            Unit09Error::CounterOverflow => "Numeric overflow encountered."@,
            Unit09Error::ValidationFailed => "Validation failed."@,
            Unit09Error::InvalidAdmin => "Invalid admin authority."@,
            Unit09Error::UnauthorizedAdminAction => "Caller is not authorized to perform this admin action."@,
            Unit09Error::InvalidFeeBps => "Fee basis points out of allowed range."@,
            Unit09Error::UnsupportedConfigVersion => "Unsupported configuration schema version."@,
            Unit09Error::InvalidAuthority => "Invalid authority for this operation."@,
            Unit09Error::MissingAuthority => "Authority account is missing or not initialized."@,
            Unit09Error::AuthorityRoleNotAllowed => "Authority role is not allowed to perform this action."@,
            Unit09Error::StringTooLong => "String exceeds maximum allowed length."@,
            Unit09Error::StringEmpty => "String value must not be empty."@,
            Unit09Error::ValueOutOfRange => "Numeric value is out of allowed range."@,
            Unit09Error::InvalidUrl => "Invalid or malformed URL."@,
            Unit09Error::RepoInactive => "Repository is inactive."@,
            Unit09Error::RepoModuleLimitReached => "Repository reached maximum allowed modules."@,
            Unit09Error::RepoObservationLimitReached => "Repository reached maximum observation count."@,
            Unit09Error::RepoKeyMismatch => "Repository PDA does not match the provided repository key."@,
            Unit09Error::ModuleInactive => "Module is inactive."@,
            Unit09Error::ModuleVersionNotFound => "Requested module version not found."@,
            Unit09Error::ModuleVersionAlreadyExists => "Module version already exists."@,
            Unit09Error::ModuleRepoMismatch => "Module is not linked to the expected repository."@,
            Unit09Error::ModuleImmutable => "Module is immutable or locked."@,
            Unit09Error::ForkInactive => "Fork is inactive."@,
            Unit09Error::InvalidForkParent => "Invalid or missing fork parent reference."@,
            Unit09Error::ForkLimitReached => "Maximum number of forks has been reached."@,
            Unit09Error::InvalidForkOwner => "Only the fork owner can perform this action."@,
            Unit09Error::ObservationDataTooLarge => "Observation data exceeds configured limits."@,
            Unit09Error::ObservationNotAllowed => "Observations are not allowed for this target."@,
            Unit09Error::MetricsInconsistent => "Metrics update is inconsistent with current state."@,
            Unit09Error::MetadataTooLong => "Metadata field exceeds maximum length."@,
            Unit09Error::MetadataMissing => "Required metadata is missing."@,
            Unit09Error::MetadataInvalid => "Metadata format is invalid or unsupported."@,
            Unit09Error::InvalidLifecycleState => "Operation is not allowed in the current lifecycle state."@,
            Unit09Error::MigrationRequired => "Migration is required before executing this instruction."@,
            Unit09Error::MigrationAlreadyApplied => "Migration step has already been applied."@,
            Unit09Error::MissingRequiredAccount => "Required account is missing in the instruction context."@,
            Unit09Error::InvalidAccountOwner => "Account is not owned by the expected program."@,
            Unit09Error::InvalidAccountDiscriminator => "Account discriminator does not match expected type."@,
            Unit09Error::ExpectedSystemAccount => "Expected a system account, received a non-system account."@,
            Unit09Error::ExpectedSigner => "Expected a signer account, but the account is not a signer."@,
            Unit09Error::ExpectedWritableAccount => "Expected a writable account, but the account is read-only."@,
            Unit09Error::CooldownActive => "Action is being attempted too frequently; cooldown in effect."@,
            Unit09Error::RateLimitReached => "Rate limit reached for this caller or resource."@,
            Unit09Error::TimestampInFuture => "Timestamp lies too far in the future."@,
            Unit09Error::InvalidTimeRange => "Start of a time range lies after its end."@,
        }
    }

    /// The numeric code of this error: the offset plus its position.
    pub fn code(&self) -> (r: u32)
        ensures
            r == ERROR_CODE_OFFSET + self.ordinal(),
            ERROR_CODE_OFFSET <= r < ERROR_CODE_OFFSET + ERROR_COUNT,
    {
        match self {
            Unit09Error::InternalError => 6000,
            Unit09Error::CounterOverflow => 6001,
            Unit09Error::ValidationFailed => 6002,
            Unit09Error::InvalidAdmin => 6003,
            Unit09Error::UnauthorizedAdminAction => 6004,
            Unit09Error::InvalidFeeBps => 6005,
            Unit09Error::UnsupportedConfigVersion => 6006,
            Unit09Error::InvalidAuthority => 6007,
            Unit09Error::MissingAuthority => 6008,
            Unit09Error::AuthorityRoleNotAllowed => 6009,
            Unit09Error::StringTooLong => 6010,
            Unit09Error::StringEmpty => 6011,
            Unit09Error::ValueOutOfRange => 6012,
            Unit09Error::InvalidUrl => 6013,
            Unit09Error::RepoInactive => 6014,
            Unit09Error::RepoModuleLimitReached => 6015,
            Unit09Error::RepoObservationLimitReached => 6016,
            Unit09Error::RepoKeyMismatch => 6017,
            Unit09Error::ModuleInactive => 6018,
            Unit09Error::ModuleVersionNotFound => 6019,
            Unit09Error::ModuleVersionAlreadyExists => 6020,
            Unit09Error::ModuleRepoMismatch => 6021,
            Unit09Error::ModuleImmutable => 6022,
            Unit09Error::ForkInactive => 6023,
            Unit09Error::InvalidForkParent => 6024,
            Unit09Error::ForkLimitReached => 6025,
            Unit09Error::InvalidForkOwner => 6026,
            Unit09Error::ObservationDataTooLarge => 6027,
            Unit09Error::ObservationNotAllowed => 6028,
            Unit09Error::MetricsInconsistent => 6029,
            Unit09Error::MetadataTooLong => 6030,
            Unit09Error::MetadataMissing => 6031,
            Unit09Error::MetadataInvalid => 6032,
            Unit09Error::InvalidLifecycleState => 6033,
            Unit09Error::MigrationRequired => 6034,
            Unit09Error::MigrationAlreadyApplied => 6035,
            Unit09Error::MissingRequiredAccount => 6036,
            Unit09Error::InvalidAccountOwner => 6037,
            Unit09Error::InvalidAccountDiscriminator => 6038,
            Unit09Error::ExpectedSystemAccount => 6039,
            Unit09Error::ExpectedSigner => 6040,
            Unit09Error::ExpectedWritableAccount => 6041,
            Unit09Error::CooldownActive => 6042,
            Unit09Error::RateLimitReached => 6043,
            Unit09Error::TimestampInFuture => 6044,
            Unit09Error::InvalidTimeRange => 6045,
        }
    }

    /// The human-readable message of this error.
    pub fn message(&self) -> (r: &'static str)
        ensures
            r@ == self.message_text(),
    {
        match self {
            Unit09Error::InternalError => "Internal error: unexpected state.",
            Unit09Error::CounterOverflow => "Numeric overflow encountered.",
            Unit09Error::ValidationFailed => "Validation failed.",
            Unit09Error::InvalidAdmin => "Invalid admin authority.",
            Unit09Error::UnauthorizedAdminAction => "Caller is not authorized to perform this admin action.",
            Unit09Error::InvalidFeeBps => "Fee basis points out of allowed range.",
            Unit09Error::UnsupportedConfigVersion => "Unsupported configuration schema version.",
            Unit09Error::InvalidAuthority => "Invalid authority for this operation.",
            Unit09Error::MissingAuthority => "Authority account is missing or not initialized.",
            Unit09Error::AuthorityRoleNotAllowed => "Authority role is not allowed to perform this action.",
            Unit09Error::StringTooLong => "String exceeds maximum allowed length.",
            Unit09Error::StringEmpty => "String value must not be empty.",
            Unit09Error::ValueOutOfRange => "Numeric value is out of allowed range.",
            Unit09Error::InvalidUrl => "Invalid or malformed URL.",
            Unit09Error::RepoInactive => "Repository is inactive.",
            Unit09Error::RepoModuleLimitReached => "Repository reached maximum allowed modules.",
            Unit09Error::RepoObservationLimitReached => "Repository reached maximum observation count.",
            Unit09Error::RepoKeyMismatch => "Repository PDA does not match the provided repository key.",
            Unit09Error::ModuleInactive => "Module is inactive.",
            Unit09Error::ModuleVersionNotFound => "Requested module version not found.",
            Unit09Error::ModuleVersionAlreadyExists => "Module version already exists.",
            Unit09Error::ModuleRepoMismatch => "Module is not linked to the expected repository.",
            Unit09Error::ModuleImmutable => "Module is immutable or locked.",
            Unit09Error::ForkInactive => "Fork is inactive.",
            Unit09Error::InvalidForkParent => "Invalid or missing fork parent reference.",
            Unit09Error::ForkLimitReached => "Maximum number of forks has been reached.",
            Unit09Error::InvalidForkOwner => "Only the fork owner can perform this action.",
            Unit09Error::ObservationDataTooLarge => "Observation data exceeds configured limits.",
            Unit09Error::ObservationNotAllowed => "Observations are not allowed for this target.",
            Unit09Error::MetricsInconsistent => "Metrics update is inconsistent with current state.",
            Unit09Error::MetadataTooLong => "Metadata field exceeds maximum length.",
            Unit09Error::MetadataMissing => "Required metadata is missing.",
            Unit09Error::MetadataInvalid => "Metadata format is invalid or unsupported.",
            Unit09Error::InvalidLifecycleState => "Operation is not allowed in the current lifecycle state.",
            Unit09Error::MigrationRequired => "Migration is required before executing this instruction.",
            Unit09Error::MigrationAlreadyApplied => "Migration step has already been applied.",
            Unit09Error::MissingRequiredAccount => "Required account is missing in the instruction context.",
            Unit09Error::InvalidAccountOwner => "Account is not owned by the expected program.",
            Unit09Error::InvalidAccountDiscriminator => "Account discriminator does not match expected type.",
            Unit09Error::ExpectedSystemAccount => "Expected a system account, received a non-system account.",
            Unit09Error::ExpectedSigner => "Expected a signer account, but the account is not a signer.",
            Unit09Error::ExpectedWritableAccount => "Expected a writable account, but the account is read-only.",
            Unit09Error::CooldownActive => "Action is being attempted too frequently; cooldown in effect.",
            Unit09Error::RateLimitReached => "Rate limit reached for this caller or resource.",
            Unit09Error::TimestampInFuture => "Timestamp lies too far in the future.",
            Unit09Error::InvalidTimeRange => "Start of a time range lies after its end.",
        }
    }

    /// The message of this error as an owned text.
    pub fn to_string(&self) -> (r: String)
        ensures
            r@ == self.message_text(),
    {
        self.message().to_owned()
    }

    /// The error for a text that is longer than its field allows.
    pub fn string_too_long() -> (r: Unit09Error)
        ensures
            r == Unit09Error::StringTooLong,
    {
        Unit09Error::StringTooLong
    }

    /// The error for a signer that is not the authority of the target.
    pub fn invalid_authority() -> (r: Unit09Error)
        ensures
            r == Unit09Error::InvalidAuthority,
    {
        Unit09Error::InvalidAuthority
    }

    /// The error for an inactive repository.
    pub fn repo_inactive() -> (r: Unit09Error)
        ensures
            r == Unit09Error::RepoInactive,
    {
        Unit09Error::RepoInactive
    }

    /// The error for an inactive module.
    pub fn module_inactive() -> (r: Unit09Error)
        ensures
            r == Unit09Error::ModuleInactive,
    {
        Unit09Error::ModuleInactive
    }
}

/// Two errors with the same code are the same error.
pub proof fn lemma_code_identifies_error(a: Unit09Error, b: Unit09Error)
    requires
        a.ordinal() == b.ordinal(),
    ensures
        a == b,
{
}

} // verus!
