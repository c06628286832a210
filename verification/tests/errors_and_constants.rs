use unit09_program::constants::{
    assert_max_len, text_len, BPS_DENOMINATOR, CURRENT_SCHEMA_VERSION, MAX_FEE_BPS,
    MAX_FILES_PER_OBSERVATION, MAX_LOC_PER_OBSERVATION, MAX_METADATA_URI_LEN, MAX_NAME_LEN,
    MAX_TAGS_LEN, SECONDS_PER_DAY, SLOTS_PER_DAY_APPROX, SOFT_MAX_OBSERVATIONS_PER_REPO,
};
use unit09_program::errors::{Unit09Error, ERROR_CODE_OFFSET, ERROR_COUNT};
use unit09_program::ledger::Pubkey;

#[test]
fn constants_have_their_documented_values() {
    assert_eq!(CURRENT_SCHEMA_VERSION, 1);
    assert_eq!(MAX_FEE_BPS, 5_000);
    assert_eq!(BPS_DENOMINATOR, 10_000);
    assert_eq!(MAX_NAME_LEN, 64);
    assert_eq!(MAX_METADATA_URI_LEN, 256);
    assert_eq!(MAX_TAGS_LEN, 128);
    assert_eq!(MAX_LOC_PER_OBSERVATION, 10_000_000);
    assert_eq!(MAX_FILES_PER_OBSERVATION, 100_000);
    assert_eq!(SOFT_MAX_OBSERVATIONS_PER_REPO, 1_000_000);
    assert_eq!(SECONDS_PER_DAY, 86_400);
    assert_eq!(SLOTS_PER_DAY_APPROX, 216_000);
}

#[test]
fn max_len_accepts_up_to_the_bound() {
    assert_eq!(assert_max_len("", 0), Ok(()));
    assert_eq!(assert_max_len("abc", 3), Ok(()));
    assert_eq!(assert_max_len("abcd", 3), Err(Unit09Error::StringTooLong));
    assert_eq!(assert_max_len(&"x".repeat(64), MAX_NAME_LEN), Ok(()));
    assert_eq!(assert_max_len(&"x".repeat(65), MAX_NAME_LEN), Err(Unit09Error::StringTooLong));
}

#[test]
fn length_is_counted_in_bytes() {
    assert_eq!(text_len(""), 0);
    assert_eq!(text_len("abc"), 3);
    assert_eq!(text_len("\u{e9}"), 2);
    assert_eq!(text_len("\u{20ac}"), 3);
    assert_eq!(text_len("\u{1f600}"), 4);
    assert_eq!(assert_max_len("\u{e9}\u{e9}", 3), Err(Unit09Error::StringTooLong));
    assert_eq!(assert_max_len("\u{e9}\u{e9}", 4), Ok(()));
}

#[test]
fn error_codes_count_from_the_offset() {
    assert_eq!(ERROR_CODE_OFFSET, 6000);
    assert_eq!(Unit09Error::InternalError.code(), 6000);
    assert_eq!(Unit09Error::CounterOverflow.code(), 6001);
    assert_eq!(Unit09Error::ValidationFailed.code(), 6002);
    assert_eq!(Unit09Error::InvalidAdmin.code(), 6003);
    assert_eq!(Unit09Error::InvalidFeeBps.code(), 6005);
    assert_eq!(Unit09Error::StringTooLong.code(), 6010);
    assert_eq!(Unit09Error::StringEmpty.code(), 6011);
    assert_eq!(Unit09Error::ValueOutOfRange.code(), 6012);
    assert_eq!(Unit09Error::RepoInactive.code(), 6014);
    assert_eq!(Unit09Error::InvalidForkOwner.code(), 6026);
    assert_eq!(Unit09Error::ObservationDataTooLarge.code(), 6027);
    assert_eq!(Unit09Error::ObservationNotAllowed.code(), 6028);
    assert_eq!(Unit09Error::InvalidLifecycleState.code(), 6033);
    assert_eq!(Unit09Error::RateLimitReached.code(), 6043);
    assert_eq!(Unit09Error::TimestampInFuture.code(), 6044);
    assert_eq!(Unit09Error::InvalidTimeRange.code(), 6045);
    assert_eq!(ERROR_COUNT, 46);
}

#[test]
fn error_messages_are_fixed() {
    assert_eq!(Unit09Error::InternalError.message(), "Internal error: unexpected state.");
    assert_eq!(Unit09Error::CounterOverflow.message(), "Numeric overflow encountered.");
    assert_eq!(Unit09Error::InvalidFeeBps.message(), "Fee basis points out of allowed range.");
    assert_eq!(Unit09Error::StringEmpty.message(), "String value must not be empty.");
    assert_eq!(
        Unit09Error::InvalidLifecycleState.message(),
        "Operation is not allowed in the current lifecycle state."
    );
    assert_eq!(
        Unit09Error::InvalidForkOwner.to_string(),
        "Only the fork owner can perform this action.".to_string()
    );
}

#[test]
fn error_helpers_build_their_variant() {
    assert_eq!(Unit09Error::string_too_long(), Unit09Error::StringTooLong);
    assert_eq!(Unit09Error::invalid_authority(), Unit09Error::InvalidAuthority);
    assert_eq!(Unit09Error::repo_inactive(), Unit09Error::RepoInactive);
    assert_eq!(Unit09Error::module_inactive(), Unit09Error::ModuleInactive);
}

#[test]
fn default_key_is_all_zero() {
    assert_eq!(Pubkey::default().to_bytes(), [0u8; 32]);
    assert_eq!(Pubkey::default(), Pubkey::new_from_array([0u8; 32]));
}

#[test]
fn keys_compare_by_their_bytes() {
    let a = Pubkey::new_from_array([7u8; 32]);
    let mut other = [7u8; 32];
    assert!(a.same_as(&Pubkey::new_from_array(other)));
    other[31] = 8;
    assert!(!a.same_as(&Pubkey::new_from_array(other)));
    other[31] = 7;
    other[0] = 0;
    assert!(!a.same_as(&Pubkey::new_from_array(other)));
    assert!(!a.same_as(&Pubkey::default()));
}
