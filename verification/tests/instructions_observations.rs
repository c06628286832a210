use unit09_program::constants::{
    MAX_FILES_PER_OBSERVATION, MAX_LOC_PER_OBSERVATION, MAX_MODULES_PER_OBSERVATION,
};
use unit09_program::errors::Unit09Error;
use unit09_program::events::{MetricsReconciled, ObservationRecorded};
use unit09_program::instructions::record_observation::check_numbers;
use unit09_program::instructions::{
    record_metrics, record_observation, RecordMetrics, RecordMetricsArgs, RecordObservation,
    RecordObservationArgs,
};
use unit09_program::ledger::{Clock, Pubkey};
use unit09_program::state::{Config, Lifecycle, Metrics, Repo};

fn ob_clock(unix_timestamp: i64) -> Clock {
    Clock { slot: 0, epoch_start_timestamp: 0, epoch: 0, leader_schedule_epoch: 0, unix_timestamp }
}

fn ob_key(byte: u8) -> Pubkey {
    Pubkey::new_from_array([byte; 32])
}

fn ob_config() -> Config {
    Config {
        admin: ob_key(1),
        fee_bps: 100,
        max_modules_per_repo: 10,
        schema_version: 1,
        is_active: true,
        created_at: 1,
        updated_at: 1,
        policy_ref: [0u8; 32],
        bump: 255,
        reserved: [0u8; 63],
    }
}

fn ob_metrics() -> Metrics {
    Metrics {
        total_repos: 3,
        total_modules: 10,
        total_forks: 2,
        total_observations: 40,
        total_lines_of_code: 90_000,
        total_files_processed: 1_200,
        updated_at: 500,
        bump: 250,
    }
}

fn ob_repo() -> Repo {
    let mut repo = Repo::default();
    repo.init(
        ob_key(20),
        ob_key(21),
        "unit09".to_string(),
        "https://example.org/unit09.git".to_string(),
        String::new(),
        249,
        &ob_clock(100),
    )
    .unwrap();
    repo
}

fn observe_ctx() -> RecordObservation {
    RecordObservation {
        observer: ob_key(30),
        config: ob_config(),
        lifecycle: Lifecycle { is_frozen: false, updated_at: 1, bump: 254 },
        metrics: ob_metrics(),
        repo: ob_repo(),
        repo_address: ob_key(22),
        clock: ob_clock(1_000),
    }
}

fn observe_args() -> RecordObservationArgs {
    RecordObservationArgs {
        lines_of_code: 1_500,
        files_processed: 20,
        modules_touched: 3,
        revision: "9f2a1c7".to_string(),
        note: "full tree scan".to_string(),
    }
}

#[test]
fn observation_updates_repo_and_aggregate() {
    let mut ctx = observe_ctx();
    let event = record_observation(&mut ctx, observe_args()).unwrap();
    assert_eq!(
        ctx,
        RecordObservation {
            repo: Repo {
                observation_count: 1,
                total_lines_of_code: 1_500,
                total_files_processed: 20,
                total_modules_touched: 3,
                last_revision: "9f2a1c7".to_string(),
                last_note: "full tree scan".to_string(),
                last_observer: ob_key(30),
                last_observed_at: 1_000,
                updated_at: 1_000,
                ..ob_repo()
            },
            metrics: Metrics {
                total_observations: 41,
                total_lines_of_code: 91_500,
                total_files_processed: 1_220,
                updated_at: 1_000,
                ..ob_metrics()
            },
            ..observe_ctx()
        }
    );
    assert_eq!(
        event,
        ObservationRecorded {
            repo: ob_key(22),
            observer: ob_key(30),
            lines_of_code: 1_500,
            files_processed: 20,
            modules_touched: 3,
            revision: "9f2a1c7".to_string(),
            note: "full tree scan".to_string(),
            observed_at: 1_000,
        }
    );
}

#[test]
fn observation_with_zero_lines_is_out_of_range() {
    let mut ctx = observe_ctx();
    let r = record_observation(&mut ctx, RecordObservationArgs { lines_of_code: 0, ..observe_args() });
    assert_eq!(r, Err(Unit09Error::ValueOutOfRange));
    assert_eq!(ctx, observe_ctx());
}

#[test]
fn observation_with_too_many_lines_is_too_large() {
    let mut ctx = observe_ctx();
    let r = record_observation(
        &mut ctx,
        RecordObservationArgs { lines_of_code: MAX_LOC_PER_OBSERVATION + 1, ..observe_args() },
    );
    assert_eq!(r, Err(Unit09Error::ObservationDataTooLarge));
    assert_eq!(ctx, observe_ctx());
}

#[test]
fn observation_with_the_most_lines_is_accepted() {
    let mut ctx = observe_ctx();
    let r = record_observation(
        &mut ctx,
        RecordObservationArgs { lines_of_code: MAX_LOC_PER_OBSERVATION, ..observe_args() },
    );
    assert!(r.is_ok());
    assert_eq!(ctx.repo.total_lines_of_code, 10_000_000);
    assert_eq!(ctx.metrics.total_lines_of_code, 10_090_000);
}

#[test]
fn observation_number_bounds() {
    assert_eq!(check_numbers(1, 1, 0), Ok(()));
    assert_eq!(check_numbers(0, 0, u32::MAX), Err(Unit09Error::ValueOutOfRange));
    assert_eq!(check_numbers(MAX_LOC_PER_OBSERVATION + 1, 0, 0), Err(Unit09Error::ObservationDataTooLarge));
    assert_eq!(check_numbers(1, 0, 0), Err(Unit09Error::ValueOutOfRange));
    assert_eq!(
        check_numbers(1, MAX_FILES_PER_OBSERVATION + 1, 0),
        Err(Unit09Error::ObservationDataTooLarge)
    );
    assert_eq!(check_numbers(1, MAX_FILES_PER_OBSERVATION, MAX_MODULES_PER_OBSERVATION), Ok(()));
    assert_eq!(
        check_numbers(1, 1, MAX_MODULES_PER_OBSERVATION + 1),
        Err(Unit09Error::ObservationDataTooLarge)
    );
}

#[test]
fn observation_on_a_closed_repo_leaves_the_aggregate_alone() {
    let mut ctx = observe_ctx();
    ctx.repo.allow_observation = false;
    let before = ctx.clone();
    let r = record_observation(&mut ctx, observe_args());
    assert_eq!(r, Err(Unit09Error::ObservationNotAllowed));
    assert_eq!(ctx.metrics, ob_metrics());
    assert_eq!(ctx, before);
}

#[test]
fn observation_guards_come_in_order() {
    let mut ctx = observe_ctx();
    ctx.lifecycle.is_frozen = true;
    ctx.config.is_active = false;
    ctx.repo.is_active = false;
    ctx.repo.allow_observation = false;
    let bad = RecordObservationArgs { lines_of_code: 0, ..observe_args() };
    let before = ctx.clone();
    assert_eq!(record_observation(&mut ctx, bad.clone()), Err(Unit09Error::InvalidLifecycleState));
    assert_eq!(ctx, before);
    ctx.lifecycle.is_frozen = false;
    assert_eq!(record_observation(&mut ctx, bad.clone()), Err(Unit09Error::InvalidLifecycleState));
    ctx.config.is_active = true;
    assert_eq!(record_observation(&mut ctx, bad.clone()), Err(Unit09Error::RepoInactive));
    ctx.repo.is_active = true;
    assert_eq!(record_observation(&mut ctx, bad.clone()), Err(Unit09Error::ObservationNotAllowed));
    ctx.repo.allow_observation = true;
    assert_eq!(record_observation(&mut ctx, bad), Err(Unit09Error::ValueOutOfRange));
}

#[test]
fn observation_text_bounds_cap_and_overflow() {
    let mut ctx = observe_ctx();
    let r = record_observation(
        &mut ctx,
        RecordObservationArgs { revision: "r".repeat(65), ..observe_args() },
    );
    assert_eq!(r, Err(Unit09Error::StringTooLong));
    let r =
        record_observation(&mut ctx, RecordObservationArgs { note: "n".repeat(257), ..observe_args() });
    assert_eq!(r, Err(Unit09Error::StringTooLong));
    assert_eq!(ctx, observe_ctx());

    let mut capped = observe_ctx();
    capped.repo.observation_limit = 0;
    let before = capped.clone();
    assert_eq!(
        record_observation(&mut capped, observe_args()),
        Err(Unit09Error::RepoObservationLimitReached)
    );
    assert_eq!(capped, before);

    let mut full = observe_ctx();
    full.metrics.total_files_processed = u64::MAX - 19;
    let before = full.clone();
    assert_eq!(record_observation(&mut full, observe_args()), Err(Unit09Error::CounterOverflow));
    assert_eq!(full, before);
    full.metrics.total_files_processed = u64::MAX - 20;
    assert!(record_observation(&mut full, observe_args()).is_ok());
    assert_eq!(full.metrics.total_files_processed, u64::MAX);
    assert_eq!(full.repo.observation_count, 1);
}

fn reconcile_ctx() -> RecordMetrics {
    RecordMetrics {
        admin: ob_key(1),
        config: ob_config(),
        lifecycle: Lifecycle { is_frozen: false, updated_at: 1, bump: 254 },
        metrics: ob_metrics(),
        clock: ob_clock(2_000),
    }
}

fn reconcile_args() -> RecordMetricsArgs {
    RecordMetricsArgs {
        total_repos: Some(5),
        total_modules: None,
        total_forks: Some(0),
        total_observations: None,
        total_lines_of_code: Some(123_456),
        total_files_processed: None,
    }
}

#[test]
fn reconciliation_overwrites_the_named_counters() {
    let mut ctx = reconcile_ctx();
    let event = record_metrics(&mut ctx, reconcile_args()).unwrap();
    let expected = Metrics {
        total_repos: 5,
        total_forks: 0,
        total_lines_of_code: 123_456,
        updated_at: 2_000,
        ..ob_metrics()
    };
    assert_eq!(ctx, RecordMetrics { metrics: expected, ..reconcile_ctx() });
    assert_eq!(
        event,
        MetricsReconciled {
            admin: ob_key(1),
            total_repos: 5,
            total_modules: 10,
            total_forks: 0,
            total_observations: 40,
            total_lines_of_code: 123_456,
            total_files_processed: 1_200,
            updated_at: 2_000,
        }
    );
}

#[test]
fn reconciliation_twice_gives_the_same_state() {
    let mut once = reconcile_ctx();
    let first = record_metrics(&mut once, reconcile_args()).unwrap();
    let mut twice = once;
    let second = record_metrics(&mut twice, reconcile_args()).unwrap();
    assert_eq!(once, twice);
    assert_eq!(first, second);
}

#[test]
fn reconciliation_refuses_the_reserved_value_as_a_whole() {
    let mut ctx = reconcile_ctx();
    let r = record_metrics(
        &mut ctx,
        RecordMetricsArgs { total_files_processed: Some(u64::MAX), ..reconcile_args() },
    );
    assert_eq!(r, Err(Unit09Error::ValueOutOfRange));
    assert_eq!(ctx, reconcile_ctx());
}

#[test]
fn reconciliation_guards_come_in_order() {
    let mut ctx = reconcile_ctx();
    ctx.lifecycle.is_frozen = true;
    ctx.admin = ob_key(77);
    ctx.config.is_active = false;
    let bad = RecordMetricsArgs { total_repos: Some(u64::MAX), ..reconcile_args() };
    let before = ctx;
    assert_eq!(record_metrics(&mut ctx, bad), Err(Unit09Error::InvalidLifecycleState));
    assert_eq!(ctx, before);
    ctx.lifecycle.is_frozen = false;
    assert_eq!(record_metrics(&mut ctx, bad), Err(Unit09Error::InvalidAdmin));
    ctx.admin = ob_key(1);
    assert_eq!(record_metrics(&mut ctx, bad), Err(Unit09Error::InvalidLifecycleState));
    ctx.config.is_active = true;
    assert_eq!(record_metrics(&mut ctx, bad), Err(Unit09Error::ValueOutOfRange));
    assert_eq!(ctx.metrics, ob_metrics());
}
