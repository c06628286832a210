use unit09_program::errors::Unit09Error;
use unit09_program::ledger::{Clock, Pubkey};
use unit09_program::state::{Config, Lifecycle};

fn config_clock(unix_timestamp: i64) -> Clock {
    Clock { slot: 9, epoch_start_timestamp: 0, epoch: 1, leader_schedule_epoch: 2, unix_timestamp }
}

fn config_key(byte: u8) -> Pubkey {
    Pubkey::new_from_array([byte; 32])
}

fn blank_config() -> Config {
    Config {
        admin: Pubkey::default(),
        fee_bps: 0,
        max_modules_per_repo: 0,
        schema_version: 0,
        is_active: false,
        created_at: 0,
        updated_at: 0,
        policy_ref: [0u8; 32],
        bump: 0,
        reserved: [9u8; 63],
    }
}

fn live_config() -> Config {
    let mut config = blank_config();
    config.init(config_key(1), 250, 1_000, [3u8; 32], 254, &config_clock(1_000)).unwrap();
    config
}

#[test]
fn init_sets_every_field() {
    let mut config = blank_config();
    let r = config.init(config_key(1), 250, 1_000, [3u8; 32], 254, &config_clock(1_000));
    assert_eq!(r, Ok(()));
    assert_eq!(
        config,
        Config {
            admin: config_key(1),
            fee_bps: 250,
            max_modules_per_repo: 1_000,
            schema_version: 1,
            is_active: true,
            created_at: 1_000,
            updated_at: 1_000,
            policy_ref: [3u8; 32],
            bump: 254,
            reserved: [0u8; 63],
        }
    );
}

#[test]
fn init_accepts_the_largest_fee() {
    let mut config = blank_config();
    assert_eq!(config.init(config_key(1), 5_000, 1, [0u8; 32], 1, &config_clock(5)), Ok(()));
    assert_eq!(config.fee_bps, 5_000);
    let mut zero_fee = blank_config();
    assert_eq!(zero_fee.init(config_key(1), 0, 1, [0u8; 32], 1, &config_clock(5)), Ok(()));
}

#[test]
fn init_refuses_a_fee_above_the_bound() {
    let mut config = blank_config();
    let before = config;
    assert_eq!(
        config.init(config_key(1), 5_001, 1, [0u8; 32], 1, &config_clock(5)),
        Err(Unit09Error::InvalidFeeBps)
    );
    assert_eq!(config, before);
    assert_eq!(
        config.init(config_key(1), u16::MAX, 1, [0u8; 32], 1, &config_clock(5)),
        Err(Unit09Error::InvalidFeeBps)
    );
    assert_eq!(config, before);
}

#[test]
fn init_refuses_a_module_cap_of_zero() {
    let mut config = blank_config();
    let before = config;
    assert_eq!(
        config.init(config_key(1), 100, 0, [0u8; 32], 1, &config_clock(5)),
        Err(Unit09Error::ValueOutOfRange)
    );
    assert_eq!(config, before);
}

#[test]
fn init_looks_at_the_fee_before_the_module_cap() {
    let mut config = blank_config();
    assert_eq!(
        config.init(config_key(1), 5_001, 0, [0u8; 32], 1, &config_clock(5)),
        Err(Unit09Error::InvalidFeeBps)
    );
}

#[test]
fn update_without_values_only_moves_the_time() {
    let mut config = live_config();
    let before = config;
    assert_eq!(config.apply_update(None, None, None, None, &config_clock(2_000)), Ok(()));
    assert_eq!(config, Config { updated_at: 2_000, ..before });
}

#[test]
fn update_changes_only_what_is_given() {
    let mut config = live_config();
    let before = config;
    assert_eq!(config.apply_update(Some(300), None, None, None, &config_clock(2_000)), Ok(()));
    assert_eq!(config, Config { fee_bps: 300, updated_at: 2_000, ..before });

    assert_eq!(
        config.apply_update(None, Some(7), Some(false), Some([8u8; 32]), &config_clock(3_000)),
        Ok(())
    );
    assert_eq!(
        config,
        Config {
            fee_bps: 300,
            max_modules_per_repo: 7,
            is_active: false,
            policy_ref: [8u8; 32],
            updated_at: 3_000,
            ..before
        }
    );
}

#[test]
fn update_refuses_a_fee_above_the_bound() {
    let mut config = live_config();
    let before = config;
    assert_eq!(
        config.apply_update(Some(5_001), Some(5), Some(false), None, &config_clock(2_000)),
        Err(Unit09Error::InvalidFeeBps)
    );
    assert_eq!(config, before);
    assert_eq!(config.apply_update(Some(5_000), None, None, None, &config_clock(2_000)), Ok(()));
    assert_eq!(config.fee_bps, 5_000);
}

#[test]
fn update_refuses_a_module_cap_of_zero_and_writes_nothing() {
    let mut config = live_config();
    let before = config;
    assert_eq!(
        config.apply_update(Some(10), Some(0), Some(false), Some([1u8; 32]), &config_clock(2_000)),
        Err(Unit09Error::ValueOutOfRange)
    );
    assert_eq!(config, before);
}

#[test]
fn admin_guard() {
    let config = live_config();
    assert_eq!(config.assert_admin(&config_key(1)), Ok(()));
    assert_eq!(config.assert_admin(&config_key(2)), Err(Unit09Error::InvalidAdmin));
    assert_eq!(config.assert_admin(&Pubkey::default()), Err(Unit09Error::InvalidAdmin));
}

#[test]
fn active_guard() {
    let mut config = live_config();
    assert_eq!(config.assert_active(), Ok(()));
    config.is_active = false;
    assert_eq!(config.assert_active(), Err(Unit09Error::InvalidLifecycleState));
}

#[test]
fn validators() {
    assert_eq!(Config::validate_fee_bps(0), Ok(()));
    assert_eq!(Config::validate_fee_bps(5_000), Ok(()));
    assert_eq!(Config::validate_fee_bps(5_001), Err(Unit09Error::InvalidFeeBps));
    assert_eq!(Config::validate_max_modules(1), Ok(()));
    assert_eq!(Config::validate_max_modules(u32::MAX), Ok(()));
    assert_eq!(Config::validate_max_modules(0), Err(Unit09Error::ValueOutOfRange));
}

#[test]
fn stored_size_of_the_configuration() {
    assert_eq!(Config::DISCRIMINATOR_LEN, 8);
    assert_eq!(Config::LEN, 8 + 32 + 2 + 4 + 1 + 1 + 8 + 8 + 32 + 1 + 63);
}

#[test]
fn lifecycle_gate() {
    let mut lifecycle = Lifecycle::default();
    assert_eq!(lifecycle.assert_writes_allowed(), Ok(()));
    lifecycle.is_frozen = true;
    assert_eq!(lifecycle.assert_writes_allowed(), Err(Unit09Error::InvalidLifecycleState));
    lifecycle.init(3, &config_clock(77));
    assert_eq!(lifecycle, Lifecycle { is_frozen: false, updated_at: 77, bump: 3 });
    assert_eq!(lifecycle.assert_writes_allowed(), Ok(()));
}
