use unit09_program::errors::Unit09Error;
use unit09_program::ledger::{Clock, Pubkey};
use unit09_program::state::{Fork, GlobalMetadata, Module, Repo, Version};
use unit09_program::utils::text::{
    check_optional_text, check_optional_update, check_required_text, check_required_update,
};

fn rec_clock(unix_timestamp: i64) -> Clock {
    Clock { slot: 0, epoch_start_timestamp: 0, epoch: 0, leader_schedule_epoch: 0, unix_timestamp }
}

fn rec_key(byte: u8) -> Pubkey {
    Pubkey::new_from_array([byte; 32])
}

fn text(s: &str) -> String {
    s.to_string()
}

fn sample_repo() -> Repo {
    let mut repo = Repo::default();
    repo.init(
        rec_key(1),
        rec_key(2),
        text("unit09"),
        text("https://example.org/unit09.git"),
        text("solana,anchor"),
        253,
        &rec_clock(100),
    )
    .unwrap();
    repo
}

fn sample_fork() -> Fork {
    let mut fork = Fork::default();
    fork.init(
        rec_key(3),
        Pubkey::default(),
        rec_key(4),
        text("lab-alpha"),
        text("ipfs://manifest"),
        text(""),
        true,
        0,
        252,
        &rec_clock(100),
    )
    .unwrap();
    fork
}

fn sample_module() -> Module {
    let mut module = Module::default();
    module
        .init(
            rec_key(5),
            rec_key(1),
            rec_key(2),
            text("parser"),
            text("ipfs://module"),
            text("tooling"),
            text("a,b"),
            Version { major: 1, minor: 2, patch: 3 },
            251,
            &rec_clock(100),
        )
        .unwrap();
    module
}

#[test]
fn required_and_optional_texts() {
    assert_eq!(check_required_text("", 4), Err(Unit09Error::StringEmpty));
    assert_eq!(check_required_text("abcd", 4), Ok(()));
    assert_eq!(check_required_text("abcde", 4), Err(Unit09Error::StringTooLong));
    assert_eq!(check_optional_text("", 4), Ok(()));
    assert_eq!(check_optional_text("abcd", 4), Ok(()));
    assert_eq!(check_optional_text("abcde", 4), Err(Unit09Error::StringTooLong));
    assert_eq!(check_required_update(&None, 4), Ok(()));
    assert_eq!(check_required_update(&Some(text("")), 4), Err(Unit09Error::StringEmpty));
    assert_eq!(check_required_update(&Some(text("abcde")), 4), Err(Unit09Error::StringTooLong));
    assert_eq!(check_optional_update(&None, 4), Ok(()));
    assert_eq!(check_optional_update(&Some(text("")), 4), Ok(()));
    assert_eq!(check_optional_update(&Some(text("abcde")), 4), Err(Unit09Error::StringTooLong));
}

#[test]
fn repo_init_gives_a_fresh_record() {
    let repo = sample_repo();
    assert_eq!(
        repo,
        Repo {
            repo_key: rec_key(1),
            authority: rec_key(2),
            name: text("unit09"),
            url: text("https://example.org/unit09.git"),
            tags: text("solana,anchor"),
            is_active: true,
            allow_observation: true,
            module_count: 0,
            observation_count: 0,
            observation_limit: 1_000_000,
            total_lines_of_code: 0,
            total_files_processed: 0,
            total_modules_touched: 0,
            last_revision: String::new(),
            last_note: String::new(),
            last_observer: Pubkey::default(),
            last_observed_at: 0,
            created_at: 100,
            updated_at: 100,
            bump: 253,
        }
    );
}

#[test]
fn repo_init_checks_name_then_url_then_tags() {
    let mut repo = Repo::default();
    let r = repo.init(rec_key(1), rec_key(2), text(""), text(""), "t".repeat(129), 1, &rec_clock(1));
    assert_eq!(r, Err(Unit09Error::StringEmpty));
    let r = repo.init(rec_key(1), rec_key(2), "n".repeat(65), text(""), text(""), 1, &rec_clock(1));
    assert_eq!(r, Err(Unit09Error::StringTooLong));
    let r = repo.init(rec_key(1), rec_key(2), text("n"), text(""), "t".repeat(129), 1, &rec_clock(1));
    assert_eq!(r, Err(Unit09Error::StringEmpty));
    let r = repo.init(rec_key(1), rec_key(2), text("n"), "u".repeat(257), text(""), 1, &rec_clock(1));
    assert_eq!(r, Err(Unit09Error::StringTooLong));
    let r = repo.init(rec_key(1), rec_key(2), text("n"), text("u"), "t".repeat(129), 1, &rec_clock(1));
    assert_eq!(r, Err(Unit09Error::StringTooLong));
    assert_eq!(repo, Repo::default());
    let r =
        repo.init(rec_key(1), rec_key(2), "n".repeat(64), "u".repeat(256), "t".repeat(128), 1, &rec_clock(1));
    assert_eq!(r, Ok(()));
}

#[test]
fn repo_guards() {
    let mut repo = sample_repo();
    assert_eq!(repo.assert_active(), Ok(()));
    assert_eq!(repo.assert_observable(), Ok(()));
    assert_eq!(repo.assert_authority(&rec_key(2)), Ok(()));
    assert_eq!(repo.assert_authority(&rec_key(1)), Err(Unit09Error::InvalidAuthority));
    repo.is_active = false;
    repo.allow_observation = false;
    assert_eq!(repo.assert_active(), Err(Unit09Error::RepoInactive));
    assert_eq!(repo.assert_observable(), Err(Unit09Error::ObservationNotAllowed));
}

#[test]
fn repo_records_an_observation() {
    let mut repo = sample_repo();
    let r = repo.record_observation(
        1_200,
        30,
        4,
        text("9f2a1c7"),
        text("full tree scan"),
        rec_key(9),
        &rec_clock(250),
    );
    assert_eq!(r, Ok(()));
    assert_eq!(
        repo,
        Repo {
            observation_count: 1,
            total_lines_of_code: 1_200,
            total_files_processed: 30,
            total_modules_touched: 4,
            last_revision: text("9f2a1c7"),
            last_note: text("full tree scan"),
            last_observer: rec_key(9),
            last_observed_at: 250,
            updated_at: 250,
            ..sample_repo()
        }
    );
    repo.record_observation(800, 5, 0, text("abc"), text(""), rec_key(8), &rec_clock(300)).unwrap();
    assert_eq!(repo.observation_count, 2);
    assert_eq!(repo.total_lines_of_code, 2_000);
    assert_eq!(repo.total_files_processed, 35);
    assert_eq!(repo.total_modules_touched, 4);
    assert_eq!(repo.last_revision, "abc");
    assert_eq!(repo.last_observed_at, 300);
}

#[test]
fn repo_observation_text_bounds() {
    let mut repo = sample_repo();
    let r = repo.record_observation(1, 1, 0, "r".repeat(65), text(""), rec_key(9), &rec_clock(250));
    assert_eq!(r, Err(Unit09Error::StringTooLong));
    let r = repo.record_observation(1, 1, 0, text(""), "n".repeat(257), rec_key(9), &rec_clock(250));
    assert_eq!(r, Err(Unit09Error::StringTooLong));
    assert_eq!(repo, sample_repo());
    let r =
        repo.record_observation(1, 1, 0, "r".repeat(64), "n".repeat(256), rec_key(9), &rec_clock(250));
    assert_eq!(r, Ok(()));
}

#[test]
fn repo_observation_cap() {
    let mut repo = Repo { observation_limit: 2, ..sample_repo() };
    assert_eq!(repo.record_observation(1, 1, 0, text(""), text(""), rec_key(9), &rec_clock(1)), Ok(()));
    assert_eq!(repo.record_observation(1, 1, 0, text(""), text(""), rec_key(9), &rec_clock(2)), Ok(()));
    let before = repo.clone();
    assert_eq!(
        repo.record_observation(1, 1, 0, text(""), text(""), rec_key(9), &rec_clock(3)),
        Err(Unit09Error::RepoObservationLimitReached)
    );
    assert_eq!(repo, before);
    assert_eq!(
        repo.check_observation(1, 1, 0, "", ""),
        Err(Unit09Error::RepoObservationLimitReached)
    );
}

#[test]
fn repo_observation_overflow() {
    let mut repo = Repo {
        total_lines_of_code: u64::MAX - 1,
        observation_limit: u64::MAX,
        ..sample_repo()
    };
    let before = repo.clone();
    assert_eq!(
        repo.record_observation(2, 1, 0, text(""), text(""), rec_key(9), &rec_clock(1)),
        Err(Unit09Error::CounterOverflow)
    );
    assert_eq!(repo, before);
    assert_eq!(repo.record_observation(1, 1, 0, text(""), text(""), rec_key(9), &rec_clock(1)), Ok(()));
    assert_eq!(repo.total_lines_of_code, u64::MAX);
}

#[test]
fn repo_update_is_sparse() {
    let mut repo = sample_repo();
    let r = repo.apply_update(None, None, None, None, None, None, &rec_clock(400));
    assert_eq!(r, Ok(()));
    assert_eq!(repo, Repo { updated_at: 400, ..sample_repo() });
    let r = repo.apply_update(
        Some(text("new")),
        None,
        Some(text("")),
        Some(false),
        Some(false),
        Some(10),
        &rec_clock(500),
    );
    assert_eq!(r, Ok(()));
    assert_eq!(
        repo,
        Repo {
            name: text("new"),
            tags: text(""),
            is_active: false,
            allow_observation: false,
            observation_limit: 10,
            updated_at: 500,
            ..sample_repo()
        }
    );
    let before = repo.clone();
    let r = repo.apply_update(Some(text("x")), Some(text("")), None, Some(true), None, None, &rec_clock(600));
    assert_eq!(r, Err(Unit09Error::StringEmpty));
    assert_eq!(repo, before);
}

#[test]
fn repo_module_room() {
    let mut repo = sample_repo();
    assert_eq!(repo.assert_module_room(1), Ok(()));
    assert_eq!(repo.assert_module_room(0), Err(Unit09Error::RepoModuleLimitReached));
    assert_eq!(repo.count_module(1, &rec_clock(7)), Ok(()));
    assert_eq!(repo.module_count, 1);
    assert_eq!(repo.updated_at, 7);
    assert_eq!(repo.count_module(1, &rec_clock(8)), Err(Unit09Error::RepoModuleLimitReached));
    assert_eq!(repo.module_count, 1);
    assert_eq!(repo.updated_at, 7);
}

#[test]
fn fork_init_sets_every_field() {
    assert_eq!(
        sample_fork(),
        Fork {
            fork_key: rec_key(3),
            parent: Pubkey::default(),
            owner: rec_key(4),
            label: text("lab-alpha"),
            metadata_uri: text("ipfs://manifest"),
            tags: text(""),
            is_root: true,
            is_active: true,
            depth: 0,
            created_at: 100,
            updated_at: 100,
            bump: 252,
        }
    );
}

#[test]
fn fork_init_checks_label_then_uri_then_tags() {
    let mut fork = Fork::default();
    let k = rec_key(1);
    let c = rec_clock(1);
    assert_eq!(
        fork.init(k, k, k, text(""), text(""), text(""), false, 1, 1, &c),
        Err(Unit09Error::StringEmpty)
    );
    assert_eq!(
        fork.init(k, k, k, "l".repeat(65), text(""), text(""), false, 1, 1, &c),
        Err(Unit09Error::StringTooLong)
    );
    assert_eq!(
        fork.init(k, k, k, text("l"), text(""), "t".repeat(500), false, 1, 1, &c),
        Err(Unit09Error::StringEmpty)
    );
    assert_eq!(
        fork.init(k, k, k, text("l"), "u".repeat(257), text(""), false, 1, 1, &c),
        Err(Unit09Error::StringTooLong)
    );
    assert_eq!(
        fork.init(k, k, k, text("l"), text("u"), "t".repeat(129), false, 1, 1, &c),
        Err(Unit09Error::StringTooLong)
    );
    assert_eq!(fork, Fork::default());
    assert_eq!(
        fork.init(k, k, k, "l".repeat(64), "u".repeat(256), "t".repeat(128), false, 9, 1, &c),
        Ok(())
    );
    assert_eq!(fork.depth, 9);
    assert!(!fork.is_root);
}

#[test]
fn fork_label_bound_is_in_bytes() {
    assert_eq!(Fork::MAX_LABEL_LEN, 64);
    assert_eq!(Fork::MAX_METADATA_URI_LEN, 256);
    assert_eq!(Fork::MAX_TAGS_LEN, 128);
    let two_bytes_each = "\u{e9}".repeat(33);
    assert_eq!(Fork::check_texts(&two_bytes_each, "u", ""), Err(Unit09Error::StringTooLong));
    assert_eq!(Fork::check_texts(&"\u{e9}".repeat(32), "u", ""), Ok(()));
}

#[test]
fn fork_depth_defaults() {
    assert_eq!(Fork::resolve_depth(true, None), 0);
    assert_eq!(Fork::resolve_depth(false, None), 1);
    assert_eq!(Fork::resolve_depth(true, Some(7)), 7);
    assert_eq!(Fork::resolve_depth(false, Some(7)), 7);
    assert_eq!(Fork::resolve_depth(false, Some(0)), 0);
    assert_eq!(Fork::resolve_depth(true, Some(u16::MAX)), u16::MAX);
}

#[test]
fn fork_guards() {
    let mut fork = sample_fork();
    assert_eq!(fork.assert_owner(&rec_key(4)), Ok(()));
    assert_eq!(fork.assert_owner(&rec_key(3)), Err(Unit09Error::InvalidForkOwner));
    fork.owner = rec_key(3);
    assert_eq!(fork.assert_owner(&rec_key(3)), Ok(()));
    assert_eq!(fork.assert_owner(&rec_key(4)), Err(Unit09Error::InvalidForkOwner));
}

#[test]
fn fork_update_is_sparse() {
    let mut fork = sample_fork();
    assert_eq!(fork.apply_update(None, None, None, None, &rec_clock(200)), Ok(()));
    assert_eq!(fork, Fork { updated_at: 200, ..sample_fork() });
    assert_eq!(
        fork.apply_update(Some(text("beta")), None, Some(text("x,y")), Some(false), &rec_clock(300)),
        Ok(())
    );
    assert_eq!(
        fork,
        Fork {
            label: text("beta"),
            tags: text("x,y"),
            is_active: false,
            updated_at: 300,
            ..sample_fork()
        }
    );
    let before = fork.clone();
    assert_eq!(
        fork.apply_update(Some(text("gamma")), Some(text("")), None, Some(true), &rec_clock(400)),
        Err(Unit09Error::StringEmpty)
    );
    assert_eq!(fork, before);
    assert_eq!(
        fork.apply_update(None, None, Some("t".repeat(129)), None, &rec_clock(400)),
        Err(Unit09Error::StringTooLong)
    );
    assert_eq!(fork, before);
}

#[test]
fn module_init_sets_every_field() {
    assert_eq!(
        sample_module(),
        Module {
            module_key: rec_key(5),
            repo: rec_key(1),
            authority: rec_key(2),
            name: text("parser"),
            metadata_uri: text("ipfs://module"),
            category: text("tooling"),
            tags: text("a,b"),
            version: Version { major: 1, minor: 2, patch: 3 },
            is_active: true,
            is_deprecated: false,
            created_at: 100,
            updated_at: 100,
            bump: 251,
        }
    );
}

#[test]
fn module_text_bounds() {
    assert_eq!(Module::check_texts("", "u", "", ""), Err(Unit09Error::StringEmpty));
    assert_eq!(Module::check_texts("n", "", "", ""), Err(Unit09Error::StringEmpty));
    assert_eq!(Module::check_texts(&"n".repeat(65), "u", "", ""), Err(Unit09Error::StringTooLong));
    assert_eq!(Module::check_texts("n", &"u".repeat(257), "", ""), Err(Unit09Error::StringTooLong));
    assert_eq!(Module::check_texts("n", "u", &"c".repeat(65), ""), Err(Unit09Error::StringTooLong));
    assert_eq!(Module::check_texts("n", "u", "", &"t".repeat(129)), Err(Unit09Error::StringTooLong));
    assert_eq!(
        Module::check_texts(&"n".repeat(64), &"u".repeat(256), &"c".repeat(64), &"t".repeat(128)),
        Ok(())
    );
    let mut module = Module::default();
    let r = module.init(
        rec_key(5),
        rec_key(1),
        rec_key(2),
        text(""),
        text("u"),
        text(""),
        text(""),
        Version::default(),
        1,
        &rec_clock(1),
    );
    assert_eq!(r, Err(Unit09Error::StringEmpty));
    assert_eq!(module, Module::default());
}

#[test]
fn module_update_and_guards() {
    let mut module = sample_module();
    assert_eq!(module.assert_authority(&rec_key(2)), Ok(()));
    assert_eq!(module.assert_authority(&rec_key(5)), Err(Unit09Error::InvalidAuthority));
    assert_eq!(module.assert_active(), Ok(()));
    let r = module.apply_update(
        None,
        None,
        Some(text("")),
        None,
        Some(Version { major: 2, minor: 0, patch: 0 }),
        Some(false),
        Some(true),
        &rec_clock(900),
    );
    assert_eq!(r, Ok(()));
    assert_eq!(
        module,
        Module {
            category: text(""),
            version: Version { major: 2, minor: 0, patch: 0 },
            is_active: false,
            is_deprecated: true,
            updated_at: 900,
            ..sample_module()
        }
    );
    assert_eq!(module.assert_active(), Err(Unit09Error::ModuleInactive));
    let before = module.clone();
    let r = module.apply_update(Some(text("")), None, None, None, None, Some(true), None, &rec_clock(901));
    assert_eq!(r, Err(Unit09Error::StringEmpty));
    assert_eq!(module, before);
    module.link_to(rec_key(7), &rec_clock(950));
    assert_eq!(module, Module { repo: rec_key(7), updated_at: 950, ..before });
}

#[test]
fn metadata_update_is_sparse_and_bounded() {
    let mut metadata = GlobalMetadata { bump: 4, ..GlobalMetadata::default() };
    let r = metadata.apply_update(Some(text("about")), None, Some(text("https://docs")), None, &rec_clock(10));
    assert_eq!(r, Ok(()));
    assert_eq!(
        metadata,
        GlobalMetadata {
            description: text("about"),
            tags: text(""),
            docs_uri: text("https://docs"),
            dashboard_uri: text(""),
            updated_at: 10,
            bump: 4,
        }
    );
    let before = metadata.clone();
    for (d, t, o, b) in [
        (Some("d".repeat(513)), None, None, None),
        (None, Some("t".repeat(129)), None, None),
        (None, None, Some("u".repeat(257)), None),
        (Some(text("ok")), None, None, Some("u".repeat(257))),
    ] {
        assert_eq!(metadata.apply_update(d, t, o, b, &rec_clock(11)), Err(Unit09Error::MetadataTooLong));
        assert_eq!(metadata, before);
    }
    let r = metadata.apply_update(
        Some("d".repeat(512)),
        Some("t".repeat(128)),
        Some("u".repeat(256)),
        Some(text("")),
        &rec_clock(12),
    );
    assert_eq!(r, Ok(()));
    assert_eq!(metadata.updated_at, 12);
    assert_eq!(metadata.description.len(), 512);
}
