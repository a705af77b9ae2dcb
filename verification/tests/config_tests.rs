use rmcp_proxy::config::{
    get_config_dir, lists_process, AuthConfig, ConfigError, ConfigManager, DirEvent, DirStep,
    FilePath, LoadEvent, LoadStep, LockEvent, LockFile, LockStep, RemoveEvent, RemoveStep,
    SaveEvent, SaveStep, MCP_REMOTE_VERSION,
};
use rmcp_proxy::outside::Clock;
use rmcp_proxy::utils::now_seconds;

fn shown(path: &FilePath) -> String {
    match path {
        FilePath::Root(root) => root.clone(),
        FilePath::Within(dir, name) => format!("{}|{}", shown(dir), name),
    }
}

fn files() -> ConfigManager {
    ConfigManager::new(FilePath::Root("/cfg".to_string()))
}

fn tokens() -> AuthConfig {
    AuthConfig {
        server_url: "https://example.com".to_string(),
        access_token: Some("at".to_string()),
        refresh_token: Some("rt".to_string()),
        expires_at: Some(7),
        auth_state: None,
        session_id: "sid".to_string(),
    }
}

fn lock(pid: u32, created_at: u64) -> LockFile {
    LockFile {
        session_id: "other".to_string(),
        server_url: "https://example.com".to_string(),
        callback_port: 1,
        created_at,
        pid,
    }
}

#[test]
fn config_dir_is_named_or_in_the_home() {
    assert_eq!(MCP_REMOTE_VERSION, "0.1.0");
    let named = get_config_dir(Some("/named".to_string()), Some("/home/u".to_string()));
    assert_eq!(shown(&named), "/named|mcp-proxy-rust-0.1.0");
    let home = get_config_dir(None, Some("/home/u".to_string()));
    assert_eq!(shown(&home), "/home/u|.mcp-auth|mcp-proxy-rust-0.1.0");
    let neither = get_config_dir(None, None);
    assert_eq!(shown(&neither), ".|.mcp-auth|mcp-proxy-rust-0.1.0");
}

#[test]
fn files_are_named_by_hash_and_differ() {
    let files = files();
    let auth = shown(&files.get_auth_config_path("1f"));
    let lock = shown(&files.get_lock_file_path("1f"));
    let registration = shown(&files.get_registration_path("1f"));
    assert_eq!(auth, "/cfg|auth-1f.json");
    assert_eq!(lock, "/cfg|auth-1f.lock");
    assert_eq!(registration, "/cfg|client-registration-1f.json");
    assert_ne!(auth, lock);
    assert_ne!(auth, registration);
    assert_ne!(auth, shown(&files.get_auth_config_path("2f")));
}

#[test]
fn errors_are_shown() {
    assert_eq!(ConfigError::Io("x".to_string()).message(), "IO error: x");
    assert_eq!(ConfigError::Json("x".to_string()).message(), "JSON error: x");
    let missing: ConfigError = ConfigError::NotFound;
    assert_eq!(missing.message(), "Config not found");
    assert_eq!(ConfigError::Lock("x".to_string()).message(), "Lock error: x");
}

#[test]
fn copies_hold_the_same() {
    let c = tokens().clone();
    assert_eq!(format!("{:?}", c), format!("{:?}", tokens()));
    let l = lock(1, 2).clone();
    assert_eq!(format!("{:?}", l), format!("{:?}", lock(1, 2)));
    let path = files().get_auth_config_path("h").copy();
    assert_eq!(shown(&path), "/cfg|auth-h.json");
}

#[test]
fn directory_is_made_only_where_it_is_missing() {
    assert!(matches!(files().ensure_config_dir(), DirStep::Probe { .. }));
    let there = files().ensure_config_dir().next(DirEvent::Exists(true));
    assert!(matches!(there, DirStep::Done(Ok(()))));
    let missing = files().ensure_config_dir().next(DirEvent::Exists(false));
    match &missing {
        DirStep::Create { dir } => assert_eq!(shown(dir), "/cfg"),
        other => panic!("{:?}", other),
    }
    assert!(matches!(missing.next(DirEvent::Created(Ok(()))), DirStep::Done(Ok(()))));
    let refused = files()
        .ensure_config_dir()
        .next(DirEvent::Exists(false))
        .next(DirEvent::Created(Err("denied".to_string())));
    match refused {
        DirStep::Done(Err(e)) => assert_eq!(e.message(), "IO error: denied"),
        other => panic!("{:?}", other),
    }
}

#[test]
fn kept_tokens_are_read_back() {
    let write = files()
        .save_auth_config("h", &tokens())
        .next(SaveEvent::Dir(Ok(())))
        .next(SaveEvent::Serialized(Ok("{json}".to_string())));
    let written_to = match &write {
        SaveStep::Write { path, text } => {
            assert_eq!(text, "{json}");
            shown(path)
        }
        other => panic!("{:?}", other),
    };
    assert!(matches!(write.next(SaveEvent::Written(Ok(()))), SaveStep::Done(Ok(()))));
    let read = files().load_auth_config("h").next(LoadEvent::Exists(true));
    match &read {
        LoadStep::Read { path } => assert_eq!(shown(path), written_to),
        other => panic!("{:?}", other),
    }
    let parse = read.next(LoadEvent::Contents(Ok("{json}".to_string())));
    match &parse {
        LoadStep::Parse { text } => assert_eq!(text, "{json}"),
        other => panic!("{:?}", other),
    }
    match parse.next(LoadEvent::Parsed(Ok(tokens()))) {
        LoadStep::Done(Ok(config)) => {
            assert_eq!(format!("{:?}", config), format!("{:?}", tokens()));
        }
        other => panic!("{:?}", other),
    }
}

#[test]
fn reading_fails_with_the_reason() {
    let missing = files().load_auth_config("h").next(LoadEvent::Exists(false));
    assert!(matches!(missing, LoadStep::Done(Err(ConfigError::NotFound))));
    let unreadable = files()
        .load_auth_config("h")
        .next(LoadEvent::Exists(true))
        .next(LoadEvent::Contents(Err("denied".to_string())));
    match unreadable {
        LoadStep::Done(Err(ConfigError::Io(m))) => assert_eq!(m, "denied"),
        other => panic!("{:?}", other),
    }
    let no_json = files()
        .load_auth_config("h")
        .next(LoadEvent::Exists(true))
        .next(LoadEvent::Contents(Ok("x".to_string())))
        .next(LoadEvent::Parsed(Err("expected value".to_string())));
    match no_json {
        LoadStep::Done(Err(ConfigError::Json(m))) => assert_eq!(m, "expected value"),
        other => panic!("{:?}", other),
    }
}

#[test]
fn keeping_fails_with_the_reason() {
    let no_dir = files()
        .save_auth_config("h", &tokens())
        .next(SaveEvent::Dir(Err(ConfigError::Io("full".to_string()))));
    assert!(matches!(no_dir, SaveStep::Done(Err(ConfigError::Io(_)))));
    let no_text = files()
        .save_auth_config("h", &tokens())
        .next(SaveEvent::Dir(Ok(())))
        .next(SaveEvent::Serialized(Err("key".to_string())));
    assert!(matches!(no_text, SaveStep::Done(Err(ConfigError::Json(_)))));
    let no_file = files()
        .save_auth_config("h", &tokens())
        .next(SaveEvent::Dir(Ok(())))
        .next(SaveEvent::Serialized(Ok("t".to_string())))
        .next(SaveEvent::Written(Err("denied".to_string())));
    assert!(matches!(no_file, SaveStep::Done(Err(ConfigError::Io(_)))));
}

#[test]
fn event_that_is_not_awaited_changes_nothing() {
    let step = files().load_auth_config("h").next(LoadEvent::Parsed(Ok(tokens())));
    assert!(matches!(step, LoadStep::Probe { .. }));
    let done = files()
        .load_auth_config("h")
        .next(LoadEvent::Exists(false))
        .next(LoadEvent::Exists(true));
    assert!(matches!(done, LoadStep::Done(Err(ConfigError::NotFound))));
}

fn at_lock_check(existing: LockFile) -> LockStep {
    files()
        .create_lock_file("h", "https://example.com", 9292)
        .next(LockEvent::Dir(Ok(())))
        .next(LockEvent::Existing(Ok(existing)))
}

#[test]
fn lock_that_holds_is_returned() {
    let step = at_lock_check(lock(5, 1_000)).next(LockEvent::Process { running: true, now: 1_600 });
    match step {
        LockStep::Done(Ok(l)) => assert_eq!(l.pid, 5),
        other => panic!("{:?}", other),
    }
}

#[test]
fn stale_lock_is_replaced() {
    for (running, now) in [(false, 1_000), (true, 1_601)] {
        let step = at_lock_check(lock(5, 1_000)).next(LockEvent::Process { running, now });
        match &step {
            LockStep::RemoveStale { request } => {
                assert_eq!(shown(&request.path), "/cfg|auth-h.lock");
            }
            other => panic!("{:?}", other),
        }
        assert!(matches!(step.next(LockEvent::Removed), LockStep::Stamp { .. }));
    }
}

#[test]
fn new_lock_is_for_the_request() {
    let create = files()
        .create_lock_file("h", "https://example.com", 9292)
        .next(LockEvent::Dir(Ok(())))
        .next(LockEvent::Existing(Err(ConfigError::NotFound)))
        .next(LockEvent::Stamp { session_id: "id".to_string(), now: 77, pid: 42 })
        .next(LockEvent::Serialized(Ok("{lock}".to_string())));
    match &create {
        LockStep::Create { path, text, lock } => {
            assert_eq!(shown(path), "/cfg|auth-h.lock");
            assert_eq!(text, "{lock}");
            assert_eq!(lock.session_id, "id");
            assert_eq!(lock.server_url, "https://example.com");
            assert_eq!(lock.callback_port, 9292);
            assert_eq!(lock.created_at, 77);
            assert_eq!(lock.pid, 42);
        }
        other => panic!("{:?}", other),
    }
    match create.next(LockEvent::Created(Ok(()))) {
        LockStep::Done(Ok(l)) => assert_eq!((l.pid, l.created_at), (42, 77)),
        other => panic!("{:?}", other),
    }
}

#[test]
fn locks_are_stamped_and_checked_by_the_clock() {
    let before = now_seconds(&mut Clock::new());
    match LockEvent::stamp(42, &mut Clock::new()) {
        LockEvent::Stamp { session_id, now, pid } => {
            assert_eq!(session_id.len(), 36);
            assert!(now >= before);
            assert_eq!(pid, 42);
        }
        other => panic!("{:?}", other),
    }
    match LockEvent::process_checked(true, &mut Clock::new()) {
        LockEvent::Process { running, now } => assert!(running && now >= before),
        other => panic!("{:?}", other),
    }
}

#[test]
fn lock_without_an_expiry_is_not_accepted() {
    let never = at_lock_check(lock(5, u64::MAX - 599));
    assert!(!never.is_accepted(&LockEvent::Process { running: true, now: 0 }));
    assert!(never.is_accepted(&LockEvent::Process { running: false, now: 0 }));
    let last = at_lock_check(lock(5, u64::MAX - 600));
    assert!(last.is_accepted(&LockEvent::Process { running: true, now: 0 }));
    assert!(last.is_accepted(&LockEvent::Removed));
}

#[test]
fn unreadable_lock_counts_as_none() {
    let step = files()
        .create_lock_file("h", "u", 1)
        .next(LockEvent::Dir(Ok(())))
        .next(LockEvent::Existing(Err(ConfigError::Json("bad".to_string()))));
    assert!(matches!(step, LockStep::Stamp { .. }));
}

#[test]
fn taking_a_lock_fails_with_the_reason() {
    let no_dir = files()
        .create_lock_file("h", "u", 1)
        .next(LockEvent::Dir(Err(ConfigError::Io("full".to_string()))));
    assert!(matches!(no_dir, LockStep::Done(Err(ConfigError::Io(_)))));
    let stamped = || {
        files()
            .create_lock_file("h", "u", 1)
            .next(LockEvent::Dir(Ok(())))
            .next(LockEvent::Existing(Err(ConfigError::NotFound)))
            .next(LockEvent::Stamp { session_id: "id".to_string(), now: 7, pid: 4 })
    };
    let no_text = stamped().next(LockEvent::Serialized(Err("x".to_string())));
    assert!(matches!(no_text, LockStep::Done(Err(ConfigError::Json(_)))));
    let taken = stamped()
        .next(LockEvent::Serialized(Ok("t".to_string())))
        .next(LockEvent::Created(Err("File exists".to_string())));
    assert!(matches!(taken, LockStep::Done(Err(ConfigError::Io(_)))));
}

#[test]
fn lock_is_read_and_released_where_it_is_taken() {
    match files().read_lock_file("h") {
        LoadStep::Probe { path } => assert_eq!(shown(&path), "/cfg|auth-h.lock"),
        other => panic!("{:?}", other),
    }
    let remove = files().remove_lock_file("h").next(RemoveEvent::Exists(true));
    match &remove {
        RemoveStep::Remove { path } => assert_eq!(shown(path), "/cfg|auth-h.lock"),
        other => panic!("{:?}", other),
    }
    assert!(matches!(remove.next(RemoveEvent::Removed(Ok(()))), RemoveStep::Done(Ok(()))));
    let gone = files().remove_lock_file("h").next(RemoveEvent::Exists(false));
    assert!(matches!(gone, RemoveStep::Done(Ok(()))));
    let refused = files()
        .remove_lock_file("h")
        .next(RemoveEvent::Exists(true))
        .next(RemoveEvent::Removed(Err("denied".to_string())));
    assert!(matches!(refused, RemoveStep::Done(Err(ConfigError::Io(_)))));
}

#[test]
fn process_is_found_in_a_listing() {
    let listing = "Image Name   PID Session\nmcp-proxy.exe  4321 Console";
    assert!(lists_process(listing, 4321));
    assert!(!lists_process(listing, 4322));
    assert!(!lists_process("INFO: No tasks are running", 7));
}

#[test]
fn taking_a_lock_ends_within_seven_steps() {
    let mut step = files().create_lock_file("h", "u", 1);
    let mut steps = 0;
    loop {
        let event = match &step {
            LockStep::EnsureDir { .. } => LockEvent::Dir(Ok(())),
            LockStep::ReadLock { .. } => LockEvent::Existing(Ok(lock(5, 0))),
            LockStep::CheckProcess { .. } => LockEvent::Process { running: false, now: 0 },
            LockStep::RemoveStale { .. } => LockEvent::Removed,
            LockStep::Stamp { .. } => LockEvent::stamp(6, &mut Clock::new()),
            LockStep::Serialize { .. } => LockEvent::Serialized(Ok("t".to_string())),
            LockStep::Create { .. } => LockEvent::Created(Ok(())),
            LockStep::Done(_) => break,
        };
        steps += 1;
        step = step.next(event);
    }
    assert_eq!(steps, 7);
    assert!(matches!(step, LockStep::Done(Ok(l)) if l.pid == 6));
}
