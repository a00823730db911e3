use filehide::batch::{plan_batch, record_outcome, empty_batch_result, BatchRun};
use filehide::file_attributes::attributes_to_hide;
use filehide::locking::{hide_accepts_exec, hide_start, hide_step, HidePhase};
use filehide::marker::{marker_content, parse_recovery_marker, recovery_stream_path};
use filehide::models::HiddenItem;
use filehide::password::{
    authorize_password_change, authorize_password_change_with_salt, authorize_password_removal, password_hash,
    password_hash_with_salt, password_matches, validate_new_password,
};
use filehide::paths::{
    deduplicate_paths, eq_ignore_ascii_case, find_renamed_sibling, format_file_identity, identity_text_well_formed,
    resolve_target_path, wide, SiblingObservation,
};
use filehide::recovery::{recover_accepts_exec, recover_start, recover_step, RecoverPhase};
use filehide::restoring::{restore_accepts_exec, restore_start, restore_step, RestorePhase};
use filehide::scan::{recovery_candidate, validate_scan_id, EntryVerdict, RecoveryScan};
use filehide::session::{
    check_session, check_session_at, lock_session, new_session, require_access, require_access_at,
    session_expired, unlock_session, unlock_session_at, verify_password, verify_password_at, SessionState,
};
use filehide::status::{identity_changed, listed_item, with_path_changed, with_protection_status, with_renamed_path};
use filehide::text::{is_blank, is_control, is_whitespace, parse_unsigned_chars, split_lines, str_chars};
use filehide::transaction::{Action, Event, TxError};
use filehide::webview::{is_valid_webview_version, registry_version_text};
use filehide::marker::RecoveryMarker;

fn item(id: i64, path: &str, status: i32, original: u32) -> HiddenItem {
    HiddenItem {
        id,
        path: path.to_string(),
        item_type: "FILE".to_string(),
        original_attributes: original,
        current_status: status,
        protection_status: "UNKNOWN".to_string(),
        create_time: "t0".to_string(),
        update_time: "t1".to_string(),
        file_id: Some("5:7".to_string()),
    }
}

// ---------------------------------------------------------------- markers

#[test]
fn marker_content_is_three_lines() {
    assert_eq!(marker_content("FILE", 0x20), "FILEHIDE/1\nFILE\n32\n");
    assert_eq!(marker_content("FOLDER", 0), "FILEHIDE/1\nFOLDER\n0\n");
    assert_eq!(marker_content("FILE", u32::MAX), "FILEHIDE/1\nFILE\n4294967295\n");
}

#[test]
fn marker_round_trip_for_many_masks() {
    for value in [0u32, 1, 9, 10, 36, 0x26, 0x400, 123456, u32::MAX - 1, u32::MAX] {
        for kind in ["FILE", "FOLDER"] {
            let marker = parse_recovery_marker(&marker_content(kind, value)).unwrap();
            assert_eq!(marker.item_type, kind);
            assert_eq!(marker.original_attributes, value);
        }
    }
}

#[test]
fn marker_parsing_follows_lines_and_number_parsing() {
    // CRLF line endings and a missing final newline are accepted.
    assert_eq!(parse_recovery_marker("FILEHIDE/1\r\nFILE\r\n7\r\n").unwrap().original_attributes, 7);
    assert_eq!(parse_recovery_marker("FILEHIDE/1\nFILE\n7").unwrap().original_attributes, 7);
    // A leading plus sign and leading zeros parse as str::parse does.
    assert_eq!(parse_recovery_marker("FILEHIDE/1\nFILE\n+007\n").unwrap().original_attributes, 7);
    // Too large, signed, empty, extra lines, wrong kind, wrong version.
    assert!(parse_recovery_marker("FILEHIDE/1\nFILE\n4294967296\n").is_none());
    assert!(parse_recovery_marker("FILEHIDE/1\nFILE\n-1\n").is_none());
    assert!(parse_recovery_marker("FILEHIDE/1\nFILE\n\n").is_none());
    assert!(parse_recovery_marker("FILEHIDE/1\nFILE\n+\n").is_none());
    assert!(parse_recovery_marker("FILEHIDE/1\nFILE\n7\n\n").is_none());
    assert!(parse_recovery_marker("FILEHIDE/1\nFILE\n7\nmore\n").is_none());
    assert!(parse_recovery_marker("FILEHIDE/1\nfile\n7\n").is_none());
    assert!(parse_recovery_marker("FILEHIDE/2\nFILE\n7\n").is_none());
    assert!(parse_recovery_marker("FILEHIDE/1\nFILE\n 7\n").is_none());
    assert!(parse_recovery_marker("").is_none());
    // A bare carriage return at the end stays part of the last line.
    assert!(parse_recovery_marker("FILEHIDE/1\nFILE\n7\r").is_none());
}

#[test]
fn number_parsing_agrees_with_std() {
    let samples = [
        "0", "7", "+7", "007", "-7", "", "+", "4294967295", "4294967296", "18446744073709551615",
        "18446744073709551616", "1_000", " 1", "1 ", "12a", "٣", "99999999999999999999999",
    ];
    for s in samples {
        let chars: Vec<char> = s.chars().collect();
        let ours32 = parse_unsigned_chars(&chars, 0, chars.len(), u32::MAX as u64);
        assert_eq!(ours32, s.parse::<u32>().ok().map(|v| v as u64), "u32 {s:?}");
        let ours64 = parse_unsigned_chars(&chars, 0, chars.len(), u64::MAX);
        assert_eq!(ours64, s.parse::<u64>().ok(), "u64 {s:?}");
    }
}

#[test]
fn line_splitting_agrees_with_std() {
    let samples = ["", "a", "a\n", "a\n\n", "\n", "a\r\nb", "a\rb\n", "x\r", "\r\n", "a\n\r\nb\r\n", "é\nü"];
    for s in samples {
        let chars: Vec<char> = s.chars().collect();
        let ours: Vec<String> = split_lines(&chars).iter().map(|l| l.iter().collect()).collect();
        let expected: Vec<String> = s.lines().map(|l| l.to_string()).collect();
        assert_eq!(ours, expected, "{s:?}");
    }
}

#[test]
fn stream_path_appends_the_stream_name() {
    assert_eq!(recovery_stream_path(r"C:\Private\a.txt"), r"C:\Private\a.txt:FileHide");
}

// ---------------------------------------------------------------- paths

#[test]
fn wide_is_utf16_with_a_terminator() {
    for s in ["", r"C:\a", "报告.docx", "emoji 😀 path"] {
        let mut expected: Vec<u16> = s.encode_utf16().collect();
        expected.push(0);
        assert_eq!(wide(s), expected);
    }
}

#[test]
fn deduplicate_drops_blanks_and_case_duplicates() {
    let paths = vec![
        r"C:\A.txt".to_string(),
        "   ".to_string(),
        r"c:\a.TXT".to_string(),
        r"C:\B.txt".to_string(),
        "".to_string(),
        r"C:\a.txt".to_string(),
    ];
    assert_eq!(deduplicate_paths(paths), vec![r"C:\A.txt".to_string(), r"C:\B.txt".to_string()]);
}

#[test]
fn deduplicate_keeps_at_most_256_paths() {
    let paths: Vec<String> = (0..300).map(|i| format!("p{i}")).collect();
    let kept = deduplicate_paths(paths.clone());
    assert_eq!(kept.len(), 256);
    assert_eq!(kept, paths[..256].to_vec());
}

#[test]
fn blank_means_only_white_space() {
    assert!(is_blank(""));
    assert!(is_blank(" \t\n\u{3000}"));
    assert!(!is_blank(" x "));
    for s in ["", " ", "\u{85}", "\u{a0}x", "\u{200b}", " a"] {
        assert_eq!(is_blank(s), s.trim().is_empty(), "{s:?}");
    }
}

#[test]
fn ascii_case_insensitive_comparison() {
    assert!(eq_ignore_ascii_case(r"C:\Dir\File.TXT", r"c:\dir\file.txt"));
    assert!(!eq_ignore_ascii_case("Ä", "ä"));
    assert!(!eq_ignore_ascii_case("ab", "abc"));
}

#[test]
fn file_identity_text() {
    assert_eq!(format_file_identity(5, 7), "5:7");
    assert_eq!(format_file_identity(0x1234_ABCD, 0x0001_0000_0000_002A), "305441741:281474976710698");
    assert_eq!(format_file_identity(u32::MAX, u64::MAX), format!("{}:{}", u32::MAX, u64::MAX));
    assert_ne!(format_file_identity(1, 23), format_file_identity(12, 3));
}

#[test]
fn resolving_a_target_checks_each_observation() {
    let ok = resolve_target_path(r"C:\x", false, Ok(0x20), Some(r"\\?\C:\x".to_string()), Some(false));
    assert_eq!(ok, Ok(r"C:\x".to_string()));
    assert_eq!(
        resolve_target_path("  ", false, Ok(0x20), None, None),
        Err("请选择要锁定的路径".to_string())
    );
    assert_eq!(
        resolve_target_path("x", false, Err("无法读取文件属性：x".to_string()), None, None),
        Err("无法读取文件属性：x".to_string())
    );
    assert_eq!(
        resolve_target_path("x", false, Ok(0x400), Some("x".to_string()), Some(false)),
        Err("不支持锁定符号链接或联接点，请选择实际文件或文件夹".to_string())
    );
    assert_eq!(
        resolve_target_path("x", false, Ok(0x20), None, Some(false)),
        Err("路径不存在或无法访问：x".to_string())
    );
    assert_eq!(
        resolve_target_path("x", true, Ok(0x20), Some("x".to_string()), Some(false)),
        Err("请选择文件夹".to_string())
    );
    assert_eq!(
        resolve_target_path("x", false, Ok(0x20), Some("x".to_string()), Some(true)),
        Err("请选择文件".to_string())
    );
}

#[test]
fn renamed_sibling_is_the_first_matching_entry() {
    let entry = |path: &str, attributes: Option<u32>, dir: Option<bool>, id: Option<&str>| SiblingObservation {
        path: path.to_string(),
        attributes,
        is_directory: dir,
        identity: id.map(|s| s.to_string()),
    };
    let entries = vec![
        entry(r"C:\d\OLD.txt", Some(0x26), Some(false), Some("1:2")),
        entry(r"C:\d\link", Some(0x426), Some(false), Some("1:2")),
        entry(r"C:\d\folder", Some(0x26), Some(true), Some("1:2")),
        entry(r"C:\d\other", Some(0x26), Some(false), Some("9:9")),
        entry(r"\\?\C:\d\new.txt", Some(0x26), Some(false), Some("1:2")),
        entry(r"C:\d\newer.txt", Some(0x26), Some(false), Some("1:2")),
    ];
    assert_eq!(
        find_renamed_sibling(r"C:\d\old.txt", "FILE", "1:2", &entries),
        Some(r"C:\d\new.txt".to_string())
    );
    assert_eq!(find_renamed_sibling(r"C:\d\old.txt", "FILE", "3:3", &entries), None);
}

// ---------------------------------------------------------------- status

#[test]
fn item_status_helpers() {
    let it = with_protection_status(item(1, "p", 1, 0x20), Ok(0x26));
    assert_eq!(it.protection_status, "LOCKED");
    let it = with_protection_status(item(1, "p", 1, 0x20), Ok(0x20));
    assert_eq!(it.protection_status, "UNLOCKED_EXTERNALLY");
    let it = with_path_changed(item(1, "p", 1, 0x20));
    assert_eq!(it.protection_status, "PATH_CHANGED");
    let it = with_renamed_path(item(1, "p", 1, 0x20), "q".to_string(), Err(()));
    assert_eq!(it.path, "q");
    assert_eq!(it.protection_status, "MISSING");
    let active = item(1, "p", 1, 0x20);
    assert!(!identity_changed(&active, &Some("5:7".to_string())));
    assert!(identity_changed(&active, &Some("5:8".to_string())));
    assert!(identity_changed(&active, &None));
    assert!(!identity_changed(&item(1, "p", 0, 0x20), &None));
}

// ---------------------------------------------------------------- passwords and sessions

#[test]
fn password_validation_edges() {
    assert_eq!(validate_new_password("1234567"), Err("密码至少需要 8 个字符".to_string()));
    assert!(validate_new_password("12345678").is_ok());
    assert!(validate_new_password(&"a".repeat(128)).is_ok());
    assert_eq!(
        validate_new_password(&"a".repeat(129)),
        Err("密码包含不支持的字符或长度超过限制".to_string())
    );
    assert!(validate_new_password("password\u{7f}").is_err());
    assert!(validate_new_password("password\u{9f}").is_err());
    assert!(validate_new_password("密码密码密码密码").is_ok());
    assert_eq!(password_hash("short"), Err("密码至少需要 8 个字符".to_string()));
}

#[test]
fn session_gate() {
    let mut state = new_session();
    assert!(require_access(false, 15, &mut state).is_ok());
    assert!(!state.unlocked);
    assert_eq!(
        require_access(true, 15, &mut state),
        Err("请先输入访问密码解锁 FileHide".to_string())
    );
    assert!(check_session(false, 15, &mut state));
    assert!(!check_session(true, 15, &mut state));
    unlock_session(&mut state);
    assert!(require_access(true, 15, &mut state).is_ok());
    assert!(check_session(true, 15, &mut state));
    assert!(state.last_activity.is_some());
    lock_session(&mut state);
    assert!(!state.unlocked && state.last_activity.is_none());
    assert!(require_access(true, 0, &mut state).is_err());
}

#[test]
fn gate_decides_on_the_idle_time() {
    let unlocked = || SessionState { unlocked: true, last_activity: Some(std::time::Instant::now()) };
    let now = std::time::Instant::now();

    let mut state = unlocked();
    assert_eq!(
        require_access_at(true, 5, &mut state, Some(300), now),
        Err("会话已自动锁定，请重新输入密码".to_string())
    );
    assert!(!state.unlocked && state.last_activity.is_none());

    let mut state = unlocked();
    assert_eq!(require_access_at(true, 5, &mut state, Some(299), now), Ok(()));
    assert!(state.unlocked && state.last_activity == Some(now));

    let mut state = unlocked();
    assert_eq!(require_access_at(true, 0, &mut state, Some(1_000_000), now), Ok(()));
    assert_eq!(state.last_activity, Some(now));

    let mut state = SessionState { unlocked: true, last_activity: None };
    assert_eq!(require_access_at(true, 5, &mut state, Some(1_000_000), now), Ok(()));

    let mut state = new_session();
    assert_eq!(
        require_access_at(true, 5, &mut state, None, now),
        Err("请先输入访问密码解锁 FileHide".to_string())
    );
    assert!(state.last_activity.is_none());

    let mut state = unlocked();
    let before = state.last_activity;
    assert!(check_session_at(true, 5, &mut state, Some(299)));
    assert_eq!(state.last_activity, before);
    assert!(!check_session_at(true, 5, &mut state, Some(300)));
    assert!(!state.unlocked && state.last_activity.is_none());
    let mut state = new_session();
    assert!(check_session_at(false, 5, &mut state, Some(300)));
    assert!(!check_session_at(true, 5, &mut state, None));
}

#[test]
fn expiry_rule() {
    assert!(!session_expired(0, Some(100_000)));
    assert!(!session_expired(5, None));
    assert!(!session_expired(5, Some(299)));
    assert!(session_expired(5, Some(300)));
    assert!(session_expired(60, Some(3600)));
}

#[test]
fn password_unlock_and_change() {
    let hash = password_hash("correct horse battery staple").unwrap();
    assert!(hash.starts_with("$argon2id$v=19$m=19456,t=2,p=1$"));
    let stored = Some(hash.clone());
    let mut state = new_session();
    assert!(!verify_password("wrong password", &stored, &mut state));
    assert!(!state.unlocked);
    assert!(verify_password("correct horse battery staple", &stored, &mut state));
    assert!(state.unlocked);
    let mut open = new_session();
    assert!(verify_password("anything", &None, &mut open));
    assert!(open.unlocked);

    assert_eq!(
        authorize_password_change(None, "new password 1", &stored),
        Err("请输入当前密码".to_string())
    );
    assert_eq!(
        authorize_password_change(Some("wrong".to_string()), "new password 1", &stored),
        Err("当前密码不正确".to_string())
    );
    let new_hash =
        authorize_password_change(Some("correct horse battery staple".to_string()), "new password 1", &stored)
            .unwrap();
    assert!(new_hash.starts_with("$argon2id$v=19$m=19456,t=2,p=1$"));
    assert_ne!(new_hash, "new password 1");
    assert!(authorize_password_change(None, "first password", &None).is_ok());
    assert_eq!(authorize_password_removal("x", &None), Err("尚未设置访问密码".to_string()));
    assert_eq!(authorize_password_removal("wrong", &stored), Err("当前密码不正确".to_string()));
    assert!(authorize_password_removal("correct horse battery staple", &stored).is_ok());
}

// ---------------------------------------------------------------- transactions

fn run_hide(path: &str, directory: bool, mut events: Vec<Event>) -> (Vec<String>, Result<HiddenItem, String>) {
    let (mut phase, mut action) = hide_start(path.to_string(), directory);
    let mut log = Vec::new();
    events.reverse();
    loop {
        if let Action::Finish(r) = action {
            return (log, r.map_err(|e| e.message()));
        }
        log.push(describe(&action));
        let event = events.pop().expect("an event for every action");
        assert!(hide_accepts_exec(&phase, &event));
        let (p, a) = hide_step(phase, event);
        phase = p;
        action = a;
    }
}

fn describe(action: &Action) -> String {
    match action {
        Action::ResolveTarget { path, expected_directory } => format!("resolve {path} {expected_directory}"),
        Action::ReadMarker { path } => format!("read-marker {path}"),
        Action::FindActive { path } => format!("find-active {path}"),
        Action::ReadAttributes { path } => format!("read-attributes {path}"),
        Action::InsertRecord { path, item_type, original_attributes, record_identity } => {
            format!("insert {path} {item_type} {original_attributes} {record_identity}")
        }
        Action::WriteMarker { path, item_type, original_attributes } => {
            format!("write-marker {path} {item_type} {original_attributes}")
        }
        Action::SetAttributes { path, attributes } => format!("set {path} {attributes}"),
        Action::RemoveMarker { path } => format!("remove-marker {path}"),
        Action::RemoveRecord { id } => format!("remove-record {id}"),
        Action::MarkRestored { id } => format!("mark-restored {id}"),
        Action::FetchRecord { id } => format!("fetch {id}"),
        Action::Finish(_) => "finish".to_string(),
    }
}

#[test]
fn a_successful_lock() {
    let (log, result) = run_hide(
        "a",
        false,
        vec![
            Event::Resolved(Ok("C:\\a".to_string())),
            Event::MarkerRead(None),
            Event::ActiveFound(Ok(None)),
            Event::AttributesRead(Ok(0x20)),
            Event::RecordInserted(Ok(7)),
            Event::MarkerWritten(Ok(true)),
            Event::AttributesSet(Ok(())),
            Event::RecordFetched(Ok(item(7, "C:\\a", 1, 0x20))),
            Event::AttributesRead(Ok(0x26)),
        ],
    );
    assert_eq!(
        log,
        vec![
            "resolve a false",
            "read-marker C:\\a",
            "find-active C:\\a",
            "read-attributes C:\\a",
            "insert C:\\a FILE 32 true",
            "write-marker C:\\a FILE 32",
            "set C:\\a 38",
            "fetch 7",
            "read-attributes C:\\a",
        ]
    );
    let it = result.unwrap();
    assert_eq!(it.id, 7);
    assert_eq!(it.protection_status, "LOCKED");
    assert_eq!(attributes_to_hide(0x20), 38);
}

#[test]
fn a_lock_refuses_marked_or_listed_items() {
    let (_, r) = run_hide("a", true, vec![Event::Resolved(Ok("d".to_string())), Event::MarkerRead(Some(RecoveryMarker {
        item_type: "FOLDER".to_string(),
        original_attributes: 0,
    }))]);
    assert_eq!(r.unwrap_err(), "该项目已带有 FileHide 恢复标记，请使用“找回锁定项目”处理。");
    let (_, r) = run_hide(
        "a",
        true,
        vec![Event::Resolved(Ok("d".to_string())), Event::MarkerRead(None), Event::ActiveFound(Ok(Some(3)))],
    );
    assert_eq!(r.unwrap_err(), "该项目已在隐藏列表中");
    let (_, r) = run_hide("a", true, vec![Event::Resolved(Err("请选择文件夹".to_string()))]);
    assert_eq!(r.unwrap_err(), "请选择文件夹");
}

#[test]
fn a_failed_marker_write_removes_the_marker_and_the_row() {
    let prefix = vec![
        Event::Resolved(Ok("d".to_string())),
        Event::MarkerRead(None),
        Event::ActiveFound(Ok(None)),
        Event::AttributesRead(Ok(0x10)),
        Event::RecordInserted(Ok(4)),
        Event::MarkerWritten(Err("no ADS".to_string())),
    ];
    let mut clean = prefix.clone_events();
    clean.push(Event::MarkerRemoved(Ok(())));
    clean.push(Event::RecordRemoved(Ok(())));
    let (log, r) = run_hide("a", true, clean);
    assert_eq!(&log[log.len() - 2..], &["remove-marker d".to_string(), "remove-record 4".to_string()]);
    assert_eq!(r.unwrap_err(), "no ADS");

    let mut row_left = prefix.clone_events();
    row_left.push(Event::MarkerRemoved(Ok(())));
    row_left.push(Event::RecordRemoved(Err("db busy".to_string())));
    let (_, r) = run_hide("a", true, row_left);
    assert_eq!(r.unwrap_err(), "锁定失败，且无法清理未完成的历史记录（db busy）：no ADS");

    let mut both_left = prefix.clone_events();
    both_left.push(Event::MarkerRemoved(Err("in use".to_string())));
    both_left.push(Event::RecordRemoved(Err("db busy".to_string())));
    let (_, r) = run_hide("a", true, both_left);
    assert_eq!(
        r.unwrap_err(),
        "锁定失败，且无法移除未完成的 FileHide 恢复标记（in use），也无法清理未完成的历史记录（db busy）：no ADS"
    );
}

#[test]
fn a_failed_lock_reports_a_marker_left_behind() {
    let events = vec![
        Event::Resolved(Ok("d".to_string())),
        Event::MarkerRead(None),
        Event::ActiveFound(Ok(None)),
        Event::AttributesRead(Ok(0x10)),
        Event::RecordInserted(Ok(4)),
        Event::MarkerWritten(Ok(true)),
        Event::AttributesSet(Err("denied".to_string())),
        Event::MarkerRemoved(Err("in use".to_string())),
        Event::RecordRemoved(Ok(())),
    ];
    let (_, r) = run_hide("a", true, events);
    assert_eq!(r.unwrap_err(), "锁定失败，且无法移除未完成的 FileHide 恢复标记（in use）：denied");
}

#[test]
fn a_lock_without_streams_sets_the_attributes_without_a_marker() {
    let events = vec![
        Event::Resolved(Ok("E:\\a".to_string())),
        Event::MarkerRead(None),
        Event::ActiveFound(Ok(None)),
        Event::AttributesRead(Ok(0x20)),
        Event::RecordInserted(Ok(5)),
        Event::MarkerWritten(Ok(false)),
    ];
    let mut ok = events.clone_events();
    ok.push(Event::AttributesSet(Ok(())));
    ok.push(Event::RecordFetched(Ok(item(5, "E:\\a", 1, 0x20))));
    ok.push(Event::AttributesRead(Ok(0x26)));
    let (log, r) = run_hide("a", false, ok);
    assert_eq!(&log[5..7], &["write-marker E:\\a FILE 32".to_string(), "set E:\\a 38".to_string()]);
    assert_eq!(r.unwrap().protection_status, "LOCKED");
    let mut failed = events.clone_events();
    failed.push(Event::AttributesSet(Err("denied".to_string())));
    failed.push(Event::RecordRemoved(Ok(())));
    let (log, r) = run_hide("a", false, failed);
    assert_eq!(log.last().unwrap(), "remove-record 5");
    assert!(!log.iter().any(|step| step.starts_with("remove-marker")));
    assert_eq!(r.unwrap_err(), "锁定失败，未创建历史记录：denied");
}

#[test]
fn a_failed_attribute_write_undoes_marker_and_row() {
    let prefix = vec![
        Event::Resolved(Ok("d".to_string())),
        Event::MarkerRead(None),
        Event::ActiveFound(Ok(None)),
        Event::AttributesRead(Ok(0x10)),
        Event::RecordInserted(Ok(4)),
        Event::MarkerWritten(Ok(true)),
        Event::AttributesSet(Err("denied".to_string())),
        Event::MarkerRemoved(Ok(())),
    ];
    let mut ok = prefix.clone_events();
    ok.push(Event::RecordRemoved(Ok(())));
    let (log, r) = run_hide("a", true, ok);
    assert_eq!(&log[log.len() - 2..], &["remove-marker d".to_string(), "remove-record 4".to_string()]);
    assert_eq!(r.unwrap_err(), "锁定失败，未创建历史记录：denied");
    let mut bad = prefix.clone_events();
    bad.push(Event::RecordRemoved(Err("db busy".to_string())));
    let (_, r) = run_hide("a", true, bad);
    assert_eq!(r.unwrap_err(), "锁定失败，且无法清理未完成的历史记录（db busy）：denied");
}

trait CloneEvents {
    fn clone_events(&self) -> Vec<Event>;
}

impl CloneEvents for Vec<Event> {
    fn clone_events(&self) -> Vec<Event> {
        self.iter()
            .map(|e| match e {
                Event::Resolved(r) => Event::Resolved(r.clone()),
                Event::MarkerRead(m) => Event::MarkerRead(m.clone()),
                Event::ActiveFound(r) => Event::ActiveFound(r.clone()),
                Event::AttributesRead(r) => Event::AttributesRead(r.clone()),
                Event::RecordInserted(r) => Event::RecordInserted(r.clone()),
                Event::MarkerWritten(r) => Event::MarkerWritten(r.clone()),
                Event::AttributesSet(r) => Event::AttributesSet(r.clone()),
                Event::MarkerRemoved(r) => Event::MarkerRemoved(r.clone()),
                Event::RecordRemoved(r) => Event::RecordRemoved(r.clone()),
                Event::Restored(r) => Event::Restored(r.clone()),
                Event::RecordFetched(r) => Event::RecordFetched(r.clone()),
            })
            .collect()
    }
}

fn run_restore(id: i64, mut events: Vec<Event>) -> (Vec<String>, Result<HiddenItem, String>) {
    let (mut phase, mut action) = restore_start(id);
    let mut log = Vec::new();
    events.reverse();
    loop {
        if let Action::Finish(r) = action {
            return (log, r.map_err(|e| e.message()));
        }
        log.push(describe(&action));
        let event = events.pop().expect("an event for every action");
        assert!(restore_accepts_exec(&phase, &event));
        let (p, a) = restore_step(phase, event);
        phase = p;
        action = a;
        let _: &RestorePhase = &phase;
    }
}

#[test]
fn a_successful_restore() {
    let (log, r) = run_restore(
        3,
        vec![
            Event::RecordFetched(Ok(item(3, "p", 1, 0x20))),
            Event::AttributesRead(Ok(0x26)),
            Event::AttributesSet(Ok(())),
            Event::MarkerRead(Some(RecoveryMarker { item_type: "FILE".to_string(), original_attributes: 0x20 })),
            Event::MarkerRemoved(Ok(())),
            Event::Restored(Ok(())),
            Event::RecordFetched(Ok(item(3, "p", 0, 0x20))),
            Event::AttributesRead(Ok(0x20)),
        ],
    );
    assert_eq!(
        log,
        vec!["fetch 3", "read-attributes p", "set p 32", "read-marker p", "remove-marker p", "mark-restored 3", "fetch 3", "read-attributes p"]
    );
    assert_eq!(r.unwrap().protection_status, "RESTORED");
}

#[test]
fn a_restore_refuses_restored_missing_or_unlocked_items() {
    let (_, r) = run_restore(3, vec![Event::RecordFetched(Ok(item(3, "p", 0, 0x20)))]);
    assert_eq!(r.unwrap_err(), "该项目已恢复");
    let (_, r) = run_restore(3, vec![Event::RecordFetched(Ok(item(3, "p", 1, 0x20))), Event::AttributesRead(Err("x".to_string()))]);
    assert_eq!(r.unwrap_err(), "路径已不存在，无法恢复；请在历史记录中保留该条目。");
    let (_, r) = run_restore(3, vec![Event::RecordFetched(Ok(item(3, "p", 1, 0x20))), Event::AttributesRead(Ok(0x22))]);
    assert_eq!(r.unwrap_err(), "项目未处于已锁定状态，无法恢复；请先在 FileHide 中重新锁定。");
}

#[test]
fn a_restore_relocks_when_the_marker_stays() {
    let (log, r) = run_restore(
        3,
        vec![
            Event::RecordFetched(Ok(item(3, "p", 1, 0x20))),
            Event::AttributesRead(Ok(0x27)),
            Event::AttributesSet(Ok(())),
            Event::MarkerRead(Some(RecoveryMarker { item_type: "FILE".to_string(), original_attributes: 0x20 })),
            Event::MarkerRemoved(Err("busy".to_string())),
            Event::AttributesSet(Ok(())),
        ],
    );
    assert_eq!(log.last().unwrap(), "set p 39");
    assert_eq!(r.unwrap_err(), "恢复标记无法移除，已自动重新锁定项目：busy");
}

#[test]
fn a_restore_rolls_back_when_the_row_update_fails() {
    let events = vec![
        Event::RecordFetched(Ok(item(3, "p", 1, 0x20))),
        Event::AttributesRead(Ok(0x26)),
        Event::AttributesSet(Ok(())),
        Event::MarkerRead(Some(RecoveryMarker { item_type: "FILE".to_string(), original_attributes: 0x20 })),
        Event::MarkerRemoved(Ok(())),
        Event::Restored(Err("db".to_string())),
        Event::MarkerWritten(Ok(true)),
    ];
    let mut ok = events.clone_events();
    ok.push(Event::AttributesSet(Ok(())));
    let (log, r) = run_restore(3, ok);
    assert_eq!(&log[log.len() - 2..], &["write-marker p FILE 32".to_string(), "set p 38".to_string()]);
    assert_eq!(r.unwrap_err(), "恢复后无法更新历史记录，已自动重新锁定项目，请重试：db");
    let mut bad = events.clone_events();
    bad.push(Event::AttributesSet(Err("denied".to_string())));
    let (_, r) = run_restore(3, bad);
    assert_eq!(r.unwrap_err(), "恢复后无法更新历史记录，且自动重新锁定失败（denied）：db");

    let mut lost = events.clone_events();
    lost.pop();
    lost.push(Event::MarkerWritten(Err("in use".to_string())));
    let mut lost_ok = lost.clone_events();
    lost_ok.push(Event::AttributesSet(Ok(())));
    let (_, r) = run_restore(3, lost_ok);
    assert_eq!(r.unwrap_err(), "恢复后无法更新历史记录，已自动重新锁定项目，但无法写回 FileHide 恢复标记（in use）：db");
    lost.push(Event::AttributesSet(Err("denied".to_string())));
    let (_, r) = run_restore(3, lost);
    assert_eq!(
        r.unwrap_err(),
        "恢复后无法更新历史记录，且自动重新锁定失败（denied），也无法写回 FileHide 恢复标记（in use）：db"
    );
}

#[test]
fn a_restore_without_a_marker_writes_none_back() {
    let (log, r) = run_restore(
        3,
        vec![
            Event::RecordFetched(Ok(item(3, "p", 1, 0x20))),
            Event::AttributesRead(Ok(0x26)),
            Event::AttributesSet(Ok(())),
            Event::MarkerRead(None),
            Event::Restored(Err("db".to_string())),
            Event::AttributesSet(Ok(())),
        ],
    );
    assert!(!log.iter().any(|step| step.starts_with("write-marker")));
    assert_eq!(log.last().unwrap(), "set p 38");
    assert_eq!(r.unwrap_err(), "恢复后无法更新历史记录，已自动重新锁定项目，请重试：db");
}

#[test]
fn a_restore_reports_a_failed_relock_after_the_marker_stayed() {
    let (_, r) = run_restore(
        3,
        vec![
            Event::RecordFetched(Ok(item(3, "p", 1, 0x20))),
            Event::AttributesRead(Ok(0x27)),
            Event::AttributesSet(Ok(())),
            Event::MarkerRead(Some(RecoveryMarker { item_type: "FILE".to_string(), original_attributes: 0x20 })),
            Event::MarkerRemoved(Err("busy".to_string())),
            Event::AttributesSet(Err("denied".to_string())),
        ],
    );
    assert_eq!(r.unwrap_err(), "恢复标记无法移除，且自动重新锁定失败（denied）：busy");
}

fn run_recover(path: &str, mut events: Vec<Event>) -> (Vec<String>, Result<HiddenItem, String>) {
    let (mut phase, mut action) = recover_start(path.to_string());
    let mut log = Vec::new();
    events.reverse();
    loop {
        if let Action::Finish(r) = action {
            return (log, r.map_err(|e| e.message()));
        }
        log.push(describe(&action));
        let event = events.pop().expect("an event for every action");
        assert!(recover_accepts_exec(&phase, &event));
        let (p, a) = recover_step(phase, event);
        phase = p;
        action = a;
        let _: &RecoverPhase = &phase;
    }
}

fn folder_marker() -> Option<RecoveryMarker> {
    Some(RecoveryMarker { item_type: "FOLDER".to_string(), original_attributes: 0x10 })
}

#[test]
fn a_successful_recovery() {
    let (log, r) = run_recover(
        "d",
        vec![
            Event::MarkerRead(folder_marker()),
            Event::Resolved(Ok("D".to_string())),
            Event::MarkerRead(folder_marker()),
            Event::ActiveFound(Ok(None)),
            Event::AttributesRead(Ok(0x16)),
            Event::RecordInserted(Ok(9)),
            Event::AttributesSet(Ok(())),
            Event::MarkerRemoved(Ok(())),
            Event::Restored(Ok(())),
            Event::RecordFetched(Ok(item(9, "D", 0, 0x10))),
            Event::AttributesRead(Ok(0x10)),
        ],
    );
    assert_eq!(
        log,
        vec![
            "read-marker d",
            "resolve d true",
            "read-marker D",
            "find-active D",
            "read-attributes D",
            "insert D FOLDER 16 false",
            "set D 16",
            "remove-marker D",
            "mark-restored 9",
            "fetch 9",
            "read-attributes D",
        ]
    );
    assert_eq!(r.unwrap().protection_status, "RESTORED");
}

#[test]
fn a_recovery_undoes_its_row_on_failure() {
    let (log, r) = run_recover(
        "d",
        vec![
            Event::MarkerRead(folder_marker()),
            Event::Resolved(Ok("D".to_string())),
            Event::MarkerRead(folder_marker()),
            Event::ActiveFound(Ok(None)),
            Event::AttributesRead(Ok(0x16)),
            Event::RecordInserted(Ok(9)),
            Event::AttributesSet(Ok(())),
            Event::MarkerRemoved(Err("busy".to_string())),
            Event::AttributesSet(Ok(())),
            Event::RecordRemoved(Ok(())),
        ],
    );
    assert_eq!(&log[log.len() - 2..], &["set D 22".to_string(), "remove-record 9".to_string()]);
    assert_eq!(r.unwrap_err(), "找回恢复失败，已自动重新锁定项目：busy");
    let (_, r) = run_recover(
        "d",
        vec![
            Event::MarkerRead(folder_marker()),
            Event::Resolved(Ok("D".to_string())),
            Event::MarkerRead(folder_marker()),
            Event::ActiveFound(Ok(None)),
            Event::AttributesRead(Ok(0x16)),
            Event::RecordInserted(Ok(9)),
            Event::AttributesSet(Ok(())),
            Event::MarkerRemoved(Err("busy".to_string())),
            Event::AttributesSet(Err("denied".to_string())),
            Event::RecordRemoved(Err("db".to_string())),
        ],
    );
    assert_eq!(
        r.unwrap_err(),
        "找回恢复失败，且未能完全撤销：busy；自动重新锁定失败：denied；无法清理新建的历史记录：db"
    );
    let (_, r) = run_recover("d", vec![Event::MarkerRead(None)]);
    assert_eq!(r.unwrap_err(), "未找到有效的 FileHide 恢复标记");
    let (_, r) = run_recover(
        "d",
        vec![
            Event::MarkerRead(folder_marker()),
            Event::Resolved(Ok("D".to_string())),
            Event::MarkerRead(folder_marker()),
            Event::ActiveFound(Ok(None)),
            Event::AttributesRead(Ok(0x10)),
        ],
    );
    assert_eq!(r.unwrap_err(), "项目未处于已锁定状态，无法找回恢复");
}

#[test]
fn tx_error_messages() {
    assert_eq!(TxError::AlreadyListedForRecovery.message(), "该项目已存在于隐藏列表，请直接从隐藏项目中恢复");
    assert_eq!(TxError::MarkerGone.message(), "恢复标记已失效");
    assert_eq!(
        TxError::RecoverAttributesFailed { cause: "x".to_string() }.message(),
        "找回恢复失败，未创建历史记录：x"
    );
    assert_eq!(
        TxError::RecoverRecordFailed { cause: "x".to_string() }.message(),
        "找回恢复后无法更新历史记录，已自动重新锁定项目：x"
    );
}

// ---------------------------------------------------------------- scans and batches

#[test]
fn scan_counts_and_candidates() {
    let mut scan = RecoveryScan::new("root");
    assert_eq!(scan.next_directory(), Some("root"));
    scan.directory_unreadable();
    assert!(matches!(scan.classify_entry("e1", None, Some(false)), EntryVerdict::Skip));
    assert!(matches!(scan.classify_entry("link", Some(0x426), Some(true)), EntryVerdict::Skip));
    assert!(matches!(scan.classify_entry("e3", Some(0x16), None), EntryVerdict::Skip));
    assert!(scan.pending.is_empty());
    assert!(matches!(scan.classify_entry("d1", Some(0x16), Some(true)), EntryVerdict::Inspect { descend: true }));
    assert!(matches!(scan.classify_entry("f", Some(0x26), Some(false)), EntryVerdict::Inspect { descend: false }));
    assert!(matches!(scan.classify_entry("d2", Some(0x10), Some(true)), EntryVerdict::Inspect { descend: true }));
    assert_eq!(scan.next_directory(), Some("d2"));
    assert_eq!(scan.next_directory(), Some("d1"));
    assert_eq!(scan.next_directory(), None);
    assert_eq!((scan.scanned, scan.skipped), (6, 4));
    let c = recovery_candidate("D".to_string(), Some(0x16), folder_marker(), Some(true));
    assert!(c.is_some());
    scan.add_candidate(c);
    assert!(recovery_candidate("D".to_string(), Some(0x16), folder_marker(), Some(false)).is_none());
    assert!(recovery_candidate("D".to_string(), Some(0x10), folder_marker(), Some(true)).is_none());
    assert!(recovery_candidate("D".to_string(), Some(0x416), folder_marker(), Some(true)).is_none());
    assert!(!scan.progress_due());
    let sid = "s1".to_string();
    let progress = scan.progress(&sid);
    assert_eq!((progress.kind.as_str(), progress.candidates.len()), ("progress", 0));
    let done = scan.finish(&sid, false);
    assert_eq!(done.kind, "completed");
    assert_eq!(done.candidates.len(), 1);
    assert_eq!(done.candidates[0].original_attributes, 0x10);
    assert!(validate_scan_id(" ").is_err());
    assert!(validate_scan_id("abc").is_ok());
}

#[test]
fn scan_reports_progress_every_128_entries() {
    let mut scan = RecoveryScan::new("root");
    let mut due = Vec::new();
    for _ in 0..300 {
        scan.classify_entry("file", Some(0x20), Some(false));
        if scan.progress_due() {
            due.push(scan.scanned);
        }
    }
    assert_eq!(due, vec![128, 256]);
}

#[test]
fn batch_planning_and_recording() {
    let too_many: Vec<String> = (0..257).map(|i| format!("p{i}")).collect();
    let refused = plan_batch(too_many).unwrap_err();
    assert_eq!(refused.failed.len(), 1);
    assert_eq!(refused.failed[0].path, "<batch>");
    assert_eq!(refused.failed[0].error, "单次最多处理 256 个项目");
    let plan = plan_batch(vec!["a".to_string(), "A".to_string(), "b".to_string()]).unwrap();
    assert_eq!(plan, vec!["a".to_string(), "b".to_string()]);
    let mut result = empty_batch_result();
    record_outcome(&mut result, "a".to_string(), Ok(item(1, "a", 1, 0)));
    record_outcome(&mut result, "b".to_string(), Err("nope".to_string()));
    assert_eq!(result.succeeded.len(), 1);
    assert_eq!(result.failed[0].path, "b");
    assert_eq!(result.failed[0].error, "nope");
}

#[test]
fn webview_versions() {
    assert!(is_valid_webview_version(" 1.2.3.4 \n"));
    assert!(is_valid_webview_version("0.0.0.1"));
    assert!(is_valid_webview_version("+1.0.0.0"));
    assert!(!is_valid_webview_version("1.2.3"));
    assert!(!is_valid_webview_version("1.2.3.4.5"));
    assert!(!is_valid_webview_version("1..2.3"));
    assert!(!is_valid_webview_version("1.2.3.4."));
    assert!(!is_valid_webview_version("1.2.3.18446744073709551616"));
    assert!(is_valid_webview_version("1.2.3.18446744073709551615"));
}

#[test]
fn str_chars_is_the_character_list() {
    assert_eq!(str_chars("aé😀"), vec!['a', 'é', '😀']);
}

#[test]
fn registry_values_decode_like_std() {
    let mut buffer = [0u16; 128].to_vec();
    let text: Vec<u16> = "125.0.2535.51\0".encode_utf16().collect();
    buffer[..text.len()].copy_from_slice(&text);
    let size = (text.len() * 2) as u32;
    assert_eq!(registry_version_text(&buffer, size), Some("125.0.2535.51".to_string()));
    // The size may run past the text: trailing NULs are dropped.
    assert_eq!(registry_version_text(&buffer, 256), Some("125.0.2535.51".to_string()));
    // A size beyond the buffer is cut to the buffer.
    assert_eq!(registry_version_text(&buffer, 10_000), Some("125.0.2535.51".to_string()));
    assert_eq!(registry_version_text(&buffer, 4), None);
    let zero: Vec<u16> = "0.0.0.0".encode_utf16().collect();
    assert_eq!(registry_version_text(&zero, 14), None);
    let lone = vec![0xD800u16, 0x31];
    assert_eq!(registry_version_text(&lone, 4), None);
}

#[test]
fn character_classes_agree_with_std_for_every_char() {
    for code in 0..=0x10FFFFu32 {
        if let Some(c) = char::from_u32(code) {
            assert_eq!(is_whitespace(c), c.is_whitespace(), "{code:#x}");
            assert_eq!(is_control(c), c.is_control(), "{code:#x}");
        }
    }
}

#[test]
fn listing_rows() {
    let r = listed_item(item(1, "p", 1, 0x20), true, Some("q".to_string()), Ok(0x26));
    assert_eq!((r.path.as_str(), r.protection_status.as_str()), ("q", "LOCKED"));
    let r = listed_item(item(1, "p", 1, 0x20), true, None, Err(()));
    assert_eq!((r.path.as_str(), r.protection_status.as_str()), ("p", "PATH_CHANGED"));
    let r = listed_item(item(1, "p", 1, 0x20), false, None, Ok(0x22));
    assert_eq!(r.protection_status, "UNLOCKED_EXTERNALLY");
    let r = listed_item(item(1, "p", 0, 0x20), false, None, Ok(0x26));
    assert_eq!(r.protection_status, "RESTORED");
}

#[test]
fn a_batch_run_handles_each_planned_path_once_in_order() {
    let paths = vec!["b".to_string(), "a".to_string(), "B".to_string(), " ".to_string(), "c".to_string()];
    let mut run = BatchRun::start(paths, None).ok().unwrap();
    let mut seen = Vec::new();
    while let Some((path, kind)) = run.next_target() {
        assert_eq!(kind, None);
        let outcome = if path == "a" { Err("denied".to_string()) } else { Ok(item(seen.len() as i64, &path, 1, 0)) };
        seen.push(path);
        run.record(outcome);
    }
    assert_eq!(seen, vec!["b", "a", "c"]);
    let result = run.finish();
    assert_eq!(result.succeeded.iter().map(|i| i.path.as_str()).collect::<Vec<_>>(), vec!["b", "c"]);
    assert_eq!(result.failed.len(), 1);
    assert_eq!(result.failed[0].path, "a");
    assert_eq!(result.failed[0].error, "denied");

    let mut folders = BatchRun::start(vec!["d".to_string()], Some(true)).ok().unwrap();
    assert_eq!(folders.next_target(), Some(("d".to_string(), Some(true))));
    folders.record(Err("x".to_string()));
    assert_eq!(folders.next_target(), None);

    let refused = BatchRun::start((0..257).map(|i| i.to_string()).collect(), Some(false)).err().unwrap();
    assert_eq!(refused.failed[0].path, "<batch>");
    assert_eq!(refused.failed[0].error, "单次最多处理 256 个项目");
}

#[test]
fn an_oversized_lane_count_never_matches() {
    let hash = password_hash("correct horse battery staple").unwrap();
    assert!(password_matches("correct horse battery staple", &hash));
    let huge = "$argon2id$v=19$m=19456,t=2,p=600000000$c2FsdHNhbHRzYWx0$aGFzaGhhc2hoYXNoaGFzaGhhc2hoYXNoaGFzaGhhc2g";
    assert!(!password_matches("anything", huge));
    let nine = "$argon2id$v=19$m=19456,t=2,p=100000000$c2FsdHNhbHRzYWx0$aGFzaGhhc2hoYXNoaGFzaGhhc2hoYXNoaGFzaGhhc2g";
    assert!(!password_matches("anything", nine));
    assert!(!password_matches("anything", "not a hash"));
}

#[test]
fn hashing_with_a_given_salt() {
    let salt = [7u8; 16];
    let h = password_hash_with_salt("correct horse battery staple", &salt).unwrap();
    assert!(h.starts_with("$argon2id$v=19$m=19456,t=2,p=1$"));
    assert_eq!(h, password_hash_with_salt("correct horse battery staple", &salt).unwrap());
    assert!(password_matches("correct horse battery staple", &h));
    assert_eq!(password_hash_with_salt("short", &salt), Err("密码至少需要 8 个字符".to_string()));
    let stored = Some(h.clone());
    assert_eq!(
        authorize_password_change_with_salt(None, "another password", &stored, &salt),
        Err("请输入当前密码".to_string())
    );
    let next = authorize_password_change_with_salt(
        Some("correct horse battery staple".to_string()),
        "another password",
        &stored,
        &salt,
    )
    .unwrap();
    assert!(password_matches("another password", &next));
    assert!(!password_matches("correct horse battery staple", &next));
}

#[test]
fn unlocking_records_the_given_instant() {
    let now = std::time::Instant::now();
    let hash = password_hash("correct horse battery staple").unwrap();
    let mut state = new_session();
    assert!(!verify_password_at("wrong password", &Some(hash.clone()), &mut state, now));
    assert!(!state.unlocked && state.last_activity.is_none());
    assert!(verify_password_at("correct horse battery staple", &Some(hash), &mut state, now));
    assert!(state.unlocked && state.last_activity == Some(now));
    let mut other = new_session();
    unlock_session_at(&mut other, now);
    assert_eq!(other.last_activity, Some(now));
}

#[test]
fn identities_of_another_form_are_unknown() {
    let mut active = item(1, "p", 1, 0x20);
    active.file_id = Some("123:456:false".to_string());
    assert!(!identity_changed(&active, &Some("5:7".to_string())));
    assert!(!identity_changed(&active, &None));
    active.file_id = Some("5:7".to_string());
    assert!(identity_changed(&active, &Some("5:8".to_string())));
    assert!(identity_text_well_formed("0:0"));
    assert!(!identity_text_well_formed(":7"));
    assert!(!identity_text_well_formed("7:"));
    assert!(!identity_text_well_formed("1:2:3"));
    assert!(!identity_text_well_formed("a:2"));
    assert!(identity_text_well_formed(&format_file_identity(u32::MAX, u64::MAX)));
}
