use filehide::file_attributes::{attributes_to_hide, attributes_to_restore, is_reparse_point};
use filehide::marker::parse_recovery_marker;
use filehide::password::{password_hash, password_matches, validate_new_password};
use filehide::paths::remove_extended_path_prefix;
use filehide::session::validate_auto_lock_minutes;
use filehide::status::protection_status;
use filehide::webview::is_valid_webview_version;

const HIDDEN: u32 = 0x2;
const SYSTEM: u32 = 0x4;
const ARCHIVE: u32 = 0x20;

#[test]
fn active_item_with_hidden_and_system_attributes_is_locked() {
    assert_eq!(protection_status(1, Ok(0x2 | 0x4)), "LOCKED");
}

#[test]
fn auto_lock_accepts_only_supported_values() {
    for value in [0, 5, 15, 30, 60] {
        assert!(validate_auto_lock_minutes(value).is_ok());
    }
    assert!(validate_auto_lock_minutes(1).is_err());
}

#[test]
fn active_item_with_missing_path_is_marked_missing() {
    assert_eq!(protection_status(1, Err(())), "MISSING");
}

#[test]
fn restored_item_stays_restored_even_when_its_path_is_missing() {
    assert_eq!(protection_status(0, Err(())), "RESTORED");
}

#[test]
fn path_cleanup_removes_only_the_windows_extended_path_prefix() {
    assert_eq!(
        remove_extended_path_prefix(r"\\?\C:\\Private\\report.docx"),
        r"C:\\Private\\report.docx"
    );
    assert_eq!(
        remove_extended_path_prefix(r"C:\\Private\\report.docx"),
        r"C:\\Private\\report.docx"
    );
}

#[test]
fn reparse_points_are_rejected_before_locking() {
    assert!(is_reparse_point(0x400));
    assert!(!is_reparse_point(0x20));
}

#[test]
fn parses_a_versioned_recovery_marker() {
    let marker = parse_recovery_marker("FILEHIDE/1\nFOLDER\n36\n").unwrap();

    assert_eq!(marker.item_type, "FOLDER");
    assert_eq!(marker.original_attributes, 36);
}

#[test]
fn rejects_a_malformed_recovery_marker() {
    assert!(parse_recovery_marker("FILEHIDE/1\nFOLDER\nnot-a-number\n").is_none());
    assert!(parse_recovery_marker("unrelated marker").is_none());
}

#[test]
fn password_validation_requires_a_reasonable_non_control_password() {
    assert!(validate_new_password("short").is_err());
    assert!(validate_new_password("correct horse battery staple").is_ok());
    assert!(validate_new_password("valid\u{0000}password").is_err());
}

#[test]
fn argon2id_password_hash_verifies_only_the_original_password() {
    let hash = password_hash("correct horse battery staple").unwrap();

    assert!(hash.starts_with("$argon2id$"));
    assert!(password_matches("correct horse battery staple", &hash));
    assert!(!password_matches("incorrect password", &hash));
}

#[test]
fn hiding_preserves_existing_flags_and_adds_hidden_and_system() {
    assert_eq!(attributes_to_hide(ARCHIVE), ARCHIVE | HIDDEN | SYSTEM);
}

#[test]
fn restoring_returns_exact_original_attribute_mask() {
    assert_eq!(
        attributes_to_restore(ARCHIVE | HIDDEN | SYSTEM),
        ARCHIVE | HIDDEN | SYSTEM
    );
}

#[test]
fn webview_version_must_not_be_empty_or_zero() {
    assert!(is_valid_webview_version("125.0.2535.51"));
    assert!(!is_valid_webview_version(""));
    assert!(!is_valid_webview_version("0.0.0.0"));
    assert!(!is_valid_webview_version("not-a-version"));
}
