use hypogaol::cli::main::{
    confirms_revoke, confirms_wipe, device_create_confirmation, parse_size, unlock_intro_message,
    unlock_success_message,
};
use hypogaol::domain::workflows::create::MIN_VOLUME_SIZE_BYTES;

#[test]
fn rejects_empty_input() {
    assert!(parse_size("").is_err());
    assert!(parse_size("   ").is_err());
}

#[test]
fn rejects_sizes_below_the_minimum() {
    assert!(parse_size("0").is_err());
    assert!(parse_size("1024").is_err());
    assert!(parse_size(&(MIN_VOLUME_SIZE_BYTES - 1).to_string()).is_err());
}

#[test]
fn accepts_the_minimum_size_exactly() {
    assert_eq!(
        parse_size(&MIN_VOLUME_SIZE_BYTES.to_string()),
        Ok(MIN_VOLUME_SIZE_BYTES)
    );
}

#[test]
fn parses_binary_suffixes_case_insensitively() {
    assert_eq!(parse_size("64M"), Ok(64 * 1024 * 1024));
    assert_eq!(parse_size("64m"), Ok(64 * 1024 * 1024));
    assert_eq!(parse_size("1G"), Ok(1024 * 1024 * 1024));
    assert_eq!(parse_size("1T"), Ok(1024u64.pow(4)));
}

#[test]
fn rejects_a_non_numeric_input() {
    assert!(parse_size("abc").is_err());
    assert!(parse_size("16X").is_err());
}

#[test]
fn rejects_overflowing_sizes() {
    assert!(parse_size("99999999999999999999T").is_err());
}

#[test]
fn confirms_wipe_requires_exactly_yes() {
    assert!(confirms_wipe("yes"));
    assert!(confirms_wipe("yes\n"));
    assert!(confirms_wipe("  yes  "));
    assert!(!confirms_wipe("Yes"));
    assert!(!confirms_wipe("YES"));
    assert!(!confirms_wipe("y"));
    assert!(!confirms_wipe(""));
    assert!(!confirms_wipe("no"));
}

#[test]
fn device_create_confirmation_fresh_device_declined() {
    assert_eq!(device_create_confirmation(false, false), (false, false));
}

#[test]
fn device_create_confirmation_fresh_device_confirmed() {
    assert_eq!(device_create_confirmation(false, true), (true, true));
}

#[test]
fn device_create_confirmation_marker_verified_resume_skips_prompt_and_proceeds() {
    // The prompt is never asked on this path (`wipe_confirmed` is always
    // `false` at the real call site) — `confirmed` must stay `false` (no
    // interactive "yes" was obtained; `domain`'s own fresh marker check is
    // the real authority) while `announce` is still `true` (work is expected
    // to proceed). This is the regression guard for the confirmation-bypass
    // review finding (2026-08-08): an explicit decline must never be
    // silently overridden by marker state.
    assert_eq!(device_create_confirmation(true, false), (false, true));
}

#[test]
fn device_create_confirmation_marker_verified_resume_ignores_stale_wipe_confirmed() {
    // Defensive: even if a caller somehow passed `wipe_confirmed: true`
    // alongside `marker_verified_resume: true`, `confirmed` must still come
    // back `false` — resume is authorized by the marker, never by this flag.
    assert_eq!(device_create_confirmation(true, true), (false, true));
}

#[test]
fn confirms_revoke_requires_exactly_yes() {
    assert!(confirms_revoke("yes"));
    assert!(confirms_revoke("yes\n"));
    assert!(confirms_revoke("  yes  "));
    assert!(!confirms_revoke("Yes"));
    assert!(!confirms_revoke("YES"));
    assert!(!confirms_revoke("y"));
    assert!(!confirms_revoke(""));
    assert!(!confirms_revoke("no"));
}

#[test]
fn unlock_intro_message_mentions_read_only_when_set() {
    assert!(unlock_intro_message(true).contains("Unlocking read-only — no changes will be saved."));
    assert!(!unlock_intro_message(false).contains("read-only"));
}

#[test]
fn unlock_success_message_mentions_read_only_when_set() {
    let mountpoint = "/run/media/user/vault";
    assert!(unlock_success_message(true, mountpoint).contains("(read-only)"));
    assert!(!unlock_success_message(false, mountpoint).contains("(read-only)"));
}
