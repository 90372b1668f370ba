use hypogaol::adapters::exec::header_json::parse_header;
use hypogaol::adapters::exec::json::Json;
use hypogaol::adapters::exec::token_json::{label_token, labelled_token_payload};
use hypogaol::domain::types::KeyMetadata;
use hypogaol::adapters::exec::commands::{
    bootstrap_resize_plan, claims_ownership, cryptenroll_args, cryptenroll_flags, mount_options,
    metadata_rollback, mount_point_name, mount_point_step, mount_undo_plan, removal_plan,
    DirCreation, MountPointStep, MountUndoStep, RemovalStep, UnlockCredential,
};
use hypogaol::adapters::exec::luks_header::{
    existing_key_labels, fido2_keyslots, filesystem_name, keyslots_for_token, label_collision,
    label_taken, live_keyslot_numbers, marker_token_ids, new_token_id, parse_u32,
    recorded_filesystem, systemd_fido2_token_ids, token_for_keyslot, LuksHeader, LuksToken,
    MARKER_TOKEN_TYPE,
};
use hypogaol::adapters::exec::output::{
    field_after, first_line_trimmed, mapping_names_in, pids_in, status_backing_source,
};
use hypogaol::adapters::exec::random::{append_hex, append_transient_passphrase, random_hex_suffix};
use hypogaol::domain::errors::DomainError;
use hypogaol::domain::mapping_name::{fnv1a_hash, mapping_name_of_canonical};
use hypogaol::domain::paths::{parent_dir, path_join, path_within, volume_name};
use hypogaol::domain::types::{Filesystem, KeyslotInfo, KeyslotRef, MapperHandle, Pid};
use hypogaol::text::{
    contains, parse_u64, push_decimal, push_hex_fixed, push_signed_decimal,
    split_lines, split_words, to_chars, trim_chars,
};

fn token(id: &str, ty: &str, label: Option<&str>, slots: &[&str]) -> LuksToken {
    LuksToken {
        id: id.to_string(),
        token_type: Some(ty.to_string()),
        key_label: label.map(str::to_string),
        keyslots: Some(slots.iter().map(|s| Some(s.to_string())).collect()),
        filesystem: None,
    }
}

fn header(keyslots: &[&str], tokens: Vec<LuksToken>) -> LuksHeader {
    LuksHeader {
        keyslot_ids: Some(keyslots.iter().map(|s| s.to_string()).collect()),
        tokens: Some(tokens),
    }
}

fn sample_header() -> LuksHeader {
    header(
        &["0", "1", "2"],
        vec![
            token("0", "systemd-fido2", Some("primary"), &["1"]),
            token("1", "systemd-fido2", Some("stale"), &["5"]),
            token("2", "other", Some("not-a-key"), &["2"]),
            token("3", "systemd-fido2", Some("again"), &["1"]),
            token("4", "systemd-fido2", None, &["2"]),
        ],
    )
}

fn missing_tokens_error(err: DomainError) {
    let DomainError::AdapterFailure(m) = err else {
        panic!("expected AdapterFailure");
    };
    assert_eq!(m, "luksDump JSON missing a tokens object");
}

#[test]
fn parse_u32_reads_plain_decimal_keyslot_numbers_only() {
    assert_eq!(parse_u32("0"), Some(0));
    assert_eq!(parse_u32("42"), Some(42));
    assert_eq!(parse_u32("4294967295"), Some(u32::MAX));
    assert_eq!(parse_u32("4294967296"), None);
    assert_eq!(parse_u32(""), None);
    assert_eq!(parse_u32("-1"), None);
    assert_eq!(parse_u32("1a"), None);
}

#[test]
fn live_keyslot_numbers_reads_the_keyslots_object() {
    assert_eq!(live_keyslot_numbers(&sample_header()).unwrap(), vec![0, 1, 2]);
    let no_keyslots = LuksHeader {
        keyslot_ids: None,
        tokens: Some(Vec::new()),
    };
    let DomainError::AdapterFailure(m) = live_keyslot_numbers(&no_keyslots).unwrap_err() else {
        panic!("expected AdapterFailure");
    };
    assert!(m.contains("keyslots"));
}

#[test]
fn fido2_keyslots_counts_each_live_fido2_keyslot_once() {
    let keys = fido2_keyslots(&sample_header()).unwrap();
    assert_eq!(
        keys,
        vec![
            KeyslotInfo {
                keyslot: KeyslotRef(1),
                key_label: "primary".to_string(),
            },
            KeyslotInfo {
                keyslot: KeyslotRef(2),
                key_label: String::new(),
            },
        ]
    );
}

#[test]
fn fido2_keyslots_without_tokens_object_is_an_error() {
    let h = LuksHeader {
        keyslot_ids: Some(vec!["0".to_string()]),
        tokens: None,
    };
    missing_tokens_error(fido2_keyslots(&h).unwrap_err());
}

#[test]
fn token_for_keyslot_finds_the_first_referencing_token() {
    let h = sample_header();
    assert_eq!(token_for_keyslot(&h, 1).unwrap(), Some("0".to_string()));
    assert_eq!(token_for_keyslot(&h, 2).unwrap(), Some("2".to_string()));
    assert_eq!(token_for_keyslot(&h, 7).unwrap(), None);
}

#[test]
fn fido2_token_ids_and_labels_follow_token_order() {
    let h = sample_header();
    assert_eq!(systemd_fido2_token_ids(&h).unwrap(), vec!["0", "1", "3", "4"]);
    assert_eq!(
        existing_key_labels(&h).unwrap(),
        vec!["primary", "stale", "again"]
    );
    let bare = LuksHeader {
        keyslot_ids: None,
        tokens: None,
    };
    missing_tokens_error(systemd_fido2_token_ids(&bare).unwrap_err());
    missing_tokens_error(existing_key_labels(&bare).unwrap_err());
}

#[test]
fn label_taken_and_label_collision() {
    let labels = vec!["primary".to_string(), "backup".to_string()];
    assert!(label_taken(&labels, "backup"));
    assert!(!label_taken(&labels, "Backup"));
    assert!(!label_taken(&Vec::new(), "primary"));
    let DomainError::AdapterFailure(m) = label_collision("backup") else {
        panic!("expected AdapterFailure");
    };
    assert_eq!(
        m,
        "a key labeled \"backup\" is already enrolled on this volume — choose a different label"
    );
    let DomainError::AdapterFailure(m) = label_collision("my \"main\" key") else {
        panic!("expected AdapterFailure");
    };
    assert!(m.starts_with("a key labeled \"my \\\"main\\\" key\" is already"));
}

#[test]
fn keyslots_for_token_reads_the_first_token_with_that_id() {
    let h = sample_header();
    assert_eq!(keyslots_for_token(&h, "3"), vec![1]);
    assert_eq!(keyslots_for_token(&h, "9"), Vec::<u32>::new());
    let mut odd = token("7", "systemd-fido2", None, &["3", "x", "4"]);
    odd.keyslots.as_mut().unwrap().push(None);
    let h = header(&[], vec![odd]);
    assert_eq!(keyslots_for_token(&h, "7"), vec![3, 4]);
}

#[test]
fn new_token_id_needs_exactly_one_fresh_id() {
    let before = vec!["0".to_string()];
    assert_eq!(
        new_token_id(&before, &vec!["0".to_string(), "2".to_string()]).unwrap(),
        "2"
    );
    let DomainError::AdapterFailure(m) = new_token_id(&before, &before).unwrap_err() else {
        panic!("expected AdapterFailure");
    };
    assert_eq!(
        m,
        "expected exactly one new systemd-fido2 token after enrollment, found 0"
    );
    let DomainError::AdapterFailure(m) = new_token_id(
        &Vec::new(),
        &vec!["1".to_string(), "2".to_string()],
    )
    .unwrap_err() else {
        panic!("expected AdapterFailure");
    };
    assert!(m.ends_with("found 2"));
}

#[test]
fn marker_token_ids_find_the_interrupted_create_marker() {
    let h = header(
        &["0"],
        vec![
            token("0", "systemd-fido2", Some("primary"), &["0"]),
            token("1", MARKER_TOKEN_TYPE, None, &[]),
        ],
    );
    assert_eq!(marker_token_ids(&h).unwrap(), vec!["1"]);
    assert!(marker_token_ids(&sample_header()).unwrap().is_empty());
}

#[test]
fn recorded_filesystem_reads_the_first_fido2_token() {
    assert_eq!(filesystem_name(Filesystem::Ext4), "ext4");
    assert_eq!(filesystem_name(Filesystem::Xfs), "xfs");
    assert_eq!(filesystem_name(Filesystem::Btrfs), "btrfs");

    let mut t = token("0", "systemd-fido2", Some("primary"), &["0"]);
    t.filesystem = Some("xfs".to_string());
    let h = header(&["0"], vec![token("5", "other", None, &[]), t]);
    assert_eq!(recorded_filesystem(&h, "/v.img").unwrap(), Filesystem::Xfs);

    let mut t = token("0", "systemd-fido2", Some("primary"), &["0"]);
    t.filesystem = Some("zfs".to_string());
    let h = header(&["0"], vec![t]);
    let DomainError::AdapterFailure(m) = recorded_filesystem(&h, "/v.img").unwrap_err() else {
        panic!("expected AdapterFailure");
    };
    assert!(m.contains("zfs"));
    assert!(m.contains("/v.img"));

    let h = header(&["0"], vec![token("0", "systemd-fido2", Some("primary"), &["0"])]);
    let DomainError::AdapterFailure(m) = recorded_filesystem(&h, "/v.img").unwrap_err() else {
        panic!("expected AdapterFailure");
    };
    assert!(m.contains("/v.img"));
}

#[test]
fn field_after_reads_the_first_prefixed_line() {
    let dump = "Filesystem volume name:   <none>\nBlock count:              262144\nBlock size:               4096\nBlock count: 1\n";
    assert_eq!(field_after(dump, "Block count:"), Some("262144".to_string()));
    assert_eq!(field_after(dump, "Block size:"), Some("4096".to_string()));
    assert_eq!(field_after(dump, "Inode count:"), None);
    let status = "/dev/mapper/vault-1 is active.\n  type:    LUKS2\n  device:  /dev/loop3\n  loop:    /home/u/v.img\r\n";
    assert_eq!(field_after(status, "  loop:"), Some("/home/u/v.img".to_string()));
    assert_eq!(field_after(status, "  device:"), Some("/dev/loop3".to_string()));
}

#[test]
fn first_line_trimmed_takes_only_the_first_line() {
    assert_eq!(first_line_trimmed("  /run/media/u/v \n/elsewhere\n"), "/run/media/u/v");
    assert_eq!(first_line_trimmed(""), "");
}

#[test]
fn pids_in_keeps_the_numeric_words_in_order() {
    assert_eq!(pids_in(" 1234 99\n 7c"), vec![Pid(1234), Pid(99)]);
    assert_eq!(pids_in("   "), Vec::<Pid>::new());
}

#[test]
fn random_hex_suffix_is_sixteen_lowercase_hex_digits() {
    let a = random_hex_suffix().unwrap();
    assert_eq!(a.len(), 16);
    assert_ne!(a, random_hex_suffix().unwrap());
    assert!(a.chars().all(|c| c.is_ascii_hexdigit() && !c.is_ascii_uppercase()));
    let mut pass = String::from("x");
    append_transient_passphrase(&mut pass).unwrap();
    assert_eq!(pass.len(), 65);
    assert!(pass.starts_with('x'));
    assert!(pass[1..].chars().all(|c| c.is_ascii_hexdigit()));
}

#[test]
fn append_hex_renders_two_digits_per_byte() {
    let mut s = String::new();
    append_hex(&mut s, &vec![0x00, 0x0f, 0xa5, 0xff]);
    assert_eq!(s, "000fa5ff");
}

#[test]
fn fnv1a_and_mapping_names_match_the_published_vectors() {
    assert_eq!(fnv1a_hash(b""), 0xcbf29ce484222325);
    assert_eq!(fnv1a_hash(b"a"), 0xaf63dc4c8601ec8c);
    assert_eq!(mapping_name_of_canonical("a"), "vault-af63dc4c8601ec8c");
    assert_eq!(mapping_name_of_canonical(""), "vault-cbf29ce484222325");
}

#[test]
fn path_helpers_follow_std_path_semantics() {
    assert_eq!(path_join("/home/u", ".gnupg"), "/home/u/.gnupg");
    assert_eq!(path_join("/home/u/", "x"), "/home/u/x");
    assert_eq!(path_join("/home/u", "/etc"), "/etc");
    assert!(path_within("/a/b", "/a"));
    assert!(path_within("/a", "/a"));
    assert!(!path_within("/ab", "/a"));
    assert_eq!(parent_dir("/a/b.img"), Some("/a".to_string()));
    assert_eq!(parent_dir("b.img"), Some(String::new()));
    assert_eq!(parent_dir("/"), None);
    assert_eq!(volume_name("/a/vault.img"), "vault");
    assert_eq!(volume_name("/dev/sdb1"), "sdb1");
    assert_eq!(volume_name("/a/.hidden"), ".hidden");
}

#[test]
fn text_helpers_follow_std_str_semantics() {
    assert_eq!(split_lines("a\nb\n"), vec!["a", "b", ""]);
    assert_eq!(split_words(&to_chars(" a  b\tc ")), vec!["a", "b", "c"]);
    assert_eq!(trim_chars(&to_chars("  x y \n")), to_chars("x y"));
    assert!(contains("not currently mounted", "currently"));
    assert!(!contains("mounted", "unmounted"));
    assert_eq!(parse_u64(&to_chars("18446744073709551615")), Some(u64::MAX));
    assert_eq!(parse_u64(&to_chars("18446744073709551616")), None);
    assert_eq!(parse_u64(&to_chars("+1")), Some(1));
    assert_eq!(parse_u64(&to_chars("+")), None);
    let mut s = String::new();
    push_decimal(&mut s, 1024);
    s.push(' ');
    push_signed_decimal(&mut s, -17);
    s.push(' ');
    push_hex_fixed(&mut s, 0xab, 4);
    assert_eq!(s, "1024 -17 00ab");
}

#[test]
fn device_node_is_under_dev_mapper() {
    let m = MapperHandle {
        name: "vault-0011".to_string(),
        source_path: "/v.img".to_string(),
    };
    assert_eq!(m.device_node(), "/dev/mapper/vault-0011");
}

#[test]
fn cryptenroll_flags_turn_the_host_pin_off_only_for_unasked_user_verification() {
    assert_eq!(
        cryptenroll_flags(true, None),
        vec!["--fido2-with-user-verification=yes", "--fido2-with-client-pin=no"]
    );
    assert_eq!(cryptenroll_flags(false, None), vec!["--fido2-with-user-verification=no"]);
    assert_eq!(
        cryptenroll_flags(true, Some(true)),
        vec!["--fido2-with-user-verification=yes", "--fido2-with-client-pin=yes"]
    );
    assert_eq!(
        cryptenroll_flags(false, Some(false)),
        vec!["--fido2-with-user-verification=no", "--fido2-with-client-pin=no"]
    );
}

#[test]
fn cryptenroll_args_put_device_flags_credential_then_volume() {
    assert_eq!(
        cryptenroll_args(
            "/dev/hidraw1",
            false,
            None,
            &UnlockCredential::Fido2Device("/dev/hidraw0".to_string()),
            "/v.img"
        ),
        vec![
            "--fido2-device=/dev/hidraw1",
            "--fido2-with-user-verification=no",
            "--unlock-fido2-device=/dev/hidraw0",
            "/v.img",
        ]
    );
    assert_eq!(
        cryptenroll_args(
            "/dev/hidraw1",
            true,
            Some(true),
            &UnlockCredential::KeyFile("/dev/shm/k".to_string()),
            "/v.img"
        ),
        vec![
            "--fido2-device=/dev/hidraw1",
            "--fido2-with-user-verification=yes",
            "--fido2-with-client-pin=yes",
            "--unlock-key-file=/dev/shm/k",
            "/v.img",
        ]
    );
}

#[test]
fn bootstrap_resize_plan_shrinks_only_below_the_storage() {
    assert_eq!(bootstrap_resize_plan(Ok(100), 50).unwrap(), true);
    assert_eq!(bootstrap_resize_plan(Ok(100), 100).unwrap(), false);
    let DomainError::AdapterFailure(m) = bootstrap_resize_plan(Err("failed to stat x".to_string()), 1).unwrap_err() else {
        panic!("expected AdapterFailure");
    };
    assert_eq!(m, "failed to stat x");
}

#[test]
fn removal_plan_removes_the_token_before_the_keyslot() {
    let h = sample_header();
    assert_eq!(
        removal_plan(&h, 1).unwrap(),
        vec![RemovalStep::RemoveToken("0".to_string()), RemovalStep::KillSlot(1)]
    );
    assert_eq!(removal_plan(&h, 7).unwrap(), vec![RemovalStep::KillSlot(7)]);
    let bare = LuksHeader {
        keyslot_ids: None,
        tokens: None,
    };
    missing_tokens_error(removal_plan(&bare, 1).unwrap_err());
}

#[test]
fn mount_decisions_follow_read_only() {
    assert_eq!(mount_options(true), Some("ro,noload"));
    assert_eq!(mount_options(false), None);
    assert!(claims_ownership(false));
    assert!(!claims_ownership(true));
}

#[test]
fn fido2_keyslots_reports_the_missing_keyslots_object_and_bad_ids() {
    let h = LuksHeader {
        keyslot_ids: None,
        tokens: Some(Vec::new()),
    };
    let DomainError::AdapterFailure(m) = fido2_keyslots(&h).unwrap_err() else {
        panic!("expected AdapterFailure");
    };
    assert_eq!(m, "luksDump JSON missing a keyslots object");
    let h = header(&["0", "x"], Vec::new());
    let DomainError::AdapterFailure(m) = fido2_keyslots(&h).unwrap_err() else {
        panic!("expected AdapterFailure");
    };
    assert_eq!(m, "unrecognized keyslot id \"x\" in luksDump JSON");
}

#[test]
fn recorded_filesystem_without_a_field_names_the_volume() {
    let h = header(&["0"], vec![token("0", "systemd-fido2", Some("primary"), &["0"])]);
    let DomainError::AdapterFailure(m) = recorded_filesystem(&h, "/v.img").unwrap_err() else {
        panic!("expected AdapterFailure");
    };
    assert_eq!(m, "/v.img has no systemd-fido2 token with a filesystem field");
    let h = header(&["0"], vec![token("0", "other", None, &[])]);
    assert!(recorded_filesystem(&h, "/v.img").is_err());
}

#[test]
fn parse_header_reads_keyslots_and_tokens_from_luksdump_json() {
    let dump = br#"{"keyslots":{"0":{"type":"luks2"},"1":{"type":"luks2"}},
        "tokens":{"0":{"type":"systemd-fido2","keyslots":["1",2],"key_label":"primary","filesystem":"xfs"},
                  "1":{"type":"hypogaol-create-marker","keyslots":[]}}}"#;
    let h = parse_header(dump).unwrap();
    assert_eq!(h.keyslot_ids, Some(vec!["0".to_string(), "1".to_string()]));
    let tokens = h.tokens.unwrap();
    assert_eq!(tokens.len(), 2);
    assert_eq!(tokens[0].id, "0");
    assert_eq!(tokens[0].token_type.as_deref(), Some("systemd-fido2"));
    assert_eq!(tokens[0].key_label.as_deref(), Some("primary"));
    assert_eq!(tokens[0].keyslots, Some(vec![Some("1".to_string()), None]));
    assert_eq!(tokens[0].filesystem.as_deref(), Some("xfs"));
    assert_eq!(tokens[1].token_type.as_deref(), Some(MARKER_TOKEN_TYPE));
    assert_eq!(tokens[1].key_label, None);

    let none = parse_header(br#"{"config":{}}"#).unwrap();
    assert_eq!(none.keyslot_ids, None);
    assert_eq!(none.tokens, None);

    let DomainError::AdapterFailure(m) = parse_header(b"not json").unwrap_err() else {
        panic!("expected AdapterFailure");
    };
    assert!(m.starts_with("failed to parse luksDump JSON: "), "{m}");
}

#[test]
fn labelled_token_payload_adds_the_key_metadata_to_the_token() {
    let exported = br#"{"type":"systemd-fido2","keyslots":["1"],"fido2-credential":"abc","key_label":"old"}"#;
    let metadata = KeyMetadata {
        key_label: "backup".to_string(),
        filesystem: Filesystem::Btrfs,
    };
    let payload = labelled_token_payload(exported, &metadata, 1700000000).unwrap();
    let value: serde_json::Value = serde_json::from_slice(&payload).unwrap();
    assert_eq!(value["type"], "systemd-fido2");
    assert_eq!(value["keyslots"][0], "1");
    assert_eq!(value["fido2-credential"], "abc");
    assert_eq!(value["key_label"], "backup");
    assert_eq!(value["filesystem"], "btrfs");
    assert_eq!(value["credential_id"], "abc");
    assert_eq!(value["created_at"], "1700000000");

    let DomainError::AdapterFailure(m) =
        labelled_token_payload(br#"{"type":"systemd-fido2"}"#, &metadata, 1).unwrap_err()
    else {
        panic!("expected AdapterFailure");
    };
    assert_eq!(m, "exported token JSON missing expected fido2-credential field");
    let DomainError::AdapterFailure(m) = labelled_token_payload(b"{", &metadata, 1).unwrap_err() else {
        panic!("expected AdapterFailure");
    };
    assert!(m.starts_with("failed to parse exported token JSON: "), "{m}");
}

#[test]
fn metadata_rollback_removes_the_new_tokens_keyslots_only_after_a_failure() {
    let h = sample_header();
    let (slots, outcome) = metadata_rollback(Ok(()), Some(&h), "3");
    assert!(slots.is_empty());
    assert!(outcome.is_ok());
    let failure = DomainError::AdapterFailure("cryptsetup token export failed: x".to_string());
    let (slots, outcome) = metadata_rollback(Err(failure), Some(&h), "3");
    assert_eq!(slots, vec![1]);
    let DomainError::AdapterFailure(m) = outcome.unwrap_err() else {
        panic!("expected AdapterFailure");
    };
    assert_eq!(m, "cryptsetup token export failed: x");
    let (slots, outcome) = metadata_rollback(Err(DomainError::LastKeyslotGuard), None, "3");
    assert!(slots.is_empty());
    assert!(matches!(outcome, Err(DomainError::LastKeyslotGuard)));
}

#[test]
fn mapping_names_in_keeps_only_this_tools_crypt_mappings_in_order() {
    let listing = "vault-00112233aabbccdd\t(253:0)\nluks-other\t(253:1)\nvault-ffeeddccbbaa9988 (253:2)\n";
    assert_eq!(
        mapping_names_in(listing),
        vec![
            "vault-00112233aabbccdd".to_string(),
            "vault-ffeeddccbbaa9988".to_string()
        ]
    );
}

#[test]
fn mapping_names_in_an_empty_listing_is_empty() {
    assert!(mapping_names_in("No devices found\n").is_empty());
    assert!(mapping_names_in("").is_empty());
    assert!(mapping_names_in("vaultish\t(253:0)\n").is_empty());
}

#[test]
fn status_backing_source_prefers_the_loop_line() {
    let status = "/dev/mapper/vault-0 is active.\n  type:    LUKS2\n  device:  /dev/loop3\n  loop:    /home/u/tomb.img\n";
    assert_eq!(status_backing_source(status), Some("/home/u/tomb.img".to_string()));
    let device = "/dev/mapper/vault-1 is active.\n  type:    LUKS2\n  device:  /dev/sdb1\n";
    assert_eq!(status_backing_source(device), Some("/dev/sdb1".to_string()));
    assert_eq!(status_backing_source("/dev/mapper/vault-2 is inactive.\n"), None);
}

#[test]
fn label_token_labels_a_parsed_token_and_keeps_its_other_members() {
    let doc = Json::Object(vec![
        ("type".to_string(), Json::Str("systemd-fido2".to_string())),
        ("fido2-credential".to_string(), Json::Str("xyz".to_string())),
        ("filesystem".to_string(), Json::Str("ext4".to_string())),
    ]);
    let metadata = KeyMetadata {
        key_label: "primary".to_string(),
        filesystem: Filesystem::Xfs,
    };
    let payload = label_token(doc, &metadata, 42).unwrap();
    let value: serde_json::Value = serde_json::from_slice(&payload).unwrap();
    assert_eq!(value["type"], "systemd-fido2");
    assert_eq!(value["key_label"], "primary");
    assert_eq!(value["filesystem"], "xfs");
    assert_eq!(value["credential_id"], "xyz");
    assert_eq!(value["created_at"], "42");

    let not_a_token = Json::Object(vec![("fido2-credential".to_string(), Json::Null)]);
    let DomainError::AdapterFailure(m) = label_token(not_a_token, &metadata, 1).unwrap_err() else {
        panic!("expected AdapterFailure");
    };
    assert_eq!(m, "exported token JSON missing expected fido2-credential field");
}

#[test]
fn mount_point_names_use_the_volume_name_then_a_short_random_suffix() {
    assert_eq!(mount_point_name("tomb", 1, ""), "tomb");
    assert_eq!(mount_point_name("tomb", 2, "a1b2c3d4e5f60718"), "tomb-a1b2");
    assert_eq!(mount_point_name("tomb", 3, "ff"), "tomb-ff");
}

#[test]
fn mount_point_step_retries_a_taken_name_until_the_attempts_run_out() {
    assert_eq!(
        mount_point_step("/run/media/u", "/run/media/u/tomb", 1, DirCreation::Created),
        MountPointStep::Use
    );
    assert_eq!(
        mount_point_step("/run/media/u", "/run/media/u/tomb", 1, DirCreation::AlreadyExists),
        MountPointStep::Retry
    );
    assert_eq!(
        mount_point_step("/run/media/u", "/run/media/u/tomb-a1b2", 2, DirCreation::AlreadyExists),
        MountPointStep::Retry
    );
    assert_eq!(
        mount_point_step("/run/media/u", "/run/media/u/tomb-c3d4", 3, DirCreation::AlreadyExists),
        MountPointStep::GiveUp(
            "could not find an available mount point under /run/media/u after 3 attempts".to_string()
        )
    );
    assert_eq!(
        mount_point_step(
            "/run/media/u",
            "/run/media/u/tomb",
            1,
            DirCreation::Failed("Permission denied (os error 13)".to_string())
        ),
        MountPointStep::GiveUp(
            "failed to create mount point /run/media/u/tomb: Permission denied (os error 13)".to_string()
        )
    );
}

#[test]
fn mount_undo_unmounts_before_removing_the_directory() {
    assert_eq!(mount_undo_plan(true), vec![MountUndoStep::Unmount, MountUndoStep::RemoveDir]);
    assert_eq!(mount_undo_plan(false), vec![MountUndoStep::RemoveDir]);
}
