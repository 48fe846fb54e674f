use wardnet::backup::{
    backup_path, check_format, check_schema, classify_snapshot, files_to_replace,
    incompatible_bundle, manifest_key_count, preview_token_error, require_passphrase,
    secrets_snapshot_entries, secrets_snapshot_path, snapshot_dir, snapshot_expired, status_after_export,
    undecryptable_bundle, BackupStatus, SnapshotKind,
};
use wardnet::error::AppError;
use wardnet::pending::{PendingImportError, PendingImports, PREVIEW_TOKEN_TTL_NANOS};

#[test]
fn short_passphrase_is_refused() {
    let err = require_passphrase("short", 12).unwrap_err();
    assert_eq!(
        err,
        AppError::BadRequest("passphrase must be at least 12 characters".to_owned())
    );
}

#[test]
fn passphrase_length_counts_characters_not_bytes() {
    // Twelve characters, more than twelve bytes.
    assert!(require_passphrase("ééééééééééé1", 12).is_ok());
    assert!(require_passphrase("correct-horse-battery-staple", 12).is_ok());
}

#[test]
fn unsupported_format_gives_reason() {
    assert_eq!(check_format(2, 2), None);
    assert_eq!(
        check_format(3, 2).as_deref(),
        Some("bundle format version 3 is newer than supported (2) — upgrade the daemon first")
    );
}

#[test]
fn newer_schema_gives_reason() {
    assert_eq!(check_schema(7, 7), None);
    assert_eq!(check_schema(6, 7), None);
    assert_eq!(
        check_schema(8, 7).as_deref(),
        Some("bundle schema version 8 is newer than the running daemon's (7) — upgrade the daemon first, then retry")
    );
    assert_eq!(
        check_schema(-1, -2).as_deref(),
        Some("bundle schema version -1 is newer than the running daemon's (-2) — upgrade the daemon first, then retry")
    );
}

#[test]
fn incompatible_bundle_error_uses_reason_or_default() {
    assert_eq!(
        incompatible_bundle(Some("why".to_owned())),
        AppError::BadRequest("why".to_owned())
    );
    assert_eq!(
        incompatible_bundle(None),
        AppError::BadRequest("bundle is not compatible".to_owned())
    );
}

#[test]
fn bundle_and_token_errors_are_bad_requests() {
    assert_eq!(
        undecryptable_bundle("bad tag"),
        AppError::BadRequest("bundle could not be decrypted: bad tag".to_owned())
    );
    assert_eq!(
        preview_token_error(PendingImportError::UnknownToken),
        AppError::BadRequest("preview token is unknown or expired — call preview_import again".to_owned())
    );
    assert_eq!(
        preview_token_error(PendingImportError::Expired),
        AppError::BadRequest("preview token has expired".to_owned())
    );
}

#[test]
fn classify_recognises_restore_snapshots() {
    assert_eq!(classify_snapshot("wardnet.db.bak-20260101T000000Z"), Some(SnapshotKind::Database));
    assert_eq!(classify_snapshot("wardnet.toml.bak-20260101T000000Z"), Some(SnapshotKind::Config));
    assert_eq!(classify_snapshot("secrets.bak-20260101T000000Z.json"), Some(SnapshotKind::Keys));
    assert_eq!(classify_snapshot("secrets.bak-20260101T000000Z.JSON"), Some(SnapshotKind::Keys));
}

#[test]
fn classify_ignores_unrelated_files() {
    assert_eq!(classify_snapshot("wardnet.db"), None);
    assert_eq!(classify_snapshot("secrets.bak-20260101T000000Z.txt"), None);
    assert_eq!(classify_snapshot("secrets.bak-20260101T000000Z"), None);
    assert_eq!(classify_snapshot("notes.md"), None);
}

#[test]
fn backup_paths_sit_next_to_the_file() {
    assert_eq!(
        backup_path("/var/lib/wardnet/wardnet.db", "20260101T000000Z").as_deref(),
        Some("/var/lib/wardnet/wardnet.db.bak-20260101T000000Z")
    );
    assert_eq!(backup_path("/", "20260101T000000Z"), None);
    assert_eq!(
        secrets_snapshot_path("/var/lib/wardnet", "20260101T000000Z"),
        "/var/lib/wardnet/secrets.bak-20260101T000000Z.json"
    );
    assert_eq!(snapshot_dir("/var/lib/wardnet/wardnet.db"), "/var/lib/wardnet");
    assert_eq!(snapshot_dir("/"), ".");
}

#[test]
fn restore_outputs_are_listed_again() {
    let ts = "20260101T120000Z";
    let db = backup_path("/data/wardnet.db", ts).unwrap();
    let cfg = backup_path("/data/wardnet.toml", ts).unwrap();
    let keys = secrets_snapshot_path("/data", ts);
    let name = |p: &str| p.rsplit('/').next().unwrap().to_owned();
    assert_eq!(classify_snapshot(&name(&db)), Some(SnapshotKind::Database));
    assert_eq!(classify_snapshot(&name(&cfg)), Some(SnapshotKind::Config));
    assert_eq!(classify_snapshot(&name(&keys)), Some(SnapshotKind::Keys));
}

#[test]
fn snapshots_expire_after_retention() {
    let hour: i64 = 3_600_000_000_000;
    assert!(snapshot_expired(0, 2 * hour + 1, 2 * hour as u128));
    // A snapshot exactly as old as the retention period is kept.
    assert!(!snapshot_expired(0, 2 * hour, 2 * hour as u128));
    assert!(!snapshot_expired(0, 2 * hour - 1, 2 * hour as u128));
    // Snapshots dated in the future count as brand new.
    assert!(!snapshot_expired(hour, 0, 1));
    assert!(!snapshot_expired(hour, 0, 0));
    assert!(snapshot_expired(0, 1, 0));
}

#[test]
fn manifest_key_count_saturates() {
    assert_eq!(manifest_key_count(2), 2);
    assert_eq!(manifest_key_count(u32::MAX as usize), u32::MAX);
    assert_eq!(manifest_key_count(u32::MAX as usize + 5), u32::MAX);
}

#[test]
fn files_to_replace_lists_database_config_and_secret_count() {
    assert_eq!(
        files_to_replace("/data/wardnet.db", "/etc/wardnet/wardnet.toml", 2),
        vec![
            "/data/wardnet.db".to_owned(),
            "/etc/wardnet/wardnet.toml".to_owned(),
            "2 secret(s) in the configured store".to_owned(),
        ]
    );
}

#[test]
fn export_outcome_sets_status() {
    assert_eq!(status_after_export(&Ok(vec![1, 2, 3])), BackupStatus::Idle);
    assert_eq!(
        status_after_export(&Err(AppError::Internal("dump failed".to_owned()))),
        BackupStatus::Failed { reason: "dump failed".to_owned() }
    );
}

#[test]
fn preview_token_applies_once_within_window() {
    let mut pending = PendingImports::new();
    pending.insert("tok".to_owned(), 1_000, "bundle");
    assert_eq!(pending.take("tok", 1_000 + PREVIEW_TOKEN_TTL_NANOS - 1), Ok("bundle"));
    assert_eq!(
        pending.take("tok", 1_000 + PREVIEW_TOKEN_TTL_NANOS - 1),
        Err(PendingImportError::UnknownToken)
    );
}

#[test]
fn preview_token_expires() {
    let mut pending = PendingImports::new();
    pending.insert("tok".to_owned(), 0, 1u8);
    assert_eq!(
        pending.take("tok", PREVIEW_TOKEN_TTL_NANOS),
        Err(PendingImportError::Expired)
    );
    assert_eq!(pending.take("tok", 0), Err(PendingImportError::UnknownToken));
}

#[test]
fn new_preview_drops_expired_tokens() {
    let mut pending = PendingImports::new();
    pending.insert("old".to_owned(), 0, 1u8);
    pending.insert("new".to_owned(), PREVIEW_TOKEN_TTL_NANOS, 2u8);
    assert_eq!(
        pending.take("old", PREVIEW_TOKEN_TTL_NANOS),
        Err(PendingImportError::UnknownToken)
    );
    assert_eq!(pending.take("new", PREVIEW_TOKEN_TTL_NANOS), Ok(2u8));
}

#[test]
fn unknown_token_is_refused() {
    let mut pending: PendingImports<u8> = PendingImports::new();
    assert_eq!(pending.take("nope", 0), Err(PendingImportError::UnknownToken));
}

#[test]
fn secrets_snapshot_records_base64_values() {
    assert_eq!(secrets_snapshot_entries(Vec::new()), None);
    let entries = vec![
        ("wireguard/a.key".to_owned(), b"f".to_vec()),
        ("wireguard/b.key".to_owned(), b"fo".to_vec()),
        ("vault/token".to_owned(), b"foobar".to_vec()),
        ("empty".to_owned(), Vec::new()),
    ];
    assert_eq!(
        secrets_snapshot_entries(entries),
        Some(vec![
            ("wireguard/a.key".to_owned(), "Zg==".to_owned()),
            ("wireguard/b.key".to_owned(), "Zm8=".to_owned()),
            ("vault/token".to_owned(), "Zm9vYmFy".to_owned()),
            ("empty".to_owned(), String::new()),
        ])
    );
    let binary = vec![("k".to_owned(), vec![0xFB, 0xFF, 0x00])];
    assert_eq!(secrets_snapshot_entries(binary), Some(vec![("k".to_owned(), "+/8A".to_owned())]));
}
