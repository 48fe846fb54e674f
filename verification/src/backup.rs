//! Backup and restore decisions: passphrase and compatibility checks, the
//! names of the `.bak-*` snapshots a restore leaves behind, how they are
//! recognised again, and when they are old enough to delete.

use vstd::prelude::*;
use crate::error::AppError;
use crate::text::{push_decimal, push_signed_decimal, push_str, str_eq};
use crate::paths::{extension_of, join_path, parent_of, with_file_name, file_name_of};
use crate::pending::PendingImportError;
use base64::Engine;

verus! {

/// `system_config` key set to `"true"` after a successful restore, until the
/// daemon restarts.
pub const BACKUP_RESTART_PENDING_KEY: &'static str = "backup_restart_pending";

/// Stage of a restore in progress.
#[derive(Clone, Copy, Debug, PartialEq, Eq)]
pub enum RestorePhase {
    Validating,
    BackingUp,
    Extracting,
    Applied,
}

/// Current state of the backup subsystem.
#[derive(Clone, Debug, PartialEq, Eq)]
pub enum BackupStatus {
    Idle,
    Exporting,
    Importing { phase: RestorePhase },
    Failed { reason: String },
}

/// What a retained `.bak-*` snapshot holds.
#[derive(Clone, Copy, Debug, PartialEq, Eq)]
pub enum SnapshotKind {
    Database,
    Config,
    Keys,
}

/// The message refusing a passphrase shorter than `min_len` characters.
pub open spec fn short_passphrase_message(min_len: usize) -> Seq<char> {
    "passphrase must be at least "@ + crate::text::decimal(min_len as nat) + " characters"@
}

/// Refuse passphrases with fewer than `min_len` characters.
pub fn require_passphrase(passphrase: &str, min_len: usize) -> (r: Result<(), AppError>)
    ensures
        r is Ok <==> passphrase@.len() >= min_len,
        r matches Err(e) ==> e matches AppError::BadRequest(m) && m@ == short_passphrase_message(min_len),
{
    if passphrase.unicode_len() < min_len {
        let mut m = String::new();
        push_str(&mut m, "passphrase must be at least ");
        push_decimal(&mut m, min_len as u64);
        push_str(&mut m, " characters");
        proof {
            assert(Seq::<char>::empty() + "passphrase must be at least "@ =~= "passphrase must be at least "@);
        }
        return Err(AppError::BadRequest(m));
    }
    Ok(())
}

/// Why a bundle in a format the daemon does not support is refused.
pub open spec fn format_reason(bundle_format: u32, supported_format: u32) -> Seq<char> {
    "bundle format version "@ + crate::text::decimal(bundle_format as nat) + " is newer than supported ("@
        + crate::text::decimal(supported_format as nat) + ") — upgrade the daemon first"@
}

/// Why a bundle from a newer database schema is refused.
pub open spec fn schema_reason(bundle_schema: i64, running_schema: i64) -> Seq<char> {
    "bundle schema version "@ + crate::text::signed_decimal(bundle_schema as int)
        + " is newer than the running daemon's ("@ + crate::text::signed_decimal(running_schema as int)
        + ") — upgrade the daemon first, then retry"@
}

/// First compatibility check of a bundle: its format version, which must not
/// be newer than the newest format this daemon reads. Returns the reason for
/// refusing it, or `None` when the format is supported.
pub fn check_format(bundle_format: u32, supported_format: u32) -> (r: Option<String>)
    ensures
        r is None <==> bundle_format <= supported_format,
        r matches Some(m) ==> m@ == format_reason(bundle_format, supported_format),
{
    if bundle_format <= supported_format {
        return None;
    }
    let mut m = String::new();
    push_str(&mut m, "bundle format version ");
    push_decimal(&mut m, bundle_format as u64);
    push_str(&mut m, " is newer than supported (");
    push_decimal(&mut m, supported_format as u64);
    push_str(&mut m, ") — upgrade the daemon first");
    proof {
        assert(Seq::<char>::empty() + "bundle format version "@ =~= "bundle format version "@);
    }
    Some(m)
}

/// Second compatibility check: a bundle from a newer schema than the running
/// daemon's is refused, with the reason; otherwise `None`.
pub fn check_schema(bundle_schema: i64, running_schema: i64) -> (r: Option<String>)
    ensures
        r is None <==> bundle_schema <= running_schema,
        r matches Some(m) ==> m@ == schema_reason(bundle_schema, running_schema),
{
    if bundle_schema <= running_schema {
        return None;
    }
    let mut m = String::new();
    push_str(&mut m, "bundle schema version ");
    push_signed_decimal(&mut m, bundle_schema);
    push_str(&mut m, " is newer than the running daemon's (");
    push_signed_decimal(&mut m, running_schema);
    push_str(&mut m, ") — upgrade the daemon first, then retry");
    proof {
        assert(Seq::<char>::empty() + "bundle schema version "@ =~= "bundle schema version "@);
    }
    Some(m)
}

/// The error refusing an incompatible bundle at apply time: its reason, or a
/// generic one when none was given.
pub fn incompatible_bundle(reason: Option<String>) -> (e: AppError)
    ensures
        e matches AppError::BadRequest(m) && m@ == match reason {
            Some(r) => r@,
            None => "bundle is not compatible"@,
        },
{
    match reason {
        Some(r) => AppError::BadRequest(r),
        None => AppError::BadRequest(String::from_str("bundle is not compatible")),
    }
}

/// The error for a bundle the archiver could not decrypt or unpack.
pub fn undecryptable_bundle(detail: &str) -> (e: AppError)
    ensures
        e matches AppError::BadRequest(m) && m@ == "bundle could not be decrypted: "@ + detail@,
{
    let mut m = String::new();
    push_str(&mut m, "bundle could not be decrypted: ");
    push_str(&mut m, detail);
    proof {
        assert(Seq::<char>::empty() + "bundle could not be decrypted: "@ =~= "bundle could not be decrypted: "@);
    }
    AppError::BadRequest(m)
}

/// The error for a preview token that cannot be applied.
pub fn preview_token_error(e: PendingImportError) -> (r: AppError)
    ensures
        r matches AppError::BadRequest(m) && m@ == match e {
            PendingImportError::UnknownToken => "preview token is unknown or expired — call preview_import again"@,
            PendingImportError::Expired => "preview token has expired"@,
        },
{
    match e {
        PendingImportError::UnknownToken => AppError::BadRequest(
            String::from_str("preview token is unknown or expired — call preview_import again"),
        ),
        PendingImportError::Expired => AppError::BadRequest(String::from_str("preview token has expired")),
    }
}

/// Whether `s` begins with `prefix`.
pub open spec fn starts_with(s: Seq<char>, prefix: Seq<char>) -> bool {
    prefix.len() <= s.len() && s.subrange(0, prefix.len() as int) == prefix
}

fn has_prefix(s: &str, prefix: &str) -> (r: bool)
    ensures
        r == starts_with(s@, prefix@),
{
    let n = prefix.unicode_len();
    if n > s.unicode_len() {
        return false;
    }
    str_eq(s.substring_char(0, n), prefix)
}

/// Whether `s` equals `t` ignoring the case of ASCII letters.
pub open spec fn eq_ignore_ascii_case(s: Seq<char>, t: Seq<char>) -> bool {
    crate::text::ascii_lowercase(s) == crate::text::ascii_lowercase(t)
}

/// The kind of snapshot a file name denotes, or `None` for files a restore
/// did not produce.
pub open spec fn snapshot_kind(name: Seq<char>) -> Option<SnapshotKind> {
    if starts_with(name, "wardnet.db.bak-"@) {
        Some(SnapshotKind::Database)
    } else if starts_with(name, "wardnet.toml.bak-"@) {
        Some(SnapshotKind::Config)
    } else if starts_with(name, "secrets.bak-"@) && (crate::paths::path_extension(name) matches Some(e)
        && eq_ignore_ascii_case(e, "json"@)) {
        Some(SnapshotKind::Keys)
    } else {
        None
    }
}

/// `snapshot_kind` for a name that is a single plain path component, with
/// the extension taken by the documented rule of `Path::extension`.
pub open spec fn plain_snapshot_kind(name: Seq<char>) -> Option<SnapshotKind> {
    if starts_with(name, "wardnet.db.bak-"@) {
        Some(SnapshotKind::Database)
    } else if starts_with(name, "wardnet.toml.bak-"@) {
        Some(SnapshotKind::Config)
    } else if starts_with(name, "secrets.bak-"@) && (crate::paths::name_extension(name) matches Some(e)
        && eq_ignore_ascii_case(e, "json"@)) {
        Some(SnapshotKind::Keys)
    } else {
        None
    }
}

/// Recognise one of the three `.bak-*` file name patterns a restore produces.
pub fn classify_snapshot(name: &str) -> (r: Option<SnapshotKind>)
    ensures
        r == snapshot_kind(name@),
        crate::paths::is_plain_component(name@) ==> r == plain_snapshot_kind(name@),
        r == Some(SnapshotKind::Database) ==> starts_with(name@, "wardnet.db.bak-"@),
        r == Some(SnapshotKind::Config) ==> starts_with(name@, "wardnet.toml.bak-"@),
        r == Some(SnapshotKind::Keys) ==> starts_with(name@, "secrets.bak-"@),
{
    if has_prefix(name, "wardnet.db.bak-") {
        Some(SnapshotKind::Database)
    } else if has_prefix(name, "wardnet.toml.bak-") {
        Some(SnapshotKind::Config)
    } else if has_prefix(name, "secrets.bak-") {
        match extension_of(name) {
            Some(ext) => {
                let a = crate::text::to_ascii_lowercase(ext.as_str());
                let b = crate::text::to_ascii_lowercase("json");
                if str_eq(a.as_str(), b.as_str()) {
                    Some(SnapshotKind::Keys)
                } else {
                    None
                }
            },
            None => None,
        }
    } else {
        None
    }
}

/// Only names a restore produces are recognised: a file recognised as a
/// snapshot of some kind starts with that kind's prefix (`wardnet.db.bak-`,
/// `wardnet.toml.bak-` or `secrets.bak-`), and a name with none of these
/// prefixes is never taken for a snapshot, so unrelated files in the same
/// directory are neither listed nor deleted.
pub proof fn lemma_only_restore_names_recognised(name: Seq<char>)
    ensures
        snapshot_kind(name) == Some(SnapshotKind::Database) ==> starts_with(name, "wardnet.db.bak-"@),
        snapshot_kind(name) == Some(SnapshotKind::Config) ==> starts_with(name, "wardnet.toml.bak-"@),
        snapshot_kind(name) == Some(SnapshotKind::Keys) ==> starts_with(name, "secrets.bak-"@),
        plain_snapshot_kind(name) == Some(SnapshotKind::Database) ==> starts_with(name, "wardnet.db.bak-"@),
        plain_snapshot_kind(name) == Some(SnapshotKind::Config) ==> starts_with(name, "wardnet.toml.bak-"@),
        plain_snapshot_kind(name) == Some(SnapshotKind::Keys) ==> starts_with(name, "secrets.bak-"@),
        !starts_with(name, "wardnet.db.bak-"@) && !starts_with(name, "wardnet.toml.bak-"@)
            && !starts_with(name, "secrets.bak-"@) ==> snapshot_kind(name) is None && plain_snapshot_kind(name) is None,
{
}

/// The name a file is renamed to when a restore sets it aside.
pub open spec fn backup_name(file_name: Seq<char>, timestamp: Seq<char>) -> Seq<char> {
    file_name + ".bak-"@ + timestamp
}

/// Where a file is set aside before a restore overwrites it:
/// `<name>.bak-<timestamp>` next to it, in its snapshot directory (the one
/// listed for a database at that path); `None` when the path has no file
/// name.
pub fn backup_path(path: &str, timestamp: &str) -> (r: Option<String>)
    ensures
        match crate::paths::path_file_name(path@) {
            Some(n) => r matches Some(p) && p@ == crate::paths::path_with_file_name(path@, backup_name(n, timestamp@))
                && p@ == crate::paths::path_join(snapshot_dir_of(path@), backup_name(n, timestamp@)),
            None => r is None,
        },
{
    match file_name_of(path) {
        None => None,
        Some(name) => {
            let mut n = name;
            push_str(&mut n, ".bak-");
            push_str(&mut n, timestamp);
            Some(with_file_name(path, n.as_str()))
        },
    }
}

proof fn lemma_last_dot_of_json_suffix(x: Seq<char>)
    ensures
        crate::paths::last_dot(x + ".json"@) == x.len(),
{
    reveal_strlit(".json");
    let s = x + ".json"@;
    assert(s.drop_last().drop_last().drop_last().drop_last() =~= x + seq!['.']);
    assert(s.drop_last().drop_last().drop_last() =~= x + seq!['.', 'j']);
    assert(s.drop_last().drop_last() =~= x + seq!['.', 'j', 's']);
    assert(s.drop_last() =~= x + seq!['.', 'j', 's', 'o']);
    reveal_with_fuel(crate::paths::last_dot, 6);
}

/// Every snapshot a restore leaves behind is recognised by the listing, with
/// its kind: the database and config files set aside under their usual
/// names, and the secret-store snapshot, for any timestamp without `/`.
pub proof fn lemma_restore_snapshots_recognised(timestamp: Seq<char>)
    requires
        forall|i: int| 0 <= i < timestamp.len() ==> #[trigger] timestamp[i] != '/',
    ensures
        plain_snapshot_kind(backup_name("wardnet.db"@, timestamp)) == Some(SnapshotKind::Database),
        plain_snapshot_kind(backup_name("wardnet.toml"@, timestamp)) == Some(SnapshotKind::Config),
        crate::paths::is_plain_component(secrets_snapshot_name(timestamp)),
        plain_snapshot_kind(secrets_snapshot_name(timestamp)) == Some(SnapshotKind::Keys),
{
    reveal_strlit("wardnet.db");
    reveal_strlit("wardnet.toml");
    reveal_strlit(".bak-");
    reveal_strlit("wardnet.db.bak-");
    reveal_strlit("wardnet.toml.bak-");
    reveal_strlit("secrets.bak-");
    reveal_strlit(".json");
    reveal_strlit("json");
    let db = backup_name("wardnet.db"@, timestamp);
    assert(db.subrange(0, 15) =~= "wardnet.db.bak-"@);
    let cfg = backup_name("wardnet.toml"@, timestamp);
    assert(cfg.subrange(0, 17) =~= "wardnet.toml.bak-"@);
    assert(cfg[8] != "wardnet.db.bak-"@[8]);
    let sec = secrets_snapshot_name(timestamp);
    assert(sec[0] != "wardnet.db.bak-"@[0]);
    assert(sec[0] != "wardnet.toml.bak-"@[0]);
    assert(sec.subrange(0, 12) =~= "secrets.bak-"@);
    assert forall|i: int| 0 <= i < sec.len() implies #[trigger] sec[i] != '/' by {
        if 12 <= i < 12 + timestamp.len() {
            assert(sec[i] == timestamp[i - 12]);
        }
    }
    assert(sec.len() > 2);
    assert(sec != seq!['.']);
    assert(sec != seq!['.', '.']);
    let front = "secrets.bak-"@ + timestamp;
    assert(sec =~= front + ".json"@);
    lemma_last_dot_of_json_suffix(front);
    let ext = sec.subrange(front.len() as int + 1, sec.len() as int);
    assert(ext =~= "json"@);
    assert(crate::paths::name_extension(sec) == Some(ext));
    assert(crate::text::ascii_lowercase(ext) =~= crate::text::ascii_lowercase("json"@));
}

/// The character of a six-bit value in the standard base64 alphabet.
pub open spec fn base64_char(v: nat) -> char {
    if v < 26 {
        (65 + v) as char
    } else if v < 52 {
        (97 + v - 26) as char
    } else if v < 62 {
        (48 + v - 52) as char
    } else if v == 62 {
        '+'
    } else {
        '/'
    }
}

/// Standard base64 with `=` padding: each group of three bytes becomes four
/// characters, and a final group of one or two bytes is padded to four.
pub open spec fn base64_standard(b: Seq<u8>) -> Seq<char>
    decreases b.len(),
{
    if b.len() == 0 {
        Seq::empty()
    } else if b.len() == 1 {
        seq![base64_char((b[0] / 4) as nat), base64_char(((b[0] % 4) * 16) as nat), '=', '=']
    } else if b.len() == 2 {
        seq![
            base64_char((b[0] / 4) as nat),
            base64_char(((b[0] % 4) * 16 + b[1] / 16) as nat),
            base64_char(((b[1] % 16) * 4) as nat),
            '=',
        ]
    } else {
        seq![
            base64_char((b[0] / 4) as nat),
            base64_char(((b[0] % 4) * 16 + b[1] / 16) as nat),
            base64_char(((b[1] % 16) * 4 + b[2] / 64) as nat),
            base64_char((b[2] % 64) as nat),
        ] + base64_standard(b.skip(3))
    }
}

/// Standard base64 turns every three bytes into four characters and pads a
/// final group of one or two bytes to four: the text is `4 * ceil(n / 3)`
/// characters long, ends in `==` after a single leftover byte and in one `=`
/// after two, and holds no `=` before its padding.
pub proof fn lemma_base64_length_and_padding(b: Seq<u8>)
    ensures
        base64_standard(b).len() == 4 * ((b.len() + 2) / 3),
        b.len() % 3 == 1 ==> base64_standard(b).last() == '=' && base64_standard(b)[base64_standard(b).len() - 2] == '=',
        b.len() % 3 == 2 ==> base64_standard(b).last() == '=' && base64_standard(b)[base64_standard(b).len() - 2] != '=',
        b.len() % 3 == 0 ==> forall|i: int| 0 <= i < base64_standard(b).len() ==> #[trigger] base64_standard(b)[i] != '=',
    decreases b.len(),
{
    if b.len() >= 3 {
        let rest = b.skip(3);
        lemma_base64_length_and_padding(rest);
        let head = seq![
            base64_char((b[0] / 4) as nat),
            base64_char(((b[0] % 4) * 16 + b[1] / 16) as nat),
            base64_char(((b[1] % 16) * 4 + b[2] / 64) as nat),
            base64_char((b[2] % 64) as nat),
        ];
        let full = base64_standard(b);
        assert(full == head + base64_standard(rest));
        assert(rest.len() == b.len() - 3);
        assert((b.len() + 2) / 3 == (rest.len() + 2) / 3 + 1);
        if b.len() % 3 == 0 {
            assert forall|i: int| 0 <= i < full.len() implies #[trigger] full[i] != '=' by {
                if i >= 4 {
                    assert(full[i] == base64_standard(rest)[i - 4]);
                } else {
                    assert(full[i] == head[i]);
                }
            }
        }
        if rest.len() > 0 {
            assert(full.last() == base64_standard(rest).last());
            assert(full[full.len() - 2] == base64_standard(rest)[base64_standard(rest).len() - 2]);
        }
    }
}

/// `base64::engine::general_purpose::STANDARD.encode`: the standard alphabet
/// with padding.
#[verifier::external_body]
fn base64_encode(bytes: &[u8]) -> (s: String)
    ensures
        s@ == base64_standard(bytes@),
{
    base64::engine::general_purpose::STANDARD.encode(bytes)
}

/// What the secret-store snapshot of a restore records: `None` when the store
/// holds nothing (no snapshot is written), otherwise each secret's path with
/// its value in standard base64, in the store's order.
pub fn secrets_snapshot_entries(entries: Vec<(String, Vec<u8>)>) -> (r: Option<Vec<(String, String)>>)
    ensures
        r is None <==> entries@.len() == 0,
        r matches Some(out) ==> out@.len() == entries@.len() && forall|i: int| 0 <= i < out@.len() ==>
            (#[trigger] out@[i]).0@ == entries@[i].0@ && out@[i].1@ == base64_standard(entries@[i].1@),
{
    if entries.len() == 0 {
        return None;
    }
    let mut out: Vec<(String, String)> = Vec::new();
    let mut i: usize = 0;
    while i < entries.len()
        invariant
            i <= entries@.len(),
            out@.len() == i,
            forall|j: int| 0 <= j < i ==> (#[trigger] out@[j]).0@ == entries@[j].0@
                && out@[j].1@ == base64_standard(entries@[j].1@),
        decreases entries@.len() - i,
    {
        let path = String::from_str(entries[i].0.as_str());
        let value = base64_encode(entries[i].1.as_slice());
        out.push((path, value));
        i = i + 1;
    }
    Some(out)
}

/// The name of the secret-store snapshot written before a restore.
pub open spec fn secrets_snapshot_name(timestamp: Seq<char>) -> Seq<char> {
    "secrets.bak-"@ + timestamp + ".json"@
}

/// Where the secret-store snapshot of a restore is written, in `dir`.
pub fn secrets_snapshot_path(dir: &str, timestamp: &str) -> (r: String)
    ensures
        r@ == crate::paths::path_join(dir@, secrets_snapshot_name(timestamp@)),
{
    let mut n = String::new();
    push_str(&mut n, "secrets.bak-");
    push_str(&mut n, timestamp);
    push_str(&mut n, ".json");
    proof {
        assert(Seq::<char>::empty() + "secrets.bak-"@ =~= "secrets.bak-"@);
    }
    join_path(dir, n.as_str())
}

/// The directory snapshots of a database at `database_path` live in: its
/// parent, or the current directory when it has none.
pub open spec fn snapshot_dir_of(database_path: Seq<char>) -> Seq<char> {
    match crate::paths::path_parent(database_path) {
        Some(p) => p,
        None => "."@,
    }
}

/// The directory snapshots live in: the parent of the database file, or the
/// current directory when it has none.
pub fn snapshot_dir(database_path: &str) -> (r: String)
    ensures
        r@ == snapshot_dir_of(database_path@),
{
    match parent_of(database_path) {
        Some(p) => p,
        None => String::from_str("."),
    }
}

/// Age of a snapshot created at `created` as seen at `now` (nanoseconds since
/// the Unix epoch), counted as zero for snapshots dated in the future.
pub open spec fn snapshot_age(created: i64, now: i64) -> int {
    if now >= created {
        now - created
    } else {
        0
    }
}

/// Whether a snapshot is old enough to delete: it is older than `retain`
/// nanoseconds. One exactly as old as the retention period is kept.
pub fn snapshot_expired(created: i64, now: i64, retain: u128) -> (r: bool)
    ensures
        r == (snapshot_age(created, now) > retain),
        now >= created ==> (r <==> now - created > retain),
        now < created ==> !r,
{
    if now >= created {
        let age: i128 = (now as i128) - (created as i128);
        (age as u128) > retain
    } else {
        false
    }
}

/// The number of secrets recorded in a bundle manifest, saturating at
/// `u32::MAX`.
pub fn manifest_key_count(secret_count: usize) -> (r: u32)
    ensures
        r == if secret_count <= u32::MAX { secret_count as u32 } else { u32::MAX },
{
    if secret_count <= 0xffff_ffffusize {
        secret_count as u32
    } else {
        u32::MAX
    }
}

/// What a restore will replace, as shown in the preview: the database file,
/// the config file, and a line counting the secrets.
pub fn files_to_replace(database_path: &str, config_path: &str, secret_count: usize) -> (r: Vec<String>)
    ensures
        r@.len() == 3,
        r@[0]@ == database_path@,
        r@[1]@ == config_path@,
        r@[2]@ == crate::text::decimal(secret_count as nat) + " secret(s) in the configured store"@,
{
    let mut line = String::new();
    push_decimal(&mut line, secret_count as u64);
    push_str(&mut line, " secret(s) in the configured store");
    proof {
        assert(Seq::<char>::empty() + crate::text::decimal(secret_count as nat) =~= crate::text::decimal(secret_count as nat));
    }
    let mut r: Vec<String> = Vec::new();
    r.push(String::from_str(database_path));
    r.push(String::from_str(config_path));
    r.push(line);
    r
}

/// The status the subsystem settles in after an export: idle on success,
/// failed with the error's text otherwise.
pub fn status_after_export(outcome: &Result<Vec<u8>, AppError>) -> (s: BackupStatus)
    ensures
        match *outcome {
            Ok(_) => s == BackupStatus::Idle,
            Err(e) => s matches BackupStatus::Failed { reason } && reason@ == crate::error::spec_message(e),
        },
{
    match outcome {
        Ok(_) => BackupStatus::Idle,
        Err(e) => BackupStatus::Failed { reason: e.message() },
    }
}

} // verus!
