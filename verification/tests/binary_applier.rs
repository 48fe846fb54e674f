use wardnet::binary_applier::{
    is_release_binary, release_binary, release_binary_from_tarball, ApplyError, FsBinaryApplier, FsStep,
};

fn applier() -> FsBinaryApplier {
    FsBinaryApplier::new("/usr/local/bin/wardnetd".to_owned(), "/usr/local/bin/.staging".to_owned())
}

#[test]
fn old_path_appends_old_to_file_name() {
    assert_eq!(applier().old_path(), "/usr/local/bin/wardnetd.old");
    let bare = FsBinaryApplier::new("/".to_owned(), "/tmp".to_owned());
    assert_eq!(bare.old_path(), "/wardnetd.old");
}

#[test]
fn staged_path_is_inside_staging_dir() {
    assert_eq!(applier().staged_path(), "/usr/local/bin/.staging/wardnetd.staged");
}

#[test]
fn swap_plan_moves_live_aside_then_installs() {
    assert_eq!(
        applier().swap_plan(true, true),
        vec![
            FsStep::RemoveFile { path: "/usr/local/bin/wardnetd.old".to_owned() },
            FsStep::Rename {
                from: "/usr/local/bin/wardnetd".to_owned(),
                to: "/usr/local/bin/wardnetd.old".to_owned(),
            },
            FsStep::Rename {
                from: "/usr/local/bin/.staging/wardnetd.staged".to_owned(),
                to: "/usr/local/bin/wardnetd".to_owned(),
            },
        ]
    );
    assert_eq!(applier().swap_plan(true, false).len(), 2);
}

#[test]
fn swap_plan_on_fresh_host_only_installs() {
    assert_eq!(
        applier().swap_plan(false, true),
        vec![FsStep::Rename {
            from: "/usr/local/bin/.staging/wardnetd.staged".to_owned(),
            to: "/usr/local/bin/wardnetd".to_owned(),
        }]
    );
}

#[test]
fn rollback_requires_previous_binary() {
    let err = applier().rollback_plan(true, false).unwrap_err();
    assert_eq!(
        err,
        ApplyError::NoPreviousBinary { old_path: "/usr/local/bin/wardnetd.old".to_owned() }
    );
    assert_eq!(err.message(), "no previous binary at /usr/local/bin/wardnetd.old");
}

#[test]
fn rollback_replaces_live_with_previous() {
    assert_eq!(
        applier().rollback_plan(true, true).unwrap(),
        vec![
            FsStep::RemoveFile { path: "/usr/local/bin/wardnetd".to_owned() },
            FsStep::Rename {
                from: "/usr/local/bin/wardnetd.old".to_owned(),
                to: "/usr/local/bin/wardnetd".to_owned(),
            },
        ]
    );
}

#[test]
fn swap_outcome_reports_retained_binary() {
    assert_eq!(applier().swap_outcome().previous_binary, "/usr/local/bin/wardnetd.old");
}

#[test]
fn release_binary_is_found_by_exact_file_name() {
    assert!(is_release_binary(Some("wardnetd")));
    assert!(!is_release_binary(Some("wardnetd.sha256")));
    assert!(!is_release_binary(Some("")));
    assert!(!is_release_binary(None));
    assert_eq!(
        ApplyError::MissingBinary.message(),
        "tarball did not contain a `wardnetd` entry at any path"
    );
}

fn tar_gz(entries: &[(&str, &[u8])]) -> Vec<u8> {
    let encoder = flate2::write::GzEncoder::new(Vec::new(), flate2::Compression::default());
    let mut builder = tar::Builder::new(encoder);
    for (path, data) in entries {
        let mut header = tar::Header::new_gnu();
        header.set_size(data.len() as u64);
        header.set_mode(0o755);
        header.set_cksum();
        builder.append_data(&mut header, path, *data).unwrap();
    }
    builder.into_inner().unwrap().finish().unwrap()
}

#[test]
fn release_binary_is_first_wardnetd_entry() {
    let entries = vec![
        ("README.md".to_owned(), b"docs".to_vec()),
        ("dist/wardnetd".to_owned(), b"first".to_vec()),
        ("wardnetd".to_owned(), b"second".to_vec()),
    ];
    assert_eq!(release_binary(entries), Ok(b"first".to_vec()));
    assert_eq!(
        release_binary(vec![("wardnetd.sha256".to_owned(), b"x".to_vec())]),
        Err(ApplyError::MissingBinary)
    );
    assert_eq!(release_binary(Vec::new()), Err(ApplyError::MissingBinary));
}

#[test]
fn release_binary_read_from_tarball() {
    let tarball = tar_gz(&[("wardnet-1.2.3/LICENSE", b"MIT"), ("wardnet-1.2.3/wardnetd", b"\x7fELF binary")]);
    assert_eq!(release_binary_from_tarball(&tarball), Ok(b"\x7fELF binary".to_vec()));

    let without = tar_gz(&[("wardnet-1.2.3/LICENSE", b"MIT")]);
    assert_eq!(release_binary_from_tarball(&without), Err(ApplyError::MissingBinary));

    match release_binary_from_tarball(b"not a gzip stream") {
        Err(ApplyError::UnreadableTarball { detail }) => assert!(!detail.is_empty()),
        other => panic!("unexpected {other:?}"),
    }
}

#[test]
fn damage_after_the_binary_does_not_matter() {
    let tarball = tar_gz(&[("wardnet-1.2.3/wardnetd", b"\x7fELF binary"), ("wardnet-1.2.3/LICENSE", b"MIT")]);

    // A wrong CRC in the gzip trailer is only seen at the very end.
    let mut bad_crc = tarball.clone();
    let n = bad_crc.len();
    bad_crc[n - 8] ^= 0xFF;
    assert_eq!(release_binary_from_tarball(&bad_crc), Ok(b"\x7fELF binary".to_vec()));

    // A stream cut short after the binary still yields it.
    let cut = &tarball[..n - 4];
    assert_eq!(release_binary_from_tarball(cut), Ok(b"\x7fELF binary".to_vec()));
}

#[test]
fn damage_before_the_binary_is_reported() {
    let tarball = tar_gz(&[("wardnet-1.2.3/LICENSE", b"MIT"), ("wardnet-1.2.3/wardnetd", b"\x7fELF binary")]);
    let mut bad_crc = tarball.clone();
    let n = bad_crc.len();
    bad_crc[n - 8] ^= 0xFF;
    // The trailer is read after every entry, so the binary is found first.
    assert_eq!(release_binary_from_tarball(&bad_crc), Ok(b"\x7fELF binary".to_vec()));

    let cut = &tarball[..20];
    match release_binary_from_tarball(cut) {
        Err(ApplyError::UnreadableTarball { detail }) => assert!(!detail.is_empty()),
        other => panic!("unexpected {other:?}"),
    }
}
