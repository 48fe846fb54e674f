use wardnet::backup::{BackupStatus, RestorePhase};
use wardnet::error::AppError;
use wardnet::restore::{advance_restore, first_restore_step, RestoreDirective, RestoreEvent, RestoreStep};

#[test]
fn successful_restore_runs_every_step_in_order() {
    let mut step = first_restore_step();
    let mut seen = vec![step];
    let mut statuses = Vec::new();
    let mut snapshots: Vec<String> = Vec::new();
    loop {
        let snapshot = match step {
            RestoreStep::SetAsideDatabase => Some("/var/lib/wardnet/wardnet.db.bak-20250101T000000Z".to_owned()),
            RestoreStep::SnapshotSecrets => Some("/var/lib/wardnet/secrets.bak-20250101T000000Z.json".to_owned()),
            // A step that does not set anything aside cannot add a snapshot.
            RestoreStep::WriteConfig => Some("ignored".to_owned()),
            _ => None,
        };
        match advance_restore(step, RestoreEvent::Done { snapshot }, &mut snapshots) {
            RestoreDirective::Run { status, step: next } => {
                if let Some(s) = status {
                    statuses.push((next, s));
                }
                seen.push(next);
                step = next;
            }
            RestoreDirective::Finish { status, result } => {
                assert_eq!(status, Some(BackupStatus::Importing { phase: RestorePhase::Applied }));
                assert_eq!(result, Ok(()));
                break;
            }
        }
    }
    assert_eq!(
        seen,
        vec![
            RestoreStep::CheckCompatibility,
            RestoreStep::SetAsideDatabase,
            RestoreStep::SetAsideConfig,
            RestoreStep::SnapshotSecrets,
            RestoreStep::RestoreDatabase,
            RestoreStep::WriteConfig,
            RestoreStep::RestoreSecrets,
            RestoreStep::MarkRestartPending,
        ]
    );
    assert_eq!(
        snapshots,
        vec![
            "/var/lib/wardnet/wardnet.db.bak-20250101T000000Z".to_owned(),
            "/var/lib/wardnet/secrets.bak-20250101T000000Z.json".to_owned(),
        ]
    );
    assert_eq!(
        statuses,
        vec![
            (
                RestoreStep::SetAsideDatabase,
                BackupStatus::Importing { phase: RestorePhase::BackingUp }
            ),
            (
                RestoreStep::RestoreDatabase,
                BackupStatus::Importing { phase: RestorePhase::Extracting }
            ),
        ]
    );
}

#[test]
fn incompatible_bundle_stops_before_anything_is_touched() {
    let reason = "bundle schema version 9 is newer than the running daemon's (8) — upgrade the daemon first, then retry";
    match advance_restore(RestoreStep::CheckCompatibility, RestoreEvent::<String>::Incompatible(Some(reason.to_string())), &mut Vec::new()) {
        RestoreDirective::Finish { status, result } => {
            assert_eq!(status, None);
            assert_eq!(result, Err(AppError::BadRequest(reason.to_string())));
        }
        RestoreDirective::Run { .. } => panic!("an incompatible bundle must stop the restore"),
    }
    match advance_restore(RestoreStep::CheckCompatibility, RestoreEvent::<String>::Incompatible(None), &mut Vec::new()) {
        RestoreDirective::Finish { result, .. } => {
            assert_eq!(result, Err(AppError::BadRequest("bundle is not compatible".to_string())));
        }
        RestoreDirective::Run { .. } => panic!("an incompatible bundle must stop the restore"),
    }
}

#[test]
fn failed_step_ends_restore_with_its_error() {
    let err = AppError::Internal("failed to write restored config to /etc/wardnet.toml: denied".to_string());
    let mut snapshots = vec!["earlier".to_owned()];
    match advance_restore(RestoreStep::WriteConfig, RestoreEvent::Failed(err.clone()), &mut snapshots) {
        RestoreDirective::Finish { status, result } => {
            assert_eq!(status, None);
            assert_eq!(result, Err(err));
        }
        RestoreDirective::Run { .. } => panic!("a failed step must stop the restore"),
    }
    assert_eq!(snapshots, vec!["earlier".to_owned()]);
}
