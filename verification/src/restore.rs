//! The course of applying a previewed import. Each step is outside work (a
//! compatibility query, a rename, a database restore, a file write); what
//! runs next, which status is shown meanwhile, and when the restore stops are
//! decided here, one step at a time.

use vstd::prelude::*;
use crate::backup::{incompatible_bundle, BackupStatus, RestorePhase};
use crate::error::AppError;

verus! {

/// The outside work of applying an import.
#[derive(Clone, Copy, Debug, PartialEq, Eq)]
pub enum RestoreStep {
    /// Ask whether the bundle can be restored against the running daemon.
    CheckCompatibility,
    /// Rename the live database file to its `.bak-<timestamp>` sibling.
    SetAsideDatabase,
    /// Rename the live config file to its `.bak-<timestamp>` sibling.
    SetAsideConfig,
    /// Save the current secret-store contents next to the database.
    SnapshotSecrets,
    /// Load the bundle's database.
    RestoreDatabase,
    /// Write the bundle's config file.
    WriteConfig,
    /// Replace the secret-store contents with the bundle's.
    RestoreSecrets,
    /// Record in `system_config` that the daemon must restart.
    MarkRestartPending,
}

/// What came of a step's outside work; `S` describes a snapshot of a file
/// set aside.
pub enum RestoreEvent<S> {
    /// The work succeeded, setting aside the described snapshot if it made
    /// one.
    Done { snapshot: Option<S> },
    /// The compatibility check refused the bundle, with its reason if any.
    Incompatible(Option<String>),
    /// The work failed with this error.
    Failed(AppError),
}

/// What to do after a step.
pub enum RestoreDirective {
    /// Show `status` first when one is given, then run `step`.
    Run { status: Option<BackupStatus>, step: RestoreStep },
    /// Stop: show `status` when one is given, and answer `result`.
    Finish { status: Option<BackupStatus>, result: Result<(), AppError> },
}

/// The step that follows a successful one; `None` after the last.
pub open spec fn step_after(step: RestoreStep) -> Option<RestoreStep> {
    match step {
        RestoreStep::CheckCompatibility => Some(RestoreStep::SetAsideDatabase),
        RestoreStep::SetAsideDatabase => Some(RestoreStep::SetAsideConfig),
        RestoreStep::SetAsideConfig => Some(RestoreStep::SnapshotSecrets),
        RestoreStep::SnapshotSecrets => Some(RestoreStep::RestoreDatabase),
        RestoreStep::RestoreDatabase => Some(RestoreStep::WriteConfig),
        RestoreStep::WriteConfig => Some(RestoreStep::RestoreSecrets),
        RestoreStep::RestoreSecrets => Some(RestoreStep::MarkRestartPending),
        RestoreStep::MarkRestartPending => None,
    }
}

/// The status shown from a step on: the backing-up phase while live files
/// are set aside, the extracting phase while the bundle is written.
pub open spec fn status_entering(step: RestoreStep) -> Option<BackupStatus> {
    match step {
        RestoreStep::SetAsideDatabase => Some(BackupStatus::Importing { phase: RestorePhase::BackingUp }),
        RestoreStep::RestoreDatabase => Some(BackupStatus::Importing { phase: RestorePhase::Extracting }),
        _ => None,
    }
}

/// Whether a step may leave a snapshot behind: setting aside the database
/// or the config file, and saving the secret store.
pub open spec fn takes_snapshot(step: RestoreStep) -> bool {
    step == RestoreStep::SetAsideDatabase || step == RestoreStep::SetAsideConfig
        || step == RestoreStep::SnapshotSecrets
}

/// The steps of a restore in the order they run.
pub open spec fn restore_order() -> Seq<RestoreStep> {
    seq![
        RestoreStep::CheckCompatibility,
        RestoreStep::SetAsideDatabase,
        RestoreStep::SetAsideConfig,
        RestoreStep::SnapshotSecrets,
        RestoreStep::RestoreDatabase,
        RestoreStep::WriteConfig,
        RestoreStep::RestoreSecrets,
        RestoreStep::MarkRestartPending,
    ]
}

/// The step a restore begins with.
pub fn first_restore_step() -> (s: RestoreStep)
    ensures
        s == restore_order()[0],
{
    RestoreStep::CheckCompatibility
}

/// Decide what follows `step` given what came of it: on success the next
/// step (with the status to show from it on), or, after the last step, the
/// end of the restore in the applied phase; a refused bundle ends the restore
/// with a bad-request error carrying the refusal's reason; a failure ends it
/// with that failure, the status left as it was. A snapshot reported by a
/// step that sets a file aside is appended to `snapshots`, which the restore
/// reports once it is done.
pub fn advance_restore<S>(step: RestoreStep, event: RestoreEvent<S>, snapshots: &mut Vec<S>) -> (d: RestoreDirective)
    ensures
        final(snapshots)@ == match event {
            RestoreEvent::Done { snapshot: Some(s) } => if takes_snapshot(step) {
                old(snapshots)@.push(s)
            } else {
                old(snapshots)@
            },
            _ => old(snapshots)@,
        },
        (step == RestoreStep::SetAsideDatabase || step == RestoreStep::SetAsideConfig
            || step == RestoreStep::SnapshotSecrets) ==> (event matches RestoreEvent::Done { snapshot: Some(s) }
            ==> final(snapshots)@ == old(snapshots)@.push(s)),
        final(snapshots)@.len() <= old(snapshots)@.len() + 1,
        forall|i: int| 0 <= i < old(snapshots)@.len() ==> #[trigger] final(snapshots)@[i] == old(snapshots)@[i],
        match event {
            RestoreEvent::Done { .. } => match step_after(step) {
                Some(next) => d == RestoreDirective::Run { status: status_entering(next), step: next },
                None => d == RestoreDirective::Finish {
                    status: Some(BackupStatus::Importing { phase: RestorePhase::Applied }),
                    result: Ok(()),
                },
            },
            RestoreEvent::Incompatible(reason) => d matches RestoreDirective::Finish {
                status: None,
                result: Err(AppError::BadRequest(m)),
            } && m@ == match reason {
                Some(r) => r@,
                None => "bundle is not compatible"@,
            },
            RestoreEvent::Failed(e) => d == RestoreDirective::Finish { status: None, result: Err(e) },
        },
{
    match event {
        RestoreEvent::Done { snapshot } => {
            if let Some(s) = snapshot {
                match step {
                    RestoreStep::SetAsideDatabase | RestoreStep::SetAsideConfig | RestoreStep::SnapshotSecrets => {
                        snapshots.push(s);
                    },
                    _ => {},
                }
            }
            let next = match step {
                RestoreStep::CheckCompatibility => RestoreStep::SetAsideDatabase,
                RestoreStep::SetAsideDatabase => RestoreStep::SetAsideConfig,
                RestoreStep::SetAsideConfig => RestoreStep::SnapshotSecrets,
                RestoreStep::SnapshotSecrets => RestoreStep::RestoreDatabase,
                RestoreStep::RestoreDatabase => RestoreStep::WriteConfig,
                RestoreStep::WriteConfig => RestoreStep::RestoreSecrets,
                RestoreStep::RestoreSecrets => RestoreStep::MarkRestartPending,
                RestoreStep::MarkRestartPending => {
                    return RestoreDirective::Finish {
                        status: Some(BackupStatus::Importing { phase: RestorePhase::Applied }),
                        result: Ok(()),
                    };
                },
            };
            let status = match next {
                RestoreStep::SetAsideDatabase => Some(BackupStatus::Importing { phase: RestorePhase::BackingUp }),
                RestoreStep::RestoreDatabase => Some(BackupStatus::Importing { phase: RestorePhase::Extracting }),
                _ => None,
            };
            RestoreDirective::Run { status, step: next }
        },
        RestoreEvent::Incompatible(reason) => RestoreDirective::Finish {
            status: None,
            result: Err(incompatible_bundle(reason)),
        },
        RestoreEvent::Failed(e) => RestoreDirective::Finish { status: None, result: Err(e) },
    }
}

/// A restore whose steps all succeed runs them in `restore_order`, each
/// once: the compatibility check comes before anything is set aside or
/// written, the live files are set aside before the bundle's are written,
/// and the restart is marked pending last, after the database, the config
/// and the secrets were all restored.
pub proof fn lemma_restore_runs_in_order()
    ensures
        restore_order().len() == 8,
        restore_order()[0] == RestoreStep::CheckCompatibility,
        forall|i: int| 0 <= i < 7 ==> step_after(#[trigger] restore_order()[i]) == Some(restore_order()[i + 1]),
        step_after(restore_order()[7]) is None,
        forall|i: int, j: int| 0 <= i < j < 8 ==> #[trigger] restore_order()[i] != #[trigger] restore_order()[j],
        restore_order()[1] == RestoreStep::SetAsideDatabase,
        restore_order()[2] == RestoreStep::SetAsideConfig,
        restore_order()[4] == RestoreStep::RestoreDatabase,
        restore_order()[5] == RestoreStep::WriteConfig,
        restore_order()[6] == RestoreStep::RestoreSecrets,
        restore_order()[7] == RestoreStep::MarkRestartPending,
{
    assert forall|i: int| 0 <= i < 7 implies step_after(#[trigger] restore_order()[i]) == Some(restore_order()[i + 1]) by {
        if i == 0 {} else if i == 1 {} else if i == 2 {} else if i == 3 {} else if i == 4 {} else if i == 5 {} else {}
    }
}

/// Every file a restore sets aside is reported: the snapshot of the database,
/// of the config file and of the secret store are each recorded when their
/// step reports one, and no other step records anything.
pub proof fn lemma_set_aside_files_are_reported()
    ensures
        takes_snapshot(RestoreStep::SetAsideDatabase),
        takes_snapshot(RestoreStep::SetAsideConfig),
        takes_snapshot(RestoreStep::SnapshotSecrets),
        !takes_snapshot(RestoreStep::CheckCompatibility),
        !takes_snapshot(RestoreStep::RestoreDatabase),
        !takes_snapshot(RestoreStep::WriteConfig),
        !takes_snapshot(RestoreStep::RestoreSecrets),
        !takes_snapshot(RestoreStep::MarkRestartPending),
{
}

/// While a restore whose steps all succeed runs, the status shows the
/// backing-up phase from the first file set aside until the bundle is
/// written, the extracting phase from then until the end, and the applied
/// phase once it is done; no other step changes it.
pub proof fn lemma_restore_phases()
    ensures
        forall|i: int| 0 <= i < 8 ==> (#[trigger] status_entering(restore_order()[i])) == if i == 1 {
            Some(BackupStatus::Importing { phase: RestorePhase::BackingUp })
        } else if i == 4 {
            Some(BackupStatus::Importing { phase: RestorePhase::Extracting })
        } else {
            None
        },
{
    assert forall|i: int| 0 <= i < 8 implies (#[trigger] status_entering(restore_order()[i])) == if i == 1 {
        Some(BackupStatus::Importing { phase: RestorePhase::BackingUp })
    } else if i == 4 {
        Some(BackupStatus::Importing { phase: RestorePhase::Extracting })
    } else {
        None
    } by {
        if i == 0 {} else if i == 1 {} else if i == 2 {} else if i == 3 {} else if i == 4 {} else if i == 5 {} else if i == 6 {} else {}
    }
}

} // verus!
