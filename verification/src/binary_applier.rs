//! Swapping a new daemon binary into place and rolling it back.
//!
//! The applier stages the new binary next to the live one, moves the live
//! binary aside to `<live>.old`, then renames the staged binary into the
//! live path; rollback swaps `<live>.old` back. Which file operations to run
//! is decided here; running them is left to the caller.

use vstd::prelude::*;
use crate::text::push_str;
use crate::paths::{file_name_of, join_path, with_file_name};

verus! {

/// Name of the retained previous binary when the live path has no file name.
pub const FALLBACK_OLD_NAME: &'static str = "wardnetd.old";

/// File name the new binary is staged under, inside the staging directory.
pub const STAGED_NAME: &'static str = "wardnetd.staged";

/// The path the previous binary is kept at: `<live>.old`.
pub open spec fn spec_old_path(live: Seq<char>) -> Seq<char> {
    match crate::paths::path_file_name(live) {
        Some(n) => crate::paths::path_with_file_name(live, n + ".old"@),
        None => crate::paths::path_with_file_name(live, FALLBACK_OLD_NAME@),
    }
}

/// One filesystem operation of a swap or a rollback.
#[derive(Clone, Debug, PartialEq, Eq)]
pub enum FsStep {
    /// Delete the file at `path`.
    RemoveFile { path: String },
    /// Rename `from` to `to`, replacing any file at `to`.
    Rename { from: String, to: String },
}

/// A filesystem step over path texts.
pub enum Step {
    Remove(Seq<char>),
    Rename(Seq<char>, Seq<char>),
}

/// A filesystem step with its paths taken as text.
pub open spec fn step_view(s: FsStep) -> Step {
    match s {
        FsStep::RemoveFile { path } => Step::Remove(path@),
        FsStep::Rename { from, to } => Step::Rename(from@, to@),
    }
}

/// Filesystem steps with their paths taken as text, in order.
pub open spec fn steps_view(s: Seq<FsStep>) -> Seq<Step> {
    s.map_values(|x: FsStep| step_view(x))
}

/// The steps that install the staged binary: when a live binary exists, any
/// older retained binary is removed and the live one is moved aside; then
/// the staged binary is renamed into the live path.
pub open spec fn swap_steps(live: Seq<char>, old: Seq<char>, staged: Seq<char>, live_exists: bool, old_exists: bool) -> Seq<Step> {
    if live_exists {
        if old_exists {
            seq![Step::Remove(old), Step::Rename(live, old), Step::Rename(staged, live)]
        } else {
            seq![Step::Rename(live, old), Step::Rename(staged, live)]
        }
    } else {
        seq![Step::Rename(staged, live)]
    }
}

/// The steps that put the retained binary back: the live binary, if any, is
/// removed and the retained one is renamed into the live path.
pub open spec fn rollback_steps(live: Seq<char>, old: Seq<char>, live_exists: bool) -> Seq<Step> {
    if live_exists {
        seq![Step::Remove(live), Step::Rename(old, live)]
    } else {
        seq![Step::Rename(old, live)]
    }
}

/// Files of a directory tree, by path text.
pub type FsModel = Map<Seq<char>, Seq<u8>>;

/// The effect of one step: removal drops the file; a rename moves the
/// contents of `from` to `to`, replacing what was there. A step fails
/// (`None`) when the file it removes or renames is missing.
pub open spec fn run_step(fs: FsModel, s: Step) -> Option<FsModel> {
    match s {
        Step::Remove(p) => if fs.contains_key(p) {
            Some(fs.remove(p))
        } else {
            None
        },
        Step::Rename(from, to) => if fs.contains_key(from) {
            Some(fs.remove(from).insert(to, fs[from]))
        } else {
            None
        },
    }
}

/// The effect of running steps in order; `None` as soon as one fails.
pub open spec fn run_steps(fs: FsModel, steps: Seq<Step>) -> Option<FsModel>
    decreases steps.len(),
{
    if steps.len() == 0 {
        Some(fs)
    } else {
        match run_step(fs, steps[0]) {
            Some(next) => run_steps(next, steps.drop_first()),
            None => None,
        }
    }
}

proof fn lemma_run_two(fs: FsModel, a: Step, b: Step)
    ensures
        run_steps(fs, seq![a, b]) == match run_step(fs, a) {
            Some(f1) => run_step(f1, b),
            None => None,
        },
{
    let steps = seq![a, b];
    assert(steps.drop_first() =~= seq![b]);
    assert(seq![b].drop_first() =~= Seq::<Step>::empty());
    if let Some(f1) = run_step(fs, a) {
        assert(run_steps(fs, steps) == run_steps(f1, seq![b]));
        if let Some(f2) = run_step(f1, b) {
            assert(run_steps(f1, seq![b]) == run_steps(f2, Seq::<Step>::empty()));
        }
    }
}

proof fn lemma_run_three(fs: FsModel, a: Step, b: Step, c: Step)
    ensures
        run_steps(fs, seq![a, b, c]) == match run_step(fs, a) {
            Some(f1) => run_steps(f1, seq![b, c]),
            None => None,
        },
{
    assert(seq![a, b, c].drop_first() =~= seq![b, c]);
}

proof fn lemma_run_one(fs: FsModel, a: Step)
    ensures
        run_steps(fs, seq![a]) == run_step(fs, a),
{
    assert(seq![a].drop_first() =~= Seq::<Step>::empty());
    if let Some(f1) = run_step(fs, a) {
        assert(run_steps(fs, seq![a]) == run_steps(f1, Seq::<Step>::empty()));
    }
}

/// Installing a staged binary succeeds, puts its contents at the live path,
/// keeps the binary that was live at the retained path, and consumes the
/// staged file.
pub proof fn lemma_swap_installs_and_retains(fs: FsModel, live: Seq<char>, old: Seq<char>, staged: Seq<char>)
    requires
        live != old,
        live != staged,
        old != staged,
        fs.contains_key(staged),
    ensures
        run_steps(fs, swap_steps(live, old, staged, fs.contains_key(live), fs.contains_key(old))) matches Some(after) && {
            &&& after.contains_key(live)
            &&& after[live] == fs[staged]
            &&& fs.contains_key(live) ==> after.contains_key(old) && after[old] == fs[live]
            &&& !after.contains_key(staged)
        },
{
    if fs.contains_key(live) {
        if fs.contains_key(old) {
            lemma_run_three(fs, Step::Remove(old), Step::Rename(live, old), Step::Rename(staged, live));
            lemma_run_two(fs.remove(old), Step::Rename(live, old), Step::Rename(staged, live));
        } else {
            lemma_run_two(fs, Step::Rename(live, old), Step::Rename(staged, live));
        }
    } else {
        lemma_run_one(fs, Step::Rename(staged, live));
    }
}

/// Rolling back right after an install restores the binary that was live
/// before the install and consumes the retained copy, so a second rollback
/// finds nothing to roll back to (and `rollback_plan` refuses it).
pub proof fn lemma_rollback_restores_previous(fs: FsModel, live: Seq<char>, old: Seq<char>, staged: Seq<char>)
    requires
        live != old,
        live != staged,
        old != staged,
        fs.contains_key(staged),
        fs.contains_key(live),
    ensures
        run_steps(fs, swap_steps(live, old, staged, true, fs.contains_key(old))) matches Some(installed) && {
            &&& installed.contains_key(old)
            &&& installed[live] == fs[staged]
            &&& run_steps(installed, rollback_steps(live, old, installed.contains_key(live))) matches Some(rolled_back)
            &&& rolled_back.contains_key(live)
            &&& rolled_back[live] == fs[live]
            &&& !rolled_back.contains_key(old)
        },
{
    lemma_swap_installs_and_retains(fs, live, old, staged);
    let installed = run_steps(fs, swap_steps(live, old, staged, true, fs.contains_key(old)))->0;
    lemma_run_two(installed, Step::Remove(live), Step::Rename(old, live));
}

/// A planned rollback always puts the retained binary back: whether or not a
/// live binary is there, running the rollback steps succeeds, the live path
/// then holds what the retained path held, and the retained copy is gone.
pub proof fn lemma_rollback_puts_retained_back(fs: FsModel, live: Seq<char>, old: Seq<char>)
    requires
        live != old,
        fs.contains_key(old),
    ensures
        run_steps(fs, rollback_steps(live, old, fs.contains_key(live))) matches Some(after) && {
            &&& after.contains_key(live)
            &&& after[live] == fs[old]
            &&& !after.contains_key(old)
        },
{
    if fs.contains_key(live) {
        lemma_run_two(fs, Step::Remove(live), Step::Rename(old, live));
    } else {
        lemma_run_one(fs, Step::Rename(old, live));
    }
}

/// Applying a release and rolling it straight back gives the live path its
/// previous contents again and leaves no retained copy, so a second rollback
/// is refused. The three paths are those `FsBinaryApplier` uses: the live
/// binary, `old_path` and `staged_path`, whose file names are stated by those
/// functions; the only applier left out is one whose live binary is itself
/// named `wardnetd.staged` (its live and staged paths may coincide).
pub proof fn lemma_apply_then_rollback(fs: FsModel, live: Seq<char>, live_name: Seq<char>, old: Seq<char>, staged: Seq<char>)
    requires
        crate::paths::path_file_name(live) == Some(live_name),
        live_name != STAGED_NAME@,
        crate::paths::path_file_name(old) == Some(live_name + ".old"@),
        crate::paths::path_file_name(staged) == Some(STAGED_NAME@),
        fs.contains_key(live),
        fs.contains_key(staged),
    ensures
        run_steps(fs, swap_steps(live, old, staged, true, fs.contains_key(old))) matches Some(installed) && {
            &&& installed.contains_key(old)
            &&& installed[live] == fs[staged]
            &&& run_steps(installed, rollback_steps(live, old, installed.contains_key(live))) matches Some(rolled_back)
            &&& rolled_back.contains_key(live)
            &&& rolled_back[live] == fs[live]
            &&& !rolled_back.contains_key(old)
        },
{
    reveal_strlit(".old");
    reveal_strlit("wardnetd.staged");
    let old_name = live_name + ".old"@;
    assert(old_name.len() == live_name.len() + 4);
    assert(live != old);
    assert(live != staged);
    if old == staged {
        assert(old_name =~= STAGED_NAME@);
        assert(old_name[old_name.len() - 2] == 'l');
        assert(STAGED_NAME@[13] == 'e');
    }
    lemma_rollback_restores_previous(fs, live, old, staged);
}

/// Why an update could not be applied or rolled back.
#[derive(Clone, Debug, PartialEq, Eq)]
pub enum ApplyError {
    /// The tarball holds no entry named `wardnetd`.
    MissingBinary,
    /// Rollback was asked for but no previous binary is retained.
    NoPreviousBinary { old_path: String },
    /// The tarball could not be decompressed or read; `detail` is the
    /// reader's error.
    UnreadableTarball { detail: String },
}

impl ApplyError {
    /// The display text of this error.
    pub fn message(&self) -> (r: String)
        ensures
            r@ == match *self {
                ApplyError::MissingBinary => "tarball did not contain a `wardnetd` entry at any path"@,
                ApplyError::NoPreviousBinary { old_path } => "no previous binary at "@ + old_path@,
                ApplyError::UnreadableTarball { detail } => detail@,
            },
    {
        let mut r = String::new();
        match self {
            ApplyError::MissingBinary => {
                push_str(&mut r, "tarball did not contain a `wardnetd` entry at any path");
            },
            ApplyError::NoPreviousBinary { old_path } => {
                push_str(&mut r, "no previous binary at ");
                push_str(&mut r, old_path.as_str());
            },
            ApplyError::UnreadableTarball { detail } => {
                push_str(&mut r, detail.as_str());
            },
        }
        proof {
            assert(Seq::<char>::empty() + "tarball did not contain a `wardnetd` entry at any path"@ =~= "tarball did not contain a `wardnetd` entry at any path"@);
        }
        r
    }
}

/// Name of the daemon binary inside a release tarball.
pub const RELEASE_BINARY_NAME: &'static str = "wardnetd";

/// Whether a tarball entry is the daemon binary: its file name, when it has
/// one that is valid UTF-8, is exactly `wardnetd`.
pub fn is_release_binary(file_name: Option<&str>) -> (r: bool)
    ensures
        r == (file_name matches Some(n) && n@ == RELEASE_BINARY_NAME@),
{
    match file_name {
        Some(n) => crate::text::str_eq(n, RELEASE_BINARY_NAME),
        None => false,
    }
}

/// Reading a gzipped tarball entry by entry, in archive order, until its end
/// or the first read error: the entries read whole before that point, each as
/// its path text and contents, and the error's text if reading stopped on
/// one.
pub uninterp spec fn tar_gz_listing(tarball: Seq<u8>) -> (Seq<(Seq<char>, Seq<u8>)>, Option<Seq<char>>);

/// Tarball entries with their paths and contents taken as plain values.
pub open spec fn entries_view(v: Seq<(String, Vec<u8>)>) -> Seq<(Seq<char>, Seq<u8>)> {
    v.map_values(|e: (String, Vec<u8>)| (e.0@, e.1@))
}

/// `flate2::read::GzDecoder` feeding `tar::Archive::entries`: each entry read
/// to its end, as its path (`Entry::path`) and contents, until the archive
/// ends or a read fails; a failure stops the reading and its display text is
/// returned beside the entries read before it.
#[verifier::external_body]
fn tar_gz_entries(tarball: &[u8]) -> (r: (Vec<(String, Vec<u8>)>, Option<String>))
    ensures
        entries_view(r.0@) == tar_gz_listing(tarball@).0,
        crate::paths::opt_view(r.1) == tar_gz_listing(tarball@).1,
{
    let mut out = Vec::new();
    let mut archive = tar::Archive::new(flate2::read::GzDecoder::new(tarball));
    let mut read = || -> std::io::Result<()> {
        for entry in archive.entries()? {
            let mut entry = entry?;
            let path = entry.path()?.to_string_lossy().into_owned();
            let mut bytes = Vec::new();
            std::io::Read::read_to_end(&mut entry, &mut bytes)?;
            out.push((path, bytes));
        }
        Ok(())
    };
    let error = read().err().map(|e| e.to_string());
    (out, error)
}

/// The contents of the first entry whose file name is `wardnetd`, if any.
pub open spec fn first_release_binary(entries: Seq<(Seq<char>, Seq<u8>)>) -> Option<Seq<u8>>
    decreases entries.len(),
{
    if entries.len() == 0 {
        None
    } else if crate::paths::path_file_name(entries[0].0) == Some(RELEASE_BINARY_NAME@) {
        Some(entries[0].1)
    } else {
        first_release_binary(entries.drop_first())
    }
}

/// What the binary picked from a tarball is: the contents of an entry whose
/// file name is `wardnetd`, with no such entry before it; and nothing is
/// picked exactly when no entry has that file name.
pub proof fn lemma_first_release_binary(entries: Seq<(Seq<char>, Seq<u8>)>)
    ensures
        first_release_binary(entries) matches Some(b) ==> exists|i: int| 0 <= i < entries.len()
            && crate::paths::path_file_name(#[trigger] entries[i].0) == Some("wardnetd"@) && entries[i].1 == b
            && forall|j: int| 0 <= j < i ==> crate::paths::path_file_name(#[trigger] entries[j].0) != Some("wardnetd"@),
        first_release_binary(entries) is None <==> forall|i: int| 0 <= i < entries.len()
            ==> crate::paths::path_file_name(#[trigger] entries[i].0) != Some("wardnetd"@),
    decreases entries.len(),
{
    if entries.len() > 0 {
        let rest = entries.drop_first();
        lemma_first_release_binary(rest);
        assert forall|i: int| 0 <= i < rest.len() implies #[trigger] rest[i] == entries[i + 1] by {}
        if crate::paths::path_file_name(entries[0].0) == Some("wardnetd"@) {
            assert(entries[0].1 == first_release_binary(entries)->0);
        } else {
            if let Some(b) = first_release_binary(rest) {
                let i = choose|i: int| 0 <= i < rest.len()
                    && crate::paths::path_file_name(#[trigger] rest[i].0) == Some("wardnetd"@) && rest[i].1 == b
                    && forall|j: int| 0 <= j < i ==> crate::paths::path_file_name(#[trigger] rest[j].0) != Some("wardnetd"@);
                assert(entries[i + 1] == rest[i]);
                assert forall|j: int| 0 <= j < i + 1 implies crate::paths::path_file_name(#[trigger] entries[j].0) != Some("wardnetd"@) by {
                    if j > 0 {
                        assert(entries[j] == rest[j - 1]);
                    }
                }
            }
            if first_release_binary(rest) is None {
                assert forall|i: int| 0 <= i < entries.len() implies crate::paths::path_file_name(#[trigger] entries[i].0) != Some("wardnetd"@) by {
                    if i > 0 {
                        assert(entries[i] == rest[i - 1]);
                    }
                }
            } else {
                let k = choose|i: int| 0 <= i < rest.len() && crate::paths::path_file_name(#[trigger] rest[i].0) == Some("wardnetd"@);
                assert(entries[k + 1] == rest[k]);
            }
        }
    }
}

/// Pick the daemon binary out of a tarball's entries: the contents of the
/// first entry whose file name is `wardnetd`; the missing-binary error when
/// there is none.
pub fn release_binary(entries: Vec<(String, Vec<u8>)>) -> (r: Result<Vec<u8>, ApplyError>)
    ensures
        match first_release_binary(entries_view(entries@)) {
            Some(b) => r matches Ok(v) && v@ == b,
            None => r == Err::<Vec<u8>, ApplyError>(ApplyError::MissingBinary),
        },
{
    let ghost ev = entries_view(entries@);
    let mut list = entries;
    let mut i: usize = 0;
    proof {
        assert(ev.skip(0) =~= ev);
    }
    while i < list.len()
        invariant
            ev == entries_view(list@),
            ev == entries_view(entries@),
            i <= list@.len(),
            first_release_binary(ev) == first_release_binary(ev.skip(i as int)),
        decreases list@.len() - i,
    {
        let found = match file_name_of(list[i].0.as_str()) {
            Some(name) => is_release_binary(Some(name.as_str())),
            None => false,
        };
        proof {
            assert(ev.skip(i as int)[0] == ev[i as int]);
            assert(ev.skip(i as int).drop_first() =~= ev.skip(i + 1));
        }
        if found {
            let ghost chosen = list@[i as int];
            proof {
                assert(ev[i as int] == (chosen.0@, chosen.1@));
                assert(first_release_binary(ev.skip(i as int)) == Some(chosen.1@));
            }
            let (_, bytes) = list.remove(i);
            proof {
                assert(bytes == chosen.1);
            }
            return Ok(bytes);
        }
        i = i + 1;
    }
    proof {
        assert(ev.skip(i as int).len() == 0);
    }
    Err(ApplyError::MissingBinary)
}

/// Read a gzipped release tarball and pick the daemon binary out of it: the
/// first entry whose file name is `wardnetd`, as soon as it has been read
/// whole, whatever follows it in the tarball; a read error met before such an
/// entry; otherwise the missing-binary error.
pub fn release_binary_from_tarball(tarball: &[u8]) -> (r: Result<Vec<u8>, ApplyError>)
    ensures
        match first_release_binary(tar_gz_listing(tarball@).0) {
            Some(b) => r matches Ok(v) && v@ == b,
            None => match tar_gz_listing(tarball@).1 {
                Some(d) => r matches Err(ApplyError::UnreadableTarball { detail }) && detail@ == d,
                None => r == Err::<Vec<u8>, ApplyError>(ApplyError::MissingBinary),
            },
        },
{
    let (entries, error) = tar_gz_entries(tarball);
    match release_binary(entries) {
        Ok(binary) => Ok(binary),
        Err(missing) => match error {
            Some(detail) => Err(ApplyError::UnreadableTarball { detail }),
            None => Err(missing),
        },
    }
}

/// Result of a successful swap: where the previously live binary was kept
/// for rollback.
#[derive(Clone, Debug, PartialEq, Eq)]
pub struct SwapOutcome {
    pub previous_binary: String,
}

/// Write-then-rename applier bound to a live binary path and a staging
/// directory, which must be on the same filesystem so renames are atomic.
pub struct FsBinaryApplier {
    live_path: String,
    staging_dir: String,
}

impl FsBinaryApplier {
    /// The live binary path.
    pub closed spec fn live(&self) -> Seq<char> {
        self.live_path@
    }

    /// The staging directory.
    pub closed spec fn staging(&self) -> Seq<char> {
        self.staging_dir@
    }

    /// Construct a new applier.
    pub fn new(live_path: String, staging_dir: String) -> (r: Self)
        ensures
            r.live() == live_path@,
            r.staging() == staging_dir@,
    {
        FsBinaryApplier { live_path, staging_dir }
    }

    /// The live binary path.
    pub fn live_path(&self) -> (r: &str)
        ensures
            r@ == self.live(),
    {
        self.live_path.as_str()
    }

    /// The staging directory.
    pub fn staging_dir(&self) -> (r: &str)
        ensures
            r@ == self.staging(),
    {
        self.staging_dir.as_str()
    }

    /// Where the previous binary is kept: the live path with `.old` appended
    /// to its file name (`wardnetd.old` when the live path has none).
    pub fn old_path(&self) -> (r: String)
        ensures
            r@ == spec_old_path(self.live()),
            match crate::paths::path_file_name(self.live()) {
                Some(n) => crate::paths::path_file_name(r@) == Some(n + ".old"@),
                None => crate::paths::path_file_name(r@) == Some(FALLBACK_OLD_NAME@),
            },
    {
        proof {
            reveal_strlit(".old");
            reveal_strlit("wardnetd.old");
        }
        match file_name_of(self.live_path.as_str()) {
            Some(name) => {
                let mut n = name;
                push_str(&mut n, ".old");
                proof {
                    let full = n@;
                    assert forall|i: int| 0 <= i < full.len() implies #[trigger] full[i] != '/' by {
                        if i < name@.len() {
                            assert(full[i] == name@[i]);
                        } else {
                            assert(full[i] == ".old"@[i - name@.len()]);
                        }
                    }
                    assert(full.len() >= 5);
                }
                with_file_name(self.live_path.as_str(), n.as_str())
            },
            None => with_file_name(self.live_path.as_str(), FALLBACK_OLD_NAME),
        }
    }

    /// The outcome reported once the swap steps have run.
    pub fn swap_outcome(&self) -> (r: SwapOutcome)
        ensures
            r.previous_binary@ == spec_old_path(self.live()),
    {
        SwapOutcome { previous_binary: self.old_path() }
    }

    /// Where the new binary is staged before it is renamed into place.
    pub fn staged_path(&self) -> (r: String)
        ensures
            r@ == crate::paths::path_join(self.staging(), STAGED_NAME@),
            crate::paths::path_file_name(r@) == Some(STAGED_NAME@),
    {
        proof {
            reveal_strlit("wardnetd.staged");
            assert(crate::paths::is_plain_component(STAGED_NAME@));
        }
        join_path(self.staging_dir.as_str(), STAGED_NAME)
    }

    /// The steps that swap the staged binary in, given whether the live
    /// binary and a retained previous binary currently exist.
    pub fn swap_plan(&self, live_exists: bool, old_exists: bool) -> (r: Vec<FsStep>)
        ensures
            steps_view(r@) == swap_steps(
                self.live(),
                spec_old_path(self.live()),
                crate::paths::path_join(self.staging(), STAGED_NAME@),
                live_exists,
                old_exists,
            ),
    {
        let old = self.old_path();
        let staged = self.staged_path();
        let mut steps: Vec<FsStep> = Vec::new();
        if live_exists {
            if old_exists {
                steps.push(FsStep::RemoveFile { path: old.clone() });
            }
            steps.push(FsStep::Rename { from: self.live_path.clone(), to: old });
        }
        steps.push(FsStep::Rename { from: staged, to: self.live_path.clone() });
        proof {
            assert(steps_view(steps@) =~= swap_steps(
                self.live(),
                spec_old_path(self.live()),
                crate::paths::path_join(self.staging(), STAGED_NAME@),
                live_exists,
                old_exists,
            ));
        }
        steps
    }

    /// The steps that roll back to the retained binary; refused when none is
    /// retained.
    pub fn rollback_plan(&self, live_exists: bool, old_exists: bool) -> (r: Result<Vec<FsStep>, ApplyError>)
        ensures
            r matches Ok(steps) ==> old_exists && steps_view(steps@) == rollback_steps(
                self.live(),
                spec_old_path(self.live()),
                live_exists,
            ),
            r matches Ok(steps) ==> (steps@.len() == (if live_exists { 2int } else { 1int }) && (steps@.last() matches FsStep::Rename { from, to } && from@ == spec_old_path(self.live()) && to@ == self.live())),
            r matches Err(e) ==> !old_exists && (e matches ApplyError::NoPreviousBinary { old_path }
                && old_path@ == spec_old_path(self.live())),
    {
        let old = self.old_path();
        if !old_exists {
            return Err(ApplyError::NoPreviousBinary { old_path: old });
        }
        let mut steps: Vec<FsStep> = Vec::new();
        if live_exists {
            steps.push(FsStep::RemoveFile { path: self.live_path.clone() });
        }
        steps.push(FsStep::Rename { from: old, to: self.live_path.clone() });
        proof {
            assert(steps_view(steps@) =~= rollback_steps(self.live(), spec_old_path(self.live()), live_exists));
        }
        Ok(steps)
    }
}

} // verus!
