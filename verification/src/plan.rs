//! The decisions of one hygiene run: which scanned files are candidates,
//! what happens to each one in each mode, and with which status the run
//! ends.
//!
//! The run proceeds in order: a precondition check on the version-control
//! status, a scan that classifies every file outside the archive subtree,
//! then (live mode only) a rebuild of the workspace. The binary around this
//! crate performs the walking, moving and process spawning; every choice it
//! acts on comes from here.

use vstd::prelude::*;

use crate::paths::{is_seg_prefix, join_segs, render_path, segs_start_with, spec_render};
use crate::text::{spec_stale_name, stale_name};

verus! {

/// Whether a run only reports what it would do, or actually moves files.
#[derive(Clone, Copy, Debug, PartialEq, Eq, Structural)]
pub enum Mode {
    DryRun,
    Live,
}

/// One entry met during the walk, as plain values: its path relative to the
/// working-tree root, whether it is a regular file, and its size in bytes.
#[derive(Clone, Debug)]
pub struct Entry {
    pub path: Vec<String>,
    pub is_file: bool,
    pub size: u64,
}

/// The mathematical value of an [`Entry`].
pub struct EntryV {
    pub path: Seq<Seq<char>>,
    pub is_file: bool,
    pub size: u64,
}

impl View for Entry {
    type V = EntryV;

    open spec fn view(&self) -> EntryV {
        EntryV { path: self.path.deep_view(), is_file: self.is_file, size: self.size }
    }
}

/// What the run does with one entry. `Report` carries the rendered relative
/// path to announce; `Archive` carries the destination segments (relative to
/// the root) and the rendered relative path for the audit line.
#[derive(Clone, Debug)]
pub enum Action {
    Skip,
    Report { rel: String },
    Archive { dest: Vec<String>, rel: String },
}

/// The mathematical value of an [`Action`].
pub enum ActionV {
    Skip,
    Report { rel: Seq<char> },
    Archive { dest: Seq<Seq<char>>, rel: Seq<char> },
}

impl View for Action {
    type V = ActionV;

    open spec fn view(&self) -> ActionV {
        match self {
            Action::Skip => ActionV::Skip,
            Action::Report { rel } => ActionV::Report { rel: rel@ },
            Action::Archive { dest, rel } => ActionV::Archive {
                dest: dest.deep_view(),
                rel: rel@,
            },
        }
    }
}

/// An entry is a candidate for archiving when it is a regular file of
/// non-zero size, lies outside the archive subtree, and its name matches
/// the staleness heuristic.
pub open spec fn spec_is_candidate(archive: Seq<Seq<char>>, e: EntryV) -> bool {
    &&& e.is_file
    &&& e.size > 0
    &&& !is_seg_prefix(archive, e.path)
    &&& e.path.len() > 0
    &&& spec_stale_name(e.path.last())
}

/// The action taken on one entry: nothing for a non-candidate, a report in
/// dry-run mode, a move to the mirrored destination in live mode.
pub open spec fn spec_classify(archive: Seq<Seq<char>>, mode: Mode, e: EntryV) -> ActionV {
    if !spec_is_candidate(archive, e) {
        ActionV::Skip
    } else if mode is DryRun {
        ActionV::Report { rel: spec_render(e.path) }
    } else {
        ActionV::Archive { dest: archive + e.path, rel: spec_render(e.path) }
    }
}

/// Decide what to do with one scanned entry.
pub fn classify_entry(archive: &Vec<String>, mode: Mode, e: &Entry) -> (a: Action)
    ensures
        a@ == spec_classify(archive.deep_view(), mode, e@),
{
    if !e.is_file || e.size == 0 {
        return Action::Skip;
    }
    if segs_start_with(&e.path, archive) {
        return Action::Skip;
    }
    if e.path.len() == 0 {
        return Action::Skip;
    }
    let last = e.path.len() - 1;
    let name = &e.path[last];
    assert(name@ == e@.path.last());
    if !stale_name(name.as_str()) {
        return Action::Skip;
    }
    let rel = render_path(&e.path);
    match mode {
        Mode::DryRun => Action::Report { rel },
        Mode::Live => Action::Archive { dest: join_segs(archive, &e.path), rel },
    }
}

/// Decide what to do with every scanned entry, in scan order.
pub fn plan_entries(archive: &Vec<String>, mode: Mode, entries: &Vec<Entry>) -> (acts: Vec<
    Action,
>)
    ensures
        acts@.len() == entries@.len(),
        forall|i: int|
            0 <= i < entries@.len() ==> acts@[i]@ == spec_classify(
                archive.deep_view(),
                mode,
                #[trigger] entries@[i]@,
            ),
{
    let mut acts: Vec<Action> = Vec::new();
    let mut i: usize = 0;
    while i < entries.len()
        invariant
            i <= entries@.len(),
            acts@.len() == i,
            forall|k: int|
                0 <= k < i ==> acts@[k]@ == spec_classify(
                    archive.deep_view(),
                    mode,
                    #[trigger] entries@[k]@,
                ),
        decreases entries@.len() - i,
    {
        let a = classify_entry(archive, mode, &entries[i]);
        acts.push(a);
        i = i + 1;
    }
    acts
}

/// The working tree counts as clean only when the status query succeeded
/// and reported nothing pending; an unobtainable status fails closed.
pub open spec fn spec_status_clean(status: Option<Seq<u8>>) -> bool {
    status matches Some(out) && out.len() == 0
}

/// Decide the precondition from the version-control status query: `status`
/// is the query's raw output, or `None` when the query itself failed.
pub fn status_clean(status: &Option<Vec<u8>>) -> (r: bool)
    ensures
        r == spec_status_clean(status.deep_view()),
{
    match status {
        Some(out) => out.len() == 0,
        None => false,
    }
}

/// How one run ended.
#[derive(Clone, Copy, Debug, PartialEq, Eq, Structural)]
pub enum Outcome {
    /// The working tree had pending modifications; nothing was scanned.
    DirtyTree,
    /// A filesystem operation failed during the scan or a move.
    ScanFailed,
    /// Live mode archived its candidates but the rebuild then failed.
    BuildFailed,
    /// The run finished: every candidate reported or archived, and in live
    /// mode the workspace rebuilt.
    Completed,
}

/// The process exit status: zero for a completed run, one otherwise.
pub open spec fn spec_exit_code(o: Outcome) -> int {
    if o is Completed {
        0
    } else {
        1
    }
}

/// The process exit status for an outcome.
pub fn exit_code(o: Outcome) -> (c: i32)
    ensures
        c as int == spec_exit_code(o),
{
    match o {
        Outcome::Completed => 0,
        _ => 1,
    }
}

/// The run mode named by the command-line arguments: dry-run exactly when
/// some argument is `--dry-run`.
pub open spec fn spec_mode_of(args: Seq<Seq<char>>) -> Mode {
    if exists|i: int| 0 <= i < args.len() && #[trigger] args[i] == "--dry-run"@ {
        Mode::DryRun
    } else {
        Mode::Live
    }
}

/// Read the run mode off the command-line arguments.
pub fn parse_mode(args: &Vec<String>) -> (m: Mode)
    ensures
        m == spec_mode_of(args.deep_view()),
{
    let flag = String::from_str("--dry-run");
    let mut i: usize = 0;
    while i < args.len()
        invariant
            i <= args@.len(),
            flag@ == "--dry-run"@,
            forall|k: int| 0 <= k < i ==> #[trigger] args.deep_view()[k] != "--dry-run"@,
        decreases args@.len() - i,
    {
        if args[i].eq(&flag) {
            assert(args.deep_view()[i as int] == "--dry-run"@);
            return Mode::DryRun;
        }
        i = i + 1;
    }
    Mode::Live
}

} // verus!
