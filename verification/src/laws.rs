//! The guarantees of a run, stated over the classification of entries and
//! proved once and for all.

use vstd::prelude::*;

use crate::paths::is_seg_prefix;
use crate::plan::{spec_classify, spec_is_candidate, ActionV, EntryV, Mode};
use crate::text::spec_stale_name;

verus! {

/// The scanner flags exactly the candidates: an entry is acted on (in either
/// mode) if and only if it is a regular file of non-zero size outside the
/// archive subtree whose name matches the staleness heuristic.
pub proof fn lemma_scanner_flags_exactly(archive: Seq<Seq<char>>, mode: Mode, e: EntryV)
    ensures
        !(spec_classify(archive, mode, e) is Skip) <==> {
            &&& e.is_file
            &&& e.size > 0
            &&& !is_seg_prefix(archive, e.path)
            &&& e.path.len() > 0
            &&& spec_stale_name(e.path.last())
        },
{
}

/// A zero-length file is never archived, however its name matches.
pub proof fn lemma_zero_size_never_archived(archive: Seq<Seq<char>>, mode: Mode, e: EntryV)
    requires
        e.size == 0,
    ensures
        spec_classify(archive, mode, e) is Skip,
{
}

/// A file already under the archive directory is never acted on again,
/// regardless of its name.
pub proof fn lemma_archive_subtree_excluded(archive: Seq<Seq<char>>, mode: Mode, e: EntryV)
    requires
        is_seg_prefix(archive, e.path),
    ensures
        spec_classify(archive, mode, e) is Skip,
{
}

/// A dry run never moves anything, yet still reports every candidate it
/// would act on, under its rendered relative path.
pub proof fn lemma_dry_run_mutates_nothing(archive: Seq<Seq<char>>, e: EntryV)
    ensures
        !(spec_classify(archive, Mode::DryRun, e) is Archive),
        spec_is_candidate(archive, e) ==> spec_classify(archive, Mode::DryRun, e)
            == (ActionV::Report { rel: crate::paths::spec_render(e.path) }),
{
}

/// Live-mode archiving is idempotent: a candidate's destination lies under
/// the archive root, so an entry found there on a later run is skipped and
/// nothing is archived or logged for it again.
pub proof fn lemma_live_run_idempotent(
    archive: Seq<Seq<char>>,
    mode: Mode,
    e: EntryV,
    e2: EntryV,
)
    requires
        spec_is_candidate(archive, e),
        e2.path == spec_classify(archive, Mode::Live, e)->Archive_dest,
    ensures
        spec_classify(archive, Mode::Live, e) is Archive,
        spec_classify(archive, mode, e2) is Skip,
{
    assert(is_seg_prefix(archive, archive + e.path));
}

/// A live move keeps the file recoverable: the destination reconstructs the
/// source's relative path under the archive root, and the action carries
/// that relative path for the audit line.
pub proof fn lemma_archived_path_reconstructs(archive: Seq<Seq<char>>, e: EntryV)
    requires
        spec_is_candidate(archive, e),
    ensures
        spec_classify(archive, Mode::Live, e) matches ActionV::Archive { dest, rel }
            && is_seg_prefix(archive, dest)
            && dest.skip(archive.len() as int) == e.path
            && rel == crate::paths::spec_render(e.path),
{
    crate::paths::lemma_dest_reconstructs(archive, e.path);
}

} // verus!
