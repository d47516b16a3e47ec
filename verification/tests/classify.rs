use cleanup_tool::plan::{classify_entry, plan_entries, Action, Entry, Mode};

fn segs(parts: &[&str]) -> Vec<String> {
    parts.iter().map(|p| p.to_string()).collect()
}

fn file(parts: &[&str], size: u64) -> Entry {
    Entry { path: segs(parts), is_file: true, size }
}

fn sample_tree() -> Vec<Entry> {
    vec![
        file(&["old.bak"], 10),
        file(&["readme.txt"], 10),
        file(&["empty_unused.txt"], 0),
        file(&["archive", "stale_legacy.txt"], 5),
    ]
}

#[test]
fn dry_run_reports_exactly_the_candidate() {
    let archive = segs(&["archive"]);
    let acts = plan_entries(&archive, Mode::DryRun, &sample_tree());
    assert_eq!(acts.len(), 4);
    match &acts[0] {
        Action::Report { rel } => assert_eq!(rel, "old.bak"),
        other => panic!("expected a report, got {:?}", other),
    }
    assert!(matches!(acts[1], Action::Skip));
    assert!(matches!(acts[2], Action::Skip));
    assert!(matches!(acts[3], Action::Skip));
}

#[test]
fn live_run_archives_exactly_the_candidate() {
    let archive = segs(&["archive"]);
    let acts = plan_entries(&archive, Mode::Live, &sample_tree());
    assert_eq!(acts.len(), 4);
    match &acts[0] {
        Action::Archive { dest, rel } => {
            assert_eq!(dest, &segs(&["archive", "old.bak"]));
            assert_eq!(rel, "old.bak");
        }
        other => panic!("expected a move, got {:?}", other),
    }
    assert!(matches!(acts[1], Action::Skip));
    assert!(matches!(acts[2], Action::Skip));
    assert!(matches!(acts[3], Action::Skip));
}

#[test]
fn zero_length_candidate_is_never_archived() {
    let archive = segs(&["archive"]);
    let e = file(&["empty_unused.txt"], 0);
    assert!(matches!(classify_entry(&archive, Mode::Live, &e), Action::Skip));
    assert!(matches!(classify_entry(&archive, Mode::DryRun, &e), Action::Skip));
}

#[test]
fn archive_subtree_is_never_rescanned() {
    let archive = segs(&["archive"]);
    let e = file(&["archive", "stale_legacy.txt"], 5);
    assert!(matches!(classify_entry(&archive, Mode::Live, &e), Action::Skip));
    assert!(matches!(classify_entry(&archive, Mode::DryRun, &e), Action::Skip));
    let log = file(&["archive", "ARCHIVE_LOG.txt"], 100);
    assert!(matches!(classify_entry(&archive, Mode::Live, &log), Action::Skip));
}

#[test]
fn directories_are_not_candidates() {
    let archive = segs(&["archive"]);
    let dir = Entry { path: segs(&["unused_dir"]), is_file: false, size: 0 };
    assert!(matches!(classify_entry(&archive, Mode::Live, &dir), Action::Skip));
}

#[test]
fn second_live_run_archives_nothing() {
    let archive = segs(&["archive"]);
    // First run: exactly one move, old.bak to archive/old.bak.
    let acts = plan_entries(&archive, Mode::Live, &sample_tree());
    let dest = match &acts[0] {
        Action::Archive { dest, .. } => dest.clone(),
        other => panic!("expected a move, got {:?}", other),
    };
    // Second run: the tree as the first run left it, plus the log it wrote.
    let rescan = vec![
        Entry { path: dest, is_file: true, size: 10 },
        file(&["readme.txt"], 10),
        file(&["empty_unused.txt"], 0),
        file(&["archive", "stale_legacy.txt"], 5),
        file(&["archive", "ARCHIVE_LOG.txt"], 80),
    ];
    let acts2 = plan_entries(&archive, Mode::Live, &rescan);
    for a in &acts2 {
        assert!(matches!(a, Action::Skip), "second run acted again: {:?}", a);
    }
}

#[test]
fn nested_candidate_keeps_its_relative_path() {
    let archive = segs(&["archive"]);
    let e = file(&["src", "old", "parser.bak"], 7);
    match classify_entry(&archive, Mode::Live, &e) {
        Action::Archive { dest, rel } => {
            assert_eq!(dest, segs(&["archive", "src", "old", "parser.bak"]));
            assert_eq!(rel, "src/old/parser.bak");
            // Stripping the archive root reconstructs the original path.
            assert_eq!(&dest[1..], &e.path[..]);
        }
        other => panic!("expected a move, got {:?}", other),
    }
}
