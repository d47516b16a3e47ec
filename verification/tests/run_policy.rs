use cleanup_tool::paths::segs_start_with;
use cleanup_tool::plan::{
    classify_entry, exit_code, parse_mode, status_clean, Action, Entry, Mode, Outcome,
};

fn segs(parts: &[&str]) -> Vec<String> {
    parts.iter().map(|p| p.to_string()).collect()
}

#[test]
fn clean_tree_is_an_empty_status() {
    assert!(status_clean(&Some(Vec::new())));
}

#[test]
fn pending_modifications_make_the_tree_dirty() {
    let status = Some(b" M src/main.rs\n".to_vec());
    assert!(!status_clean(&status));
}

#[test]
fn unobtainable_status_fails_closed() {
    assert!(!status_clean(&None));
}

#[test]
fn dirty_tree_aborts_with_status_one() {
    // An uncommitted edit is present: the precondition fails and the run
    // ends with exit status 1 before any scan.
    let status = Some(b"?? scratch.txt\n".to_vec());
    assert!(!status_clean(&status));
    assert_eq!(exit_code(Outcome::DirtyTree), 1);
}

#[test]
fn exit_codes_follow_the_outcome() {
    assert_eq!(exit_code(Outcome::Completed), 0);
    assert_eq!(exit_code(Outcome::DirtyTree), 1);
    assert_eq!(exit_code(Outcome::ScanFailed), 1);
    assert_eq!(exit_code(Outcome::BuildFailed), 1);
}

#[test]
fn build_failure_leaves_the_archive_in_place() {
    // A live run archives one candidate; the rebuild then fails. The run
    // ends with exit status 1 and the file stays where the move put it:
    // no action ever sends a file back out of the archive.
    let archive = segs(&["archive"]);
    let e = Entry { path: segs(&["old.bak"]), is_file: true, size: 10 };
    match classify_entry(&archive, Mode::Live, &e) {
        Action::Archive { dest, .. } => {
            assert!(segs_start_with(&dest, &archive));
        }
        other => panic!("expected a move, got {:?}", other),
    }
    assert_eq!(exit_code(Outcome::BuildFailed), 1);
}

#[test]
fn dry_run_flag_selects_dry_run() {
    let args = vec!["cleanup".to_string(), "--dry-run".to_string()];
    assert!(matches!(parse_mode(&args), Mode::DryRun));
    let args = vec!["cleanup".to_string(), "extra".to_string(), "--dry-run".to_string()];
    assert!(matches!(parse_mode(&args), Mode::DryRun));
}

#[test]
fn absent_flag_selects_live_mode() {
    let args = vec!["cleanup".to_string()];
    assert!(matches!(parse_mode(&args), Mode::Live));
    let args = vec!["cleanup".to_string(), "--dry".to_string()];
    assert!(matches!(parse_mode(&args), Mode::Live));
    let args: Vec<String> = Vec::new();
    assert!(matches!(parse_mode(&args), Mode::Live));
}
