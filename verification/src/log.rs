//! The audit log: one appended line per archived file, recording when the
//! move happened, what moved, and where it went.

use vstd::prelude::*;

verus! {

/// The audit line recording that `rel` was archived to `dest` at time `ts`.
pub open spec fn spec_log_line(ts: Seq<char>, rel: Seq<char>, dest: Seq<char>) -> Seq<char> {
    ts + " archived "@ + rel + " to "@ + dest + " by cleanup tool"@
}

/// `line` records archiving `rel` to `dest` at some timestamp.
pub open spec fn is_log_line_for(line: Seq<char>, rel: Seq<char>, dest: Seq<char>) -> bool {
    exists|ts: Seq<char>| line == #[trigger] spec_log_line(ts, rel, dest)
}

/// Build the audit line for a move, with the timestamp given.
pub fn archive_log_line(ts: &str, rel: &str, dest: &str) -> (r: String)
    ensures
        r@ == spec_log_line(ts@, rel@, dest@),
{
    let mut out = String::from_str(ts);
    out.append(" archived ");
    out.append(rel);
    out.append(" to ");
    out.append(dest);
    out.append(" by cleanup tool");
    out
}

/// Relies on `chrono::Utc::now` and the `Display` impl of
/// `chrono::DateTime<Utc>`: the current UTC time rendered as text. The value
/// depends on the clock, so nothing is promised of it.
#[verifier::external_body]
fn now_timestamp() -> (r: String) {
    format!("{}", chrono::Utc::now())
}

/// Build the audit line for a move, stamped with the current UTC time.
pub fn timestamped_log_line(rel: &str, dest: &str) -> (r: String)
    ensures
        is_log_line_for(r@, rel@, dest@),
{
    let ts = now_timestamp();
    let line = archive_log_line(ts.as_str(), rel, dest);
    assert(line@ == spec_log_line(ts@, rel@, dest@));
    line
}

/// The name of the audit-log file at the archive root.
pub fn log_file_name() -> (s: String)
    ensures
        s@ == "ARCHIVE_LOG.txt"@,
{
    String::from_str("ARCHIVE_LOG.txt")
}

/// The line a dry run prints for one candidate it would archive.
pub fn dry_run_report_line(rel: &str) -> (r: String)
    ensures
        r@ == "Would archive: "@ + rel@,
{
    let mut out = String::from_str("Would archive: ");
    out.append(rel);
    out
}

} // verus!
