//! A one-shot repository hygiene pass: scan a working tree for files whose
//! names suggest they are stale (a backup suffix, an "unused" or "legacy"
//! substring), move each one into an archive directory that mirrors its
//! relative path, and append one audit-log line per move.
//!
//! This crate holds the decisions: which files are candidates, where each
//! one goes, what the audit line says, and with which status the run ends.
//! The surrounding binary walks the tree, queries version control, moves
//! files and runs the build; it feeds plain values in and carries the
//! returned actions out.

pub mod laws;
pub mod log;
pub mod paths;
pub mod plan;
pub mod text;
