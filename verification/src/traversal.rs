//! The decisions of a sweep, one directory entry at a time.
//!
//! A sweep lists the children of a directory in whatever order the file system
//! yields them. For each child it asks [`next_action`] what to do, does it, and
//! where that was a removal hands the outcome to [`removal_report`] for the
//! line to print. A removal that fails is reported and the sweep goes on with
//! the next child.

use vstd::prelude::*;
use vstd::string::*;
use crate::entry::{DirectoryEntry, EntryView, TraversalConfig};

verus! {

/// What a sweep does with one entry.
#[derive(Clone, Copy, Debug, PartialEq, Eq, Structural)]
pub enum Action {
    /// Pass over the entry: no change, no output.
    Leave,
    /// Announce the entry as junk, see [`preview_report`], and leave it alone.
    Preview,
    /// Remove the entry, which is a single file.
    RemoveFile,
    /// Remove the entry, a directory, with all that is in it.
    RemoveTree,
    /// Sweep the entry, a directory, in its turn.
    Descend,
}

impl Action {
    /// The action takes something off the file system.
    pub open spec fn removes(self) -> bool {
        self == Action::RemoveFile || self == Action::RemoveTree
    }
}

/// The action that an entry calls for.
pub open spec fn decision(entry: EntryView, config: TraversalConfig) -> Action {
    if entry.is_junk() {
        if config.dry_run {
            Action::Preview
        } else if entry.is_directory {
            Action::RemoveTree
        } else {
            Action::RemoveFile
        }
    } else if config.recursive && entry.is_directory {
        Action::Descend
    } else {
        Action::Leave
    }
}

/// Decides what the sweep does with `entry`.
///
/// A dry run never removes, and a sweep that is not recursive never descends.
pub fn next_action(entry: &DirectoryEntry, config: &TraversalConfig) -> (action: Action)
    ensures
        action == decision(entry@, *config),
        config.dry_run ==> !action.removes(),
        !config.recursive ==> action != Action::Descend,
        action.removes() || action == Action::Preview <==> entry@.is_junk(),
{
    if entry.is_junk() {
        if config.dry_run {
            Action::Preview
        } else if entry.is_directory {
            Action::RemoveTree
        } else {
            Action::RemoveFile
        }
    } else if config.recursive && entry.is_directory {
        Action::Descend
    } else {
        Action::Leave
    }
}

/// Where a line goes.
#[derive(Clone, Copy, Debug, PartialEq, Eq, Structural)]
pub enum Channel {
    /// Standard output.
    Output,
    /// Standard error.
    Error,
}

/// One line that a sweep prints, without its line end.
#[derive(Clone, Debug, PartialEq, Eq)]
pub struct Report {
    pub channel: Channel,
    pub line: String,
}

/// A [`Report`] as contracts see it.
pub struct ReportView {
    pub channel: Channel,
    pub line: Seq<char>,
}

impl View for Report {
    type V = ReportView;

    open spec fn view(&self) -> ReportView {
        ReportView { channel: self.channel, line: self.line@ }
    }
}

/// The line for an entry that was removed: `Removed: ` and the path.
pub open spec fn removed_text(path: Seq<char>) -> Seq<char> {
    "Removed: "@ + path
}

/// The line for an entry that could not be removed: `Failed removal (`, the
/// cause, `): ` and the path.
pub open spec fn failure_text(cause: Seq<char>, path: Seq<char>) -> Seq<char> {
    "Failed removal ("@ + cause + "): "@ + path
}

/// The report of a removal of `entry`: on success the removed line on standard
/// output, on failure the failure line on standard error.
pub open spec fn report_of(entry: EntryView, outcome: Result<(), Seq<char>>) -> ReportView {
    match outcome {
        Ok(_) => ReportView { channel: Channel::Output, line: removed_text(entry.full_path) },
        Err(cause) => ReportView {
            channel: Channel::Error,
            line: failure_text(cause, entry.full_path),
        },
    }
}

/// Words the line for the entry at `path` that was removed.
pub fn removed_line(path: &str) -> (line: String)
    ensures
        line@ == removed_text(path@),
{
    let mut line = String::from_str("Removed: ");
    line.append(path);
    line
}

/// Words the line for the entry at `path` whose removal failed with `cause`.
pub fn failure_line(cause: &str, path: &str) -> (line: String)
    ensures
        line@ == failure_text(cause@, path@),
{
    let mut line = String::from_str("Failed removal (");
    line.append(cause);
    line.append("): ");
    line.append(path);
    line
}

/// The report for a junk entry met in a dry run. It reads as the report of a
/// removal that succeeded: the wording does not tell the two apart.
pub fn preview_report(entry: &DirectoryEntry) -> (report: Report)
    ensures
        report@ == report_of(entry@, Ok(())),
{
    Report { channel: Channel::Output, line: removed_line(entry.full_path.as_str()) }
}

/// The report for `entry` after the attempt to remove it. `outcome` is `Ok`
/// where the entry is gone and else holds the cause as the system words it.
/// Either way the sweep goes on.
pub fn removal_report(entry: &DirectoryEntry, outcome: &Result<(), String>) -> (report: Report)
    ensures
        report@ == report_of(
            entry@,
            match *outcome {
                Ok(_) => Ok(()),
                Err(cause) => Err(cause@),
            },
        ),
{
    match outcome {
        Ok(_) => Report { channel: Channel::Output, line: removed_line(entry.full_path.as_str()) },
        Err(cause) => Report {
            channel: Channel::Error,
            line: failure_line(cause.as_str(), entry.full_path.as_str()),
        },
    }
}

} // verus!
