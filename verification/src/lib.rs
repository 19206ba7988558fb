//! Finds the junk that operating systems and tools leave behind in directories
//! (`.DS_Store`, `Thumbs.db` and the like) and decides what a sweep of a
//! directory does with each entry it meets.
//!
//! The crate touches no file itself. [`is_junk`] classifies a file name,
//! [`next_action`] says what is to be done with one directory entry under a
//! [`TraversalConfig`], and [`removal_report`] words the line that tells how a
//! removal went. A caller lists the directory, carries the actions out and
//! prints the lines. [`sweep`] does so on a directory tree held in memory.
//!
//! The module [`model`] describes a whole sweep over a directory tree, and
//! [`laws`] proves what it guarantees: a dry run changes nothing, a sweep that
//! does not recurse touches nothing below the first level, a recursive sweep
//! leaves no junk behind, and a second sweep finds nothing to do.

pub mod entry;
pub mod junk;
pub mod laws;
pub mod model;
pub mod traversal;
pub mod tree;

pub use entry::{DirectoryEntry, TraversalConfig};
pub use junk::is_junk;
pub use traversal::{
    failure_line, next_action, preview_report, removal_report, removed_line, Action, Channel,
    Report,
};
pub use tree::{sweep, Failure, Node, Swept};
