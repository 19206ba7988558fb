//! What a sweep is told: how it is to run, and what it meets in a directory.

use vstd::prelude::*;
use crate::junk::{is_junk, is_junk_name};

verus! {

/// How a sweep runs. Made once and handed down unchanged to every directory
/// the sweep enters.
#[derive(Clone, Copy, Debug, PartialEq, Eq, Structural)]
pub struct TraversalConfig {
    /// Enter the directories that are not junk themselves.
    pub recursive: bool,
    /// Announce what would be removed, and remove nothing.
    pub dry_run: bool,
}

impl TraversalConfig {
    /// The configuration with these two flags.
    pub fn new(recursive: bool, dry_run: bool) -> (config: Self)
        ensures
            config == (TraversalConfig { recursive, dry_run }),
    {
        TraversalConfig { recursive, dry_run }
    }
}

/// One child of a directory that is being swept.
#[derive(Clone, Debug, PartialEq, Eq)]
pub struct DirectoryEntry {
    /// The base name, without any directory in front of it; `None` where the
    /// name is not valid Unicode. Such a name is never junk.
    pub name: Option<String>,
    /// Whether the entry is a directory. A symbolic link is none, whatever it
    /// points to, so a sweep never follows one.
    pub is_directory: bool,
    /// The path of the entry as it is shown in reports.
    pub full_path: String,
}

/// A [`DirectoryEntry`] as contracts see it.
pub struct EntryView {
    pub name: Option<Seq<char>>,
    pub is_directory: bool,
    pub full_path: Seq<char>,
}

impl EntryView {
    /// The entry has a name, and the name is in the table of junk names.
    pub open spec fn is_junk(self) -> bool {
        match self.name {
            Some(name) => is_junk_name(name),
            None => false,
        }
    }
}

impl View for DirectoryEntry {
    type V = EntryView;

    open spec fn view(&self) -> EntryView {
        EntryView {
            name: match self.name {
                Some(name) => Some(name@),
                None => None,
            },
            is_directory: self.is_directory,
            full_path: self.full_path@,
        }
    }
}

impl DirectoryEntry {
    /// The entry with this name, kind and path.
    pub fn new(name: Option<String>, is_directory: bool, full_path: String) -> (entry: Self)
        ensures
            entry == (DirectoryEntry { name, is_directory, full_path }),
    {
        DirectoryEntry { name, is_directory, full_path }
    }

    /// Whether the entry is junk, going by its base name alone.
    pub fn is_junk(&self) -> (verdict: bool)
        ensures
            verdict == self@.is_junk(),
    {
        match &self.name {
            Some(name) => is_junk(name.as_str()),
            None => false,
        }
    }
}

} // verus!
