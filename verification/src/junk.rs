//! The junk classifier: which file names count as junk.
//!
//! The table [`is_junk_name`] is the single statement of what junk is. Most
//! of its rows hold one name, which is matched as a whole; the others match a
//! beginning, an end or a run of characters, and say so. Every comparison is
//! character by character, so a change of case makes another name. Only the
//! base name of an entry is ever classified, never its path.

use vstd::prelude::*;

verus! {

/// `name` begins with `prefix`.
pub open spec fn begins_with(name: Seq<char>, prefix: Seq<char>) -> bool {
    prefix.is_prefix_of(name)
}

/// `name` ends with `suffix`.
pub open spec fn ends_with(name: Seq<char>, suffix: Seq<char>) -> bool {
    suffix.is_suffix_of(name)
}

/// `run` stands somewhere in `name`, its characters side by side.
pub open spec fn holds_run(name: Seq<char>, run: Seq<char>) -> bool {
    exists|at: int|
        0 <= at <= name.len() - run.len() && #[trigger] name.subrange(at, at + run.len()) == run
}

/// A swap file of vim: a dot, then any characters but a line feed, then `.swp`.
pub open spec fn is_swap_name(name: Seq<char>) -> bool {
    &&& name.len() >= 5
    &&& name[0] == '.'
    &&& ends_with(name, ".swp"@)
    &&& forall|i: int| 1 <= i < name.len() - 4 ==> name[i] != '\n'
}

/// The Spotlight index: `.Spotlight-V100` itself, or that name followed by a
/// slash and anything.
pub open spec fn is_spotlight_name(name: Seq<char>) -> bool {
    &&& begins_with(name, ".Spotlight-V100"@)
    &&& (name.len() == 15 || name[15] == '/')
}

/// The table of junk names.
pub open spec fn is_junk_name(name: Seq<char>) -> bool {
    // left by any system
    ||| name == "npm-debug.log"@
    ||| is_swap_name(name)
    // left by macOS
    ||| name == ".DS_Store"@
    ||| name == ".AppleDouble"@
    ||| name == ".LSOverride"@
    ||| name == "Icon\r"@
    ||| begins_with(name, "._"@)
    ||| is_spotlight_name(name)
    ||| holds_run(name, ".Trashes"@)
    ||| name == "__MACOSX"@
    // left by editors on Linux
    ||| ends_with(name, "~"@)
    // left by Windows and by network storage
    ||| name == "Thumbs.db"@
    ||| name == "ehthumbs.db"@
    ||| name == "Desktop.ini"@
    ||| name == "desktop.ini"@
    ||| ends_with(name, "@eaDir"@)
}

/// Asks `junk_file::is_junk` whether `name` is junk.
///
/// That function searches the name for a match of one regular expression, an
/// alternation with one branch for each row of [`is_junk_name`], in which `^`
/// and `$` stand for the two ends of the name and `.` for any character but a
/// line feed. The contract is taken on trust: the verdict is `true` for the
/// names of the table and for no other.
#[verifier::external_body]
fn matches_junk_pattern(name: &str) -> (verdict: bool)
    ensures
        verdict == is_junk_name(name@),
{
    junk_file::is_junk(name)
}

/// Whether `name`, the base name of a directory entry, is a junk name.
pub fn is_junk(name: &str) -> (verdict: bool)
    ensures
        verdict == is_junk_name(name@),
{
    matches_junk_pattern(name)
}

} // verus!
