//! A sweep over a whole directory tree, as mathematics.
//!
//! A [`NodeView`] stands for an entry of a directory together with everything
//! below it. For a directory and a configuration, [`remains_in`] says what a
//! sweep leaves of the directory, [`reports_in`] what it prints on the way,
//! and [`failure_in`] whether it ends early because a directory cannot be
//! listed. All three follow [`decision`] and [`report_of`], the contracts of
//! the functions that a sweep of real directories calls for each entry, so
//! what is proved of the model holds of every sweep that lists each directory
//! it enters, asks for each child in turn, and does what it is told.
//!
//! Each comes in three forms: for a directory that the sweep enters (`_in`),
//! for the content of a directory (no suffix), and for one entry that the
//! sweep comes to (`_of`).

use vstd::prelude::*;
use crate::entry::{EntryView, TraversalConfig};
use crate::traversal::{decision, report_of, Action, Channel, ReportView};

verus! {

/// An entry of a directory with what lies below it.
pub struct NodeView {
    pub entry: EntryView,
    /// The cause for which an attempt to remove the entry fails and changes
    /// nothing; `None` where the attempt succeeds and the entry is gone with
    /// all below it.
    pub locked: Option<Seq<char>>,
    /// The cause for which an attempt to list the entry, a directory, fails;
    /// `None` where the listing yields `children`.
    pub unreadable: Option<Seq<char>>,
    /// The content of the entry, if it is a directory, in the order in which
    /// a listing yields it.
    pub children: Seq<NodeView>,
}

/// Why a sweep ended early.
pub enum FailureView {
    /// The entry shown as `path`, which the sweep was started on, is no
    /// directory.
    NotADirectory { path: Seq<char> },
    /// The directory shown as `path` could not be listed, for `cause`.
    Unreadable { path: Seq<char>, cause: Seq<char> },
}

/// The failure of an attempt to list `dir`, if it fails.
pub open spec fn listing_failure(dir: NodeView) -> Option<FailureView> {
    if !dir.entry.is_directory {
        Some(FailureView::NotADirectory { path: dir.entry.full_path })
    } else {
        match dir.unreadable {
            Some(cause) => Some(FailureView::Unreadable { path: dir.entry.full_path, cause }),
            None => None,
        }
    }
}

/// How an attempt to remove `node` ends.
pub open spec fn attempt(node: NodeView) -> Result<(), Seq<char>> {
    match node.locked {
        None => Ok(()),
        Some(cause) => Err(cause),
    }
}

/// The failure that ends a sweep which enters `dir`, if one does: that of
/// listing `dir`, or the first that the sweep meets inside.
pub open spec fn failure_in(dir: NodeView, config: TraversalConfig) -> Option<FailureView>
    decreases dir, 1nat,
{
    if listing_failure(dir) is Some {
        listing_failure(dir)
    } else {
        failure(dir.children, config)
    }
}

/// The failure that ends a sweep at `node`, if one does.
pub open spec fn failure_of(node: NodeView, config: TraversalConfig) -> Option<FailureView>
    decreases node, 2nat,
{
    if decision(node.entry, config) == Action::Descend {
        failure_in(node, config)
    } else {
        None
    }
}

/// The failure that ends a sweep of `nodes`, the content of a directory, if
/// one does: the first that the sweep meets, going through the nodes in order.
pub open spec fn failure(nodes: Seq<NodeView>, config: TraversalConfig) -> Option<FailureView>
    decreases nodes, 0nat,
{
    if nodes.len() == 0 {
        None
    } else if failure(nodes.drop_last(), config) is Some {
        failure(nodes.drop_last(), config)
    } else {
        failure_of(nodes.last(), config)
    }
}

/// What a sweep that enters `dir` leaves of it: the directory with what
/// remains of its content, or the directory as it is where it cannot be
/// listed.
pub open spec fn remains_in(dir: NodeView, config: TraversalConfig) -> NodeView
    decreases dir, 1nat,
{
    if listing_failure(dir) is Some {
        dir
    } else {
        NodeView {
            entry: dir.entry,
            locked: dir.locked,
            unreadable: dir.unreadable,
            children: remains(dir.children, config),
        }
    }
}

/// What a sweep leaves of `node` when it comes to it: nothing, or the node
/// alone, swept inside where the sweep descends.
pub open spec fn remains_of(node: NodeView, config: TraversalConfig) -> Seq<NodeView>
    decreases node, 2nat,
{
    match decision(node.entry, config) {
        Action::Leave | Action::Preview => seq![node],
        Action::RemoveFile | Action::RemoveTree => if node.locked is None {
            Seq::empty()
        } else {
            seq![node]
        },
        Action::Descend => seq![remains_in(node, config)],
    }
}

/// What a sweep leaves of `nodes`, the content of a directory. A sweep that
/// has ended early leaves the nodes it has not come to as they are.
pub open spec fn remains(nodes: Seq<NodeView>, config: TraversalConfig) -> Seq<NodeView>
    decreases nodes, 0nat,
{
    if nodes.len() == 0 {
        Seq::empty()
    } else if failure(nodes.drop_last(), config) is Some {
        remains(nodes.drop_last(), config).push(nodes.last())
    } else {
        remains(nodes.drop_last(), config) + remains_of(nodes.last(), config)
    }
}

/// The lines that a sweep which enters `dir` prints.
pub open spec fn reports_in(dir: NodeView, config: TraversalConfig) -> Seq<ReportView>
    decreases dir, 1nat,
{
    if listing_failure(dir) is Some {
        Seq::empty()
    } else {
        reports(dir.children, config)
    }
}

/// The lines that a sweep prints when it comes to `node`.
pub open spec fn reports_of(node: NodeView, config: TraversalConfig) -> Seq<ReportView>
    decreases node, 2nat,
{
    match decision(node.entry, config) {
        Action::Leave => Seq::empty(),
        Action::Preview => seq![report_of(node.entry, Ok(()))],
        Action::RemoveFile | Action::RemoveTree => seq![report_of(node.entry, attempt(node))],
        Action::Descend => reports_in(node, config),
    }
}

/// The lines that a sweep of `nodes` prints, in order. A sweep that has ended
/// early prints no more.
pub open spec fn reports(nodes: Seq<NodeView>, config: TraversalConfig) -> Seq<ReportView>
    decreases nodes, 0nat,
{
    if nodes.len() == 0 {
        Seq::empty()
    } else if failure(nodes.drop_last(), config) is Some {
        reports(nodes.drop_last(), config)
    } else {
        reports(nodes.drop_last(), config) + reports_of(nodes.last(), config)
    }
}

/// Every line of `log` goes to standard output: none tells of a failure.
pub open spec fn all_on_output(log: Seq<ReportView>) -> bool {
    forall|k: int| 0 <= k < log.len() ==> (#[trigger] log[k]).channel == Channel::Output
}

/// The line that a sweep prints for `node` where the node is junk: in a dry
/// run the line of a removal that succeeded, else the line that tells how the
/// attempt ended.
pub open spec fn line_for(node: NodeView, config: TraversalConfig) -> ReportView {
    report_of(
        node.entry,
        if config.dry_run {
            Ok(())
        } else {
            attempt(node)
        },
    )
}

/// A sweep that comes to `node` leaves it in its directory.
pub open spec fn stays(node: NodeView, config: TraversalConfig) -> bool {
    !(decision(node.entry, config).removes() && node.locked is None)
}

/// The only junk in and below `node`, outside directories that are junk
/// themselves, is junk that cannot be removed.
pub open spec fn settled_node(node: NodeView) -> bool
    decreases node,
{
    if node.entry.is_junk() {
        node.locked is Some
    } else {
        node.entry.is_directory ==> settled(node.children)
    }
}

/// The only junk in and below `nodes`, outside directories that are junk
/// themselves, is junk that cannot be removed.
pub open spec fn settled(nodes: Seq<NodeView>) -> bool
    decreases nodes,
{
    forall|i: int| 0 <= i < nodes.len() ==> settled_node(#[trigger] nodes[i])
}

/// Neither `node` nor anything below it, at any depth, is junk.
pub open spec fn junk_free_node(node: NodeView) -> bool
    decreases node,
{
    !node.entry.is_junk() && (node.entry.is_directory ==> junk_free(node.children))
}

/// Nothing in or below `nodes`, at any depth, is junk.
pub open spec fn junk_free(nodes: Seq<NodeView>) -> bool
    decreases nodes,
{
    forall|i: int| 0 <= i < nodes.len() ==> junk_free_node(#[trigger] nodes[i])
}

} // verus!
