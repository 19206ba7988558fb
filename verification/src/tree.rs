//! A directory tree held in memory, and a sweep of it.
//!
//! [`sweep`] takes the decisions that a sweep of real directories takes, in
//! the same order, and carries them out on a tree of [`Node`]s. It is the way
//! to try a sweep without a disk, and its contract ties the decisions for
//! single entries to the model of a whole sweep.

use vstd::prelude::*;
use vstd::string::*;
use crate::entry::{DirectoryEntry, EntryView, TraversalConfig};
use crate::laws::dry_run_changes_nothing;
use crate::model::{
    failure, failure_in, failure_of, remains, remains_in, remains_of, reports, reports_in,
    reports_of, FailureView, NodeView,
};
use crate::traversal::{next_action, preview_report, removal_report, Action, Report, ReportView};

verus! {

/// An entry of a directory with what lies below it.
#[derive(Debug, PartialEq, Eq)]
pub struct Node {
    pub entry: DirectoryEntry,
    /// The cause for which an attempt to remove the entry fails, as the
    /// system would word it; `None` where the attempt succeeds.
    pub locked: Option<String>,
    /// The cause for which an attempt to list the entry, a directory, fails;
    /// `None` where the listing yields `children`.
    pub unreadable: Option<String>,
    /// The content of the entry, if it is a directory, in listing order.
    pub children: Vec<Node>,
}

/// The nodes of a directory as contracts see them.
pub open spec fn views(nodes: Seq<Node>) -> Seq<NodeView>
    decreases nodes,
{
    if nodes.len() == 0 {
        Seq::empty()
    } else {
        views(nodes.drop_last()).push(nodes.last()@)
    }
}

impl View for Node {
    type V = NodeView;

    open spec fn view(&self) -> NodeView
        decreases self,
    {
        NodeView {
            entry: self.entry@,
            locked: match self.locked {
                Some(cause) => Some(cause@),
                None => None,
            },
            unreadable: match self.unreadable {
                Some(cause) => Some(cause@),
                None => None,
            },
            children: views(self.children@),
        }
    }
}

impl Node {
    /// A file named `name`, shown as `full_path`, that can be removed.
    pub fn file(name: &str, full_path: &str) -> (node: Node)
        ensures
            node@ == (NodeView {
                entry: EntryView {
                    name: Some(name@),
                    is_directory: false,
                    full_path: full_path@,
                },
                locked: None,
                unreadable: None,
                children: Seq::empty(),
            }),
    {
        Node {
            entry: DirectoryEntry::new(
                Some(String::from_str(name)),
                false,
                String::from_str(full_path),
            ),
            locked: None,
            unreadable: None,
            children: Vec::new(),
        }
    }

    /// A directory named `name`, shown as `full_path`, that holds `children`
    /// and can be listed and removed.
    pub fn directory(name: &str, full_path: &str, children: Vec<Node>) -> (node: Node)
        ensures
            node@ == (NodeView {
                entry: EntryView {
                    name: Some(name@),
                    is_directory: true,
                    full_path: full_path@,
                },
                locked: None,
                unreadable: None,
                children: views(children@),
            }),
    {
        Node {
            entry: DirectoryEntry::new(
                Some(String::from_str(name)),
                true,
                String::from_str(full_path),
            ),
            locked: None,
            unreadable: None,
            children,
        }
    }

    /// The same node, but every attempt to remove it fails for `cause`.
    pub fn locked(self, cause: &str) -> (node: Node)
        ensures
            node@ == (NodeView { locked: Some(cause@), ..self@ }),
    {
        Node {
            entry: self.entry,
            locked: Some(String::from_str(cause)),
            unreadable: self.unreadable,
            children: self.children,
        }
    }

    /// The same node, but every attempt to list it fails for `cause`.
    pub fn unreadable(self, cause: &str) -> (node: Node)
        ensures
            node@ == (NodeView { unreadable: Some(cause@), ..self@ }),
    {
        Node {
            entry: self.entry,
            locked: self.locked,
            unreadable: Some(String::from_str(cause)),
            children: self.children,
        }
    }
}

/// Why a sweep ended early.
#[derive(Debug, PartialEq, Eq)]
pub enum Failure {
    /// The entry shown as `path`, which the sweep was started on, is no
    /// directory.
    NotADirectory { path: String },
    /// The directory shown as `path` could not be listed, for `cause`.
    Unreadable { path: String, cause: String },
}

impl View for Failure {
    type V = FailureView;

    open spec fn view(&self) -> FailureView {
        match *self {
            Failure::NotADirectory { path } => FailureView::NotADirectory { path: path@ },
            Failure::Unreadable { path, cause } => FailureView::Unreadable {
                path: path@,
                cause: cause@,
            },
        }
    }
}

/// What a sweep of a directory comes to.
#[derive(Debug, PartialEq, Eq)]
pub struct Swept {
    /// The directory as the sweep left it.
    pub left: Node,
    /// The lines to print, in order.
    pub log: Vec<Report>,
    /// `Ok` where the sweep came to its end, else why it ended early.
    pub outcome: Result<(), Failure>,
}

/// The lines of a log as contracts see them.
pub open spec fn lines(log: Seq<Report>) -> Seq<ReportView> {
    log.map_values(|report: Report| report@)
}

/// The outcome of a sweep as contracts see it.
pub open spec fn failure_view(outcome: Result<(), Failure>) -> Option<FailureView> {
    match outcome {
        Ok(_) => None,
        Err(failure) => Some(failure@),
    }
}

/// The view of a directory with one more node is the view of the directory
/// with the view of the node behind it.
pub proof fn views_of_push(nodes: Seq<Node>, node: Node)
    ensures
        views(nodes.push(node)) == views(nodes).push(node@),
{
    assert(nodes.push(node).drop_last() =~= nodes);
}

/// Sweeps the directory `dir`, whatever its own name: only what is in it is
/// judged. Lists it, goes through its children in order, removes what
/// [`next_action`] says to remove unless the removal fails, and sweeps in turn
/// the children that it says to descend into. A removal that fails is
/// reported in the log and the sweep goes on. A directory that cannot be
/// listed ends the sweep at once, as does a start on what is no directory,
/// and what the sweep has not come to stays as it is. A dry run leaves the
/// whole directory as it is.
pub fn sweep(dir: Node, config: &TraversalConfig) -> (swept: Swept)
    ensures
        swept.left@ == remains_in(dir@, *config),
        lines(swept.log@) == reports_in(dir@, *config),
        failure_view(swept.outcome) == failure_in(dir@, *config),
        config.dry_run ==> swept.left@ == dir@,
    decreases dir,
{
    proof {
        if config.dry_run {
            dry_run_changes_nothing(dir@, *config);
        }
    }
    if !dir.entry.is_directory {
        let failure = Failure::NotADirectory { path: dir.entry.full_path.clone() };
        return Swept { left: dir, log: Vec::new(), outcome: Err(failure) };
    }
    let Node { entry, locked, unreadable, children } = dir;
    if let Some(cause) = unreadable {
        let failure = Failure::Unreadable { path: entry.full_path.clone(), cause: cause.clone() };
        return Swept {
            left: Node { entry, locked, unreadable: Some(cause), children },
            log: Vec::new(),
            outcome: Err(failure),
        };
    }
    let ghost all = children@;
    let mut left: Vec<Node> = Vec::new();
    let mut log: Vec<Report> = Vec::new();
    let mut outcome: Result<(), Failure> = Ok(());
    for node in it: children
        invariant
            it.seq() == all,
            all == dir.children@,
            views(left@) == remains(views(all.take(it.index() as int)), *config),
            lines(log@) == reports(views(all.take(it.index() as int)), *config),
            failure_view(outcome) == failure(views(all.take(it.index() as int)), *config),
    {
        let ghost done = all.take(it.index() as int);
        proof {
            assert(all.take(it.index() + 1) =~= done.push(node));
            views_of_push(done, node);
            views_of_push(left@, node);
            assert(views(done).push(node@).drop_last() =~= views(done));
            assert(failure(views(done).push(node@), *config) == if failure(views(done), *config)
                is Some {
                failure(views(done), *config)
            } else {
                failure_of(node@, *config)
            });
        }
        if outcome.is_err() {
            left.push(node);
        } else {
            match next_action(&node.entry, config) {
                Action::Leave => {
                    left.push(node);
                },
                Action::Preview => {
                    log.push(preview_report(&node.entry));
                    left.push(node);
                },
                Action::RemoveFile | Action::RemoveTree => {
                    match &node.locked {
                        None => {
                            log.push(removal_report(&node.entry, &Ok(())));
                        },
                        Some(cause) => {
                            log.push(removal_report(&node.entry, &Err(cause.clone())));
                            left.push(node);
                        },
                    }
                },
                Action::Descend => {
                    let mut inside = sweep(node, config);
                    proof {
                        views_of_push(left@, inside.left);
                    }
                    log.append(&mut inside.log);
                    left.push(inside.left);
                    outcome = inside.outcome;
                },
            }
            proof {
                assert(views(left@) =~= remains(views(done), *config) + remains_of(
                    node@,
                    *config,
                ));
                assert(lines(log@) =~= reports(views(done), *config) + reports_of(
                    node@,
                    *config,
                ));
            }
        }
    }
    proof {
        assert(all.take(all.len() as int) =~= all);
    }
    Swept { left: Node { entry, locked, unreadable: None, children: left }, log, outcome }
}

} // verus!
