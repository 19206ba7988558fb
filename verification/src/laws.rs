//! What every sweep guarantees, proved of the model in [`crate::model`].
//!
//! Each law is stated of the directory that a sweep is started on. It rests
//! on a statement of the same kind about the content of a directory and on
//! one about a single node, and the three are proved together, each from the
//! others on smaller trees.

use vstd::prelude::*;
use crate::entry::TraversalConfig;
use crate::model::{
    all_on_output, failure, failure_in, failure_of, junk_free, line_for, listing_failure, remains,
    remains_in, remains_of, reports, reports_in, reports_of, settled, stays, NodeView,
};
use crate::traversal::{decision, Action, Channel, ReportView};

verus! {

// A dry run

/// A dry run changes nothing: whatever the tree, whether or not the sweep
/// recurses, and whether or not it ends early, the directory is left as it
/// was.
pub proof fn dry_run_changes_nothing(dir: NodeView, config: TraversalConfig)
    requires
        config.dry_run,
    ensures
        remains_in(dir, config) == dir,
    decreases dir, 1nat,
{
    dry_run_keeps_content(dir.children, config);
}

/// A dry run leaves the content of a directory as it is.
pub proof fn dry_run_keeps_content(nodes: Seq<NodeView>, config: TraversalConfig)
    requires
        config.dry_run,
    ensures
        remains(nodes, config) == nodes,
    decreases nodes, 0nat,
{
    if nodes.len() > 0 {
        dry_run_keeps_content(nodes.drop_last(), config);
        dry_run_keeps_node(nodes.last(), config);
    }
}

/// A dry run leaves a node as it is.
pub proof fn dry_run_keeps_node(node: NodeView, config: TraversalConfig)
    requires
        config.dry_run,
    ensures
        remains_of(node, config) == seq![node],
    decreases node, 2nat,
{
    if decision(node.entry, config) == Action::Descend {
        dry_run_changes_nothing(node, config);
    }
}

// A sweep that does not recurse

/// A sweep that does not recurse touches the children of the directory it is
/// started on and nothing below them. Once the directory is listed, the sweep
/// lists no other and so cannot end early. What remains are the children that
/// stay, each one with all its content as it was, and the lines printed are
/// those for the junk among the children.
pub proof fn shallow_sweep_touches_only_children(dir: NodeView, config: TraversalConfig)
    requires
        !config.recursive,
        listing_failure(dir) is None,
    ensures
        failure_in(dir, config) is None,
        remains_in(dir, config).children == dir.children.filter(
            |node: NodeView| stays(node, config),
        ),
        reports_in(dir, config) == dir.children.filter(
            |node: NodeView| node.entry.is_junk(),
        ).map_values(|node: NodeView| line_for(node, config)),
{
    shallow_sweep_of_content(dir.children, config);
}

/// A sweep that does not recurse removes from the content of a directory the
/// nodes that do not stay, and does no more.
pub proof fn shallow_sweep_of_content(nodes: Seq<NodeView>, config: TraversalConfig)
    requires
        !config.recursive,
    ensures
        failure(nodes, config) is None,
        remains(nodes, config) == nodes.filter(|node: NodeView| stays(node, config)),
        reports(nodes, config) == nodes.filter(|node: NodeView| node.entry.is_junk()).map_values(
            |node: NodeView| line_for(node, config),
        ),
    decreases nodes.len(),
{
    reveal(Seq::filter);
    let staying = |node: NodeView| stays(node, config);
    let junk = |node: NodeView| node.entry.is_junk();
    let line = |node: NodeView| line_for(node, config);
    if nodes.len() > 0 {
        let before = nodes.drop_last();
        let last = nodes.last();
        shallow_sweep_of_content(before, config);
        assert(failure_of(last, config) is None);
        assert(remains_of(last, config) =~= if staying(last) {
            seq![last]
        } else {
            Seq::empty()
        });
        assert(reports_of(last, config) =~= if junk(last) {
            seq![line(last)]
        } else {
            Seq::empty()
        });
    }
}

// A recursive sweep

/// A recursive sweep is complete. Unless a directory that cannot be listed
/// ends it, it comes to every entry at every depth, and a removal that fails
/// does not stop it: the only junk that is left, outside directories that are
/// junk themselves, is junk whose removal failed.
pub proof fn recursive_sweep_leaves_no_junk_it_can_remove(dir: NodeView, config: TraversalConfig)
    requires
        config.recursive,
        !config.dry_run,
        failure_in(dir, config) is None,
    ensures
        settled(remains_in(dir, config).children),
    decreases dir, 1nat,
{
    recursive_sweep_settles_content(dir.children, config);
}

/// A recursive sweep that comes to its end leaves in the content of a
/// directory no junk but what could not be removed.
pub proof fn recursive_sweep_settles_content(nodes: Seq<NodeView>, config: TraversalConfig)
    requires
        config.recursive,
        !config.dry_run,
        failure(nodes, config) is None,
    ensures
        settled(remains(nodes, config)),
    decreases nodes, 0nat,
{
    if nodes.len() > 0 {
        recursive_sweep_settles_content(nodes.drop_last(), config);
        recursive_sweep_settles_node(nodes.last(), config);
    }
}

/// A recursive sweep that does not end at `node` leaves in and below it no
/// junk but what could not be removed.
pub proof fn recursive_sweep_settles_node(node: NodeView, config: TraversalConfig)
    requires
        config.recursive,
        !config.dry_run,
        failure_of(node, config) is None,
    ensures
        settled(remains_of(node, config)),
    decreases node, 2nat,
{
    if decision(node.entry, config) == Action::Descend {
        recursive_sweep_leaves_no_junk_it_can_remove(node, config);
    }
}

/// A recursive sweep that meets no failure of any kind removes every junk
/// entry at every depth: nothing that remains in the directory is junk.
pub proof fn recursive_sweep_leaves_no_junk(dir: NodeView, config: TraversalConfig)
    requires
        config.recursive,
        !config.dry_run,
        failure_in(dir, config) is None,
        all_on_output(reports_in(dir, config)),
    ensures
        junk_free(remains_in(dir, config).children),
    decreases dir, 1nat,
{
    recursive_sweep_cleans_content(dir.children, config);
}

/// A recursive sweep that meets no failure of any kind leaves no junk in the
/// content of a directory.
pub proof fn recursive_sweep_cleans_content(nodes: Seq<NodeView>, config: TraversalConfig)
    requires
        config.recursive,
        !config.dry_run,
        failure(nodes, config) is None,
        all_on_output(reports(nodes, config)),
    ensures
        junk_free(remains(nodes, config)),
    decreases nodes, 0nat,
{
    if nodes.len() > 0 {
        reports_before_and_at_last(nodes, config);
        recursive_sweep_cleans_content(nodes.drop_last(), config);
        recursive_sweep_cleans_node(nodes.last(), config);
    }
}

/// A recursive sweep that meets no failure of any kind at `node` leaves the
/// node free of junk, or takes it away.
pub proof fn recursive_sweep_cleans_node(node: NodeView, config: TraversalConfig)
    requires
        config.recursive,
        !config.dry_run,
        failure_of(node, config) is None,
        all_on_output(reports_of(node, config)),
    ensures
        junk_free(remains_of(node, config)),
    decreases node, 2nat,
{
    match decision(node.entry, config) {
        Action::Descend => {
            recursive_sweep_leaves_no_junk(node, config);
        },
        Action::RemoveFile | Action::RemoveTree => {
            assert(reports_of(node, config)[0].channel == Channel::Output);
        },
        _ => {},
    }
}

// A second sweep

/// A second sweep removes nothing: the directory that the first sweep left,
/// the second leaves as it is, whatever the first met. It ends early where
/// the first did.
pub proof fn second_sweep_removes_nothing(dir: NodeView, config: TraversalConfig)
    ensures
        remains_in(remains_in(dir, config), config) == remains_in(dir, config),
        failure_in(remains_in(dir, config), config) == failure_in(dir, config),
    decreases dir, 1nat,
{
    second_sweep_keeps_content(dir.children, config);
}

/// A second sweep leaves the content of a directory as the first left it.
pub proof fn second_sweep_keeps_content(nodes: Seq<NodeView>, config: TraversalConfig)
    ensures
        remains(remains(nodes, config), config) == remains(nodes, config),
        failure(remains(nodes, config), config) == failure(nodes, config),
    decreases nodes, 0nat,
{
    if nodes.len() > 0 {
        let before = nodes.drop_last();
        let last = nodes.last();
        second_sweep_keeps_content(before, config);
        second_sweep_keeps_node(last, config);
        if failure(before, config) is Some {
            assert(remains(nodes, config) =~= remains(before, config) + seq![last]);
            sweep_of_parts(remains(before, config), seq![last], config);
        } else {
            sweep_of_parts(remains(before, config), remains_of(last, config), config);
        }
    }
}

/// A second sweep finds a node, if the first left it, as the first left it,
/// and ends early at it if the first did.
pub proof fn second_sweep_keeps_node(node: NodeView, config: TraversalConfig)
    ensures
        remains(remains_of(node, config), config) == remains_of(node, config),
        failure(remains_of(node, config), config) == failure_of(node, config),
    decreases node, 2nat,
{
    let left = remains_of(node, config);
    if left.len() > 0 {
        sweep_of_one(left[0], config);
        if decision(node.entry, config) == Action::Descend {
            second_sweep_removes_nothing(node, config);
        }
    }
}

/// A sweep is idempotent. After a sweep that removes and meets no removal
/// that fails, a second sweep of the directory as the first left it removes
/// nothing and prints nothing.
pub proof fn second_sweep_is_silent(dir: NodeView, config: TraversalConfig)
    requires
        !config.dry_run,
        all_on_output(reports_in(dir, config)),
    ensures
        remains_in(remains_in(dir, config), config) == remains_in(dir, config),
        reports_in(remains_in(dir, config), config) == Seq::<ReportView>::empty(),
    decreases dir, 1nat,
{
    second_sweep_removes_nothing(dir, config);
    if listing_failure(dir) is None {
        second_sweep_is_silent_on_content(dir.children, config);
    }
}

/// After a sweep that removes and meets no removal that fails, a second sweep
/// has nothing to say of the content of a directory.
pub proof fn second_sweep_is_silent_on_content(nodes: Seq<NodeView>, config: TraversalConfig)
    requires
        !config.dry_run,
        all_on_output(reports(nodes, config)),
    ensures
        reports(remains(nodes, config), config) == Seq::<ReportView>::empty(),
    decreases nodes, 0nat,
{
    if nodes.len() > 0 {
        let before = nodes.drop_last();
        let last = nodes.last();
        reports_before_and_at_last(nodes, config);
        second_sweep_keeps_content(before, config);
        second_sweep_is_silent_on_content(before, config);
        if failure(before, config) is Some {
            assert(remains(nodes, config) =~= remains(before, config) + seq![last]);
            sweep_of_parts(remains(before, config), seq![last], config);
        } else {
            second_sweep_is_silent_on_node(last, config);
            sweep_of_parts(remains(before, config), remains_of(last, config), config);
        }
    }
}

/// After a sweep that removes and meets no removal that fails, a second sweep
/// has nothing to say of what is left of `node`.
pub proof fn second_sweep_is_silent_on_node(node: NodeView, config: TraversalConfig)
    requires
        !config.dry_run,
        all_on_output(reports_of(node, config)),
    ensures
        reports(remains_of(node, config), config) == Seq::<ReportView>::empty(),
    decreases node, 2nat,
{
    let left = remains_of(node, config);
    if left.len() > 0 {
        sweep_of_one(left[0], config);
        match decision(node.entry, config) {
            Action::Descend => {
                second_sweep_is_silent(node, config);
            },
            Action::RemoveFile | Action::RemoveTree => {
                assert(reports_of(node, config)[0].channel == Channel::Output);
            },
            _ => {},
        }
    }
}

// The sweep of a directory, part by part

/// The sweep of a directory is the sweep of the first part of its content,
/// followed, unless that ended early, by the sweep of the rest.
pub proof fn sweep_of_parts(a: Seq<NodeView>, b: Seq<NodeView>, config: TraversalConfig)
    ensures
        failure(a + b, config) == if failure(a, config) is Some {
            failure(a, config)
        } else {
            failure(b, config)
        },
        remains(a + b, config) == if failure(a, config) is Some {
            remains(a, config) + b
        } else {
            remains(a, config) + remains(b, config)
        },
        reports(a + b, config) == if failure(a, config) is Some {
            reports(a, config)
        } else {
            reports(a, config) + reports(b, config)
        },
    decreases b.len(),
{
    if b.len() > 0 {
        sweep_of_parts(a, b.drop_last(), config);
        assert((a + b).drop_last() =~= a + b.drop_last());
    }
}

/// A directory that holds one node is swept as the node is.
pub proof fn sweep_of_one(node: NodeView, config: TraversalConfig)
    ensures
        failure(seq![node], config) == failure_of(node, config),
        remains(seq![node], config) == remains_of(node, config),
        reports(seq![node], config) == reports_of(node, config),
{
    let one = seq![node];
    assert(failure(one.drop_last(), config) is None);
    assert(remains(one.drop_last(), config) =~= Seq::<NodeView>::empty());
    assert(reports(one.drop_last(), config) =~= Seq::<ReportView>::empty());
}

/// Where all that the sweep of a directory prints goes to standard output, so
/// does what it prints before the last child and, if it gets there, at the
/// last child.
proof fn reports_before_and_at_last(nodes: Seq<NodeView>, config: TraversalConfig)
    requires
        nodes.len() > 0,
        all_on_output(reports(nodes, config)),
    ensures
        all_on_output(reports(nodes.drop_last(), config)),
        failure(nodes.drop_last(), config) is None ==> all_on_output(
            reports_of(nodes.last(), config),
        ),
{
    let before = reports(nodes.drop_last(), config);
    let here = reports_of(nodes.last(), config);
    assert forall|k: int| 0 <= k < before.len() implies (#[trigger] before[k]).channel
        == Channel::Output by {
        assert(reports(nodes, config)[k] == before[k]);
    }
    if failure(nodes.drop_last(), config) is None {
        assert forall|k: int| 0 <= k < here.len() implies (#[trigger] here[k]).channel
            == Channel::Output by {
            assert(reports(nodes, config)[before.len() + k] == here[k]);
        }
    }
}

} // verus!
