//! Left panel state and the file-tree rows it lists.

use vstd::prelude::*;

use crate::engine::project::{FileKind, FileNode};

verus! {

/// Which sub-view the left panel is showing.
#[derive(Debug, Clone, Copy, PartialEq, Eq, Structural)]
pub enum LeftPanelView {
    FileTree,
    History,
}

pub struct LeftPanelState {
    pub view: LeftPanelView,
    pub file_tree_cursor: usize,
    pub history_cursor: usize,
}

impl Default for LeftPanelState {
    fn default() -> (s: Self)
        ensures
            s.view == LeftPanelView::FileTree,
            s.file_tree_cursor == 0,
            s.history_cursor == 0,
    {
        LeftPanelState { view: LeftPanelView::FileTree, file_tree_cursor: 0, history_cursor: 0 }
    }
}

/// The rows of a file tree, depth first: each node with its depth, followed
/// by the rows of its children when it is a directory with children.
pub open spec fn tree_rows(nodes: Seq<FileNode>, depth: int) -> Seq<(int, FileNode)>
    decreases nodes, 0int,
{
    if nodes.len() == 0 {
        seq![]
    } else {
        node_rows(nodes[0], depth) + tree_rows(nodes.drop_first(), depth)
    }
}

/// The rows of one node and its subtree.
pub open spec fn node_rows(node: FileNode, depth: int) -> Seq<(int, FileNode)>
    decreases node, 1int,
{
    seq![(depth, node)] + if node.kind == FileKind::Directory && node.children@.len() > 0 {
        tree_rows(node.children@, depth + 1)
    } else {
        seq![]
    }
}

pub open spec fn rows_view<'a>(rows: Seq<(usize, &'a FileNode)>) -> Seq<(int, FileNode)> {
    rows.map_values(|r: (usize, &'a FileNode)| (r.0 as int, *r.1))
}

/// Appends the rows of `nodes`, starting at `depth`, to `out`.
pub fn flatten_tree<'a>(nodes: &'a [FileNode], depth: usize, out: &mut Vec<(usize, &'a FileNode)>)
    requires
        forall|i: int|
            0 <= i < tree_rows(nodes@, depth as int).len() ==> #[trigger] tree_rows(
                nodes@,
                depth as int,
            )[i].0 <= usize::MAX,
    ensures
        rows_view(final(out)@) == rows_view(old(out)@) + tree_rows(nodes@, depth as int),
    decreases nodes@,
{
    let mut i: usize = 0;
    assert(nodes@.skip(0) =~= nodes@);
    while i < nodes.len()
        invariant
            i <= nodes@.len(),
            forall|k: int|
                0 <= k < tree_rows(nodes@.skip(i as int), depth as int).len() ==> #[trigger] tree_rows(
                    nodes@.skip(i as int),
                    depth as int,
                )[k].0 <= usize::MAX,
            rows_view(out@) + tree_rows(nodes@.skip(i as int), depth as int) == rows_view(old(out)@)
                + tree_rows(nodes@, depth as int),
        decreases nodes@.len() - i,
    {
        let node = &nodes[i];
        let ghost rest = nodes@.skip(i as int);
        let ghost d = depth as int;
        let ghost here = node_rows(*node, d);
        let ghost later = tree_rows(nodes@.skip(i + 1), d);
        assert(rest.drop_first() =~= nodes@.skip(i + 1));
        assert(rest[0] == *node);
        assert(tree_rows(rest, d) == here + later);
        let ghost out_before = rows_view(out@);
        out.push((depth, node));
        assert(rows_view(out@) =~= out_before.push((d, *node)));
        let ghost children_rows = if node.kind == FileKind::Directory && node.children@.len() > 0 {
            tree_rows(node.children@, d + 1)
        } else {
            seq![]
        };
        assert(here == seq![(d, *node)] + children_rows);
        assert forall|k: int| 0 <= k < later.len() implies #[trigger] later[k].0 <= usize::MAX by {
            assert(tree_rows(rest, d)[here.len() + k] == later[k]);
        }
        if node.is_dir() && node.children.len() > 0 {
            assert(decreases_to!(nodes@ => nodes@[i as int]));
            assert(decreases_to!(nodes@[i as int] => nodes@[i as int].children));
            assert(decreases_to!(nodes@[i as int].children => nodes@[i as int].children@));
            assert(children_rows.len() > 0 && children_rows[0].0 == d + 1) by {
                assert(tree_rows(node.children@, d + 1) == node_rows(node.children@[0], d + 1)
                    + tree_rows(node.children@.drop_first(), d + 1));
            }
            assert(tree_rows(rest, d)[1] == children_rows[0]);
            assert forall|k: int| 0 <= k < children_rows.len() implies #[trigger] children_rows[k].0
                <= usize::MAX by {
                assert(tree_rows(rest, d)[1 + k] == children_rows[k]);
            }
            flatten_tree(node.children.as_slice(), depth + 1, out);
        }
        assert(rows_view(out@) =~= out_before + here);
        i = i + 1;
    }
    assert(nodes@.skip(nodes@.len() as int) =~= seq![]);
}

} // verus!
