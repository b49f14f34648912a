//! The order in which the semantic DOM layer mirrors an accessibility tree:
//! which node each element stands for, under which element it is placed, and
//! the bounds its position is taken relative to.

use vstd::prelude::*;
use crate::accessibility::{AccessibilityNodeSnapshot, AccessibilityTreeSnapshot, SemanticBounds};
use crate::decimal::{decimal, decimal_string};

verus! {

/// The position of the node with identity `id`; when several nodes share it,
/// the last one.
pub open spec fn lookup(nodes: Seq<AccessibilityNodeSnapshot>, id: u64) -> Option<int>
    decreases nodes.len(),
{
    if nodes.len() == 0 {
        None
    } else if nodes.last().id == id {
        Some(nodes.len() - 1)
    } else {
        lookup(nodes.drop_last(), id)
    }
}

/// The position of the node with identity `id` (the last one with it).
pub fn find_node(nodes: &Vec<AccessibilityNodeSnapshot>, id: u64) -> (r: Option<usize>)
    ensures
        match r {
            Some(i) => i < nodes@.len() && lookup(nodes@, id) == Some(i as int),
            None => lookup(nodes@, id) is None,
        },
{
    let mut i: usize = nodes.len();
    assert(nodes@.subrange(0, i as int) =~= nodes@);
    while i > 0
        invariant
            i <= nodes@.len(),
            lookup(nodes@, id) == lookup(nodes@.subrange(0, i as int), id),
        decreases i,
    {
        let ghost sub = nodes@.subrange(0, i as int);
        assert(sub.last() == nodes@[i - 1]);
        if nodes[i - 1].id == id {
            return Some(i - 1);
        }
        assert(sub.drop_last() =~= nodes@.subrange(0, i - 1));
        i = i - 1;
    }
    None
}

/// Whether following child links from `id` goes deeper than `depth` levels.
pub open spec fn exhausted(nodes: Seq<AccessibilityNodeSnapshot>, id: u64, depth: nat) -> bool
    decreases depth, 0nat,
{
    match lookup(nodes, id) {
        None => false,
        Some(i) => if depth == 0 {
            true
        } else {
            exhausted_all(nodes, nodes[i].children@, (depth - 1) as nat)
        },
    }
}

/// Whether following child links from any of `ids` goes deeper than `depth`
/// levels.
pub open spec fn exhausted_all(nodes: Seq<AccessibilityNodeSnapshot>, ids: Seq<u64>, depth: nat) -> bool
    decreases depth, ids.len(),
{
    if ids.len() == 0 {
        false
    } else {
        exhausted_all(nodes, ids.drop_last(), depth) || exhausted(nodes, ids.last(), depth)
    }
}

/// One element of the semantic layer: the position of the node it stands
/// for, the position of the element it is placed under (`None` for the layer
/// root), and the bounds of that parent's node, from which its position is
/// measured (`None` at the top, where it is measured from the origin).
#[derive(Clone, Copy, Debug, PartialEq, Eq, Structural)]
pub struct SemanticRenderEntry {
    pub node: usize,
    pub parent: Option<usize>,
    pub parent_bounds: Option<SemanticBounds>,
}

/// The elements for the subtree at `id`, starting at position `at`, within
/// `depth` levels; a missing node renders nothing.
pub open spec fn subtree_spec(
    nodes: Seq<AccessibilityNodeSnapshot>,
    id: u64,
    parent: Option<usize>,
    parent_bounds: Option<SemanticBounds>,
    at: nat,
    depth: nat,
) -> Seq<SemanticRenderEntry>
    decreases depth, 0nat,
{
    match lookup(nodes, id) {
        None => Seq::empty(),
        Some(i) => if depth == 0 {
            Seq::empty()
        } else {
            seq![SemanticRenderEntry { node: i as usize, parent, parent_bounds }] + children_spec(
                nodes,
                nodes[i].children@,
                at,
                nodes[i].bounds,
                at + 1,
                (depth - 1) as nat,
            )
        },
    }
}

/// The elements for the subtrees at `ids`, placed under the element at
/// `parent` whose node has bounds `bounds`, the first starting at `at`.
pub open spec fn children_spec(
    nodes: Seq<AccessibilityNodeSnapshot>,
    ids: Seq<u64>,
    parent: nat,
    bounds: SemanticBounds,
    at: nat,
    depth: nat,
) -> Seq<SemanticRenderEntry>
    decreases depth, ids.len(),
{
    if ids.len() == 0 {
        Seq::empty()
    } else {
        let front = children_spec(nodes, ids.drop_last(), parent, bounds, at, depth);
        front + subtree_spec(
            nodes,
            ids.last(),
            Some(parent as usize),
            Some(bounds),
            at + front.len(),
            depth,
        )
    }
}

/// The elements for the top-level subtrees at `ids`, the first starting at
/// `at`.
pub open spec fn roots_spec(nodes: Seq<AccessibilityNodeSnapshot>, ids: Seq<u64>, at: nat, depth: nat) -> Seq<
    SemanticRenderEntry,
>
    decreases ids.len(),
{
    if ids.len() == 0 {
        Seq::empty()
    } else {
        let front = roots_spec(nodes, ids.drop_last(), at, depth);
        front + subtree_spec(nodes, ids.last(), None, None, at + front.len(), depth)
    }
}

fn render_subtree(
    nodes: &Vec<AccessibilityNodeSnapshot>,
    id: u64,
    parent: Option<usize>,
    parent_bounds: Option<SemanticBounds>,
    depth: usize,
    out: &mut Vec<SemanticRenderEntry>,
) -> (ran_out: bool)
    ensures
        final(out)@ == old(out)@ + subtree_spec(
            nodes@,
            id,
            parent,
            parent_bounds,
            old(out)@.len(),
            depth as nat,
        ),
        ran_out == exhausted(nodes@, id, depth as nat),
    decreases depth,
{
    let i = match find_node(nodes, id) {
        Some(i) => i,
        None => {
            return false;
        },
    };
    if depth == 0 {
        return true;
    }
    let at = out.len();
    out.push(SemanticRenderEntry { node: i, parent, parent_bounds });
    let ghost base = old(out)@.push(SemanticRenderEntry { node: i, parent, parent_bounds });
    let children = &nodes[i].children;
    let bounds = nodes[i].bounds;
    let mut ran_out = false;
    let mut k: usize = 0;
    while k < children.len()
        invariant
            0 <= k <= children@.len(),
            i < nodes@.len(),
            *children == nodes@[i as int].children,
            bounds == nodes@[i as int].bounds,
            depth > 0,
            at == old(out)@.len(),
            base.len() == at + 1,
            out@ == base + children_spec(
                nodes@,
                children@.subrange(0, k as int),
                at as nat,
                bounds,
                at as nat + 1,
                (depth - 1) as nat,
            ),
            ran_out == exhausted_all(nodes@, children@.subrange(0, k as int), (depth - 1) as nat),
        decreases children@.len() - k,
    {
        let ghost front = children_spec(
            nodes@,
            children@.subrange(0, k as int),
            at as nat,
            bounds,
            at as nat + 1,
            (depth - 1) as nat,
        );
        let child_out = render_subtree(nodes, children[k], Some(at), Some(bounds), depth - 1, out);
        ran_out = ran_out || child_out;
        proof {
            let pre = children@.subrange(0, k + 1);
            assert(pre.drop_last() =~= children@.subrange(0, k as int));
            assert(pre.last() == children@[k as int]);
            assert(out@ =~= base + children_spec(
                nodes@,
                pre,
                at as nat,
                bounds,
                at as nat + 1,
                (depth - 1) as nat,
            ));
        }
        k = k + 1;
    }
    assert(children@.subrange(0, children@.len() as int) =~= children@);
    ran_out
}

/// The elements that mirror `snapshot`, in the order they are created:
/// each top-level node in turn, then its children depth first. `None` when
/// following child links from a top-level node goes deeper than there are
/// nodes.
pub fn semantic_dom_plan(snapshot: &AccessibilityTreeSnapshot) -> (r: Option<Vec<SemanticRenderEntry>>)
    ensures
        match r {
            Some(v) => {
                &&& !exhausted_all(
                    snapshot.nodes@,
                    snapshot.root_children@,
                    snapshot.nodes@.len(),
                )
                &&& v@ == roots_spec(
                    snapshot.nodes@,
                    snapshot.root_children@,
                    0,
                    snapshot.nodes@.len(),
                )
            },
            None => exhausted_all(snapshot.nodes@, snapshot.root_children@, snapshot.nodes@.len()),
        },
{
    let nodes = &snapshot.nodes;
    let roots = &snapshot.root_children;
    let depth = nodes.len();
    let mut out: Vec<SemanticRenderEntry> = Vec::new();
    let mut ran_out = false;
    let mut k: usize = 0;
    while k < roots.len()
        invariant
            0 <= k <= roots@.len(),
            depth == nodes@.len(),
            out@ == roots_spec(nodes@, roots@.subrange(0, k as int), 0, depth as nat),
            ran_out == exhausted_all(nodes@, roots@.subrange(0, k as int), depth as nat),
        decreases roots@.len() - k,
    {
        let r = render_subtree(nodes, roots[k], None, None, depth, &mut out);
        ran_out = ran_out || r;
        proof {
            let pre = roots@.subrange(0, k + 1);
            assert(pre.drop_last() =~= roots@.subrange(0, k as int));
            assert(pre.last() == roots@[k as int]);
            assert(out@ =~= roots_spec(nodes@, pre, 0, depth as nat));
        }
        k = k + 1;
    }
    assert(roots@.subrange(0, roots@.len() as int) =~= roots@);
    if ran_out {
        None
    } else {
        Some(out)
    }
}

/// Whether the layer should move focus to the node with identity `focus`:
/// when it is not the tree root and the active element (identified by its
/// node attribute, if any) is not already that node.
pub fn should_move_focus(focus: u64, root_id: u64, active: Option<&str>) -> (r: bool)
    ensures
        r == (focus != root_id && match active {
            Some(a) => a@ != decimal(focus as nat),
            None => true,
        }),
{
    if focus == root_id {
        return false;
    }
    match active {
        Some(a) => {
            let want = decimal_string(focus);
            let have = a.to_owned();
            !(have == want)
        },
        None => true,
    }
}

} // verus!
