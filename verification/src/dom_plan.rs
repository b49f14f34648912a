//! What the structural DOM renderer builds for an element tree, and which
//! click handlers an interaction reaches.

use vstd::prelude::*;
use crate::element::{ElementKind, ElementNode};
use crate::decimal::{decimal, lemma_parse_decimal_roundtrip, parse_u64, parse_u64_spec};
use crate::element_id::ElementId;
use crate::style::StyleRefinement;
use crate::text::chars_of;

verus! {

/// The click handler of the node with identity `id`: the first node with that
/// identity in pre-order decides (its handler, or none); `None` when no node
/// has it.
pub open spec fn find_handler<H, A>(node: ElementNode<H, A>, id: ElementId) -> Option<H>
    decreases node,
{
    if node.id == id {
        node.handlers.on_click
    } else {
        match node.kind {
            ElementKind::Div { children } => find_handler_in(children@, id),
            _ => None,
        }
    }
}

/// The first handler that [`find_handler`] finds among `nodes`, in order.
pub open spec fn find_handler_in<H, A>(nodes: Seq<ElementNode<H, A>>, id: ElementId) -> Option<H>
    decreases nodes,
{
    if nodes.len() == 0 {
        None
    } else {
        match find_handler(nodes[0], id) {
            Some(h) => Some(h),
            None => find_handler_in(nodes.subrange(1, nodes.len() as int), id),
        }
    }
}

/// The click handler of the element with identity `id` in the tree.
pub fn find_click_handler<'a, H, A>(node: &'a ElementNode<H, A>, id: ElementId) -> (r: Option<&'a H>)
    ensures
        match r {
            Some(h) => find_handler(*node, id) == Some(*h),
            None => find_handler(*node, id) is None,
        },
    decreases node,
{
    if node.id == id {
        return match &node.handlers.on_click {
            Some(h) => Some(h),
            None => None,
        };
    }
    match &node.kind {
        ElementKind::Div { children } => {
            assert(children@.subrange(0, children@.len() as int) =~= children@);
            let mut i: usize = 0;
            while i < children.len()
                invariant
                    0 <= i <= children@.len(),
                    node.id != id,
                    node.kind == (ElementKind::Div { children: *children }),
                    find_handler_in(children@, id) == find_handler_in(
                        children@.subrange(i as int, children@.len() as int),
                        id,
                    ),
                decreases children@.len() - i,
            {
                let ghost rest = children@.subrange(i as int, children@.len() as int);
                assert(rest[0] == children@[i as int]);
                if let Some(h) = find_click_handler(&children[i], id) {
                    return Some(h);
                }
                assert(rest.subrange(1, rest.len() as int) =~= children@.subrange(
                    i + 1,
                    children@.len() as int,
                ));
                i = i + 1;
            }
            None
        },
        _ => None,
    }
}

/// The click handler of the node itself, as a sequence of zero or one.
pub open spec fn own_handler<H, A>(node: ElementNode<H, A>) -> Seq<H> {
    match node.handlers.on_click {
        Some(h) => seq![h],
        None => Seq::empty(),
    }
}

/// Every click handler of the tree, in pre-order.
pub open spec fn handlers_in_order<H, A>(node: ElementNode<H, A>) -> Seq<H>
    decreases node,
{
    own_handler(node) + match node.kind {
        ElementKind::Div { children } => handlers_of_all(children@),
        _ => Seq::empty(),
    }
}

/// Every click handler of `nodes` and their descendants, in pre-order.
pub open spec fn handlers_of_all<H, A>(nodes: Seq<ElementNode<H, A>>) -> Seq<H>
    decreases nodes,
{
    if nodes.len() == 0 {
        Seq::empty()
    } else {
        handlers_of_all(nodes.subrange(0, nodes.len() - 1)) + handlers_in_order(nodes.last())
    }
}

/// The views of a sequence of handler references.
pub open spec fn deref_all<H>(hs: Seq<&H>) -> Seq<H> {
    hs.map_values(|h: &H| *h)
}

/// Collects the handlers that a pointer release reaches: every handler of
/// the tree, in pre-order.
pub fn click_handlers<'a, H, A>(node: &'a ElementNode<H, A>, out: &mut Vec<&'a H>)
    ensures
        deref_all(final(out)@) == deref_all(old(out)@) + handlers_in_order(*node),
    decreases node,
{
    let ghost start = deref_all(out@);
    if let Some(h) = &node.handlers.on_click {
        out.push(h);
    }
    let ghost own = own_handler(*node);
    assert(deref_all(out@) =~= start + own);
    match &node.kind {
        ElementKind::Div { children } => {
            let mut i: usize = 0;
            while i < children.len()
                invariant
                    0 <= i <= children@.len(),
                    node.kind == (ElementKind::Div { children: *children }),
                    deref_all(out@) == start + own + handlers_of_all(
                        children@.subrange(0, i as int),
                    ),
                decreases children@.len() - i,
            {
                let ghost before = deref_all(out@);
                proof {
                    assert(decreases_to!(*node => node.kind));
                    assert(decreases_to!(node.kind => node.kind->children));
                    assert(decreases_to!(*children => children@));
                    assert(decreases_to!(children@ => children@[i as int]));
                }
                click_handlers(&children[i], out);
                proof {
                    let pre = children@.subrange(0, i + 1);
                    assert(pre.len() == i + 1);
                    assert(pre.subrange(0, pre.len() - 1) =~= children@.subrange(0, i as int));
                    assert(pre.last() == children@[i as int]);
                    assert(deref_all(out@) =~= start + own + handlers_of_all(pre));
                }
                i = i + 1;
            }
            assert(children@.subrange(0, children@.len() as int) =~= children@);
        },
        _ => {
            assert(deref_all(out@) =~= start + own + Seq::<H>::empty());
        },
    }
}

/// The DOM tag an element renders as.
pub open spec fn tag_spec<H, A>(kind: ElementKind<H, A>) -> Seq<char> {
    match kind {
        ElementKind::Text { .. } => "span"@,
        ElementKind::Button { .. } => "button"@,
        _ => "div"@,
    }
}

/// The CSS display an element renders with.
pub open spec fn display_spec<H, A>(kind: ElementKind<H, A>) -> Seq<char> {
    match kind {
        ElementKind::Div { .. } => "flex"@,
        ElementKind::Text { .. } => "block"@,
        _ => "inline-block"@,
    }
}

/// The text content an element renders, if any.
pub open spec fn text_spec<H, A>(kind: ElementKind<H, A>) -> Option<Seq<char>> {
    match kind {
        ElementKind::Text { content } => Some(content@),
        ElementKind::Button { label } => Some(label@),
        _ => None,
    }
}

/// One DOM element the renderer builds, in pre-order: the position of its
/// parent in the plan (`None` for children of the root container), its tag,
/// the element identity it carries, its display, whether it has a click
/// handler, its text, and the refinement its classes come from.
pub struct DomNodePlan<'a> {
    pub parent: Option<usize>,
    pub tag: &'static str,
    pub element_id: u64,
    pub display: &'static str,
    pub clickable: bool,
    pub text: Option<&'a str>,
    pub is_button: bool,
    pub style: &'a StyleRefinement,
}

/// The content of a [`DomNodePlan`].
pub struct DomNodeModel {
    pub parent: Option<usize>,
    pub tag: Seq<char>,
    pub element_id: u64,
    pub display: Seq<char>,
    pub clickable: bool,
    pub text: Option<Seq<char>>,
    pub is_button: bool,
    pub style: StyleRefinement,
}

impl<'a> View for DomNodePlan<'a> {
    type V = DomNodeModel;

    open spec fn view(&self) -> DomNodeModel {
        DomNodeModel {
            parent: self.parent,
            tag: self.tag@,
            element_id: self.element_id,
            display: self.display@,
            clickable: self.clickable,
            text: match self.text {
                Some(t) => Some(t@),
                None => None,
            },
            is_button: self.is_button,
            style: *self.style,
        }
    }
}

/// The entry of one node whose parent sits at `parent`.
pub open spec fn entry_spec<H, A>(node: ElementNode<H, A>, parent: Option<usize>) -> DomNodeModel {
    DomNodeModel {
        parent,
        tag: tag_spec(node.kind),
        element_id: node.id.0,
        display: display_spec(node.kind),
        clickable: node.handlers.on_click is Some,
        text: text_spec(node.kind),
        is_button: node.kind is Button,
        style: node.style,
    }
}

/// The entries of a subtree rendered with its root at position `at` and its
/// parent at `parent`: the root, then each child's subtree in order.
pub open spec fn plan_spec<H, A>(node: ElementNode<H, A>, parent: Option<usize>, at: nat) -> Seq<DomNodeModel>
    decreases node,
{
    seq![entry_spec(node, parent)] + match node.kind {
        ElementKind::Div { children } => plan_all(children@, at, at + 1),
        _ => Seq::empty(),
    }
}

/// The entries of sibling subtrees under the parent at `parent`, the first
/// starting at position `at`.
pub open spec fn plan_all<H, A>(nodes: Seq<ElementNode<H, A>>, parent: nat, at: nat) -> Seq<DomNodeModel>
    decreases nodes,
{
    if nodes.len() == 0 {
        Seq::empty()
    } else {
        let front = plan_all(nodes.subrange(0, nodes.len() - 1), parent, at);
        front + plan_spec(nodes.last(), Some(parent as usize), at + front.len())
    }
}

/// The views of plan entries.
pub open spec fn plan_views(entries: Seq<DomNodePlan>) -> Seq<DomNodeModel> {
    entries.map_values(|e: DomNodePlan| e@)
}

fn tag_of<H, A>(kind: &ElementKind<H, A>) -> (t: &'static str)
    ensures
        t@ == tag_spec(*kind),
{
    match kind {
        ElementKind::Text { .. } => "span",
        ElementKind::Button { .. } => "button",
        _ => "div",
    }
}

fn display_of<H, A>(kind: &ElementKind<H, A>) -> (d: &'static str)
    ensures
        d@ == display_spec(*kind),
{
    match kind {
        ElementKind::Div { .. } => "flex",
        ElementKind::Text { .. } => "block",
        _ => "inline-block",
    }
}

/// Appends the entries of the subtree at `node` whose parent sits at
/// `parent`.
pub fn plan_node<'a, H, A>(node: &'a ElementNode<H, A>, parent: Option<usize>, out: &mut Vec<DomNodePlan<'a>>)
    requires
        parent matches Some(p) ==> p < old(out)@.len(),
    ensures
        plan_views(final(out)@) == plan_views(old(out)@) + plan_spec(*node, parent, old(out)@.len()),
    decreases node,
{
    let at = out.len();
    let text = match &node.kind {
        ElementKind::Text { content } => Some(content.as_str()),
        ElementKind::Button { label } => Some(label.as_str()),
        _ => None,
    };
    out.push(DomNodePlan {
        parent,
        tag: tag_of(&node.kind),
        element_id: node.id.0,
        display: display_of(&node.kind),
        clickable: node.handlers.on_click.is_some(),
        text,
        is_button: matches!(node.kind, ElementKind::Button { .. }),
        style: &node.style,
    });
    let ghost base = plan_views(old(out)@) + seq![entry_spec(*node, parent)];
    assert(plan_views(out@) =~= base);
    match &node.kind {
        ElementKind::Div { children } => {
            let mut i: usize = 0;
            while i < children.len()
                invariant
                    0 <= i <= children@.len(),
                    node.kind == (ElementKind::Div { children: *children }),
                    at < out@.len(),
                    at == old(out)@.len(),
                    base.len() == at + 1,
                    plan_views(out@) == base + plan_all(
                        children@.subrange(0, i as int),
                        at as nat,
                        at as nat + 1,
                    ),
                decreases children@.len() - i,
            {
                let ghost before = plan_views(out@);
                let ghost front = plan_all(children@.subrange(0, i as int), at as nat, at as nat + 1);
                assert(out@.len() == before.len());
                proof {
                    assert(decreases_to!(*node => node.kind));
                    assert(decreases_to!(node.kind => node.kind->children));
                    assert(decreases_to!(*children => children@));
                    assert(decreases_to!(children@ => children@[i as int]));
                }
                plan_node(&children[i], Some(at), out);
                proof {
                    let pre = children@.subrange(0, i + 1);
                    assert(pre.len() == i + 1);
                    assert(pre.subrange(0, pre.len() - 1) =~= children@.subrange(0, i as int));
                    assert(pre.last() == children@[i as int]);
                    assert(before.len() == at + 1 + front.len());
                    assert(plan_views(out@) =~= base + plan_all(pre, at as nat, at as nat + 1));
                }
                i = i + 1;
            }
            assert(children@.subrange(0, children@.len() as int) =~= children@);
        },
        _ => {
            assert(plan_views(out@) =~= base + Seq::<DomNodeModel>::empty());
        },
    }
}

/// The element identity named by a node-identity attribute value, read the
/// way `str::parse::<u64>` reads it; `None` when there is no attribute or it
/// does not parse.
pub fn element_id_from_attribute(attr: Option<&str>) -> (r: Option<ElementId>)
    ensures
        r == match attr {
            Some(a) => match parse_u64_spec(a@) {
                Some(v) => Some(ElementId(v)),
                None => None,
            },
            None => None,
        },
{
    match attr {
        Some(a) => match parse_u64(a) {
            Some(v) => Some(ElementId::from_u64(v)),
            None => None,
        },
        None => None,
    }
}

/// The ASCII lowercase of `c`.
pub open spec fn ascii_lower(c: char) -> char {
    if 'A' <= c && c <= 'Z' {
        ((c as u32) + 32) as char
    } else {
        c
    }
}

/// Whether `a` and `b` are equal ignoring ASCII case.
pub open spec fn eq_ignore_ascii_case_spec(a: Seq<char>, b: Seq<char>) -> bool {
    a.len() == b.len() && forall|i: int| 0 <= i < a.len() ==> ascii_lower(#[trigger] a[i])
        == ascii_lower(b[i])
}

fn lower(c: char) -> (r: char)
    ensures
        r == ascii_lower(c),
{
    if 'A' <= c && c <= 'Z' {
        ((c as u8) + 32) as char
    } else {
        c
    }
}

/// Whether the tag names `a` and `b` are equal ignoring ASCII case.
pub fn tags_match(a: &str, b: &str) -> (r: bool)
    ensures
        r == eq_ignore_ascii_case_spec(a@, b@),
{
    let x = chars_of(a);
    let y = chars_of(b);
    if x.len() != y.len() {
        return false;
    }
    let mut i: usize = 0;
    while i < x.len()
        invariant
            0 <= i <= x@.len(),
            x@ == a@,
            y@ == b@,
            x@.len() == y@.len(),
            forall|j: int| 0 <= j < i ==> ascii_lower(#[trigger] x@[j]) == ascii_lower(y@[j]),
        decreases x@.len() - i,
    {
        if lower(x[i]) != lower(y[i]) {
            return false;
        }
        i = i + 1;
    }
    true
}

/// What the renderer does for the element at a position of its pool.
#[derive(Clone, Copy, Debug, PartialEq, Eq, Structural)]
pub enum PoolSlot {
    /// Reuse the pooled element, which already has the tag.
    Reuse,
    /// Replace the pooled element with a new one of the tag.
    Replace,
    /// Create a new element and add it to the pool.
    Create,
}

/// Decides what to do for an element with tag `tag` at a position of the
/// pool; `pooled_tag` is the tag of the element pooled there, if any.
pub fn pool_slot(pooled_tag: Option<&str>, tag: &str) -> (s: PoolSlot)
    ensures
        s == (match pooled_tag {
            None => PoolSlot::Create,
            Some(t) => if eq_ignore_ascii_case_spec(t@, tag@) {
                PoolSlot::Reuse
            } else {
                PoolSlot::Replace
            },
        }),
{
    match pooled_tag {
        Some(t) => if tags_match(t, tag) {
            PoolSlot::Reuse
        } else {
            PoolSlot::Replace
        },
        None => PoolSlot::Create,
    }
}

proof fn lemma_contains_concat<T>(a: Seq<T>, b: Seq<T>, x: T)
    ensures
        (a.contains(x) || b.contains(x)) ==> (a + b).contains(x),
{
    if a.contains(x) {
        let i = choose|i: int| 0 <= i < a.len() && a[i] == x;
        assert((a + b)[i] == x);
    } else if b.contains(x) {
        let i = choose|i: int| 0 <= i < b.len() && b[i] == x;
        assert((a + b)[a.len() + i] == x);
    }
}

proof fn lemma_handlers_of_all_front<H, A>(nodes: Seq<ElementNode<H, A>>)
    requires
        nodes.len() > 0,
    ensures
        handlers_of_all(nodes) == handlers_in_order(nodes[0]) + handlers_of_all(
            nodes.subrange(1, nodes.len() as int),
        ),
    decreases nodes.len(),
{
    let rest = nodes.subrange(1, nodes.len() as int);
    if nodes.len() == 1 {
        assert(nodes.subrange(0, 0) =~= Seq::<ElementNode<H, A>>::empty());
        assert(rest =~= Seq::<ElementNode<H, A>>::empty());
        assert(handlers_of_all(nodes.subrange(0, 0)) == Seq::<H>::empty());
        assert(nodes.last() == nodes[0]);
        assert(handlers_of_all(rest) == Seq::<H>::empty());
        assert(handlers_of_all(nodes) =~= handlers_in_order(nodes[0]) + handlers_of_all(rest));
    } else {
        let init = nodes.subrange(0, nodes.len() - 1);
        assert(init.len() == nodes.len() - 1);
        assert(rest.len() == nodes.len() - 1);
        lemma_handlers_of_all_front(init);
        assert(init[0] == nodes[0]);
        assert(init.subrange(1, init.len() as int) =~= rest.subrange(0, rest.len() - 1));
        assert(rest.last() == nodes.last());
        assert(handlers_of_all(nodes) =~= handlers_in_order(nodes[0]) + handlers_of_all(rest));
    }
}

/// The handler that a click on the element with identity `id` invokes is
/// one of the handlers a pointer release anywhere in the tree invokes.
pub proof fn lemma_clicked_handler_is_dispatched<H, A>(node: ElementNode<H, A>, id: ElementId)
    ensures
        find_handler(node, id) matches Some(h) ==> handlers_in_order(node).contains(h),
    decreases node,
{
    if node.id == id {
        if let Some(h) = node.handlers.on_click {
            assert(own_handler(node) == seq![h]);
            lemma_contains_concat(
                own_handler(node),
                match node.kind {
                    ElementKind::Div { children } => handlers_of_all(children@),
                    _ => Seq::empty(),
                },
                h,
            );
            assert(own_handler(node)[0] == h);
        }
    } else {
        match node.kind {
            ElementKind::Div { children } => {
                assert(decreases_to!(node => node.kind));
                assert(decreases_to!(node.kind => node.kind->children));
                assert(decreases_to!(children => children@));
                lemma_found_in_dispatched(children@, id);
                if let Some(h) = find_handler(node, id) {
                    lemma_contains_concat(own_handler(node), handlers_of_all(children@), h);
                }
            },
            _ => {},
        }
    }
}

proof fn lemma_found_in_dispatched<H, A>(nodes: Seq<ElementNode<H, A>>, id: ElementId)
    ensures
        find_handler_in(nodes, id) matches Some(h) ==> handlers_of_all(nodes).contains(h),
    decreases nodes,
{
    if nodes.len() > 0 {
        let rest = nodes.subrange(1, nodes.len() as int);
        lemma_clicked_handler_is_dispatched(nodes[0], id);
        lemma_found_in_dispatched(rest, id);
        lemma_handlers_of_all_front(nodes);
        if let Some(h) = find_handler_in(nodes, id) {
            lemma_contains_concat(handlers_in_order(nodes[0]), handlers_of_all(rest), h);
        }
    }
}

/// The identity attribute the renderer writes for a node (the decimal form
/// of its identity) reads back as that identity.
pub proof fn lemma_element_id_attribute_roundtrip(id: ElementId)
    ensures
        parse_u64_spec(decimal(id.0 as nat)) == Some(id.0),
{
    lemma_parse_decimal_roundtrip(id.0);
}

/// The pool after a render: how many pooled elements are in use, and how
/// many the pool holds. Positions from `active` up to `pool_len` are hidden.
#[derive(Clone, Copy, Debug, PartialEq, Eq, Structural)]
pub struct PoolUsage {
    pub active: usize,
    pub pool_len: usize,
}

/// The pool after rendering `rendered` elements, in order from position zero,
/// into a pool of `pool_len` elements: the first `rendered` positions are in
/// use, the pool grows to hold them, and every position past them is hidden.
pub fn pool_after_render(pool_len: usize, rendered: usize) -> (u: PoolUsage)
    ensures
        u.active == rendered,
        u.pool_len == (if rendered > pool_len {
            rendered
        } else {
            pool_len
        }),
        u.active <= u.pool_len,
{
    PoolUsage { active: rendered, pool_len: if rendered > pool_len { rendered } else { pool_len } }
}

} // verus!
