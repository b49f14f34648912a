//! Element trees: div containers, text and button leaves, and opaque payloads
//! of higher layers, each with its identity, style refinement, and click
//! handler.

use vstd::prelude::*;
use crate::color::Color;
use crate::element_id::{advanced, ElementId, ElementIds};
use crate::style::{empty_refinement, OverflowAxis, StyleRefinement};
use crate::styled::Styled;

verus! {

/// Interaction handlers of a node; `H` is the handler type of the host.
#[derive(Debug)]
pub struct ElementHandlers<H> {
    pub on_click: Option<H>,
}

impl<H> ElementHandlers<H> {
    /// No handlers.
    pub fn new() -> (h: Self)
        ensures
            h.on_click is None,
    {
        ElementHandlers { on_click: None }
    }
}

impl<H> Default for ElementHandlers<H> {
    fn default() -> (h: Self)
        ensures
            h.on_click is None,
    {
        ElementHandlers::new()
    }
}

/// A node in the element tree; `A` is the type of opaque payloads that
/// higher layers store in it.
#[derive(Debug)]
pub struct ElementNode<H, A> {
    pub id: ElementId,
    pub style: StyleRefinement,
    pub handlers: ElementHandlers<H>,
    pub kind: ElementKind<H, A>,
}

/// The element variants.
#[derive(Debug)]
pub enum ElementKind<H, A> {
    Div { children: Vec<ElementNode<H, A>> },
    Text { content: String },
    Button { label: String },
    /// Opaque payload stored by higher layers.
    Any(A),
}

/// Whether `node` is a fresh node with identity `id`, no refinement, and no
/// handler.
pub open spec fn is_fresh<H, A>(node: ElementNode<H, A>, id: u64) -> bool {
    &&& node.id == ElementId(id)
    &&& node.style == empty_refinement()
    &&& node.handlers.on_click is None
}

/// Whether `new` is `old` with `child` appended to its children when `old` is
/// a div, and `old` unchanged otherwise.
pub open spec fn pushed<H, A>(old: ElementNode<H, A>, new: ElementNode<H, A>, child: ElementNode<H, A>) -> bool {
    match old.kind {
        ElementKind::Div { children } => {
            &&& new.id == old.id
            &&& new.style == old.style
            &&& new.handlers == old.handlers
            &&& new.kind matches ElementKind::Div { children: c } && c@ == children@.push(child)
        },
        _ => new == old,
    }
}

impl<H, A> ElementNode<H, A> {
    /// An empty div with a fresh identity.
    pub fn div(ids: &mut ElementIds) -> (node: Self)
        ensures
            is_fresh(node, old(ids).next_value()),
            node.kind matches ElementKind::Div { children } && children@.len() == 0,
            final(ids).next_value() == advanced(old(ids).next_value(), 1),
    {
        ElementNode {
            id: ElementId::new(ids),
            style: StyleRefinement::default(),
            handlers: ElementHandlers::new(),
            kind: ElementKind::Div { children: Vec::new() },
        }
    }

    /// A text leaf with a fresh identity.
    pub fn text(ids: &mut ElementIds, content: String) -> (node: Self)
        ensures
            is_fresh(node, old(ids).next_value()),
            node.kind matches ElementKind::Text { content: c } && c@ == content@,
            final(ids).next_value() == advanced(old(ids).next_value(), 1),
    {
        ElementNode {
            id: ElementId::new(ids),
            style: StyleRefinement::default(),
            handlers: ElementHandlers::new(),
            kind: ElementKind::Text { content },
        }
    }

    /// A button leaf with a fresh identity.
    pub fn button(ids: &mut ElementIds, label: String) -> (node: Self)
        ensures
            is_fresh(node, old(ids).next_value()),
            node.kind matches ElementKind::Button { label: l } && l@ == label@,
            final(ids).next_value() == advanced(old(ids).next_value(), 1),
    {
        ElementNode {
            id: ElementId::new(ids),
            style: StyleRefinement::default(),
            handlers: ElementHandlers::new(),
            kind: ElementKind::Button { label },
        }
    }

    pub fn style(&self) -> (s: &StyleRefinement)
        ensures
            *s == self.style,
    {
        &self.style
    }

    pub fn style_mut(&mut self) -> (s: &mut StyleRefinement)
        ensures
            *s == old(self).style,
            final(self).style == *final(s),
            final(self).id == old(self).id,
            final(self).handlers == old(self).handlers,
            final(self).kind == old(self).kind,
    {
        &mut self.style
    }

    /// The children of a div; `None` for leaves.
    pub fn children_mut(&mut self) -> (r: Option<&mut Vec<ElementNode<H, A>>>)
        ensures
            match r {
                Some(c) => {
                    &&& old(self).kind matches ElementKind::Div { children } && *c == children
                    &&& final(self).kind == (ElementKind::Div { children: *final(c) })
                    &&& final(self).id == old(self).id
                    &&& final(self).style == old(self).style
                    &&& final(self).handlers == old(self).handlers
                },
                None => !(old(self).kind is Div) && *final(self) == *old(self),
            },
    {
        match &mut self.kind {
            ElementKind::Div { children } => Some(children),
            _ => None,
        }
    }

    /// The node with `handler` as its click handler.
    pub fn on_click(self, handler: H) -> (node: Self)
        ensures
            node.handlers.on_click == Some(handler),
            node.id == self.id,
            node.style == self.style,
            node.kind == self.kind,
    {
        let mut node = self;
        node.handlers.on_click = Some(handler);
        node
    }

    /// Whether the node scrolls on either axis.
    pub fn is_scroll_container(&self) -> (r: bool)
        ensures
            r == (self.style.overflow_x == Some(OverflowAxis::Scroll) || self.style.overflow_y
                == Some(OverflowAxis::Scroll)),
    {
        matches!(self.style.overflow_x, Some(OverflowAxis::Scroll)) || matches!(
            self.style.overflow_y,
            Some(OverflowAxis::Scroll)
        )
    }
}

impl<H, A> Styled for ElementNode<H, A> {
    open spec fn style_view(&self) -> StyleRefinement {
        self.style
    }

    open spec fn with_style(&self, style: StyleRefinement) -> Self {
        ElementNode { style, ..*self }
    }

    proof fn lemma_with_style(&self, style: StyleRefinement) {
    }

    fn style_mut(&mut self) -> (s: &mut StyleRefinement) {
        &mut self.style
    }
}

/// Values that become an element node, drawing fresh identities as needed.
pub trait IntoElement<H, A>: Sized {
    /// Whether `node` is the node that `self` becomes when identities are
    /// drawn starting at `first`.
    spec fn makes(&self, first: u64, node: ElementNode<H, A>) -> bool;

    /// How many identities becoming a node draws.
    spec fn ids_drawn(&self) -> nat;

    fn into_element(self, ids: &mut ElementIds) -> (node: ElementNode<H, A>)
        ensures
            self.makes(old(ids).next_value(), node),
            final(ids).next_value() == advanced(old(ids).next_value(), self.ids_drawn()),
    ;
}

impl<H, A> IntoElement<H, A> for ElementNode<H, A> {
    open spec fn makes(&self, first: u64, node: ElementNode<H, A>) -> bool {
        node == *self
    }

    open spec fn ids_drawn(&self) -> nat {
        0
    }

    fn into_element(self, ids: &mut ElementIds) -> (node: ElementNode<H, A>) {
        self
    }
}

impl<'a, H, A> IntoElement<H, A> for &'a str {
    open spec fn makes(&self, first: u64, node: ElementNode<H, A>) -> bool {
        is_fresh(node, first) && (node.kind matches ElementKind::Text { content } && content@ == self@)
    }

    open spec fn ids_drawn(&self) -> nat {
        1
    }

    fn into_element(self, ids: &mut ElementIds) -> (node: ElementNode<H, A>) {
        ElementNode::text(ids, self.to_owned())
    }
}

impl<H, A> IntoElement<H, A> for String {
    open spec fn makes(&self, first: u64, node: ElementNode<H, A>) -> bool {
        is_fresh(node, first) && (node.kind matches ElementKind::Text { content } && content@ == self@)
    }

    open spec fn ids_drawn(&self) -> nat {
        1
    }

    fn into_element(self, ids: &mut ElementIds) -> (node: ElementNode<H, A>) {
        ElementNode::text(ids, self)
    }
}

impl<H, A> IntoElement<H, A> for Color {
    open spec fn makes(&self, first: u64, node: ElementNode<H, A>) -> bool {
        &&& node.id == ElementId(first)
        &&& node.style == (StyleRefinement { background: Some(*self), ..empty_refinement() })
        &&& node.handlers.on_click is None
        &&& node.kind matches ElementKind::Div { children } && children@.len() == 0
    }

    open spec fn ids_drawn(&self) -> nat {
        1
    }

    fn into_element(self, ids: &mut ElementIds) -> (node: ElementNode<H, A>) {
        ElementNode::div(ids).bg(self)
    }
}

/// Containers that accept children.
pub trait ParentElement<H, A>: Sized {
    /// Whether `result` is `self` with `child` appended.
    spec fn appended(&self, child: ElementNode<H, A>, result: Self) -> bool;

    /// Whether `result` is `self` with `nodes` appended in order.
    spec fn appended_all(&self, nodes: Seq<ElementNode<H, A>>, result: Self) -> bool;

    /// Appending nothing leaves the container as it is.
    proof fn lemma_appended_none(&self)
        ensures
            self.appended_all(Seq::empty(), *self),
    ;

    /// Appending one more node extends the appended sequence.
    proof fn lemma_appended_one_more(
        &self,
        nodes: Seq<ElementNode<H, A>>,
        mid: Self,
        child: ElementNode<H, A>,
        result: Self,
    )
        requires
            self.appended_all(nodes, mid),
            mid.appended(child, result),
        ensures
            self.appended_all(nodes.push(child), result),
    ;

    fn push_child(&mut self, child: ElementNode<H, A>)
        ensures
            old(self).appended(child, *final(self)),
    ;

    /// Appends the node that `child` becomes.
    fn child<C: IntoElement<H, A>>(self, child: C, ids: &mut ElementIds) -> (r: Self)
        ensures
            exists|node: ElementNode<H, A>|
                child.makes(old(ids).next_value(), node) && self.appended(node, r),
            final(ids).next_value() == advanced(old(ids).next_value(), child.ids_drawn()),
    {
        let ghost c = child;
        let node = child.into_element(ids);
        let mut me = self;
        me.push_child(node);
        assert(c.makes(old(ids).next_value(), node));
        me
    }

    /// Appends the nodes that `children` become, in order.
    fn children<C: IntoElement<H, A>>(self, children: Vec<C>, ids: &mut ElementIds) -> (r: Self)
        ensures
            exists|nodes: Seq<ElementNode<H, A>>|
                makes_all(children@, old(ids).next_value(), nodes) && self.appended_all(nodes, r),
            final(ids).next_value() == advanced(old(ids).next_value(), drawn_total(children@)),
    {
        let ghost all = children@;
        let total = children.len();
        let ghost first = ids.next_value();
        let ghost start = self;
        let ghost mut nodes: Seq<ElementNode<H, A>> = Seq::empty();
        let mut rest = children;
        let mut me = self;
        let mut i: usize = 0;
        assert(all.take(0) =~= Seq::<C>::empty());
        proof {
            start.lemma_appended_none();
        }
        while rest.len() > 0
            invariant
                i <= all.len(),
                all.len() == total,
                rest@ == all.skip(i as int),
                makes_all(all.take(i as int), first, nodes),
                start.appended_all(nodes, me),
                ids.next_value() == advanced(first, drawn_total(all.take(i as int))),
            decreases rest@.len(),
        {
            let c = rest.remove(0);
            let ghost before_ids = ids.next_value();
            let ghost before_me = me;
            let node = c.into_element(ids);
            me.push_child(node);
            proof {
                assert(all.take(i + 1).drop_last() =~= all.take(i as int));
                assert(all.take(i + 1).last() == c);
                let new_nodes = nodes.push(node);
                assert(new_nodes.drop_last() =~= nodes);
                start.lemma_appended_one_more(nodes, before_me, node, me);
                lemma_advanced_add(first, drawn_total(all.take(i as int)), c.ids_drawn());
                nodes = new_nodes;
            }
            i = i + 1;
        }
        assert(all.take(i as int) =~= all);
        me
    }
}

/// How many identities `cs` draw in all.
pub open spec fn drawn_total<H, A, C: IntoElement<H, A>>(cs: Seq<C>) -> nat
    decreases cs.len(),
{
    if cs.len() == 0 {
        0
    } else {
        drawn_total::<H, A, C>(cs.drop_last()) + cs.last().ids_drawn()
    }
}

/// Whether `nodes` are the nodes that `cs` become, one by one, with
/// identities drawn in order starting at `first`.
pub open spec fn makes_all<H, A, C: IntoElement<H, A>>(cs: Seq<C>, first: u64, nodes: Seq<ElementNode<H, A>>) -> bool
    decreases cs.len(),
{
    &&& cs.len() == nodes.len()
    &&& cs.len() > 0 ==> {
        &&& makes_all(cs.drop_last(), first, nodes.drop_last())
        &&& cs.last().makes(advanced(first, drawn_total::<H, A, C>(cs.drop_last())), nodes.last())
    }
}

/// Drawing `a` identities and then `b` is drawing `a + b`.
pub proof fn lemma_advanced_add(start: u64, a: nat, b: nat)
    ensures
        advanced(advanced(start, a), b) == advanced(start, a + b),
{
    let m: int = 0x1_0000_0000_0000_0000;
    vstd::arithmetic::div_mod::lemma_add_mod_noop_right(b as int, start + a, m);
}

impl<H, A> ParentElement<H, A> for ElementNode<H, A> {
    open spec fn appended(&self, child: ElementNode<H, A>, result: Self) -> bool {
        pushed(*self, result, child)
    }

    open spec fn appended_all(&self, nodes: Seq<ElementNode<H, A>>, result: Self) -> bool {
        match self.kind {
            ElementKind::Div { children } => {
                &&& result.id == self.id
                &&& result.style == self.style
                &&& result.handlers == self.handlers
                &&& result.kind matches ElementKind::Div { children: c } && c@ == children@ + nodes
            },
            _ => result == *self,
        }
    }

    proof fn lemma_appended_none(&self) {
        if let ElementKind::Div { children } = self.kind {
            assert(children@ + Seq::<ElementNode<H, A>>::empty() =~= children@);
        }
    }

    proof fn lemma_appended_one_more(
        &self,
        nodes: Seq<ElementNode<H, A>>,
        mid: Self,
        child: ElementNode<H, A>,
        result: Self,
    ) {
        if let ElementKind::Div { children } = self.kind {
            assert(children@ + nodes.push(child) =~= (children@ + nodes).push(child));
        }
    }

    fn push_child(&mut self, child: ElementNode<H, A>) {
        if let Some(children) = self.children_mut() {
            children.push(child);
        }
    }
}

/// A div container under construction.
#[derive(Debug)]
pub struct Div<H, A> {
    node: ElementNode<H, A>,
}

impl<H, A> Div<H, A> {
    /// The node being built.
    pub closed spec fn node_view(&self) -> ElementNode<H, A> {
        self.node
    }

    /// An empty div with a fresh identity.
    pub fn new(ids: &mut ElementIds) -> (d: Self)
        ensures
            is_fresh(d.node_view(), old(ids).next_value()),
            d.node_view().kind matches ElementKind::Div { children } && children@.len() == 0,
            final(ids).next_value() == advanced(old(ids).next_value(), 1),
    {
        Div { node: ElementNode::div(ids) }
    }

    pub fn into_node(self) -> (node: ElementNode<H, A>)
        ensures
            node == self.node_view(),
    {
        self.node
    }

    pub fn style(&self) -> (s: &StyleRefinement)
        ensures
            *s == self.node_view().style,
    {
        self.node.style()
    }
}

impl<H, A> Styled for Div<H, A> {
    closed spec fn style_view(&self) -> StyleRefinement {
        self.node.style
    }

    closed spec fn with_style(&self, style: StyleRefinement) -> Self {
        Div { node: ElementNode { style, ..self.node } }
    }

    proof fn lemma_with_style(&self, style: StyleRefinement) {
    }

    fn style_mut(&mut self) -> (s: &mut StyleRefinement) {
        self.node.style_mut()
    }
}

impl<H, A> Div<H, A> {
    /// The refinement of a div is the refinement of its node; replacing it
    /// replaces the node's.
    pub proof fn lemma_style_view(&self, style: StyleRefinement)
        ensures
            self.style_view() == self.node_view().style,
            self.with_style(style).node_view() == (ElementNode { style, ..self.node_view() }),
    {
    }
}

impl<H, A> IntoElement<H, A> for Div<H, A> {
    open spec fn makes(&self, first: u64, node: ElementNode<H, A>) -> bool {
        node == self.node_view()
    }

    open spec fn ids_drawn(&self) -> nat {
        0
    }

    fn into_element(self, ids: &mut ElementIds) -> (node: ElementNode<H, A>) {
        self.node
    }
}

impl<H, A> ParentElement<H, A> for Div<H, A> {
    open spec fn appended(&self, child: ElementNode<H, A>, result: Self) -> bool {
        pushed(self.node_view(), result.node_view(), child)
    }

    open spec fn appended_all(&self, nodes: Seq<ElementNode<H, A>>, result: Self) -> bool {
        self.node_view().appended_all(nodes, result.node_view())
    }

    proof fn lemma_appended_none(&self) {
        self.node.lemma_appended_none();
    }

    proof fn lemma_appended_one_more(
        &self,
        nodes: Seq<ElementNode<H, A>>,
        mid: Self,
        child: ElementNode<H, A>,
        result: Self,
    ) {
        self.node.lemma_appended_one_more(nodes, mid.node, child, result.node);
    }

    fn push_child(&mut self, child: ElementNode<H, A>) {
        self.node.push_child(child);
    }
}

/// Authoring entry point for div containers.
pub fn div<H, A>(ids: &mut ElementIds) -> (d: Div<H, A>)
    ensures
        is_fresh(d.node_view(), old(ids).next_value()),
        d.node_view().kind matches ElementKind::Div { children } && children@.len() == 0,
        final(ids).next_value() == advanced(old(ids).next_value(), 1),
{
    Div::new(ids)
}

/// A text element under construction.
#[derive(Debug)]
pub struct TextElement<H, A> {
    node: ElementNode<H, A>,
}

impl<H, A> TextElement<H, A> {
    /// The node being built.
    pub closed spec fn node_view(&self) -> ElementNode<H, A> {
        self.node
    }

    /// A text element with a fresh identity.
    pub fn new(ids: &mut ElementIds, content: String) -> (t: Self)
        ensures
            is_fresh(t.node_view(), old(ids).next_value()),
            t.node_view().kind matches ElementKind::Text { content: c } && c@ == content@,
            final(ids).next_value() == advanced(old(ids).next_value(), 1),
    {
        TextElement { node: ElementNode::text(ids, content) }
    }

    pub fn into_node(self) -> (node: ElementNode<H, A>)
        ensures
            node == self.node_view(),
    {
        self.node
    }
}

impl<H, A> Styled for TextElement<H, A> {
    closed spec fn style_view(&self) -> StyleRefinement {
        self.node.style
    }

    closed spec fn with_style(&self, style: StyleRefinement) -> Self {
        TextElement { node: ElementNode { style, ..self.node } }
    }

    proof fn lemma_with_style(&self, style: StyleRefinement) {
    }

    fn style_mut(&mut self) -> (s: &mut StyleRefinement) {
        self.node.style_mut()
    }
}

impl<H, A> TextElement<H, A> {
    /// The refinement of the element is the refinement of its node; replacing
    /// it replaces the node's.
    pub proof fn lemma_style_view(&self, style: StyleRefinement)
        ensures
            self.style_view() == self.node_view().style,
            self.with_style(style).node_view() == (ElementNode { style, ..self.node_view() }),
    {
    }
}

impl<H, A> IntoElement<H, A> for TextElement<H, A> {
    open spec fn makes(&self, first: u64, node: ElementNode<H, A>) -> bool {
        node == self.node_view()
    }

    open spec fn ids_drawn(&self) -> nat {
        0
    }

    fn into_element(self, ids: &mut ElementIds) -> (node: ElementNode<H, A>) {
        self.node
    }
}

/// Authoring entry point for text.
pub fn text<H, A>(ids: &mut ElementIds, content: String) -> (t: TextElement<H, A>)
    ensures
        is_fresh(t.node_view(), old(ids).next_value()),
        t.node_view().kind matches ElementKind::Text { content: c } && c@ == content@,
        final(ids).next_value() == advanced(old(ids).next_value(), 1),
{
    TextElement::new(ids, content)
}

/// A button element under construction.
#[derive(Debug)]
pub struct ButtonElement<H, A> {
    node: ElementNode<H, A>,
}

impl<H, A> ButtonElement<H, A> {
    /// The node being built.
    pub closed spec fn node_view(&self) -> ElementNode<H, A> {
        self.node
    }

    /// A button with a fresh identity.
    pub fn new(ids: &mut ElementIds, label: String) -> (b: Self)
        ensures
            is_fresh(b.node_view(), old(ids).next_value()),
            b.node_view().kind matches ElementKind::Button { label: l } && l@ == label@,
            final(ids).next_value() == advanced(old(ids).next_value(), 1),
    {
        ButtonElement { node: ElementNode::button(ids, label) }
    }

    /// The button with `handler` as its click handler.
    pub fn on_click(self, handler: H) -> (b: Self)
        ensures
            b.node_view().handlers.on_click == Some(handler),
            b.node_view().id == self.node_view().id,
            b.node_view().style == self.node_view().style,
            b.node_view().kind == self.node_view().kind,
    {
        ButtonElement { node: self.node.on_click(handler) }
    }

    pub fn into_node(self) -> (node: ElementNode<H, A>)
        ensures
            node == self.node_view(),
    {
        self.node
    }
}

impl<H, A> Styled for ButtonElement<H, A> {
    closed spec fn style_view(&self) -> StyleRefinement {
        self.node.style
    }

    closed spec fn with_style(&self, style: StyleRefinement) -> Self {
        ButtonElement { node: ElementNode { style, ..self.node } }
    }

    proof fn lemma_with_style(&self, style: StyleRefinement) {
    }

    fn style_mut(&mut self) -> (s: &mut StyleRefinement) {
        self.node.style_mut()
    }
}

impl<H, A> ButtonElement<H, A> {
    /// The refinement of the element is the refinement of its node; replacing
    /// it replaces the node's.
    pub proof fn lemma_style_view(&self, style: StyleRefinement)
        ensures
            self.style_view() == self.node_view().style,
            self.with_style(style).node_view() == (ElementNode { style, ..self.node_view() }),
    {
    }
}

impl<H, A> IntoElement<H, A> for ButtonElement<H, A> {
    open spec fn makes(&self, first: u64, node: ElementNode<H, A>) -> bool {
        node == self.node_view()
    }

    open spec fn ids_drawn(&self) -> nat {
        0
    }

    fn into_element(self, ids: &mut ElementIds) -> (node: ElementNode<H, A>) {
        self.node
    }
}

/// Authoring entry point for buttons.
pub fn button<H, A>(ids: &mut ElementIds, label: String) -> (b: ButtonElement<H, A>)
    ensures
        is_fresh(b.node_view(), old(ids).next_value()),
        b.node_view().kind matches ElementKind::Button { label: l } && l@ == label@,
        final(ids).next_value() == advanced(old(ids).next_value(), 1),
{
    ButtonElement::new(ids, label)
}

} // verus!
