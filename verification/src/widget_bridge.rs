//! The bridge between element trees and retained widgets: prebuilt widgets
//! wrapped as element leaves, and the widget each element becomes.

use vstd::prelude::*;
use crate::color::Color;
use crate::dom_plan::{click_handlers, deref_all, handlers_in_order, plan_all, plan_spec};
use crate::element::{is_fresh, ElementHandlers, ElementKind, ElementNode, IntoElement};
use crate::element_id::{advanced, ElementId, ElementIds};
use crate::pixels::Pixels;
use crate::style::{FlexDirection, FontWeight, OverflowAxis, StyleRefinement, TextAlign};

verus! {

/// An element leaf that carries `payload`, a widget built by a higher layer,
/// under a fresh identity.
pub fn widget_leaf<H, A>(ids: &mut ElementIds, payload: A) -> (node: ElementNode<H, A>)
    ensures
        is_fresh(node, old(ids).next_value()),
        node.kind == ElementKind::<H, A>::Any(payload),
        final(ids).next_value() == advanced(old(ids).next_value(), 1),
{
    ElementNode {
        id: ElementId::new(ids),
        style: StyleRefinement::default(),
        handlers: ElementHandlers::new(),
        kind: ElementKind::Any(payload),
    }
}

/// A built text widget, as an element leaf.
pub struct TextWidgetElement<A>(pub A);

/// A built button widget, as an element leaf.
pub struct ButtonWidgetElement<A>(pub A);

/// A built text-input widget, as an element leaf.
pub struct TextInputWidgetElement<A>(pub A);

impl<H, A> IntoElement<H, A> for TextWidgetElement<A> {
    open spec fn makes(&self, first: u64, node: ElementNode<H, A>) -> bool {
        is_fresh(node, first) && node.kind == ElementKind::<H, A>::Any(self.0)
    }

    open spec fn ids_drawn(&self) -> nat {
        1
    }

    fn into_element(self, ids: &mut ElementIds) -> (node: ElementNode<H, A>) {
        widget_leaf(ids, self.0)
    }
}

impl<H, A> IntoElement<H, A> for ButtonWidgetElement<A> {
    open spec fn makes(&self, first: u64, node: ElementNode<H, A>) -> bool {
        is_fresh(node, first) && node.kind == ElementKind::<H, A>::Any(self.0)
    }

    open spec fn ids_drawn(&self) -> nat {
        1
    }

    fn into_element(self, ids: &mut ElementIds) -> (node: ElementNode<H, A>) {
        widget_leaf(ids, self.0)
    }
}

impl<H, A> IntoElement<H, A> for TextInputWidgetElement<A> {
    open spec fn makes(&self, first: u64, node: ElementNode<H, A>) -> bool {
        is_fresh(node, first) && node.kind == ElementKind::<H, A>::Any(self.0)
    }

    open spec fn ids_drawn(&self) -> nat {
        1
    }

    fn into_element(self, ids: &mut ElementIds) -> (node: ElementNode<H, A>) {
        widget_leaf(ids, self.0)
    }
}

/// A widget wrapped as an element leaf for mixed trees; its identity is drawn
/// when it is wrapped.
pub struct WidgetElement<H, A> {
    pub node: ElementNode<H, A>,
    pub widget: A,
}

impl<H, A> WidgetElement<H, A> {
    /// Wraps `widget` under a fresh identity.
    pub fn new(ids: &mut ElementIds, widget: A) -> (w: Self)
        ensures
            is_fresh(w.node, old(ids).next_value()),
            w.node.kind matches ElementKind::Div { children } && children@.len() == 0,
            w.widget == widget,
            final(ids).next_value() == advanced(old(ids).next_value(), 1),
    {
        WidgetElement { node: ElementNode::div(ids), widget }
    }
}

impl<H, A> IntoElement<H, A> for WidgetElement<H, A> {
    open spec fn makes(&self, first: u64, node: ElementNode<H, A>) -> bool {
        node == ElementNode { kind: ElementKind::<H, A>::Any(self.widget), ..self.node }
    }

    open spec fn ids_drawn(&self) -> nat {
        0
    }

    fn into_element(self, ids: &mut ElementIds) -> (node: ElementNode<H, A>) {
        let mut node = self.node;
        node.kind = ElementKind::Any(self.widget);
        node
    }
}

/// The handlers a pointer release reaches: every click handler of the tree
/// in pre-order, and none for any other event.
pub fn dispatch_element_handlers<'a, H, A>(node: &'a ElementNode<H, A>, pointer_up: bool) -> (r:
    Vec<&'a H>)
    ensures
        deref_all(r@) == (if pointer_up {
            handlers_in_order(*node)
        } else {
            Seq::empty()
        }),
{
    let mut out: Vec<&'a H> = Vec::new();
    if pointer_up {
        assert(deref_all(out@) =~= Seq::<H>::empty());
        click_handlers(node, &mut out);
        assert(deref_all(out@) =~= handlers_in_order(*node));
    } else {
        assert(deref_all(out@) =~= Seq::<H>::empty());
    }
    out
}

/// The background decoration of a container: its color, corner radius and
/// border.
#[derive(Clone, Copy, Debug, PartialEq, Eq, Structural)]
pub struct Decoration {
    pub background: Color,
    pub corner_radius: Pixels,
    pub border_width: Pixels,
    pub border_color: Color,
}

/// How a div becomes a container widget: its main axis, the flex direction
/// set explicitly for flex displays, gap and padding, how it fills its
/// parent, and its decoration. Children start at the main axis start and
/// stretch across it.
#[derive(Clone, Copy, Debug, PartialEq, Eq, Structural)]
pub struct ContainerConfig {
    pub direction: FlexDirection,
    pub flex_direction: Option<FlexDirection>,
    pub gap: Option<Pixels>,
    pub padding: Option<Pixels>,
    pub fill: bool,
    pub fill_width: bool,
    pub fill_height: bool,
    pub decoration: Option<Decoration>,
}

/// How a text leaf becomes a text widget; an absent color or size means the
/// theme's. Text widgets fill their width and clip.
pub struct TextConfig<'a> {
    pub content: &'a str,
    pub color: Option<Color>,
    pub font_size: Option<Pixels>,
    pub bold: bool,
    pub align: TextAlign,
}

/// How a button leaf becomes a primary button; an absent background means
/// the theme's primary color.
pub struct ButtonConfig<'a, H> {
    pub label: &'a str,
    pub background: Option<Color>,
    pub on_click: Option<&'a H>,
}

/// The widget an element becomes.
pub enum WidgetKindPlan<'a, H> {
    Container(ContainerConfig),
    Text(TextConfig<'a>),
    Button(ButtonConfig<'a, H>),
    /// An empty column container, for opaque payloads.
    Placeholder,
}

/// One widget of the plan, in pre-order: the position of its parent
/// container (`None` for the root), whether it is wrapped in a vertical
/// scroll view, and what it is.
pub struct WidgetPlanEntry<'a, H> {
    pub parent: Option<usize>,
    pub scroll: bool,
    pub kind: WidgetKindPlan<'a, H>,
}

/// The content of a [`WidgetKindPlan`].
pub enum WidgetKindModel<H> {
    Container(ContainerConfig),
    Text { content: Seq<char>, color: Option<Color>, font_size: Option<Pixels>, bold: bool, align: TextAlign },
    Button { label: Seq<char>, background: Option<Color>, on_click: Option<H> },
    Placeholder,
}

/// The content of a [`WidgetPlanEntry`].
pub struct WidgetEntryModel<H> {
    pub parent: Option<usize>,
    pub scroll: bool,
    pub kind: WidgetKindModel<H>,
}

impl<'a, H> View for WidgetPlanEntry<'a, H> {
    type V = WidgetEntryModel<H>;

    open spec fn view(&self) -> WidgetEntryModel<H> {
        WidgetEntryModel {
            parent: self.parent,
            scroll: self.scroll,
            kind: match self.kind {
                WidgetKindPlan::Container(c) => WidgetKindModel::Container(c),
                WidgetKindPlan::Text(t) => WidgetKindModel::Text {
                    content: t.content@,
                    color: t.color,
                    font_size: t.font_size,
                    bold: t.bold,
                    align: t.align,
                },
                WidgetKindPlan::Button(b) => WidgetKindModel::Button {
                    label: b.label@,
                    background: b.background,
                    on_click: match b.on_click {
                        Some(h) => Some(*h),
                        None => None,
                    },
                },
                WidgetKindPlan::Placeholder => WidgetKindModel::Placeholder,
            },
        }
    }
}

/// The container a div with refinement `r` becomes.
pub open spec fn container_spec(r: StyleRefinement) -> ContainerConfig {
    let direction = match r.flex_direction {
        Some(d) => d,
        None => FlexDirection::Row,
    };
    ContainerConfig {
        direction,
        flex_direction: if r.display_flex {
            Some(direction)
        } else {
            None
        },
        gap: r.gap,
        padding: r.padding,
        fill: r.size_full,
        fill_width: !r.size_full && r.fill_width,
        fill_height: !r.size_full && r.fill_height,
        decoration: match r.background {
            Some(background) => Some(
                Decoration {
                    background,
                    corner_radius: match r.border_radius {
                        Some(p) => p,
                        None => Pixels(0),
                    },
                    border_width: match r.border_width {
                        Some(p) => p,
                        None => Pixels(0),
                    },
                    border_color: match r.border_color {
                        Some(c) => c,
                        None => Color { r: 0, g: 0, b: 0, a: 0 },
                    },
                },
            ),
            None => None,
        },
    }
}

/// The alignment of a text widget: centered or right-aligned when asked,
/// left otherwise.
pub open spec fn text_align_spec(r: StyleRefinement) -> TextAlign {
    match r.text_align {
        Some(TextAlign::Center) => TextAlign::Center,
        Some(TextAlign::Right) => TextAlign::Right,
        _ => TextAlign::Left,
    }
}

/// The widget a node becomes, apart from its children.
pub open spec fn widget_kind_spec<H, A>(node: ElementNode<H, A>) -> WidgetKindModel<H> {
    match node.kind {
        ElementKind::Div { .. } => WidgetKindModel::Container(container_spec(node.style)),
        ElementKind::Text { content } => WidgetKindModel::Text {
            content: content@,
            color: node.style.text_color,
            font_size: node.style.font_size,
            bold: node.style.font_weight == Some(FontWeight::Bold),
            align: text_align_spec(node.style),
        },
        ElementKind::Button { label } => WidgetKindModel::Button {
            label: label@,
            background: node.style.background,
            on_click: node.handlers.on_click,
        },
        ElementKind::Any(_) => WidgetKindModel::Placeholder,
    }
}

/// Whether a node scrolls on either axis.
pub open spec fn scrolls<H, A>(node: ElementNode<H, A>) -> bool {
    node.style.overflow_x == Some(OverflowAxis::Scroll) || node.style.overflow_y == Some(
        OverflowAxis::Scroll,
    )
}

/// The widgets of a subtree whose root sits at position `at` under the
/// container at `parent`: the root, then each child's subtree in order.
pub open spec fn widget_plan_spec<H, A>(node: ElementNode<H, A>, parent: Option<usize>, at: nat) -> Seq<
    WidgetEntryModel<H>,
>
    decreases node,
{
    seq![WidgetEntryModel { parent, scroll: scrolls(node), kind: widget_kind_spec(node) }]
        + match node.kind {
        ElementKind::Div { children } => widget_plan_all(children@, at, at + 1),
        _ => Seq::empty(),
    }
}

/// The widgets of sibling subtrees under the container at `parent`, the
/// first starting at position `at`.
pub open spec fn widget_plan_all<H, A>(nodes: Seq<ElementNode<H, A>>, parent: nat, at: nat) -> Seq<
    WidgetEntryModel<H>,
>
    decreases nodes,
{
    if nodes.len() == 0 {
        Seq::empty()
    } else {
        let front = widget_plan_all(nodes.subrange(0, nodes.len() - 1), parent, at);
        front + widget_plan_spec(nodes.last(), Some(parent as usize), at + front.len())
    }
}

/// The views of plan entries.
pub open spec fn widget_views<H>(entries: Seq<WidgetPlanEntry<H>>) -> Seq<WidgetEntryModel<H>> {
    entries.map_values(|e: WidgetPlanEntry<H>| e@)
}

fn div_to_container(r: &StyleRefinement) -> (c: ContainerConfig)
    ensures
        c == container_spec(*r),
{
    let direction = match r.flex_direction {
        Some(d) => d,
        None => FlexDirection::Row,
    };
    let decoration = match r.background {
        Some(background) => Some(
            Decoration {
                background,
                corner_radius: match r.border_radius {
                    Some(p) => p,
                    None => Pixels(0),
                },
                border_width: match r.border_width {
                    Some(p) => p,
                    None => Pixels(0),
                },
                border_color: match r.border_color {
                    Some(c) => c,
                    None => Color::transparent(),
                },
            },
        ),
        None => None,
    };
    ContainerConfig {
        direction,
        flex_direction: if r.display_flex {
            Some(direction)
        } else {
            None
        },
        gap: r.gap,
        padding: r.padding,
        fill: r.size_full,
        fill_width: !r.size_full && r.fill_width,
        fill_height: !r.size_full && r.fill_height,
        decoration,
    }
}

fn text_to_widget<'a>(r: &StyleRefinement, content: &'a str) -> (t: TextConfig<'a>)
    ensures
        t.content == content,
        t.color == r.text_color,
        t.font_size == r.font_size,
        t.bold == (r.font_weight == Some(FontWeight::Bold)),
        t.align == text_align_spec(*r),
{
    TextConfig {
        content,
        color: r.text_color,
        font_size: r.font_size,
        bold: match r.font_weight {
            Some(FontWeight::Bold) => true,
            _ => false,
        },
        align: match r.text_align {
            Some(TextAlign::Center) => TextAlign::Center,
            Some(TextAlign::Right) => TextAlign::Right,
            _ => TextAlign::Left,
        },
    }
}

fn element_to_widget_inner<'a, H, A>(node: &'a ElementNode<H, A>) -> (k: WidgetKindPlan<'a, H>)
    ensures
        (WidgetPlanEntry { parent: None, scroll: false, kind: k })@.kind == widget_kind_spec(*node),
{
    match &node.kind {
        ElementKind::Div { .. } => WidgetKindPlan::Container(div_to_container(&node.style)),
        ElementKind::Text { content } => WidgetKindPlan::Text(
            text_to_widget(&node.style, content.as_str()),
        ),
        ElementKind::Button { label } => WidgetKindPlan::Button(
            ButtonConfig {
                label: label.as_str(),
                background: node.style.background,
                on_click: match &node.handlers.on_click {
                    Some(h) => Some(h),
                    None => None,
                },
            },
        ),
        ElementKind::Any(_) => WidgetKindPlan::Placeholder,
    }
}

/// Appends the widgets of the subtree at `node`, whose parent container sits
/// at `parent`.
pub fn element_to_widget<'a, H, A>(
    node: &'a ElementNode<H, A>,
    parent: Option<usize>,
    out: &mut Vec<WidgetPlanEntry<'a, H>>,
)
    requires
        parent matches Some(p) ==> p < old(out)@.len(),
    ensures
        widget_views(final(out)@) == widget_views(old(out)@) + widget_plan_spec(
            *node,
            parent,
            old(out)@.len(),
        ),
    decreases node,
{
    let at = out.len();
    let kind = element_to_widget_inner(node);
    out.push(WidgetPlanEntry { parent, scroll: node.is_scroll_container(), kind });
    let ghost base = widget_views(old(out)@) + seq![
        WidgetEntryModel { parent, scroll: scrolls(*node), kind: widget_kind_spec(*node) },
    ];
    assert(widget_views(out@) =~= base);
    match &node.kind {
        ElementKind::Div { children } => {
            let mut i: usize = 0;
            while i < children.len()
                invariant
                    0 <= i <= children@.len(),
                    node.kind == (ElementKind::Div { children: *children }),
                    at < out@.len(),
                    at == old(out)@.len(),
                    base.len() == at + 1,
                    widget_views(out@) == base + widget_plan_all(
                        children@.subrange(0, i as int),
                        at as nat,
                        at as nat + 1,
                    ),
                decreases children@.len() - i,
            {
                let ghost before = widget_views(out@);
                let ghost front = widget_plan_all(
                    children@.subrange(0, i as int),
                    at as nat,
                    at as nat + 1,
                );
                proof {
                    assert(decreases_to!(*node => node.kind));
                    assert(decreases_to!(node.kind => node.kind->children));
                    assert(decreases_to!(*children => children@));
                    assert(decreases_to!(children@ => children@[i as int]));
                }
                element_to_widget(&children[i], Some(at), out);
                proof {
                    let pre = children@.subrange(0, i + 1);
                    assert(pre.len() == i + 1);
                    assert(pre.subrange(0, pre.len() - 1) =~= children@.subrange(0, i as int));
                    assert(pre.last() == children@[i as int]);
                    assert(before.len() == at + 1 + front.len());
                    assert(widget_views(out@) =~= base + widget_plan_all(
                        pre,
                        at as nat,
                        at as nat + 1,
                    ));
                }
                i = i + 1;
            }
            assert(children@.subrange(0, children@.len() as int) =~= children@);
        },
        _ => {
            assert(widget_views(out@) =~= base + Seq::<WidgetEntryModel<H>>::empty());
        },
    }
}

/// The element tree the structural DOM renderer draws.
pub struct ElementDomSnapshot<H, A> {
    pub root: ElementNode<H, A>,
}

/// The structural DOM renderer and the widget bridge see the same tree: for
/// every element tree, the DOM plan and the widget plan have one entry per
/// element, in the same order, each under the same parent position.
pub proof fn lemma_dom_and_widget_plans_agree<H, A>(node: ElementNode<H, A>, parent: Option<usize>, at: nat)
    ensures
        plan_spec(node, parent, at).len() == widget_plan_spec(node, parent, at).len(),
        forall|k: int|
            0 <= k < plan_spec(node, parent, at).len() ==> #[trigger] plan_spec(node, parent, at)[k].parent
                == widget_plan_spec(node, parent, at)[k].parent,
    decreases node,
{
    match node.kind {
        ElementKind::Div { children } => {
            assert(decreases_to!(node => node.kind));
            assert(decreases_to!(node.kind => node.kind->children));
            assert(decreases_to!(children => children@));
            lemma_plans_agree_all(children@, at, at + 1);
            let p = plan_spec(node, parent, at);
            let w = widget_plan_spec(node, parent, at);
            let pc = plan_all(children@, at, at + 1);
            let wc = widget_plan_all(children@, at, at + 1);
            assert forall|k: int| 0 <= k < p.len() implies #[trigger] p[k].parent == w[k].parent by {
                if k > 0 {
                    assert(p[k] == pc[k - 1]);
                    assert(w[k] == wc[k - 1]);
                }
            }
        },
        _ => {
            assert(plan_spec(node, parent, at).len() == 1);
            assert(widget_plan_spec(node, parent, at).len() == 1);
        },
    }
}

proof fn lemma_plans_agree_all<H, A>(nodes: Seq<ElementNode<H, A>>, parent: nat, at: nat)
    ensures
        plan_all(nodes, parent, at).len() == widget_plan_all(nodes, parent, at).len(),
        forall|k: int|
            0 <= k < plan_all(nodes, parent, at).len() ==> #[trigger] plan_all(nodes, parent, at)[k].parent
                == widget_plan_all(nodes, parent, at)[k].parent,
    decreases nodes,
{
    if nodes.len() > 0 {
        let init = nodes.subrange(0, nodes.len() - 1);
        lemma_plans_agree_all(init, parent, at);
        let pf = plan_all(init, parent, at);
        let wf = widget_plan_all(init, parent, at);
        let last = nodes.last();
        lemma_dom_and_widget_plans_agree(last, Some(parent as usize), at + pf.len());
        let pl = plan_spec(last, Some(parent as usize), at + pf.len());
        let wl = widget_plan_spec(last, Some(parent as usize), at + wf.len());
        let p = plan_all(nodes, parent, at);
        let w = widget_plan_all(nodes, parent, at);
        assert(p == pf + pl);
        assert(w == wf + wl);
        assert forall|k: int| 0 <= k < p.len() implies #[trigger] p[k].parent == w[k].parent by {
            if k < pf.len() {
                assert(p[k] == pf[k]);
                assert(w[k] == wf[k]);
            } else {
                assert(p[k] == pl[k - pf.len()]);
                assert(w[k] == wl[k - wf.len()]);
            }
        }
    }
}

/// A text leaf's widget aligns center or right when its refinement asks for
/// that and left otherwise, is bold exactly when the weight is bold, and
/// keeps its content, color and size; a div's container runs along the
/// refinement's direction (a row when unset), sets that direction explicitly
/// only for flex displays, and is decorated exactly when it has a background.
pub proof fn lemma_widget_kinds<H, A>(node: ElementNode<H, A>)
    ensures
        node.kind matches ElementKind::Text { content } ==> widget_kind_spec(node) == (WidgetKindModel::<H>::Text {
            content: content@,
            color: node.style.text_color,
            font_size: node.style.font_size,
            bold: node.style.font_weight == Some(FontWeight::Bold),
            align: if node.style.text_align == Some(TextAlign::Center) {
                TextAlign::Center
            } else if node.style.text_align == Some(TextAlign::Right) {
                TextAlign::Right
            } else {
                TextAlign::Left
            },
        }),
        (node.kind is Div) ==> (widget_kind_spec(node) matches WidgetKindModel::Container(c) && {
            &&& c.direction == (if node.style.flex_direction == Some(FlexDirection::Column) {
                FlexDirection::Column
            } else {
                FlexDirection::Row
            })
            &&& (c.flex_direction is Some) == node.style.display_flex
            &&& (c.decoration is Some) == (node.style.background is Some)
            &&& c.fill == node.style.size_full
            &&& c.fill_width == (!node.style.size_full && node.style.fill_width)
            &&& c.fill_height == (!node.style.size_full && node.style.fill_height)
        }),
        (node.kind is Any) ==> (widget_kind_spec(node) == WidgetKindModel::<H>::Placeholder),
{
}

} // verus!
