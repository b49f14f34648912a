use sparsha::color::Color;
use sparsha::decimal::{decimal_string, parse_u64};
use sparsha::dom_plan::{
    click_handlers, element_id_from_attribute, find_click_handler, plan_node, pool_after_render,
    pool_slot, tags_match, PoolSlot, PoolUsage,
};
use sparsha::element::{button, div, text, ElementKind, ElementNode, IntoElement, ParentElement};
use sparsha::element_id::{ElementId, ElementIds};
use sparsha::pixels::{px, Pixels};
use sparsha::style::{FlexDirection, TextAlign};
use sparsha::styled::Styled;
use sparsha::widget_bridge::{
    dispatch_element_handlers, element_to_widget, widget_leaf, ButtonWidgetElement,
    ElementDomSnapshot, TextInputWidgetElement, TextWidgetElement, WidgetElement, WidgetKindPlan,
};

type Node = ElementNode<u32, &'static str>;

fn sample_tree(ids: &mut ElementIds) -> Node {
    let inner = div::<u32, &'static str>(ids)
        .flex_col()
        .child(text::<u32, &'static str>(ids, String::from("Hello")).font_bold(), ids)
        .child(button::<u32, &'static str>(ids, String::from("Go")).on_click(20), ids);
    div::<u32, &'static str>(ids)
        .flex()
        .gap_2()
        .child(inner, ids)
        .child(button::<u32, &'static str>(ids, String::from("Stop")).on_click(30), ids)
        .into_node()
}

#[test]
fn dom_plan_lists_elements_in_pre_order() {
    let mut ids = ElementIds::new();
    let tree = sample_tree(&mut ids);
    let mut plan = Vec::new();
    plan_node(&tree, None, &mut plan);
    let summary: Vec<(Option<usize>, &str, &str, bool, Option<&str>, bool)> = plan
        .iter()
        .map(|e| (e.parent, e.tag, e.display, e.clickable, e.text, e.is_button))
        .collect();
    assert_eq!(
        summary,
        vec![
            (None, "div", "flex", false, None, false),
            (Some(0), "div", "flex", false, None, false),
            (Some(1), "span", "block", false, Some("Hello"), false),
            (Some(1), "button", "inline-block", true, Some("Go"), true),
            (Some(0), "button", "inline-block", true, Some("Stop"), true),
        ]
    );
    assert_eq!(plan[0].element_id, tree.id.as_u64());
    assert!(plan[0].style.display_flex);
}

#[test]
fn click_dispatch_finds_the_handler_of_the_element() {
    let mut ids = ElementIds::new();
    let tree = sample_tree(&mut ids);
    let mut plan = Vec::new();
    plan_node(&tree, None, &mut plan);
    assert_eq!(find_click_handler(&tree, ElementId(plan[3].element_id)), Some(&20));
    assert_eq!(find_click_handler(&tree, ElementId(plan[4].element_id)), Some(&30));
    assert_eq!(find_click_handler(&tree, ElementId(plan[2].element_id)), None);
    assert_eq!(find_click_handler(&tree, ElementId(9999)), None);

    let mut all = Vec::new();
    click_handlers(&tree, &mut all);
    assert_eq!(all, vec![&20, &30]);
    assert_eq!(dispatch_element_handlers(&tree, true), vec![&20, &30]);
    assert!(dispatch_element_handlers(&tree, false).is_empty());
}

#[test]
fn element_id_attribute_reads_back() {
    for id in [0u64, 1, 7, 10, 12345, u64::MAX] {
        let text = decimal_string(id);
        assert_eq!(text, id.to_string());
        assert_eq!(element_id_from_attribute(Some(&text)), Some(ElementId(id)));
    }
    assert_eq!(element_id_from_attribute(None), None);
    assert_eq!(element_id_from_attribute(Some("")), None);
    assert_eq!(element_id_from_attribute(Some("12a")), None);
    assert_eq!(element_id_from_attribute(Some("+5")), Some(ElementId(5)));
}

#[test]
fn decimal_parsing_agrees_with_std() {
    for s in [
        "", "+", "-1", "0", "007", "+12", "18446744073709551615", "18446744073709551616",
        "99999999999999999999", " 1", "1 ", "١",
    ] {
        assert_eq!(parse_u64(s), s.parse::<u64>().ok(), "input {s:?}");
    }
}

#[test]
fn pooled_elements_are_reused_by_tag() {
    assert!(tags_match("DIV", "div"));
    assert!(tags_match("Button", "button"));
    assert!(!tags_match("SPAN", "div"));
    assert!(!tags_match("DIVS", "div"));
    assert_eq!(pool_slot(Some("DIV"), "div"), PoolSlot::Reuse);
    assert_eq!(pool_slot(Some("SPAN"), "div"), PoolSlot::Replace);
    assert_eq!(pool_slot(None, "div"), PoolSlot::Create);
}

#[test]
fn widget_plan_mirrors_the_element_tree() {
    let mut ids = ElementIds::new();
    let tree = sample_tree(&mut ids);
    let mut widgets = Vec::new();
    element_to_widget(&tree, None, &mut widgets);
    assert_eq!(widgets.len(), 5);
    let parents: Vec<Option<usize>> = widgets.iter().map(|w| w.parent).collect();
    assert_eq!(parents, vec![None, Some(0), Some(1), Some(1), Some(0)]);
    match &widgets[0].kind {
        WidgetKindPlan::Container(c) => {
            assert_eq!(c.direction, FlexDirection::Row);
            assert_eq!(c.flex_direction, Some(FlexDirection::Row));
            assert_eq!(c.gap, Some(px(8.0f32.to_bits())));
            assert_eq!(c.decoration, None);
        }
        _ => panic!("container expected"),
    }
    match &widgets[1].kind {
        WidgetKindPlan::Container(c) => {
            assert_eq!(c.direction, FlexDirection::Column);
            assert_eq!(c.flex_direction, Some(FlexDirection::Column));
        }
        _ => panic!("container expected"),
    }
    match &widgets[2].kind {
        WidgetKindPlan::Text(t) => {
            assert_eq!(t.content, "Hello");
            assert!(t.bold);
            assert_eq!(t.align, TextAlign::Left);
            assert_eq!(t.color, None);
        }
        _ => panic!("text expected"),
    }
    match &widgets[3].kind {
        WidgetKindPlan::Button(b) => {
            assert_eq!(b.label, "Go");
            assert_eq!(b.on_click, Some(&20));
        }
        _ => panic!("button expected"),
    }
}

#[test]
fn decorated_and_scrolling_containers() {
    let mut ids = ElementIds::new();
    let red = Color::from_bits(1.0f32.to_bits(), 0, 0, 1.0f32.to_bits());
    let tree: Node = div::<u32, &'static str>(&mut ids)
        .bg(red)
        .rounded_md()
        .overflow_y_scroll()
        .size_full()
        .w_full()
        .into_node();
    let mut widgets = Vec::new();
    element_to_widget(&tree, None, &mut widgets);
    assert!(widgets[0].scroll);
    match &widgets[0].kind {
        WidgetKindPlan::Container(c) => {
            let d = c.decoration.expect("decorated");
            assert_eq!(d.background, red);
            assert_eq!(d.corner_radius, px(6.0f32.to_bits()));
            assert_eq!(d.border_width, Pixels(0));
            assert_eq!(d.border_color, Color::transparent());
            assert!(c.fill);
            assert!(!c.fill_width);
        }
        _ => panic!("container expected"),
    }
}

#[test]
fn widget_leaves_wrap_prebuilt_widgets() {
    let mut ids = ElementIds::new();
    let t: Node = TextWidgetElement("text widget").into_element(&mut ids);
    let b: Node = ButtonWidgetElement("button widget").into_element(&mut ids);
    let i: Node = TextInputWidgetElement("input widget").into_element(&mut ids);
    assert_eq!((t.id, b.id, i.id), (ElementId(1), ElementId(2), ElementId(3)));
    assert!(matches!(t.kind, ElementKind::Any("text widget")));
    assert!(matches!(i.kind, ElementKind::Any("input widget")));
    let w = WidgetElement::<u32, &'static str>::new(&mut ids, "custom");
    let node = w.into_element(&mut ids);
    assert_eq!(node.id, ElementId(4));
    assert!(matches!(node.kind, ElementKind::Any("custom")));
    let leaf: Node = widget_leaf(&mut ids, "leaf");
    assert_eq!(leaf.id, ElementId(5));

    let mut widgets = Vec::new();
    element_to_widget(&leaf, None, &mut widgets);
    assert!(matches!(widgets[0].kind, WidgetKindPlan::Placeholder));

    let snapshot = ElementDomSnapshot { root: leaf };
    assert_eq!(snapshot.root.id, ElementId(5));
}

#[test]
fn dom_and_widget_plans_share_their_shape() {
    let mut ids = ElementIds::new();
    let tree = sample_tree(&mut ids);
    let mut dom = Vec::new();
    plan_node(&tree, None, &mut dom);
    let mut widgets = Vec::new();
    element_to_widget(&tree, None, &mut widgets);
    assert_eq!(dom.len(), widgets.len());
    for (d, w) in dom.iter().zip(widgets.iter()) {
        assert_eq!(d.parent, w.parent);
    }
}

#[test]
fn every_clicked_handler_is_also_dispatched_on_release() {
    let mut ids = ElementIds::new();
    let tree = sample_tree(&mut ids);
    let released = dispatch_element_handlers(&tree, true);
    for id in 0..10u64 {
        if let Some(h) = find_click_handler(&tree, ElementId(id)) {
            assert!(released.contains(&h));
        }
    }
}

#[test]
fn pool_grows_to_the_render_and_hides_the_rest() {
    assert_eq!(pool_after_render(2, 5), PoolUsage { active: 5, pool_len: 5 });
    assert_eq!(pool_after_render(7, 3), PoolUsage { active: 3, pool_len: 7 });
    assert_eq!(pool_after_render(0, 0), PoolUsage { active: 0, pool_len: 0 });
}
