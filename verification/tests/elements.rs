use sparsha::render::{ElementRenderContext, Render};
use sparsha::color::Color;
use sparsha::element::{button, div, text, ElementKind, ElementNode, IntoElement, ParentElement};
use sparsha::element_id::{ElementId, ElementIds};
use sparsha::pixels::{px, Pixels};
use sparsha::style::{FlexDirection, FontWeight, OverflowAxis, StyleRefinement, TextAlign};
use sparsha::styled::Styled;
use sparsha::taffy_map::{style_from_refinement, Dimension, Edges, Overflow};
use sparsha::tailwind_map::{
    class_string_from_refinement, classes_from_refinement, color_class_slots,
    color_to_tailwind_arbitrary, font_weight_class, text_align_class,
};

type Node = ElementNode<u32, ()>;

fn color_of_hex(hex: u32) -> Color {
    let channel = |shift: u32| (((hex >> shift) & 0xff) as f32 / 255.0).to_bits();
    Color::from_bits(channel(16), channel(8), channel(0), 1.0f32.to_bits())
}

fn quantize(c: Color) -> [u8; 4] {
    let q = |bits: u32| (f32::from_bits(bits).clamp(0.0, 1.0) * 255.0).round() as u8;
    [q(c.r), q(c.g), q(c.b), q(c.a)]
}

fn color_classes(r: &StyleRefinement) -> Vec<String> {
    color_class_slots(r)
        .into_iter()
        .map(|(prefix, color)| color_to_tailwind_arbitrary(quantize(color), prefix))
        .collect()
}

fn class_string(r: &StyleRefinement) -> String {
    class_string_from_refinement(r, &color_classes(r))
}

#[test]
fn flex_column_gap_maps_to_taffy() {
    let mut ids = ElementIds::new();
    let d = div::<u32, ()>(&mut ids).flex().flex_col().gap_3().p_4();
    let style = style_from_refinement(d.style());
    assert!(style.display_flex);
    assert_eq!(style.flex_direction, Some(FlexDirection::Column));
    assert_eq!(style.gap, Some(px(12.0f32.to_bits())));
    assert_eq!(style.padding.unwrap().left, px(16.0f32.to_bits()));
}

#[test]
fn size_full_maps_to_percent() {
    let mut ids = ElementIds::new();
    let d = div::<u32, ()>(&mut ids).size_full();
    let style = style_from_refinement(d.style());
    assert_eq!(style.width, Dimension::Full);
    assert_eq!(style.height, Dimension::Full);
}

#[test]
fn overflow_scroll_maps_to_taffy_scroll() {
    let mut ids = ElementIds::new();
    let d = div::<u32, ()>(&mut ids).overflow_scroll();
    let style = style_from_refinement(d.style());
    assert_eq!(style.overflow_x, Overflow::Scroll);
    assert_eq!(style.overflow_y, Overflow::Scroll);
}

#[test]
fn layout_style_defaults_and_padding_axes() {
    let mut ids = ElementIds::new();
    let d = div::<u32, ()>(&mut ids).px_4().py_2();
    let style = style_from_refinement(d.style());
    assert!(!style.display_flex);
    assert_eq!(style.width, Dimension::Auto);
    assert_eq!(style.overflow_x, Overflow::Visible);
    assert_eq!(
        style.padding,
        Some(Edges {
            left: px(16.0f32.to_bits()),
            right: px(16.0f32.to_bits()),
            top: px(8.0f32.to_bits()),
            bottom: px(8.0f32.to_bits()),
        })
    );
}

#[test]
fn hello_world_utilities_map_to_tailwind() {
    let mut ids = ElementIds::new();
    let d = div::<u32, ()>(&mut ids)
        .flex()
        .flex_col()
        .gap_3()
        .p_4()
        .bg(color_of_hex(0x111827));
    let classes = class_string(d.style());
    assert!(classes.contains("flex"));
    assert!(classes.contains("flex-col"));
    assert!(classes.contains("gap-3"));
    assert!(classes.contains("p-4"));
    assert!(classes.contains("bg-[#111827]"));
}

#[test]
fn scrollable_maps_overflow_class() {
    let mut ids = ElementIds::new();
    let d = div::<u32, ()>(&mut ids).overflow_scroll();
    let classes = class_string(d.style());
    assert!(classes.contains("overflow-auto"));
}

#[test]
fn tailwind_class_string_for_nested_div() {
    let mut ids = ElementIds::new();
    let inner = div::<u32, ()>(&mut ids).text_xl();
    let inner = inner.child("Hello GPUI-style Sparsha", &mut ids);
    let tree = div::<u32, ()>(&mut ids)
        .flex()
        .flex_col()
        .gap_3()
        .p_4()
        .bg(color_of_hex(0x111827))
        .child(inner, &mut ids)
        .into_element(&mut ids);
    let classes = class_string(tree.style());
    assert!(classes.contains("flex"));
    assert!(classes.contains("gap-3"));
}

#[test]
fn button_node_maps_button_tag() {
    let mut ids = ElementIds::new();
    let node: Node = button(&mut ids, String::from("Increment")).into_element(&mut ids);
    assert!(matches!(node.kind, ElementKind::Button { .. }));
}

#[test]
fn arbitrary_color_classes_round_alpha_like_two_decimal_formatting() {
    for a in 0..255u16 {
        let class = color_to_tailwind_arbitrary([1, 2, 3, a as u8], "text");
        let expected = format!("text-[1 2 3 / {:.2}]", a as f32 / 255.0);
        assert_eq!(class, expected, "alpha {a}");
    }
    assert_eq!(
        color_to_tailwind_arbitrary([0xab, 0x0c, 0xff, 255], "border"),
        "border-[#ab0cff]"
    );
}

#[test]
fn font_weight_and_alignment_classes() {
    assert_eq!(font_weight_class(FontWeight::Normal), "font-normal");
    assert_eq!(font_weight_class(FontWeight::Medium), "font-medium");
    assert_eq!(font_weight_class(FontWeight::Semibold), "font-semibold");
    assert_eq!(font_weight_class(FontWeight::Bold), "font-bold");
    assert_eq!(text_align_class(TextAlign::Left), "text-left");
    assert_eq!(text_align_class(TextAlign::Center), "text-center");
    assert_eq!(text_align_class(TextAlign::Right), "text-right");
}

#[test]
fn hover_classes_follow_color_classes() {
    let mut ids = ElementIds::new();
    let d = div::<u32, ()>(&mut ids)
        .flex()
        .text_color(color_of_hex(0xffffff))
        .hover(|mut s| {
            s.font_weight = Some(FontWeight::Bold);
            s
        });
    let classes = class_string(d.style());
    assert_eq!(classes, "flex text-foreground text-[#ffffff] hover:font-bold");
    assert_eq!(classes_from_refinement(&StyleRefinement::default()).len(), 0);
}

#[test]
fn ids_are_drawn_in_order_and_distinct() {
    let mut ids = ElementIds::new();
    let a = ElementId::new(&mut ids);
    let b = ElementId::new(&mut ids);
    let c = ElementId::new(&mut ids);
    assert_eq!((a.as_u64(), b.as_u64(), c.as_u64()), (1, 2, 3));
    let mut edge = ElementIds::starting_at(u64::MAX);
    assert_eq!(ElementId::new(&mut edge).as_u64(), u64::MAX);
    assert_eq!(edge.peek(), 0);
    assert_eq!(ElementId::from_u64(9).as_u64(), 9);
}

#[test]
fn children_keep_their_order_and_identities() {
    let mut ids = ElementIds::new();
    let tree = div::<u32, ()>(&mut ids)
        .children(vec!["a", "b", "c"], &mut ids)
        .into_node();
    assert_eq!(tree.id, ElementId(1));
    match &tree.kind {
        ElementKind::Div { children } => {
            let texts: Vec<(&str, u64)> = children
                .iter()
                .map(|c| match &c.kind {
                    ElementKind::Text { content } => (content.as_str(), c.id.as_u64()),
                    _ => panic!("text expected"),
                })
                .collect();
            assert_eq!(texts, vec![("a", 2), ("b", 3), ("c", 4)]);
        }
        _ => panic!("div expected"),
    }
}

#[test]
fn merging_refinements_prefers_the_newer_values() {
    let mut ids = ElementIds::new();
    let base = div::<u32, ()>(&mut ids).gap_2().p_2().into_node().style.clone();
    let over = div::<u32, ()>(&mut ids).gap_4().font_bold().into_node().style.clone();
    let mut merged = base.clone();
    merged.merge_from(&over);
    assert_eq!(merged.gap, Some(px(16.0f32.to_bits())));
    assert_eq!(merged.padding, Some(px(8.0f32.to_bits())));
    assert_eq!(merged.font_weight, Some(FontWeight::Bold));
    let mut unchanged = base.clone();
    unchanged.merge_from(&StyleRefinement::default());
    assert_eq!(unchanged.gap, base.gap);
    assert_eq!(unchanged.padding, base.padding);
}

#[test]
fn scroll_containers_and_handlers() {
    let mut ids = ElementIds::new();
    let node: Node = text(&mut ids, String::from("x")).into_element(&mut ids);
    assert!(!node.is_scroll_container());
    let scrolled: Node = div::<u32, ()>(&mut ids).overflow_y_scroll().into_node();
    assert!(scrolled.is_scroll_container());
    assert_eq!(scrolled.style.overflow_y, Some(OverflowAxis::Scroll));
    let clicked: Node = button(&mut ids, String::from("b")).on_click(7).into_node();
    assert_eq!(clicked.handlers.on_click, Some(7));
}

#[test]
fn pixels_whole_part_truncates_like_a_cast() {
    for v in [0.0f32, 0.5, 1.0, 1.9999, 12.0, -3.7, 1e10, -1e10, f32::NAN, f32::INFINITY] {
        assert_eq!(Pixels(v.to_bits()).whole(), v as i32, "value {v}");
    }
    assert!(px(1.0f32.to_bits()).is_one());
    assert!(!px(1.5f32.to_bits()).is_one());
}

#[test]
fn tailwind_classes_and_layout_read_the_same_facts() {
    let mut ids = ElementIds::new();
    let cases: Vec<StyleRefinement> = vec![
        div::<u32, ()>(&mut ids).flex().w_full().overflow_scroll().into_node().style.clone(),
        div::<u32, ()>(&mut ids).h_full().p_2().into_node().style.clone(),
        div::<u32, ()>(&mut ids).size_full().font_semibold().border_1().into_node().style.clone(),
        StyleRefinement::default(),
    ];
    for r in &cases {
        let classes = classes_from_refinement(r);
        let layout = style_from_refinement(r);
        assert_eq!(classes.contains(&"flex"), layout.display_flex);
        assert_eq!(classes.contains(&"w-full"), layout.width == Dimension::Full);
        assert_eq!(classes.contains(&"h-full"), layout.height == Dimension::Full);
        assert_eq!(
            classes.contains(&"overflow-auto"),
            layout.overflow_x == Overflow::Scroll || layout.overflow_y == Overflow::Scroll
        );
    }
}

#[test]
fn merging_is_associative_and_idempotent() {
    let mut ids = ElementIds::new();
    let a = div::<u32, ()>(&mut ids).gap_2().flex_row().into_node().style.clone();
    let b = div::<u32, ()>(&mut ids).gap_4().text_sm().into_node().style.clone();
    let c = div::<u32, ()>(&mut ids).flex_col().bg(color_of_hex(0x123456)).into_node().style.clone();
    let mut left = a.clone();
    left.merge_from(&b);
    left.merge_from(&c);
    let mut bc = b.clone();
    bc.merge_from(&c);
    let mut right = a.clone();
    right.merge_from(&bc);
    assert_eq!(format!("{left:?}"), format!("{right:?}"));
    let mut twice = a.clone();
    twice.merge_from(&a);
    assert_eq!(format!("{twice:?}"), format!("{a:?}"));
}

struct Ctx;

impl ElementRenderContext for Ctx {
    fn theme_background(&self) -> Color {
        Color::from_bits(0, 0, 0, 1.0f32.to_bits())
    }
    fn theme_text(&self) -> Color {
        Color::from_bits(1.0f32.to_bits(), 1.0f32.to_bits(), 1.0f32.to_bits(), 1.0f32.to_bits())
    }
    fn theme_muted_text(&self) -> Color {
        Color::transparent()
    }
    fn theme_brand(&self) -> Color {
        Color::transparent()
    }
    fn theme_surface(&self) -> Color {
        Color::transparent()
    }
    fn theme_border(&self) -> Color {
        Color::transparent()
    }
}

struct Greeting;

impl Render<u32, ()> for Greeting {
    fn render<C: ElementRenderContext>(&mut self, cx: &mut C, ids: &mut ElementIds) -> Node {
        div::<u32, ()>(ids).text_color(cx.theme_text()).child("hi", ids).into_node()
    }
}

#[test]
fn components_render_through_the_context() {
    let mut ids = ElementIds::new();
    let node = Greeting.render(&mut Ctx, &mut ids);
    assert_eq!(node.style.text_color, Some(Ctx.theme_text()));
    assert_eq!(ids.peek(), 3);
}

#[test]
fn ids_from_one_source_increase() {
    let mut ids = ElementIds::new();
    let mut last = 0u64;
    for _ in 0..100 {
        let id = ElementId::new(&mut ids).as_u64();
        assert!(id >= 1 && id > last);
        last = id;
    }
}
