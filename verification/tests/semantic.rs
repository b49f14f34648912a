use sparsha::accessibility::{
    AccessibilityAction, AccessibilityNodeSnapshot, AccessibilityRole, AccessibilityTreeSnapshot,
    SemanticBounds,
};
use sparsha::semantic::{create_semantic_element, SemanticElementPlan};
use sparsha::semantic_tree::{find_node, semantic_dom_plan, should_move_focus, SemanticRenderEntry};

fn bounds(x: f32, y: f32, width: f32, height: f32) -> SemanticBounds {
    SemanticBounds {
        x: x.to_bits(),
        y: y.to_bits(),
        width: width.to_bits(),
        height: height.to_bits(),
    }
}

fn semantic_snapshot(role: AccessibilityRole, label: Option<&str>) -> AccessibilityNodeSnapshot {
    AccessibilityNodeSnapshot {
        id: 99,
        path: vec![0],
        role,
        heading_level: None,
        label: label.map(str::to_owned),
        description: None,
        value: None,
        hidden: false,
        disabled: false,
        checked: None,
        actions: Vec::new(),
        bounds: bounds(0.0, 0.0, 120.0, 24.0),
        children: Vec::new(),
    }
}

fn attribute<'a>(plan: &'a SemanticElementPlan, name: &str) -> Option<&'a str> {
    plan.attributes
        .iter()
        .rev()
        .find(|a| a.name == name)
        .map(|a| a.value.as_str())
}

#[test]
fn semantic_label_node_uses_text_native_span() {
    let mut node = semantic_snapshot(AccessibilityRole::Label, Some("Status ready"));
    node.id = 3;
    let plan = create_semantic_element(&node);
    assert_eq!(plan.tag, "span");
    assert_eq!(plan.text_content.as_deref(), Some("Status ready"));
    assert_eq!(attribute(&plan, "aria-label"), Some("Status ready"));
    assert_eq!(attribute(&plan, "data-sparsha-a11y-node"), Some("3"));
}

#[test]
fn semantic_button_node_uses_native_button() {
    let mut node = semantic_snapshot(AccessibilityRole::Button, Some("Submit"));
    node.id = 4;
    node.actions = vec![AccessibilityAction::Focus, AccessibilityAction::Click];
    let plan = create_semantic_element(&node);
    assert_eq!(plan.tag, "button");
    assert_eq!(attribute(&plan, "type"), Some("button"));
    assert_eq!(plan.text_content.as_deref(), Some("Submit"));
    assert_eq!(attribute(&plan, "aria-label"), Some("Submit"));
    assert_eq!(plan.tab_index, None);
}

#[test]
fn semantic_checkbox_node_uses_native_checkbox() {
    let mut node = semantic_snapshot(AccessibilityRole::CheckBox, Some("Enable alerts"));
    node.checked = Some(true);
    node.actions = vec![AccessibilityAction::Focus, AccessibilityAction::Click];
    let plan = create_semantic_element(&node);
    assert_eq!(plan.tag, "input");
    assert_eq!(plan.input_type, Some("checkbox"));
    assert_eq!(plan.checked, Some(true));
    assert_eq!(attribute(&plan, "aria-checked"), None);
    assert_eq!(attribute(&plan, "aria-label"), Some("Enable alerts"));
}

#[test]
fn semantic_text_input_node_preserves_value_and_label() {
    let mut node = semantic_snapshot(AccessibilityRole::TextInput, Some("Email"));
    node.value = Some(String::from("hello@example.com"));
    node.actions = vec![AccessibilityAction::Focus, AccessibilityAction::SetValue];
    let plan = create_semantic_element(&node);
    assert_eq!(plan.input_type, Some("text"));
    assert_eq!(plan.form_value.as_deref(), Some("hello@example.com"));
    assert_eq!(attribute(&plan, "aria-label"), Some("Email"));
    let empty = create_semantic_element(&semantic_snapshot(AccessibilityRole::TextInput, None));
    assert_eq!(empty.form_value.as_deref(), Some(""));
}

#[test]
fn semantic_multiline_text_input_node_uses_native_textarea() {
    let mut node = semantic_snapshot(AccessibilityRole::MultilineTextInput, Some("Notes"));
    node.value = Some(String::from("First line\nSecond line"));
    let plan = create_semantic_element(&node);
    assert_eq!(plan.tag, "textarea");
    assert_eq!(plan.input_type, None);
    assert_eq!(plan.form_value.as_deref(), Some("First line\nSecond line"));
    assert_eq!(attribute(&plan, "aria-label"), Some("Notes"));
}

#[test]
fn semantic_text_roles_use_native_text_elements() {
    let mut heading = semantic_snapshot(AccessibilityRole::Heading, Some("Page title"));
    heading.heading_level = Some(1);
    let plan = create_semantic_element(&heading);
    assert_eq!(plan.tag, "h1");
    assert_eq!(plan.text_content.as_deref(), Some("Page title"));
    heading.heading_level = None;
    assert_eq!(create_semantic_element(&heading).tag, "h2");
    heading.heading_level = Some(0);
    assert_eq!(create_semantic_element(&heading).tag, "h1");
    heading.heading_level = Some(9);
    assert_eq!(create_semantic_element(&heading).tag, "h6");

    let paragraph =
        create_semantic_element(&semantic_snapshot(AccessibilityRole::Paragraph, Some("Body copy")));
    assert_eq!(paragraph.tag, "p");
    assert_eq!(paragraph.text_content.as_deref(), Some("Body copy"));
}

#[test]
fn semantic_structural_roles_use_native_elements() {
    let list = create_semantic_element(&semantic_snapshot(AccessibilityRole::List, Some("Results")));
    assert_eq!(list.tag, "ul");
    assert_eq!(attribute(&list, "role"), Some("list"));
    assert_eq!(attribute(&list, "aria-label"), Some("Results"));

    let item = create_semantic_element(&semantic_snapshot(AccessibilityRole::ListItem, None));
    assert_eq!(item.tag, "li");

    let region = create_semantic_element(&semantic_snapshot(AccessibilityRole::Region, Some("Main panel")));
    assert_eq!(region.tag, "section");
    assert_eq!(attribute(&region, "role"), Some("region"));
}

#[test]
fn semantic_media_and_range_roles_use_native_elements() {
    let image = create_semantic_element(&semantic_snapshot(AccessibilityRole::Image, Some("Product photo")));
    assert_eq!(image.tag, "img");
    assert_eq!(attribute(&image, "alt"), Some("Product photo"));
    assert_eq!(attribute(&image, "aria-label"), None);

    let mut link = semantic_snapshot(AccessibilityRole::Link, Some("Docs"));
    link.value = Some(String::from("https://example.com/docs"));
    let link = create_semantic_element(&link);
    assert_eq!(link.tag, "a");
    assert_eq!(link.text_content.as_deref(), Some("Docs"));
    assert_eq!(attribute(&link, "href"), Some("https://example.com/docs"));

    let mut slider = semantic_snapshot(AccessibilityRole::Slider, Some("Volume"));
    slider.value = Some(String::from("25"));
    let slider = create_semantic_element(&slider);
    assert_eq!(slider.input_type, Some("range"));
    assert_eq!(slider.form_value.as_deref(), Some("25"));

    let mut progress = semantic_snapshot(AccessibilityRole::Progress, Some("Upload"));
    progress.value = Some(String::from("0.5"));
    let progress = create_semantic_element(&progress);
    assert_eq!(progress.tag, "progress");
    assert_eq!(attribute(&progress, "value"), Some("0.5"));
    assert_eq!(attribute(&progress, "aria-valuetext"), Some("0.5"));
}

#[test]
fn semantic_scroll_view_is_focusable_region_without_native_scroll_claim() {
    let mut node = semantic_snapshot(AccessibilityRole::ScrollView, Some("Activity"));
    node.value = Some(String::from("scroll offset 0 of 100"));
    let plan = create_semantic_element(&node);
    assert_eq!(plan.tag, "div");
    assert_eq!(attribute(&plan, "role"), Some("region"));
    assert_eq!(attribute(&plan, "aria-label"), Some("Activity"));
    assert_eq!(attribute(&plan, "aria-roledescription"), Some("scroll view"));
    assert_eq!(attribute(&plan, "aria-valuetext"), Some("scroll offset 0 of 100"));
    assert_eq!(plan.tab_index, Some(0));
}

#[test]
fn semantic_attributes_come_in_writing_order() {
    let mut node = semantic_snapshot(AccessibilityRole::GenericContainer, Some("Group"));
    node.id = 12;
    node.disabled = true;
    node.hidden = true;
    node.description = Some(String::from("Details"));
    node.value = Some(String::from("Override"));
    node.checked = Some(false);
    node.actions = vec![AccessibilityAction::Focus];
    let plan = create_semantic_element(&node);
    let written: Vec<(&str, &str)> = plan
        .attributes
        .iter()
        .map(|a| (a.name, a.value.as_str()))
        .collect();
    assert_eq!(
        written,
        vec![
            ("data-sparsha-a11y-node", "12"),
            ("disabled", "true"),
            ("aria-disabled", "true"),
            ("aria-label", "Group"),
            ("aria-description", "Details"),
            ("aria-label", "Override"),
            ("aria-checked", "false"),
            ("role", "group"),
        ]
    );
    assert!(plan.hidden);
    assert_eq!(plan.tab_index, Some(0));
    assert_eq!(plan.text_content, None);

    let mut label = semantic_snapshot(AccessibilityRole::Label, Some("Label"));
    label.value = Some(String::from("Value"));
    assert_eq!(create_semantic_element(&label).text_content.as_deref(), Some("Value"));
}

fn tree_node(id: u64, children: Vec<u64>, x: f32) -> AccessibilityNodeSnapshot {
    let mut node = semantic_snapshot(AccessibilityRole::GenericContainer, None);
    node.id = id;
    node.children = children;
    node.bounds = bounds(x, 0.0, 10.0, 10.0);
    node
}

#[test]
fn semantic_tree_is_mirrored_depth_first() {
    let snapshot = AccessibilityTreeSnapshot {
        nodes: vec![
            tree_node(1, vec![2, 3], 0.0),
            tree_node(2, vec![4], 5.0),
            tree_node(3, vec![], 6.0),
            tree_node(4, vec![], 7.0),
            tree_node(5, vec![], 8.0),
        ],
        root_children: vec![1, 42, 5],
        focus: 4,
    };
    let plan = semantic_dom_plan(&snapshot).expect("acyclic tree");
    let b1 = snapshot.nodes[0].bounds;
    let b2 = snapshot.nodes[1].bounds;
    assert_eq!(
        plan,
        vec![
            SemanticRenderEntry { node: 0, parent: None, parent_bounds: None },
            SemanticRenderEntry { node: 1, parent: Some(0), parent_bounds: Some(b1) },
            SemanticRenderEntry { node: 3, parent: Some(1), parent_bounds: Some(b2) },
            SemanticRenderEntry { node: 2, parent: Some(0), parent_bounds: Some(b1) },
            SemanticRenderEntry { node: 4, parent: None, parent_bounds: None },
        ]
    );
}

#[test]
fn semantic_tree_with_a_cycle_is_refused() {
    let snapshot = AccessibilityTreeSnapshot {
        nodes: vec![tree_node(1, vec![2], 0.0), tree_node(2, vec![1], 0.0)],
        root_children: vec![1],
        focus: 0,
    };
    assert!(semantic_dom_plan(&snapshot).is_none());
}

#[test]
fn node_lookup_takes_the_last_duplicate() {
    let nodes = vec![tree_node(1, vec![], 0.0), tree_node(2, vec![], 0.0), tree_node(1, vec![], 0.0)];
    assert_eq!(find_node(&nodes, 1), Some(2));
    assert_eq!(find_node(&nodes, 2), Some(1));
    assert_eq!(find_node(&nodes, 3), None);
}

#[test]
fn focus_moves_only_to_another_node() {
    assert!(!should_move_focus(0, 0, None));
    assert!(should_move_focus(4, 0, None));
    assert!(should_move_focus(4, 0, Some("5")));
    assert!(!should_move_focus(4, 0, Some("4")));
}
