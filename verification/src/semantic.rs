//! The native element that the semantic DOM layer creates for an
//! accessibility node: its tag, form state, attributes, text, visibility and
//! tab order.

use vstd::prelude::*;
use crate::accessibility::{AccessibilityAction, AccessibilityNodeSnapshot, AccessibilityRole};
use crate::decimal::{decimal, decimal_string, digit_char};

verus! {

/// The heading level a heading renders with: the requested level (2 when
/// absent) clamped to 1..=6.
pub open spec fn heading_level_spec(level: Option<u8>) -> nat {
    let l: int = match level {
        Some(l) => l as int,
        None => 2,
    };
    if l < 1 {
        1
    } else if l > 6 {
        6
    } else {
        l as nat
    }
}

/// The tag of the native element for a role.
pub open spec fn semantic_tag_spec(role: AccessibilityRole, heading_level: Option<u8>) -> Seq<char> {
    match role {
        AccessibilityRole::Heading => seq!['h', digit_char(heading_level_spec(heading_level))],
        AccessibilityRole::Paragraph => "p"@,
        AccessibilityRole::Link => "a"@,
        AccessibilityRole::Image => "img"@,
        AccessibilityRole::Button => "button"@,
        AccessibilityRole::CheckBox => "input"@,
        AccessibilityRole::TextInput => "input"@,
        AccessibilityRole::MultilineTextInput => "textarea"@,
        AccessibilityRole::Label => "span"@,
        AccessibilityRole::List => "ul"@,
        AccessibilityRole::ListItem => "li"@,
        AccessibilityRole::Region => "section"@,
        AccessibilityRole::Slider => "input"@,
        AccessibilityRole::Progress => "progress"@,
        _ => "div"@,
    }
}

/// The `type` of the native input element, for roles rendered as inputs.
pub open spec fn input_type_spec(role: AccessibilityRole) -> Option<Seq<char>> {
    match role {
        AccessibilityRole::CheckBox => Some("checkbox"@),
        AccessibilityRole::TextInput => Some("text"@),
        AccessibilityRole::Slider => Some("range"@),
        _ => None,
    }
}

/// The checked state of a native checkbox (unchecked when unknown).
pub open spec fn checked_state_spec(node: AccessibilityNodeSnapshot) -> Option<bool> {
    match node.role {
        AccessibilityRole::CheckBox => Some(
            match node.checked {
                Some(c) => c,
                None => false,
            },
        ),
        _ => None,
    }
}

/// The view of an optional string.
pub open spec fn opt_view(s: Option<String>) -> Option<Seq<char>> {
    match s {
        Some(t) => Some(t@),
        None => None,
    }
}

/// The value written into a native form control: text inputs and text areas
/// hold the node's value (empty when absent), sliders hold it when present.
pub open spec fn form_value_spec(node: AccessibilityNodeSnapshot) -> Option<Seq<char>> {
    match node.role {
        AccessibilityRole::TextInput | AccessibilityRole::MultilineTextInput => Some(
            match node.value {
                Some(v) => v@,
                None => Seq::empty(),
            },
        ),
        AccessibilityRole::Slider => opt_view(node.value),
        _ => None,
    }
}

/// Attributes set while creating the element itself.
pub open spec fn creation_attrs(node: AccessibilityNodeSnapshot) -> Seq<(Seq<char>, Seq<char>)> {
    match node.role {
        AccessibilityRole::Button => seq![("type"@, "button"@)],
        AccessibilityRole::Progress => match node.value {
            Some(v) => seq![("value"@, v@)],
            None => Seq::empty(),
        },
        _ => Seq::empty(),
    }
}

/// The attribute that ties the element to its node.
pub open spec fn node_id_attrs(node: AccessibilityNodeSnapshot) -> Seq<(Seq<char>, Seq<char>)> {
    seq![("data-sparsha-a11y-node"@, decimal(node.id as nat))]
}

/// The attributes of a disabled node.
pub open spec fn disabled_attrs(node: AccessibilityNodeSnapshot) -> Seq<(Seq<char>, Seq<char>)> {
    if node.disabled {
        seq![("disabled"@, "true"@), ("aria-disabled"@, "true"@)]
    } else {
        Seq::empty()
    }
}

/// The label attribute: `alt` for images, `aria-label` otherwise.
pub open spec fn label_attrs(node: AccessibilityNodeSnapshot) -> Seq<(Seq<char>, Seq<char>)> {
    match node.label {
        Some(l) => if node.role == AccessibilityRole::Image {
            seq![("alt"@, l@)]
        } else {
            seq![("aria-label"@, l@)]
        },
        None => Seq::empty(),
    }
}

/// The description attribute.
pub open spec fn description_attrs(node: AccessibilityNodeSnapshot) -> Seq<(Seq<char>, Seq<char>)> {
    match node.description {
        Some(d) => seq![("aria-description"@, d@)],
        None => Seq::empty(),
    }
}

/// The attribute that carries the node's value, for roles that expose it as
/// one.
pub open spec fn value_attrs(node: AccessibilityNodeSnapshot) -> Seq<(Seq<char>, Seq<char>)> {
    match node.value {
        Some(v) => match node.role {
            AccessibilityRole::ScrollView | AccessibilityRole::Progress => seq![("aria-valuetext"@, v@)],
            AccessibilityRole::GenericContainer | AccessibilityRole::List => seq![("aria-label"@, v@)],
            AccessibilityRole::Link => seq![("href"@, v@)],
            _ => Seq::empty(),
        },
        None => Seq::empty(),
    }
}

/// The checked attribute of nodes that are not native checkboxes.
pub open spec fn checked_attrs(node: AccessibilityNodeSnapshot) -> Seq<(Seq<char>, Seq<char>)> {
    match node.checked {
        Some(c) => if node.role == AccessibilityRole::CheckBox {
            Seq::empty()
        } else {
            seq![("aria-checked"@, if c { "true"@ } else { "false"@ })]
        },
        None => Seq::empty(),
    }
}

/// The explicit ARIA role of roles without a native element of their own.
pub open spec fn role_attrs(role: AccessibilityRole) -> Seq<(Seq<char>, Seq<char>)> {
    match role {
        AccessibilityRole::GenericContainer => seq![("role"@, "group"@)],
        AccessibilityRole::List => seq![("role"@, "list"@)],
        AccessibilityRole::Region => seq![("role"@, "region"@)],
        AccessibilityRole::ScrollView => seq![("role"@, "region"@), ("aria-roledescription"@, "scroll view"@)],
        _ => Seq::empty(),
    }
}

/// Every attribute the element receives, in the order they are set (a later
/// write of the same name replaces an earlier one).
pub open spec fn semantic_attrs_spec(node: AccessibilityNodeSnapshot) -> Seq<(Seq<char>, Seq<char>)> {
    creation_attrs(node) + node_id_attrs(node) + disabled_attrs(node) + label_attrs(node)
        + description_attrs(node) + value_attrs(node) + checked_attrs(node) + role_attrs(node.role)
}

/// Whether a role shows its label as text content.
pub open spec fn shows_label_text(role: AccessibilityRole) -> bool {
    role == AccessibilityRole::Label || role == AccessibilityRole::Paragraph || role
        == AccessibilityRole::Heading || role == AccessibilityRole::Link || role
        == AccessibilityRole::Button
}

/// The text content the element ends with: the value for labels and
/// paragraphs that have one, else the label for roles that show it, else
/// none.
pub open spec fn semantic_text_spec(node: AccessibilityNodeSnapshot) -> Option<Seq<char>> {
    if node.value is Some && (node.role == AccessibilityRole::Label || node.role
        == AccessibilityRole::Paragraph) {
        Some(node.value->0@)
    } else if node.label is Some && shows_label_text(node.role) {
        Some(node.label->0@)
    } else {
        None
    }
}

/// Whether a role is a native interactive control, focusable by itself.
pub open spec fn natively_focusable(role: AccessibilityRole) -> bool {
    role == AccessibilityRole::Button || role == AccessibilityRole::CheckBox || role
        == AccessibilityRole::TextInput || role == AccessibilityRole::MultilineTextInput
}

/// The tab index the element gets: 0 for scroll views and for focusable
/// nodes that are not native controls; untouched otherwise.
pub open spec fn tab_index_spec(node: AccessibilityNodeSnapshot) -> Option<i32> {
    if node.role == AccessibilityRole::ScrollView || (node.actions@.contains(
        AccessibilityAction::Focus,
    ) && !natively_focusable(node.role)) {
        Some(0)
    } else {
        None
    }
}

/// One attribute write.
pub struct SemanticAttribute {
    pub name: &'static str,
    pub value: String,
}

impl View for SemanticAttribute {
    type V = (Seq<char>, Seq<char>);

    open spec fn view(&self) -> (Seq<char>, Seq<char>) {
        (self.name@, self.value@)
    }
}

/// The views of attribute writes.
pub open spec fn attr_views(attrs: Seq<SemanticAttribute>) -> Seq<(Seq<char>, Seq<char>)> {
    attrs.map_values(|a: SemanticAttribute| a@)
}

/// What the semantic layer builds for one node. Every element is also styled
/// to be invisible and transparent to the pointer; `hidden` additionally
/// removes it from display.
pub struct SemanticElementPlan {
    pub tag: &'static str,
    pub input_type: Option<&'static str>,
    pub checked: Option<bool>,
    pub form_value: Option<String>,
    pub attributes: Vec<SemanticAttribute>,
    pub text_content: Option<String>,
    pub hidden: bool,
    pub tab_index: Option<i32>,
}

/// The content of a [`SemanticElementPlan`].
pub struct SemanticElementModel {
    pub tag: Seq<char>,
    pub input_type: Option<Seq<char>>,
    pub checked: Option<bool>,
    pub form_value: Option<Seq<char>>,
    pub attributes: Seq<(Seq<char>, Seq<char>)>,
    pub text_content: Option<Seq<char>>,
    pub hidden: bool,
    pub tab_index: Option<i32>,
}

impl View for SemanticElementPlan {
    type V = SemanticElementModel;

    open spec fn view(&self) -> SemanticElementModel {
        SemanticElementModel {
            tag: self.tag@,
            input_type: match self.input_type {
                Some(t) => Some(t@),
                None => None,
            },
            checked: self.checked,
            form_value: opt_view(self.form_value),
            attributes: attr_views(self.attributes@),
            text_content: opt_view(self.text_content),
            hidden: self.hidden,
            tab_index: self.tab_index,
        }
    }
}

/// The element the semantic layer builds for `node`.
pub open spec fn semantic_element_spec(node: AccessibilityNodeSnapshot) -> SemanticElementModel {
    SemanticElementModel {
        tag: semantic_tag_spec(node.role, node.heading_level),
        input_type: input_type_spec(node.role),
        checked: checked_state_spec(node),
        form_value: form_value_spec(node),
        attributes: semantic_attrs_spec(node),
        text_content: semantic_text_spec(node),
        hidden: node.hidden,
        tab_index: tab_index_spec(node),
    }
}

fn heading_tag(level: Option<u8>) -> (t: &'static str)
    ensures
        t@ == seq!['h', digit_char(heading_level_spec(level))],
{
    proof {
        reveal_strlit("h1");
        reveal_strlit("h2");
        reveal_strlit("h3");
        reveal_strlit("h4");
        reveal_strlit("h5");
        reveal_strlit("h6");
    }
    let l: u8 = match level {
        Some(l) => l,
        None => 2,
    };
    if l <= 1 {
        "h1"
    } else if l == 2 {
        "h2"
    } else if l == 3 {
        "h3"
    } else if l == 4 {
        "h4"
    } else if l == 5 {
        "h5"
    } else {
        "h6"
    }
}

fn semantic_tag(role: AccessibilityRole, level: Option<u8>) -> (t: &'static str)
    ensures
        t@ == semantic_tag_spec(role, level),
{
    match role {
        AccessibilityRole::Heading => heading_tag(level),
        AccessibilityRole::Paragraph => "p",
        AccessibilityRole::Link => "a",
        AccessibilityRole::Image => "img",
        AccessibilityRole::Button => "button",
        AccessibilityRole::CheckBox => "input",
        AccessibilityRole::TextInput => "input",
        AccessibilityRole::MultilineTextInput => "textarea",
        AccessibilityRole::Label => "span",
        AccessibilityRole::List => "ul",
        AccessibilityRole::ListItem => "li",
        AccessibilityRole::Region => "section",
        AccessibilityRole::Slider => "input",
        AccessibilityRole::Progress => "progress",
        _ => "div",
    }
}

fn input_type(role: AccessibilityRole) -> (t: Option<&'static str>)
    ensures
        match t {
            Some(s) => input_type_spec(role) == Some(s@),
            None => input_type_spec(role) is None,
        },
{
    match role {
        AccessibilityRole::CheckBox => Some("checkbox"),
        AccessibilityRole::TextInput => Some("text"),
        AccessibilityRole::Slider => Some("range"),
        _ => None,
    }
}

fn clone_opt(s: &Option<String>) -> (r: Option<String>)
    ensures
        opt_view(r) == opt_view(*s),
{
    match s {
        Some(t) => Some(t.clone()),
        None => None,
    }
}

fn form_value(node: &AccessibilityNodeSnapshot) -> (v: Option<String>)
    ensures
        opt_view(v) == form_value_spec(*node),
{
    match node.role {
        AccessibilityRole::TextInput | AccessibilityRole::MultilineTextInput => match &node.value {
            Some(v) => Some(v.clone()),
            None => Some(String::new()),
        },
        AccessibilityRole::Slider => clone_opt(&node.value),
        _ => None,
    }
}

fn push_attr(out: &mut Vec<SemanticAttribute>, name: &'static str, value: String)
    ensures
        attr_views(final(out)@) == attr_views(old(out)@).push((name@, value@)),
{
    out.push(SemanticAttribute { name, value });
    assert(attr_views(out@) =~= attr_views(old(out)@).push((name@, value@)));
}

fn push_creation_attrs(node: &AccessibilityNodeSnapshot, out: &mut Vec<SemanticAttribute>)
    ensures
        attr_views(final(out)@) == attr_views(old(out)@) + creation_attrs(*node),
{
    let ghost start = attr_views(out@);
    match node.role {
        AccessibilityRole::Button => push_attr(out, "type", "button".to_owned()),
        AccessibilityRole::Progress => {
            if let Some(v) = &node.value {
                push_attr(out, "value", v.clone());
            }
        },
        _ => {},
    }
    assert(attr_views(out@) =~= start + creation_attrs(*node));
}

fn push_identity_attrs(node: &AccessibilityNodeSnapshot, out: &mut Vec<SemanticAttribute>)
    ensures
        attr_views(final(out)@) == attr_views(old(out)@) + node_id_attrs(*node) + disabled_attrs(
            *node,
        ),
{
    let ghost start = attr_views(out@);
    push_attr(out, "data-sparsha-a11y-node", decimal_string(node.id));
    if node.disabled {
        push_attr(out, "disabled", "true".to_owned());
        push_attr(out, "aria-disabled", "true".to_owned());
    }
    assert(attr_views(out@) =~= start + node_id_attrs(*node) + disabled_attrs(*node));
}

fn push_text_attrs(node: &AccessibilityNodeSnapshot, out: &mut Vec<SemanticAttribute>)
    ensures
        attr_views(final(out)@) == attr_views(old(out)@) + label_attrs(*node) + description_attrs(
            *node,
        ),
{
    let ghost start = attr_views(out@);
    if let Some(l) = &node.label {
        if node.role == AccessibilityRole::Image {
            push_attr(out, "alt", l.clone());
        } else {
            push_attr(out, "aria-label", l.clone());
        }
    }
    if let Some(d) = &node.description {
        push_attr(out, "aria-description", d.clone());
    }
    assert(attr_views(out@) =~= start + label_attrs(*node) + description_attrs(*node));
}

fn push_value_attrs(node: &AccessibilityNodeSnapshot, out: &mut Vec<SemanticAttribute>)
    ensures
        attr_views(final(out)@) == attr_views(old(out)@) + value_attrs(*node) + checked_attrs(
            *node,
        ),
{
    let ghost start = attr_views(out@);
    if let Some(v) = &node.value {
        match node.role {
            AccessibilityRole::ScrollView | AccessibilityRole::Progress => {
                push_attr(out, "aria-valuetext", v.clone());
            },
            AccessibilityRole::GenericContainer | AccessibilityRole::List => {
                push_attr(out, "aria-label", v.clone());
            },
            AccessibilityRole::Link => {
                push_attr(out, "href", v.clone());
            },
            _ => {},
        }
    }
    let ghost mid = attr_views(out@);
    assert(mid =~= start + value_attrs(*node));
    if let Some(c) = node.checked {
        if node.role != AccessibilityRole::CheckBox {
            push_attr(out, "aria-checked", if c { "true".to_owned() } else { "false".to_owned() });
        }
    }
    assert(attr_views(out@) =~= mid + checked_attrs(*node));
}

fn push_role_attrs(role: AccessibilityRole, out: &mut Vec<SemanticAttribute>)
    ensures
        attr_views(final(out)@) == attr_views(old(out)@) + role_attrs(role),
{
    let ghost start = attr_views(out@);
    match role {
        AccessibilityRole::GenericContainer => push_attr(out, "role", "group".to_owned()),
        AccessibilityRole::List => push_attr(out, "role", "list".to_owned()),
        AccessibilityRole::Region => push_attr(out, "role", "region".to_owned()),
        AccessibilityRole::ScrollView => {
            push_attr(out, "role", "region".to_owned());
            push_attr(out, "aria-roledescription", "scroll view".to_owned());
        },
        _ => {},
    }
    assert(attr_views(out@) =~= start + role_attrs(role));
}

fn semantic_attributes(node: &AccessibilityNodeSnapshot) -> (attrs: Vec<SemanticAttribute>)
    ensures
        attr_views(attrs@) == semantic_attrs_spec(*node),
{
    let mut out: Vec<SemanticAttribute> = Vec::new();
    assert(attr_views(out@) =~= Seq::empty());
    push_creation_attrs(node, &mut out);
    push_identity_attrs(node, &mut out);
    push_text_attrs(node, &mut out);
    push_value_attrs(node, &mut out);
    push_role_attrs(node.role, &mut out);
    assert(attr_views(out@) =~= semantic_attrs_spec(*node));
    out
}

fn semantic_text(node: &AccessibilityNodeSnapshot) -> (t: Option<String>)
    ensures
        opt_view(t) == semantic_text_spec(*node),
{
    let shows_value = node.role == AccessibilityRole::Label || node.role
        == AccessibilityRole::Paragraph;
    let shows_label = shows_value || node.role == AccessibilityRole::Heading || node.role
        == AccessibilityRole::Link || node.role == AccessibilityRole::Button;
    match &node.value {
        Some(v) => if shows_value {
            return Some(v.clone());
        },
        None => {},
    }
    match &node.label {
        Some(l) => if shows_label {
            Some(l.clone())
        } else {
            None
        },
        None => None,
    }
}

fn has_focus_action(actions: &Vec<AccessibilityAction>) -> (r: bool)
    ensures
        r == actions@.contains(AccessibilityAction::Focus),
{
    let mut i: usize = 0;
    while i < actions.len()
        invariant
            0 <= i <= actions@.len(),
            forall|j: int| 0 <= j < i ==> actions@[j] != AccessibilityAction::Focus,
        decreases actions@.len() - i,
    {
        if actions[i] == AccessibilityAction::Focus {
            assert(actions@[i as int] == AccessibilityAction::Focus);
            return true;
        }
        i = i + 1;
    }
    false
}

fn tab_index(node: &AccessibilityNodeSnapshot) -> (t: Option<i32>)
    ensures
        t == tab_index_spec(*node),
{
    let native = node.role == AccessibilityRole::Button || node.role == AccessibilityRole::CheckBox
        || node.role == AccessibilityRole::TextInput || node.role
        == AccessibilityRole::MultilineTextInput;
    if node.role == AccessibilityRole::ScrollView || (has_focus_action(&node.actions) && !native) {
        Some(0)
    } else {
        None
    }
}

/// Decides the native element that mirrors `node` in the semantic DOM layer.
pub fn create_semantic_element(node: &AccessibilityNodeSnapshot) -> (plan: SemanticElementPlan)
    ensures
        plan@ == semantic_element_spec(*node),
{
    let checked = match node.role {
        AccessibilityRole::CheckBox => Some(
            match node.checked {
                Some(c) => c,
                None => false,
            },
        ),
        _ => None,
    };
    let plan = SemanticElementPlan {
        tag: semantic_tag(node.role, node.heading_level),
        input_type: input_type(node.role),
        checked,
        form_value: form_value(node),
        attributes: semantic_attributes(node),
        text_content: semantic_text(node),
        hidden: node.hidden,
        tab_index: tab_index(node),
    };
    plan
}

/// A heading renders as `h` followed by its level when the level is 1 to 6;
/// a level of 0 renders as `h1`, one above 6 as `h6`, and no level as `h2`.
pub proof fn lemma_heading_tags(node: AccessibilityNodeSnapshot)
    requires
        node.role == AccessibilityRole::Heading,
    ensures
        node.heading_level matches Some(l) ==> (1 <= l <= 6 ==> semantic_element_spec(node).tag
            == seq!['h', digit_char(l as nat)]),
        node.heading_level == Some(0u8) ==> semantic_element_spec(node).tag == seq!['h', '1'],
        node.heading_level matches Some(l) ==> (l > 6 ==> semantic_element_spec(node).tag == seq![
            'h',
            '6',
        ]),
        node.heading_level is None ==> semantic_element_spec(node).tag == seq!['h', '2'],
{
}

/// The native element of each role that is not a heading: `div` for generic
/// containers and scroll views, `span` for labels, `p`, `a`, `img`, `button`,
/// `input` for checkboxes, text inputs and sliders, `textarea`, `ul`, `li`,
/// `section` and `progress`; inputs get the types `checkbox`, `text` and
/// `range`, and no other role gets an input type.
pub proof fn lemma_semantic_tags(node: AccessibilityNodeSnapshot)
    ensures
        node.role == AccessibilityRole::GenericContainer ==> semantic_element_spec(node).tag == "div"@,
        node.role == AccessibilityRole::Label ==> semantic_element_spec(node).tag == "span"@,
        node.role == AccessibilityRole::Paragraph ==> semantic_element_spec(node).tag == "p"@,
        node.role == AccessibilityRole::Link ==> semantic_element_spec(node).tag == "a"@,
        node.role == AccessibilityRole::Image ==> semantic_element_spec(node).tag == "img"@,
        node.role == AccessibilityRole::Button ==> semantic_element_spec(node).tag == "button"@,
        node.role == AccessibilityRole::CheckBox ==> semantic_element_spec(node).tag == "input"@,
        node.role == AccessibilityRole::TextInput ==> semantic_element_spec(node).tag == "input"@,
        node.role == AccessibilityRole::MultilineTextInput ==> semantic_element_spec(node).tag == "textarea"@,
        node.role == AccessibilityRole::List ==> semantic_element_spec(node).tag == "ul"@,
        node.role == AccessibilityRole::ListItem ==> semantic_element_spec(node).tag == "li"@,
        node.role == AccessibilityRole::Region ==> semantic_element_spec(node).tag == "section"@,
        node.role == AccessibilityRole::ScrollView ==> semantic_element_spec(node).tag == "div"@,
        node.role == AccessibilityRole::Slider ==> semantic_element_spec(node).tag == "input"@,
        node.role == AccessibilityRole::Progress ==> semantic_element_spec(node).tag == "progress"@,
        node.role == AccessibilityRole::CheckBox ==> semantic_element_spec(node).input_type == Some("checkbox"@),
        node.role == AccessibilityRole::TextInput ==> semantic_element_spec(node).input_type == Some("text"@),
        node.role == AccessibilityRole::Slider ==> semantic_element_spec(node).input_type == Some("range"@),
        !(node.role == AccessibilityRole::CheckBox || node.role == AccessibilityRole::TextInput || node.role
            == AccessibilityRole::Slider) ==> semantic_element_spec(node).input_type is None,
{
}

} // verus!
