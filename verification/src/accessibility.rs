//! Accessibility snapshots: the semantic roles and actions of widgets, and the
//! node records that the semantic DOM layer mirrors.

use vstd::prelude::*;

verus! {

/// The semantic role of an accessibility node.
#[derive(Clone, Copy, Debug, PartialEq, Eq, Structural)]
pub enum AccessibilityRole {
    GenericContainer,
    Label,
    Paragraph,
    Heading,
    Link,
    Image,
    Button,
    CheckBox,
    TextInput,
    MultilineTextInput,
    List,
    ListItem,
    Region,
    ScrollView,
    Slider,
    Progress,
}

/// An action that an accessibility node supports.
#[derive(Clone, Copy, Debug, PartialEq, Eq, Structural)]
pub enum AccessibilityAction {
    Focus,
    Click,
    SetValue,
}

/// Bounds of a node in logical pixels; each coordinate is the bit pattern of
/// an `f32`.
#[derive(Clone, Copy, Debug, PartialEq, Eq, Structural)]
pub struct SemanticBounds {
    pub x: u32,
    pub y: u32,
    pub width: u32,
    pub height: u32,
}

/// One node of an accessibility tree snapshot.
#[derive(Debug)]
pub struct AccessibilityNodeSnapshot {
    pub id: u64,
    pub path: Vec<usize>,
    pub role: AccessibilityRole,
    pub heading_level: Option<u8>,
    pub label: Option<String>,
    pub description: Option<String>,
    pub value: Option<String>,
    pub hidden: bool,
    pub disabled: bool,
    pub checked: Option<bool>,
    pub actions: Vec<AccessibilityAction>,
    pub bounds: SemanticBounds,
    pub children: Vec<u64>,
}

/// A whole accessibility tree: its nodes, the identities of the top-level
/// nodes in order, and the identity of the focused node.
#[derive(Debug)]
pub struct AccessibilityTreeSnapshot {
    pub nodes: Vec<AccessibilityNodeSnapshot>,
    pub root_children: Vec<u64>,
    pub focus: u64,
}

} // verus!
