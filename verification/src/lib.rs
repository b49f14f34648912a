//! Element composition, style mapping, and host-protocol logic for Sparsha,
//! with contracts checked by Verus.

pub mod accessibility;
pub mod color;
pub mod decimal;
pub mod devserver;
pub mod dom_plan;
pub mod element;
pub mod element_id;
pub mod pixels;
pub mod platform;
pub mod render;
pub mod semantic;
pub mod semantic_tree;
pub mod style;
pub mod styled;
pub mod taffy_map;
pub mod tailwind_map;
pub mod target_agreement;
pub mod text;
pub mod text_bridge;
pub mod viewport;
pub mod websocket;
pub mod widget_bridge;
pub mod ws_url;

pub use element_id::{ElementId, ElementIds};
