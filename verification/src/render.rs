//! Render traits for element-first components, implemented by the host's
//! component context and by components.

use vstd::prelude::*;
use crate::color::Color;
use crate::element::ElementNode;
use crate::element_id::ElementIds;

verus! {

/// The theme colors a component can read while it renders.
pub trait ElementRenderContext {
    fn theme_background(&self) -> Color;

    fn theme_text(&self) -> Color;

    fn theme_muted_text(&self) -> Color;

    fn theme_brand(&self) -> Color;

    fn theme_surface(&self) -> Color;

    fn theme_border(&self) -> Color;
}

/// A component that renders an element tree, drawing fresh identities from
/// `ids`.
pub trait Render<H, A> {
    fn render<C: ElementRenderContext>(&mut self, cx: &mut C, ids: &mut ElementIds) -> ElementNode<H, A>;
}

} // verus!
