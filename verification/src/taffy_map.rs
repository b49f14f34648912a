//! Maps [`StyleRefinement`] values to the layout style of the Taffy engine.
//! The mapping is decided here over plain values; the host converts the
//! resulting [`LayoutStyle`] to `taffy::Style`, field by field.

use vstd::prelude::*;
use crate::pixels::Pixels;
use crate::style::{FlexDirection, OverflowAxis, StyleRefinement};

verus! {

/// One side or size of a box as the layout engine sees it.
#[derive(Clone, Copy, Debug, PartialEq, Eq, Structural)]
pub enum Dimension {
    /// Left at the engine's default.
    Auto,
    /// A fixed length.
    Length(Pixels),
    /// The whole of the parent (100%).
    Full,
}

/// How content that does not fit is handled on one axis.
#[derive(Clone, Copy, Debug, PartialEq, Eq, Structural)]
pub enum Overflow {
    Visible,
    Hidden,
    Scroll,
}

/// Padding on the four sides.
#[derive(Clone, Copy, Debug, PartialEq, Eq, Structural)]
pub struct Edges {
    pub left: Pixels,
    pub right: Pixels,
    pub top: Pixels,
    pub bottom: Pixels,
}

/// The layout style of an element: every field the refinement decides, with
/// `None` for what stays at the engine's default.
#[derive(Clone, Copy, Debug, PartialEq, Eq, Structural)]
pub struct LayoutStyle {
    /// Whether display is set to flex.
    pub display_flex: bool,
    pub flex_direction: Option<FlexDirection>,
    /// Flex grow factor, as an `f32` bit pattern.
    pub flex_grow: Option<u32>,
    /// Flex shrink factor, as an `f32` bit pattern.
    pub flex_shrink: Option<u32>,
    /// Gap between children on both axes.
    pub gap: Option<Pixels>,
    pub padding: Option<Edges>,
    pub width: Dimension,
    pub height: Dimension,
    pub min_width: Option<Pixels>,
    pub min_height: Option<Pixels>,
    pub overflow_x: Overflow,
    pub overflow_y: Overflow,
}

/// Zero pixels.
pub open spec fn zero_px() -> Pixels {
    Pixels(0)
}

/// The layout engine's overflow for an axis (unset is visible; auto scrolls).
pub open spec fn overflow_spec(axis: Option<OverflowAxis>) -> Overflow {
    match axis {
        None => Overflow::Visible,
        Some(OverflowAxis::Visible) => Overflow::Visible,
        Some(OverflowAxis::Hidden) => Overflow::Hidden,
        Some(OverflowAxis::Scroll) => Overflow::Scroll,
        Some(OverflowAxis::Auto) => Overflow::Scroll,
    }
}

/// The padding a refinement asks for: uniform when `padding` is set, else
/// horizontal and vertical (zero where unset) when either is set.
pub open spec fn padding_spec(r: StyleRefinement) -> Option<Edges> {
    match r.padding {
        Some(all) => Some(Edges { left: all, right: all, top: all, bottom: all }),
        None => if r.padding_x is Some || r.padding_y is Some {
            let x = match r.padding_x {
                Some(v) => v,
                None => zero_px(),
            };
            let y = match r.padding_y {
                Some(v) => v,
                None => zero_px(),
            };
            Some(Edges { left: x, right: x, top: y, bottom: y })
        } else {
            None
        },
    }
}

/// One dimension: full when the refinement fills it (or fills both), else the
/// fixed length when set, else auto.
pub open spec fn dimension_spec(size_full: bool, fill: bool, length: Option<Pixels>) -> Dimension {
    if size_full || fill {
        Dimension::Full
    } else {
        match length {
            Some(l) => Dimension::Length(l),
            None => Dimension::Auto,
        }
    }
}

/// The layout style of a refinement.
pub open spec fn layout_style_spec(r: StyleRefinement) -> LayoutStyle {
    LayoutStyle {
        display_flex: r.display_flex,
        flex_direction: r.flex_direction,
        flex_grow: r.flex_grow,
        flex_shrink: r.flex_shrink,
        gap: r.gap,
        padding: padding_spec(r),
        width: dimension_spec(r.size_full, r.fill_width, r.width),
        height: dimension_spec(r.size_full, r.fill_height, r.height),
        min_width: r.min_width,
        min_height: r.min_height,
        overflow_x: overflow_spec(r.overflow_x),
        overflow_y: overflow_spec(r.overflow_y),
    }
}

fn map_overflow(axis: Option<OverflowAxis>) -> (o: Overflow)
    ensures
        o == overflow_spec(axis),
{
    match axis {
        None => Overflow::Visible,
        Some(OverflowAxis::Visible) => Overflow::Visible,
        Some(OverflowAxis::Hidden) => Overflow::Hidden,
        Some(OverflowAxis::Scroll) => Overflow::Scroll,
        Some(OverflowAxis::Auto) => Overflow::Scroll,
    }
}

fn rect(value: Pixels) -> (e: Edges)
    ensures
        e == (Edges { left: value, right: value, top: value, bottom: value }),
{
    Edges { left: value, right: value, top: value, bottom: value }
}

fn padding_of(r: &StyleRefinement) -> (p: Option<Edges>)
    ensures
        p == padding_spec(*r),
{
    if let Some(all) = r.padding {
        Some(rect(all))
    } else if r.padding_x.is_some() || r.padding_y.is_some() {
        let x = match r.padding_x {
            Some(v) => v,
            None => Pixels(0),
        };
        let y = match r.padding_y {
            Some(v) => v,
            None => Pixels(0),
        };
        Some(Edges { left: x, right: x, top: y, bottom: y })
    } else {
        None
    }
}

fn dimension_of(size_full: bool, fill: bool, length: Option<Pixels>) -> (d: Dimension)
    ensures
        d == dimension_spec(size_full, fill, length),
{
    if size_full || fill {
        Dimension::Full
    } else {
        match length {
            Some(l) => Dimension::Length(l),
            None => Dimension::Auto,
        }
    }
}

/// The layout style of a refinement.
pub fn style_from_refinement(refinement: &StyleRefinement) -> (style: LayoutStyle)
    ensures
        style == layout_style_spec(*refinement),
{
    let r = refinement;
    LayoutStyle {
        display_flex: r.display_flex,
        flex_direction: r.flex_direction,
        flex_grow: r.flex_grow,
        flex_shrink: r.flex_shrink,
        gap: r.gap,
        padding: padding_of(r),
        width: dimension_of(r.size_full, r.fill_width, r.width),
        height: dimension_of(r.size_full, r.fill_height, r.height),
        min_width: r.min_width,
        min_height: r.min_height,
        overflow_x: map_overflow(r.overflow_x),
        overflow_y: map_overflow(r.overflow_y),
    }
}

/// The layout padding: present exactly when some padding is set; the left
/// and right edges come from the uniform padding, else the horizontal one,
/// else zero; the top and bottom edges from the uniform padding, else the
/// vertical one, else zero. The horizontal padding never reaches the top or
/// bottom, nor the vertical one the sides.
pub proof fn lemma_layout_padding(r: StyleRefinement)
    ensures
        (layout_style_spec(r).padding is Some) == (r.padding is Some || r.padding_x is Some
            || r.padding_y is Some),
        layout_style_spec(r).padding matches Some(e) ==> {
            &&& e.left == e.right
            &&& e.top == e.bottom
            &&& e.left == match r.padding {
                Some(a) => a,
                None => match r.padding_x {
                    Some(x) => x,
                    None => Pixels(0),
                },
            }
            &&& e.top == match r.padding {
                Some(a) => a,
                None => match r.padding_y {
                    Some(y) => y,
                    None => Pixels(0),
                },
            }
        },
{
}

/// Overflow on each axis: unset and visible stay visible, hidden stays
/// hidden, and both scroll and auto scroll. Each size is the whole parent
/// when the refinement fills that axis (or both), else its fixed length when
/// set, else automatic.
pub proof fn lemma_layout_overflow_and_size(r: StyleRefinement)
    ensures
        (layout_style_spec(r).overflow_x == Overflow::Scroll) == (r.overflow_x == Some(OverflowAxis::Scroll)
            || r.overflow_x == Some(OverflowAxis::Auto)),
        (layout_style_spec(r).overflow_x == Overflow::Hidden) == (r.overflow_x == Some(OverflowAxis::Hidden)),
        (layout_style_spec(r).overflow_y == Overflow::Scroll) == (r.overflow_y == Some(OverflowAxis::Scroll)
            || r.overflow_y == Some(OverflowAxis::Auto)),
        (layout_style_spec(r).overflow_y == Overflow::Hidden) == (r.overflow_y == Some(OverflowAxis::Hidden)),
        (layout_style_spec(r).width == Dimension::Full) == (r.size_full || r.fill_width),
        (layout_style_spec(r).height == Dimension::Full) == (r.size_full || r.fill_height),
        !(r.size_full || r.fill_width) ==> layout_style_spec(r).width == match r.width {
            Some(w) => Dimension::Length(w),
            None => Dimension::Auto,
        },
        !(r.size_full || r.fill_height) ==> layout_style_spec(r).height == match r.height {
            Some(h) => Dimension::Length(h),
            None => Dimension::Auto,
        },
        layout_style_spec(r).display_flex == r.display_flex,
        layout_style_spec(r).flex_direction == r.flex_direction,
        layout_style_spec(r).gap == r.gap,
{
}

} // verus!
