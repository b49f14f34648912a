//! Declarative style refinements: what an element asks of its layout and
//! appearance, each field unset until a refinement sets it.

use vstd::prelude::*;
use crate::color::Color;
use crate::pixels::Pixels;

verus! {

#[derive(Clone, Copy, Debug, PartialEq, Eq, Structural)]
pub enum FlexDirection {
    Row,
    Column,
}

impl Default for FlexDirection {
    fn default() -> (r: Self)
        ensures
            r == FlexDirection::Row,
    {
        FlexDirection::Row
    }
}

#[derive(Clone, Copy, Debug, PartialEq, Eq, Structural)]
pub enum OverflowAxis {
    Visible,
    Hidden,
    Scroll,
    Auto,
}

impl Default for OverflowAxis {
    fn default() -> (r: Self)
        ensures
            r == OverflowAxis::Visible,
    {
        OverflowAxis::Visible
    }
}

#[derive(Clone, Copy, Debug, PartialEq, Eq, Structural)]
pub enum FontWeight {
    Normal,
    Medium,
    Semibold,
    Bold,
}

impl Default for FontWeight {
    fn default() -> (r: Self)
        ensures
            r == FontWeight::Normal,
    {
        FontWeight::Normal
    }
}

#[derive(Clone, Copy, Debug, PartialEq, Eq, Structural)]
pub enum TextAlign {
    Left,
    Center,
    Right,
}

impl Default for TextAlign {
    fn default() -> (r: Self)
        ensures
            r == TextAlign::Left,
    {
        TextAlign::Left
    }
}

/// Accumulated visual and layout refinements for an element node. Flex
/// factors are held as `f32` bit patterns.
#[derive(Debug)]
pub struct StyleRefinement {
    pub display_flex: bool,
    pub flex_direction: Option<FlexDirection>,
    pub flex_grow: Option<u32>,
    pub flex_shrink: Option<u32>,
    pub gap: Option<Pixels>,
    pub padding: Option<Pixels>,
    pub padding_x: Option<Pixels>,
    pub padding_y: Option<Pixels>,
    pub margin: Option<Pixels>,
    pub width: Option<Pixels>,
    pub height: Option<Pixels>,
    pub min_width: Option<Pixels>,
    pub min_height: Option<Pixels>,
    pub size_full: bool,
    pub fill_width: bool,
    pub fill_height: bool,
    pub overflow_x: Option<OverflowAxis>,
    pub overflow_y: Option<OverflowAxis>,
    pub background: Option<Color>,
    pub border_width: Option<Pixels>,
    pub border_color: Option<Color>,
    pub border_radius: Option<Pixels>,
    pub font_size: Option<Pixels>,
    pub font_weight: Option<FontWeight>,
    pub text_color: Option<Color>,
    pub text_align: Option<TextAlign>,
    pub hover: Option<Box<StyleRefinement>>,
}

/// The refinement that refines nothing.
pub open spec fn empty_refinement() -> StyleRefinement {
    StyleRefinement {
        display_flex: false,
        flex_direction: None,
        flex_grow: None,
        flex_shrink: None,
        gap: None,
        padding: None,
        padding_x: None,
        padding_y: None,
        margin: None,
        width: None,
        height: None,
        min_width: None,
        min_height: None,
        size_full: false,
        fill_width: false,
        fill_height: false,
        overflow_x: None,
        overflow_y: None,
        background: None,
        border_width: None,
        border_color: None,
        border_radius: None,
        font_size: None,
        font_weight: None,
        text_color: None,
        text_align: None,
        hover: None,
    }
}

impl Default for StyleRefinement {
    fn default() -> (r: Self)
        ensures
            r == empty_refinement(),
    {
        StyleRefinement {
            display_flex: false,
            flex_direction: None,
            flex_grow: None,
            flex_shrink: None,
            gap: None,
            padding: None,
            padding_x: None,
            padding_y: None,
            margin: None,
            width: None,
            height: None,
            min_width: None,
            min_height: None,
            size_full: false,
            fill_width: false,
            fill_height: false,
            overflow_x: None,
            overflow_y: None,
            background: None,
            border_width: None,
            border_color: None,
            border_radius: None,
            font_size: None,
            font_weight: None,
            text_color: None,
            text_align: None,
            hover: None,
        }
    }
}

impl Clone for StyleRefinement {
    fn clone(&self) -> (r: Self)
        ensures
            r == *self,
        decreases self,
    {
        let hover = match &self.hover {
            Some(h) => Some(Box::new((**h).clone())),
            None => None,
        };
        StyleRefinement {
            display_flex: self.display_flex,
            flex_direction: self.flex_direction,
            flex_grow: self.flex_grow,
            flex_shrink: self.flex_shrink,
            gap: self.gap,
            padding: self.padding,
            padding_x: self.padding_x,
            padding_y: self.padding_y,
            margin: self.margin,
            width: self.width,
            height: self.height,
            min_width: self.min_width,
            min_height: self.min_height,
            size_full: self.size_full,
            fill_width: self.fill_width,
            fill_height: self.fill_height,
            overflow_x: self.overflow_x,
            overflow_y: self.overflow_y,
            background: self.background,
            border_width: self.border_width,
            border_color: self.border_color,
            border_radius: self.border_radius,
            font_size: self.font_size,
            font_weight: self.font_weight,
            text_color: self.text_color,
            text_align: self.text_align,
            hover,
        }
    }
}

/// `over` when it is set, else `base`.
pub open spec fn pick<T>(base: Option<T>, over: Option<T>) -> Option<T> {
    if over is Some {
        over
    } else {
        base
    }
}

/// The hover refinement, or the empty refinement when there is none.
pub open spec fn hover_or_empty(hover: Option<Box<StyleRefinement>>) -> StyleRefinement {
    match hover {
        Some(h) => *h,
        None => empty_refinement(),
    }
}

/// `base` refined by `over`: every field that `over` sets wins, flags that
/// either sets stay set, and the hover refinements merge the same way.
pub open spec fn merged(base: StyleRefinement, over: StyleRefinement) -> StyleRefinement
    decreases over,
{
    StyleRefinement {
        display_flex: base.display_flex || over.display_flex,
        flex_direction: pick(base.flex_direction, over.flex_direction),
        flex_grow: pick(base.flex_grow, over.flex_grow),
        flex_shrink: pick(base.flex_shrink, over.flex_shrink),
        gap: pick(base.gap, over.gap),
        padding: pick(base.padding, over.padding),
        padding_x: pick(base.padding_x, over.padding_x),
        padding_y: pick(base.padding_y, over.padding_y),
        margin: pick(base.margin, over.margin),
        width: pick(base.width, over.width),
        height: pick(base.height, over.height),
        min_width: pick(base.min_width, over.min_width),
        min_height: pick(base.min_height, over.min_height),
        size_full: base.size_full || over.size_full,
        fill_width: base.fill_width || over.fill_width,
        fill_height: base.fill_height || over.fill_height,
        overflow_x: pick(base.overflow_x, over.overflow_x),
        overflow_y: pick(base.overflow_y, over.overflow_y),
        background: pick(base.background, over.background),
        border_width: pick(base.border_width, over.border_width),
        border_color: pick(base.border_color, over.border_color),
        border_radius: pick(base.border_radius, over.border_radius),
        font_size: pick(base.font_size, over.font_size),
        font_weight: pick(base.font_weight, over.font_weight),
        text_color: pick(base.text_color, over.text_color),
        text_align: pick(base.text_align, over.text_align),
        hover: match over.hover {
            Some(h) => Some(Box::new(merged(hover_or_empty(base.hover), *h))),
            None => base.hover,
        },
    }
}

/// `over` when it is set, else `base`.
pub fn pick_set<T: Copy>(base: Option<T>, over: Option<T>) -> (r: Option<T>)
    ensures
        r == pick(base, over),
{
    match over {
        Some(v) => Some(v),
        None => base,
    }
}

impl StyleRefinement {
    /// Refines `self` by `other`.
    pub fn merge_from(&mut self, other: &StyleRefinement)
        ensures
            *final(self) == merged(*old(self), *other),
        decreases other,
    {
        self.display_flex = self.display_flex || other.display_flex;
        self.size_full = self.size_full || other.size_full;
        self.fill_width = self.fill_width || other.fill_width;
        self.fill_height = self.fill_height || other.fill_height;
        self.flex_direction = pick_set(self.flex_direction, other.flex_direction);
        self.flex_grow = pick_set(self.flex_grow, other.flex_grow);
        self.flex_shrink = pick_set(self.flex_shrink, other.flex_shrink);
        self.gap = pick_set(self.gap, other.gap);
        self.padding = pick_set(self.padding, other.padding);
        self.padding_x = pick_set(self.padding_x, other.padding_x);
        self.padding_y = pick_set(self.padding_y, other.padding_y);
        self.margin = pick_set(self.margin, other.margin);
        self.width = pick_set(self.width, other.width);
        self.height = pick_set(self.height, other.height);
        self.min_width = pick_set(self.min_width, other.min_width);
        self.min_height = pick_set(self.min_height, other.min_height);
        self.overflow_x = pick_set(self.overflow_x, other.overflow_x);
        self.overflow_y = pick_set(self.overflow_y, other.overflow_y);
        self.background = pick_set(self.background, other.background);
        self.border_width = pick_set(self.border_width, other.border_width);
        self.border_color = pick_set(self.border_color, other.border_color);
        self.border_radius = pick_set(self.border_radius, other.border_radius);
        self.font_size = pick_set(self.font_size, other.font_size);
        self.font_weight = pick_set(self.font_weight, other.font_weight);
        self.text_color = pick_set(self.text_color, other.text_color);
        self.text_align = pick_set(self.text_align, other.text_align);
        match &other.hover {
            Some(hover) => {
                let mut slot = match self.hover.take() {
                    Some(existing) => *existing,
                    None => StyleRefinement::default(),
                };
                slot.merge_from(hover);
                self.hover = Some(Box::new(slot));
            },
            None => {},
        }
    }
}

/// Refining by nothing changes nothing.
pub proof fn lemma_merge_empty_right(a: StyleRefinement)
    ensures
        merged(a, empty_refinement()) == a,
{
}

/// Refining nothing by `b` gives `b`.
pub proof fn lemma_merge_empty_left(b: StyleRefinement)
    ensures
        merged(empty_refinement(), b) == b,
    decreases b,
{
    if let Some(h) = b.hover {
        lemma_merge_empty_left(*h);
    }
}

/// Refining a style by itself changes nothing.
pub proof fn lemma_merge_idempotent(a: StyleRefinement)
    ensures
        merged(a, a) == a,
    decreases a,
{
    if let Some(h) = a.hover {
        lemma_merge_idempotent(*h);
    }
}

/// Refining by `b` and then by `c` is refining by `b` refined by `c`: merged
/// refinements compose in any grouping.
pub proof fn lemma_merge_associative(a: StyleRefinement, b: StyleRefinement, c: StyleRefinement)
    ensures
        merged(merged(a, b), c) == merged(a, merged(b, c)),
    decreases c,
{
    if let Some(hc) = c.hover {
        match b.hover {
            Some(hb) => {
                lemma_merge_associative(hover_or_empty(a.hover), *hb, *hc);
            },
            None => {
                lemma_merge_empty_left(*hc);
            },
        }
    }
}

/// Whether `res` holds, field by field, what refining `base` by `over` asks
/// for (hover refinements aside): each value that `over` sets, else the value
/// of `base`; each flag that either sets.
pub open spec fn refines_fields(res: StyleRefinement, base: StyleRefinement, over: StyleRefinement) -> bool {
    &&& res.display_flex == (base.display_flex || over.display_flex)
    &&& res.size_full == (base.size_full || over.size_full)
    &&& res.fill_width == (base.fill_width || over.fill_width)
    &&& res.fill_height == (base.fill_height || over.fill_height)
    &&& res.flex_direction == (if over.flex_direction is Some {
        over.flex_direction
    } else {
        base.flex_direction
    })
    &&& res.flex_grow == (if over.flex_grow is Some {
        over.flex_grow
    } else {
        base.flex_grow
    })
    &&& res.flex_shrink == (if over.flex_shrink is Some {
        over.flex_shrink
    } else {
        base.flex_shrink
    })
    &&& res.gap == (if over.gap is Some {
        over.gap
    } else {
        base.gap
    })
    &&& res.padding == (if over.padding is Some {
        over.padding
    } else {
        base.padding
    })
    &&& res.padding_x == (if over.padding_x is Some {
        over.padding_x
    } else {
        base.padding_x
    })
    &&& res.padding_y == (if over.padding_y is Some {
        over.padding_y
    } else {
        base.padding_y
    })
    &&& res.margin == (if over.margin is Some {
        over.margin
    } else {
        base.margin
    })
    &&& res.width == (if over.width is Some {
        over.width
    } else {
        base.width
    })
    &&& res.height == (if over.height is Some {
        over.height
    } else {
        base.height
    })
    &&& res.min_width == (if over.min_width is Some {
        over.min_width
    } else {
        base.min_width
    })
    &&& res.min_height == (if over.min_height is Some {
        over.min_height
    } else {
        base.min_height
    })
    &&& res.overflow_x == (if over.overflow_x is Some {
        over.overflow_x
    } else {
        base.overflow_x
    })
    &&& res.overflow_y == (if over.overflow_y is Some {
        over.overflow_y
    } else {
        base.overflow_y
    })
    &&& res.background == (if over.background is Some {
        over.background
    } else {
        base.background
    })
    &&& res.border_width == (if over.border_width is Some {
        over.border_width
    } else {
        base.border_width
    })
    &&& res.border_color == (if over.border_color is Some {
        over.border_color
    } else {
        base.border_color
    })
    &&& res.border_radius == (if over.border_radius is Some {
        over.border_radius
    } else {
        base.border_radius
    })
    &&& res.font_size == (if over.font_size is Some {
        over.font_size
    } else {
        base.font_size
    })
    &&& res.font_weight == (if over.font_weight is Some {
        over.font_weight
    } else {
        base.font_weight
    })
    &&& res.text_color == (if over.text_color is Some {
        over.text_color
    } else {
        base.text_color
    })
    &&& res.text_align == (if over.text_align is Some {
        over.text_align
    } else {
        base.text_align
    })
}

/// Merging keeps what the newer refinement does not set and takes what it
/// does, field by field; hover refinements merge the same way, recursively:
/// when both have one, every hover field that `other`'s hover leaves unset
/// keeps its old value, and when only the old one has one, it stays.
pub proof fn lemma_merge_field_by_field(base: StyleRefinement, over: StyleRefinement)
    ensures
        refines_fields(merged(base, over), base, over),
        over.hover is None ==> merged(base, over).hover == base.hover,
        over.hover matches Some(oh) ==> (merged(base, over).hover matches Some(rh) && refines_fields(
            *rh,
            match base.hover {
                Some(bh) => *bh,
                None => empty_refinement(),
            },
            *oh,
        )),
{
    lemma_merge_refines_fields(base, over);
    if let Some(oh) = over.hover {
        let b = hover_or_empty(base.hover);
        lemma_merge_refines_fields(b, *oh);
        assert(merged(base, over).hover == Some(Box::new(merged(b, *oh))));
    }
}

proof fn lemma_merge_refines_fields(base: StyleRefinement, over: StyleRefinement)
    ensures
        refines_fields(merged(base, over), base, over),
{
}

} // verus!
