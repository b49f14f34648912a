//! Fluent style utilities: each sets fields of the element's refinement
//! and keeps everything else.

use vstd::prelude::*;
use crate::color::Color;
use crate::pixels::Pixels;
use crate::style::{empty_refinement, FlexDirection, FontWeight, OverflowAxis, StyleRefinement, TextAlign};

verus! {

/// Types that carry a [`StyleRefinement`] and can be refined fluently.
pub trait Styled: Sized {
    /// The refinement the value carries.
    spec fn style_view(&self) -> StyleRefinement;

    /// The value with its refinement replaced by `style`.
    spec fn with_style(&self, style: StyleRefinement) -> Self;

    /// Replacing the refinement and reading it back gives the new one.
    proof fn lemma_with_style(&self, style: StyleRefinement)
        ensures
            self.with_style(style).style_view() == style,
    ;

    fn style_mut(&mut self) -> (s: &mut StyleRefinement)
        ensures
            *s == old(self).style_view(),
            *final(self) == old(self).with_style(*final(s)),
    ;

    /// Turns on flex layout.
    fn flex(self) -> (r: Self)
        ensures
            r == self.with_style(StyleRefinement { display_flex: true, ..self.style_view() }),
    {
        let mut me = self;
        me.style_mut().display_flex = true;
        me
    }

    /// Flex layout in a column.
    fn flex_col(self) -> (r: Self)
        ensures
            r == self.with_style(StyleRefinement { display_flex: true, flex_direction: Some(FlexDirection::Column), ..self.style_view() }),
    {
        let mut me = self;
        let style = me.style_mut();
        style.display_flex = true;
        style.flex_direction = Some(FlexDirection::Column);
        me
    }

    /// Flex layout in a row.
    fn flex_row(self) -> (r: Self)
        ensures
            r == self.with_style(StyleRefinement { display_flex: true, flex_direction: Some(FlexDirection::Row), ..self.style_view() }),
    {
        let mut me = self;
        let style = me.style_mut();
        style.display_flex = true;
        style.flex_direction = Some(FlexDirection::Row);
        me
    }

    /// A gap of 4px.
    fn gap_1(self) -> (r: Self)
        ensures
            r == self.with_style(StyleRefinement { gap: Some(Pixels(0x4080_0000)), ..self.style_view() }),
    {
        let mut me = self;
        me.style_mut().gap = Some(Pixels(0x4080_0000));
        me
    }

    /// A gap of 8px.
    fn gap_2(self) -> (r: Self)
        ensures
            r == self.with_style(StyleRefinement { gap: Some(Pixels(0x4100_0000)), ..self.style_view() }),
    {
        let mut me = self;
        me.style_mut().gap = Some(Pixels(0x4100_0000));
        me
    }

    /// A gap of 12px.
    fn gap_3(self) -> (r: Self)
        ensures
            r == self.with_style(StyleRefinement { gap: Some(Pixels(0x4140_0000)), ..self.style_view() }),
    {
        let mut me = self;
        me.style_mut().gap = Some(Pixels(0x4140_0000));
        me
    }

    /// A gap of 16px.
    fn gap_4(self) -> (r: Self)
        ensures
            r == self.with_style(StyleRefinement { gap: Some(Pixels(0x4180_0000)), ..self.style_view() }),
    {
        let mut me = self;
        me.style_mut().gap = Some(Pixels(0x4180_0000));
        me
    }

    /// Padding of 8px.
    fn p_2(self) -> (r: Self)
        ensures
            r == self.with_style(StyleRefinement { padding: Some(Pixels(0x4100_0000)), ..self.style_view() }),
    {
        let mut me = self;
        me.style_mut().padding = Some(Pixels(0x4100_0000));
        me
    }

    /// Padding of 16px.
    fn p_4(self) -> (r: Self)
        ensures
            r == self.with_style(StyleRefinement { padding: Some(Pixels(0x4180_0000)), ..self.style_view() }),
    {
        let mut me = self;
        me.style_mut().padding = Some(Pixels(0x4180_0000));
        me
    }

    /// Padding of 24px.
    fn p_6(self) -> (r: Self)
        ensures
            r == self.with_style(StyleRefinement { padding: Some(Pixels(0x41c0_0000)), ..self.style_view() }),
    {
        let mut me = self;
        me.style_mut().padding = Some(Pixels(0x41c0_0000));
        me
    }

    /// Horizontal padding of 16px.
    fn px_4(self) -> (r: Self)
        ensures
            r == self.with_style(StyleRefinement { padding_x: Some(Pixels(0x4180_0000)), ..self.style_view() }),
    {
        let mut me = self;
        me.style_mut().padding_x = Some(Pixels(0x4180_0000));
        me
    }

    /// Vertical padding of 8px.
    fn py_2(self) -> (r: Self)
        ensures
            r == self.with_style(StyleRefinement { padding_y: Some(Pixels(0x4100_0000)), ..self.style_view() }),
    {
        let mut me = self;
        me.style_mut().padding_y = Some(Pixels(0x4100_0000));
        me
    }

    /// A margin of 8px.
    fn m_2(self) -> (r: Self)
        ensures
            r == self.with_style(StyleRefinement { margin: Some(Pixels(0x4100_0000)), ..self.style_view() }),
    {
        let mut me = self;
        me.style_mut().margin = Some(Pixels(0x4100_0000));
        me
    }

    /// Fills the parent in both directions.
    fn size_full(self) -> (r: Self)
        ensures
            r == self.with_style(StyleRefinement { size_full: true, ..self.style_view() }),
    {
        let mut me = self;
        me.style_mut().size_full = true;
        me
    }

    /// Fills the parent's width.
    fn w_full(self) -> (r: Self)
        ensures
            r == self.with_style(StyleRefinement { fill_width: true, ..self.style_view() }),
    {
        let mut me = self;
        me.style_mut().fill_width = true;
        me
    }

    /// Fills the parent's height.
    fn h_full(self) -> (r: Self)
        ensures
            r == self.with_style(StyleRefinement { fill_height: true, ..self.style_view() }),
    {
        let mut me = self;
        me.style_mut().fill_height = true;
        me
    }

    /// Scrolls on both axes.
    fn overflow_scroll(self) -> (r: Self)
        ensures
            r == self.with_style(StyleRefinement { overflow_x: Some(OverflowAxis::Scroll), overflow_y: Some(OverflowAxis::Scroll), ..self.style_view() }),
    {
        let mut me = self;
        let style = me.style_mut();
        style.overflow_x = Some(OverflowAxis::Scroll);
        style.overflow_y = Some(OverflowAxis::Scroll);
        me
    }

    /// Scrolls vertically.
    fn overflow_y_scroll(self) -> (r: Self)
        ensures
            r == self.with_style(StyleRefinement { overflow_y: Some(OverflowAxis::Scroll), ..self.style_view() }),
    {
        let mut me = self;
        me.style_mut().overflow_y = Some(OverflowAxis::Scroll);
        me
    }

    /// A 1px border.
    fn border_1(self) -> (r: Self)
        ensures
            r == self.with_style(StyleRefinement { border_width: Some(Pixels(0x3f80_0000)), ..self.style_view() }),
    {
        let mut me = self;
        me.style_mut().border_width = Some(Pixels(0x3f80_0000));
        me
    }

    /// Corner radius of 6px.
    fn rounded_md(self) -> (r: Self)
        ensures
            r == self.with_style(StyleRefinement { border_radius: Some(Pixels(0x40c0_0000)), ..self.style_view() }),
    {
        let mut me = self;
        me.style_mut().border_radius = Some(Pixels(0x40c0_0000));
        me
    }

    /// Corner radius of 8px.
    fn rounded_lg(self) -> (r: Self)
        ensures
            r == self.with_style(StyleRefinement { border_radius: Some(Pixels(0x4100_0000)), ..self.style_view() }),
    {
        let mut me = self;
        me.style_mut().border_radius = Some(Pixels(0x4100_0000));
        me
    }

    /// Font size of 14px.
    fn text_sm(self) -> (r: Self)
        ensures
            r == self.with_style(StyleRefinement { font_size: Some(Pixels(0x4160_0000)), ..self.style_view() }),
    {
        let mut me = self;
        me.style_mut().font_size = Some(Pixels(0x4160_0000));
        me
    }

    /// Font size of 16px.
    fn text_base(self) -> (r: Self)
        ensures
            r == self.with_style(StyleRefinement { font_size: Some(Pixels(0x4180_0000)), ..self.style_view() }),
    {
        let mut me = self;
        me.style_mut().font_size = Some(Pixels(0x4180_0000));
        me
    }

    /// Font size of 18px.
    fn text_lg(self) -> (r: Self)
        ensures
            r == self.with_style(StyleRefinement { font_size: Some(Pixels(0x4190_0000)), ..self.style_view() }),
    {
        let mut me = self;
        me.style_mut().font_size = Some(Pixels(0x4190_0000));
        me
    }

    /// Font size of 20px.
    fn text_xl(self) -> (r: Self)
        ensures
            r == self.with_style(StyleRefinement { font_size: Some(Pixels(0x41a0_0000)), ..self.style_view() }),
    {
        let mut me = self;
        me.style_mut().font_size = Some(Pixels(0x41a0_0000));
        me
    }

    /// Font size of 24px.
    fn text_2xl(self) -> (r: Self)
        ensures
            r == self.with_style(StyleRefinement { font_size: Some(Pixels(0x41c0_0000)), ..self.style_view() }),
    {
        let mut me = self;
        me.style_mut().font_size = Some(Pixels(0x41c0_0000));
        me
    }

    /// Font size of 36px.
    fn text_4xl(self) -> (r: Self)
        ensures
            r == self.with_style(StyleRefinement { font_size: Some(Pixels(0x4210_0000)), ..self.style_view() }),
    {
        let mut me = self;
        me.style_mut().font_size = Some(Pixels(0x4210_0000));
        me
    }

    /// Medium font weight.
    fn font_medium(self) -> (r: Self)
        ensures
            r == self.with_style(StyleRefinement { font_weight: Some(FontWeight::Medium), ..self.style_view() }),
    {
        let mut me = self;
        me.style_mut().font_weight = Some(FontWeight::Medium);
        me
    }

    /// Semibold font weight.
    fn font_semibold(self) -> (r: Self)
        ensures
            r == self.with_style(StyleRefinement { font_weight: Some(FontWeight::Semibold), ..self.style_view() }),
    {
        let mut me = self;
        me.style_mut().font_weight = Some(FontWeight::Semibold);
        me
    }

    /// Bold font weight.
    fn font_bold(self) -> (r: Self)
        ensures
            r == self.with_style(StyleRefinement { font_weight: Some(FontWeight::Bold), ..self.style_view() }),
    {
        let mut me = self;
        me.style_mut().font_weight = Some(FontWeight::Bold);
        me
    }

    /// Centered text.
    fn text_center(self) -> (r: Self)
        ensures
            r == self.with_style(StyleRefinement { text_align: Some(TextAlign::Center), ..self.style_view() }),
    {
        let mut me = self;
        me.style_mut().text_align = Some(TextAlign::Center);
        me
    }

    /// A gap between children.
    fn gap(self, value: Pixels) -> (r: Self)
        ensures
            r == self.with_style(StyleRefinement { gap: Some(value), ..self.style_view() }),
    {
        let mut me = self;
        me.style_mut().gap = Some(value);
        me
    }

    /// Padding on every side.
    fn p(self, value: Pixels) -> (r: Self)
        ensures
            r == self.with_style(StyleRefinement { padding: Some(value), ..self.style_view() }),
    {
        let mut me = self;
        me.style_mut().padding = Some(value);
        me
    }

    /// The border color.
    fn border_color(self, color: Color) -> (r: Self)
        ensures
            r == self.with_style(StyleRefinement { border_color: Some(color), ..self.style_view() }),
    {
        let mut me = self;
        me.style_mut().border_color = Some(color);
        me
    }

    /// The background color.
    fn bg(self, color: Color) -> (r: Self)
        ensures
            r == self.with_style(StyleRefinement { background: Some(color), ..self.style_view() }),
    {
        let mut me = self;
        me.style_mut().background = Some(color);
        me
    }

    /// The text color.
    fn text_color(self, color: Color) -> (r: Self)
        ensures
            r == self.with_style(StyleRefinement { text_color: Some(color), ..self.style_view() }),
    {
        let mut me = self;
        me.style_mut().text_color = Some(color);
        me
    }

    /// The refinement applied while the pointer hovers the element: what
    /// `refine` makes of an empty refinement.
    fn hover<F: FnOnce(StyleRefinement) -> StyleRefinement>(self, refine: F) -> (r: Self)
        requires
            call_requires(refine, (empty_refinement(),)),
        ensures
            exists|h: StyleRefinement|
                call_ensures(refine, (empty_refinement(),), h) && r == self.with_style(
                    StyleRefinement { hover: Some(Box::new(h)), ..self.style_view() },
                ),
    {
        let hover = refine(StyleRefinement::default());
        let mut me = self;
        me.style_mut().hover = Some(Box::new(hover));
        me
    }
}

} // verus!
