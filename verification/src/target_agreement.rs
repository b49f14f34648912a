//! Laws that tie the two translations of a style refinement together: the
//! Tailwind classes of the DOM renderer and the layout style of the widget
//! bridge read the same facts from it.

use vstd::prelude::*;
use crate::pixels::f32_bits_to_i32;
use crate::style::{FontWeight, OverflowAxis, StyleRefinement, TextAlign};
use crate::taffy_map::{layout_style_spec, Dimension, Overflow};
use crate::tailwind_map::{
    background_segment, border_segment, direction_segment, display_segment, font_size_segment,
    font_weight_segment, gap_segment, grow_segment, overflow_segment, padding_class_spec,
    padding_segment, radius_segment, size_segment, text_align_segment, text_color_segment,
    utility_classes, font_weight_class_spec, gap_class_spec, text_align_class_spec,
    text_size_class_spec,
};

verus! {

proof fn lemma_contains_concat(a: Seq<Seq<char>>, b: Seq<Seq<char>>)
    ensures
        forall|x: Seq<char>| #[trigger] (a + b).contains(x) == (a.contains(x) || b.contains(x)),
{
    assert forall|x: Seq<char>| #[trigger] (a + b).contains(x) == (a.contains(x) || b.contains(x)) by {
        if a.contains(x) {
            let i = choose|i: int| 0 <= i < a.len() && a[i] == x;
            assert((a + b)[i] == x);
        }
        if b.contains(x) {
            let i = choose|i: int| 0 <= i < b.len() && b[i] == x;
            assert((a + b)[a.len() + i] == x);
        }
        if (a + b).contains(x) {
            let i = choose|i: int| 0 <= i < a.len() + b.len() && (a + b)[i] == x;
            if i < a.len() {
                assert(a[i] == x);
            } else {
                assert(b[i - a.len()] == x);
            }
        }
    }
}

/// The Tailwind classes and the layout style read the same facts from a
/// refinement: the `flex` class appears exactly when the layout displays
/// flex, `w-full` and `h-full` exactly when the layout fills that axis, and
/// `overflow-auto` exactly when the layout scrolls on some axis, for
/// refinements that do not ask for `auto` overflow (which scrolls in the
/// layout but has no class of its own).
pub proof fn lemma_tailwind_and_layout_agree(r: StyleRefinement)
    requires
        r.overflow_x != Some(OverflowAxis::Auto),
        r.overflow_y != Some(OverflowAxis::Auto),
    ensures
        utility_classes(r).contains("flex"@) == layout_style_spec(r).display_flex,
        utility_classes(r).contains("w-full"@) == (layout_style_spec(r).width == Dimension::Full),
        utility_classes(r).contains("h-full"@) == (layout_style_spec(r).height == Dimension::Full),
        utility_classes(r).contains("overflow-auto"@) == (layout_style_spec(r).overflow_x
            == Overflow::Scroll || layout_style_spec(r).overflow_y == Overflow::Scroll),
{
    let s1 = display_segment(r);
    let s2 = s1 + direction_segment(r);
    let s3 = s2 + grow_segment(r);
    let s4 = s3 + gap_segment(r);
    let s5 = s4 + padding_segment(r);
    let s6 = s5 + size_segment(r);
    let s7 = s6 + overflow_segment(r);
    let s8 = s7 + border_segment(r);
    let s9 = s8 + radius_segment(r);
    let s10 = s9 + font_size_segment(r);
    let s11 = s10 + font_weight_segment(r);
    let s12 = s11 + text_align_segment(r);
    let s13 = s12 + background_segment(r);
    let s14 = s13 + text_color_segment(r);
    assert(s14 == utility_classes(r));
    lemma_contains_concat(s1, direction_segment(r));
    lemma_contains_concat(s2, grow_segment(r));
    lemma_contains_concat(s3, gap_segment(r));
    lemma_contains_concat(s4, padding_segment(r));
    lemma_contains_concat(s5, size_segment(r));
    lemma_contains_concat(s6, overflow_segment(r));
    lemma_contains_concat(s7, border_segment(r));
    lemma_contains_concat(s8, radius_segment(r));
    lemma_contains_concat(s9, font_size_segment(r));
    lemma_contains_concat(s10, font_weight_segment(r));
    lemma_contains_concat(s11, text_align_segment(r));
    lemma_contains_concat(s12, background_segment(r));
    lemma_contains_concat(s13, text_color_segment(r));
    lemma_direction_unrelated(r);
    lemma_grow_unrelated(r);
    lemma_gap_unrelated(r);
    lemma_padding_unrelated(r);
    lemma_border_unrelated(r);
    lemma_radius_unrelated(r);
    lemma_font_size_unrelated(r);
    lemma_font_weight_unrelated(r);
    lemma_text_align_unrelated(r);
    lemma_background_unrelated(r);
    lemma_text_color_unrelated(r);
    lemma_display_classes(r);
    lemma_size_classes(r);
    lemma_overflow_classes(r);
}

/// Whether a class name is none of the classes the layout agreement speaks
/// of.
spec fn unrelated_class(c: Seq<char>) -> bool {
    c != "flex"@ && c != "w-full"@ && c != "h-full"@ && c != "overflow-auto"@
}

proof fn lemma_unrelated_absent(s: Seq<Seq<char>>)
    requires
        forall|i: int| 0 <= i < s.len() ==> unrelated_class(#[trigger] s[i]),
    ensures
        !s.contains("flex"@),
        !s.contains("w-full"@),
        !s.contains("h-full"@),
        !s.contains("overflow-auto"@),
{
}

proof fn lemma_direction_unrelated(r: StyleRefinement)
    ensures
        !direction_segment(r).contains("flex"@),
        !direction_segment(r).contains("w-full"@),
        !direction_segment(r).contains("h-full"@),
        !direction_segment(r).contains("overflow-auto"@),
{
    reveal_strlit("flex");
    reveal_strlit("w-full");
    reveal_strlit("h-full");
    reveal_strlit("overflow-auto");
    reveal_strlit("flex-col");
    reveal_strlit("flex-row");
    let s = direction_segment(r);
    assert forall|i: int| 0 <= i < s.len() implies unrelated_class(#[trigger] s[i]) by {
        assert(s[i] == "flex-col"@ || s[i] == "flex-row"@);
    }
    lemma_unrelated_absent(s);
}

proof fn lemma_grow_unrelated(r: StyleRefinement)
    ensures
        !grow_segment(r).contains("flex"@),
        !grow_segment(r).contains("w-full"@),
        !grow_segment(r).contains("h-full"@),
        !grow_segment(r).contains("overflow-auto"@),
{
    reveal_strlit("flex");
    reveal_strlit("w-full");
    reveal_strlit("h-full");
    reveal_strlit("overflow-auto");
    reveal_strlit("flex-1");
    assert("flex-1"@ != "w-full"@) by {
        assert("flex-1"@[0] != "w-full"@[0]);
    }
    assert("flex-1"@ != "h-full"@) by {
        assert("flex-1"@[0] != "h-full"@[0]);
    }
    let s = grow_segment(r);
    assert forall|i: int| 0 <= i < s.len() implies unrelated_class(#[trigger] s[i]) by {
        assert(s[i] == "flex-1"@);
    }
    lemma_unrelated_absent(s);
}

proof fn lemma_gap_unrelated(r: StyleRefinement)
    ensures
        !gap_segment(r).contains("flex"@),
        !gap_segment(r).contains("w-full"@),
        !gap_segment(r).contains("h-full"@),
        !gap_segment(r).contains("overflow-auto"@),
{
    reveal_strlit("flex");
    reveal_strlit("w-full");
    reveal_strlit("h-full");
    reveal_strlit("overflow-auto");
    reveal_strlit("gap-1");
    reveal_strlit("gap-2");
    reveal_strlit("gap-3");
    reveal_strlit("gap-4");
    reveal_strlit("gap-6");
    let s = gap_segment(r);
    assert forall|i: int| 0 <= i < s.len() implies unrelated_class(#[trigger] s[i]) by {
        assert(s[i] == "gap-1"@ || s[i] == "gap-2"@ || s[i] == "gap-3"@ || s[i] == "gap-4"@ || s[i] == "gap-6"@);
    }
    lemma_unrelated_absent(s);
}

proof fn lemma_padding_unrelated(r: StyleRefinement)
    ensures
        !padding_segment(r).contains("flex"@),
        !padding_segment(r).contains("w-full"@),
        !padding_segment(r).contains("h-full"@),
        !padding_segment(r).contains("overflow-auto"@),
{
    reveal_strlit("flex");
    reveal_strlit("w-full");
    reveal_strlit("h-full");
    reveal_strlit("overflow-auto");
    reveal_strlit("p-2");
    reveal_strlit("p-4");
    reveal_strlit("p-6");
    reveal_strlit("px-4");
    reveal_strlit("py-2");
    if let Some(p) = r.padding {
        assert(padding_segment(r)[0] == padding_class_spec(p.0));
    }
    assert("px-4"@ != "flex"@) by {
        assert("px-4"@[0] != "flex"@[0]);
    }
    assert("py-2"@ != "flex"@) by {
        assert("py-2"@[0] != "flex"@[0]);
    }
    let s = padding_segment(r);
    assert forall|i: int| 0 <= i < s.len() implies unrelated_class(#[trigger] s[i]) by {
        assert(s[i] == "p-2"@ || s[i] == "p-4"@ || s[i] == "p-6"@ || s[i] == "px-4"@ || s[i] == "py-2"@);
    }
    lemma_unrelated_absent(s);
}

proof fn lemma_border_unrelated(r: StyleRefinement)
    ensures
        !border_segment(r).contains("flex"@),
        !border_segment(r).contains("w-full"@),
        !border_segment(r).contains("h-full"@),
        !border_segment(r).contains("overflow-auto"@),
{
    reveal_strlit("flex");
    reveal_strlit("w-full");
    reveal_strlit("h-full");
    reveal_strlit("overflow-auto");
    reveal_strlit("border");
    assert("border"@ != "w-full"@) by {
        assert("border"@[0] != "w-full"@[0]);
    }
    assert("border"@ != "h-full"@) by {
        assert("border"@[0] != "h-full"@[0]);
    }
    let s = border_segment(r);
    assert forall|i: int| 0 <= i < s.len() implies unrelated_class(#[trigger] s[i]) by {
        assert(s[i] == "border"@);
    }
    lemma_unrelated_absent(s);
}

proof fn lemma_radius_unrelated(r: StyleRefinement)
    ensures
        !radius_segment(r).contains("flex"@),
        !radius_segment(r).contains("w-full"@),
        !radius_segment(r).contains("h-full"@),
        !radius_segment(r).contains("overflow-auto"@),
{
    reveal_strlit("flex");
    reveal_strlit("w-full");
    reveal_strlit("h-full");
    reveal_strlit("overflow-auto");
    reveal_strlit("rounded-md");
    let s = radius_segment(r);
    assert forall|i: int| 0 <= i < s.len() implies unrelated_class(#[trigger] s[i]) by {
        assert(s[i] == "rounded-md"@);
    }
    lemma_unrelated_absent(s);
}

proof fn lemma_font_size_unrelated(r: StyleRefinement)
    ensures
        !font_size_segment(r).contains("flex"@),
        !font_size_segment(r).contains("w-full"@),
        !font_size_segment(r).contains("h-full"@),
        !font_size_segment(r).contains("overflow-auto"@),
{
    reveal_strlit("flex");
    reveal_strlit("w-full");
    reveal_strlit("h-full");
    reveal_strlit("overflow-auto");
    reveal_strlit("text-sm");
    reveal_strlit("text-base");
    reveal_strlit("text-lg");
    reveal_strlit("text-xl");
    reveal_strlit("text-2xl");
    reveal_strlit("text-4xl");
    let s = font_size_segment(r);
    assert forall|i: int| 0 <= i < s.len() implies unrelated_class(#[trigger] s[i]) by {
        assert(s[i] == "text-sm"@ || s[i] == "text-base"@ || s[i] == "text-lg"@ || s[i] == "text-xl"@ || s[i] == "text-2xl"@ || s[i] == "text-4xl"@);
    }
    lemma_unrelated_absent(s);
}

proof fn lemma_font_weight_unrelated(r: StyleRefinement)
    ensures
        !font_weight_segment(r).contains("flex"@),
        !font_weight_segment(r).contains("w-full"@),
        !font_weight_segment(r).contains("h-full"@),
        !font_weight_segment(r).contains("overflow-auto"@),
{
    reveal_strlit("flex");
    reveal_strlit("w-full");
    reveal_strlit("h-full");
    reveal_strlit("overflow-auto");
    reveal_strlit("font-normal");
    reveal_strlit("font-medium");
    reveal_strlit("font-semibold");
    reveal_strlit("font-bold");
    assert("font-semibold"@ != "overflow-auto"@) by {
        assert("font-semibold"@[0] != "overflow-auto"@[0]);
    }
    let s = font_weight_segment(r);
    assert forall|i: int| 0 <= i < s.len() implies unrelated_class(#[trigger] s[i]) by {
        assert(s[i] == "font-normal"@ || s[i] == "font-medium"@ || s[i] == "font-semibold"@ || s[i] == "font-bold"@);
    }
    lemma_unrelated_absent(s);
}

proof fn lemma_text_align_unrelated(r: StyleRefinement)
    ensures
        !text_align_segment(r).contains("flex"@),
        !text_align_segment(r).contains("w-full"@),
        !text_align_segment(r).contains("h-full"@),
        !text_align_segment(r).contains("overflow-auto"@),
{
    reveal_strlit("flex");
    reveal_strlit("w-full");
    reveal_strlit("h-full");
    reveal_strlit("overflow-auto");
    reveal_strlit("text-left");
    reveal_strlit("text-center");
    reveal_strlit("text-right");
    let s = text_align_segment(r);
    assert forall|i: int| 0 <= i < s.len() implies unrelated_class(#[trigger] s[i]) by {
        assert(s[i] == "text-left"@ || s[i] == "text-center"@ || s[i] == "text-right"@);
    }
    lemma_unrelated_absent(s);
}

proof fn lemma_background_unrelated(r: StyleRefinement)
    ensures
        !background_segment(r).contains("flex"@),
        !background_segment(r).contains("w-full"@),
        !background_segment(r).contains("h-full"@),
        !background_segment(r).contains("overflow-auto"@),
{
    reveal_strlit("flex");
    reveal_strlit("w-full");
    reveal_strlit("h-full");
    reveal_strlit("overflow-auto");
    reveal_strlit("bg-surface");
    let s = background_segment(r);
    assert forall|i: int| 0 <= i < s.len() implies unrelated_class(#[trigger] s[i]) by {
        assert(s[i] == "bg-surface"@);
    }
    lemma_unrelated_absent(s);
}

proof fn lemma_text_color_unrelated(r: StyleRefinement)
    ensures
        !text_color_segment(r).contains("flex"@),
        !text_color_segment(r).contains("w-full"@),
        !text_color_segment(r).contains("h-full"@),
        !text_color_segment(r).contains("overflow-auto"@),
{
    reveal_strlit("flex");
    reveal_strlit("w-full");
    reveal_strlit("h-full");
    reveal_strlit("overflow-auto");
    reveal_strlit("text-foreground");
    let s = text_color_segment(r);
    assert forall|i: int| 0 <= i < s.len() implies unrelated_class(#[trigger] s[i]) by {
        assert(s[i] == "text-foreground"@);
    }
    lemma_unrelated_absent(s);
}

proof fn lemma_display_classes(r: StyleRefinement)
    ensures
        display_segment(r).contains("flex"@) == r.display_flex,
        !display_segment(r).contains("w-full"@),
        !display_segment(r).contains("h-full"@),
        !display_segment(r).contains("overflow-auto"@),
{
    reveal_strlit("flex");
    reveal_strlit("w-full");
    reveal_strlit("h-full");
    reveal_strlit("overflow-auto");
    if r.display_flex {
        assert(display_segment(r)[0] == "flex"@);
    }
}

proof fn lemma_size_classes(r: StyleRefinement)
    ensures
        !size_segment(r).contains("flex"@),
        size_segment(r).contains("w-full"@) == (r.size_full || r.fill_width),
        size_segment(r).contains("h-full"@) == (r.size_full || r.fill_height),
        !size_segment(r).contains("overflow-auto"@),
{
    reveal_strlit("flex");
    reveal_strlit("w-full");
    reveal_strlit("h-full");
    reveal_strlit("overflow-auto");
    assert("w-full"@ != "h-full"@) by {
        assert("w-full"@[0] != "h-full"@[0]);
    }
    let s = size_segment(r);
    if r.size_full {
        assert(s[0] == "w-full"@);
        assert(s[1] == "h-full"@);
    } else {
        if r.fill_width {
            assert(s[0] == "w-full"@);
        }
        if r.fill_height {
            assert(s[s.len() - 1] == "h-full"@);
        }
        if s.contains("w-full"@) {
            let i = choose|i: int| 0 <= i < s.len() && s[i] == "w-full"@;
            assert(r.fill_width);
        }
        if s.contains("h-full"@) {
            let i = choose|i: int| 0 <= i < s.len() && s[i] == "h-full"@;
            assert(r.fill_height);
        }
    }
    if s.contains("overflow-auto"@) {
        let i = choose|i: int| 0 <= i < s.len() && s[i] == "overflow-auto"@;
        assert(s[i] == "w-full"@ || s[i] == "h-full"@);
    }
    if s.contains("flex"@) {
        let i = choose|i: int| 0 <= i < s.len() && s[i] == "flex"@;
        assert(s[i] == "w-full"@ || s[i] == "h-full"@);
    }
}

proof fn lemma_overflow_classes(r: StyleRefinement)
    ensures
        !overflow_segment(r).contains("flex"@),
        !overflow_segment(r).contains("w-full"@),
        !overflow_segment(r).contains("h-full"@),
        overflow_segment(r).contains("overflow-auto"@) == (r.overflow_x == Some(OverflowAxis::Scroll)
            || r.overflow_y == Some(OverflowAxis::Scroll)),
{
    reveal_strlit("flex");
    reveal_strlit("w-full");
    reveal_strlit("h-full");
    reveal_strlit("overflow-auto");
    if r.overflow_x == Some(OverflowAxis::Scroll) || r.overflow_y == Some(OverflowAxis::Scroll) {
        assert(overflow_segment(r)[0] == "overflow-auto"@);
    }
}

/// Every class of every segment is among the utility classes.
proof fn lemma_segments_in_utilities(r: StyleRefinement)
    ensures
        forall|x: Seq<char>| #[trigger] gap_segment(r).contains(x) ==> utility_classes(r).contains(x),
        forall|x: Seq<char>| #[trigger] padding_segment(r).contains(x) ==> utility_classes(r).contains(x),
        forall|x: Seq<char>| #[trigger] font_size_segment(r).contains(x) ==> utility_classes(r).contains(x),
        forall|x: Seq<char>| #[trigger] font_weight_segment(r).contains(x) ==> utility_classes(r).contains(x),
        forall|x: Seq<char>| #[trigger] text_align_segment(r).contains(x) ==> utility_classes(r).contains(x),
{
    let s1 = display_segment(r);
    let s2 = s1 + direction_segment(r);
    let s3 = s2 + grow_segment(r);
    let s4 = s3 + gap_segment(r);
    let s5 = s4 + padding_segment(r);
    let s6 = s5 + size_segment(r);
    let s7 = s6 + overflow_segment(r);
    let s8 = s7 + border_segment(r);
    let s9 = s8 + radius_segment(r);
    let s10 = s9 + font_size_segment(r);
    let s11 = s10 + font_weight_segment(r);
    let s12 = s11 + text_align_segment(r);
    let s13 = s12 + background_segment(r);
    let s14 = s13 + text_color_segment(r);
    assert(s14 == utility_classes(r));
    lemma_contains_concat(s3, gap_segment(r));
    lemma_contains_concat(s4, padding_segment(r));
    lemma_contains_concat(s5, size_segment(r));
    lemma_contains_concat(s6, overflow_segment(r));
    lemma_contains_concat(s7, border_segment(r));
    lemma_contains_concat(s8, radius_segment(r));
    lemma_contains_concat(s9, font_size_segment(r));
    lemma_contains_concat(s10, font_weight_segment(r));
    lemma_contains_concat(s11, text_align_segment(r));
    lemma_contains_concat(s12, background_segment(r));
    lemma_contains_concat(s13, text_color_segment(r));
    assert(s14 == utility_classes(r));
}

/// The Tailwind scales: a font size of 14, 16, 18, 20, 24 or 36 whole pixels
/// gives `text-sm`, `text-base`, `text-lg`, `text-xl`, `text-2xl` or
/// `text-4xl`; a gap of 4, 8, 12, 16 or 24 gives `gap-1`, `gap-2`, `gap-3`,
/// `gap-4` or `gap-6`; a uniform padding of 8, 16 or 24 gives `p-2`, `p-4` or
/// `p-6`, and without one a horizontal or vertical padding gives `px-4` or
/// `py-2`; each font weight and alignment gives its own class.
pub proof fn lemma_tailwind_scales(r: StyleRefinement)
    ensures
        r.font_size matches Some(p) ==> {
            let v = f32_bits_to_i32(p.0);
            &&& v == 14 ==> utility_classes(r).contains("text-sm"@)
            &&& v == 16 ==> utility_classes(r).contains("text-base"@)
            &&& v == 18 ==> utility_classes(r).contains("text-lg"@)
            &&& v == 20 ==> utility_classes(r).contains("text-xl"@)
            &&& v == 24 ==> utility_classes(r).contains("text-2xl"@)
            &&& v == 36 ==> utility_classes(r).contains("text-4xl"@)
        },
        r.gap matches Some(g) ==> {
            let v = f32_bits_to_i32(g.0);
            &&& v == 4 ==> utility_classes(r).contains("gap-1"@)
            &&& v == 8 ==> utility_classes(r).contains("gap-2"@)
            &&& v == 12 ==> utility_classes(r).contains("gap-3"@)
            &&& v == 16 ==> utility_classes(r).contains("gap-4"@)
            &&& v == 24 ==> utility_classes(r).contains("gap-6"@)
        },
        r.padding matches Some(p) ==> {
            let v = f32_bits_to_i32(p.0);
            &&& v == 8 ==> utility_classes(r).contains("p-2"@)
            &&& v == 16 ==> utility_classes(r).contains("p-4"@)
            &&& v == 24 ==> utility_classes(r).contains("p-6"@)
        },
        r.padding is None && r.padding_x is Some ==> utility_classes(r).contains("px-4"@),
        r.padding is None && r.padding_y is Some ==> utility_classes(r).contains("py-2"@),
        r.font_weight == Some(FontWeight::Normal) ==> utility_classes(r).contains("font-normal"@),
        r.font_weight == Some(FontWeight::Medium) ==> utility_classes(r).contains("font-medium"@),
        r.font_weight == Some(FontWeight::Semibold) ==> utility_classes(r).contains("font-semibold"@),
        r.font_weight == Some(FontWeight::Bold) ==> utility_classes(r).contains("font-bold"@),
        r.text_align == Some(TextAlign::Left) ==> utility_classes(r).contains("text-left"@),
        r.text_align == Some(TextAlign::Center) ==> utility_classes(r).contains("text-center"@),
        r.text_align == Some(TextAlign::Right) ==> utility_classes(r).contains("text-right"@),
{
    lemma_text_size_scale(r);
    lemma_spacing_scales(r);
    lemma_weight_and_align_classes(r);
}

proof fn lemma_text_size_scale(r: StyleRefinement)
    ensures
        r.font_size matches Some(p) ==> {
            let v = f32_bits_to_i32(p.0);
            &&& v == 14 ==> utility_classes(r).contains("text-sm"@)
            &&& v == 16 ==> utility_classes(r).contains("text-base"@)
            &&& v == 18 ==> utility_classes(r).contains("text-lg"@)
            &&& v == 20 ==> utility_classes(r).contains("text-xl"@)
            &&& v == 24 ==> utility_classes(r).contains("text-2xl"@)
            &&& v == 36 ==> utility_classes(r).contains("text-4xl"@)
        },
{
    lemma_segments_in_utilities(r);
    if let Some(p) = r.font_size {
        let c = text_size_class_spec(p.0);
        assert(font_size_segment(r)[0] == c);
        assert(font_size_segment(r).contains(c));
        assert(utility_classes(r).contains(c));
    }
}

proof fn lemma_spacing_scales(r: StyleRefinement)
    ensures
        r.gap matches Some(g) ==> {
            let v = f32_bits_to_i32(g.0);
            &&& v == 4 ==> utility_classes(r).contains("gap-1"@)
            &&& v == 8 ==> utility_classes(r).contains("gap-2"@)
            &&& v == 12 ==> utility_classes(r).contains("gap-3"@)
            &&& v == 16 ==> utility_classes(r).contains("gap-4"@)
            &&& v == 24 ==> utility_classes(r).contains("gap-6"@)
        },
        r.padding matches Some(p) ==> {
            let v = f32_bits_to_i32(p.0);
            &&& v == 8 ==> utility_classes(r).contains("p-2"@)
            &&& v == 16 ==> utility_classes(r).contains("p-4"@)
            &&& v == 24 ==> utility_classes(r).contains("p-6"@)
        },
        r.padding is None && r.padding_x is Some ==> utility_classes(r).contains("px-4"@),
        r.padding is None && r.padding_y is Some ==> utility_classes(r).contains("py-2"@),
{
    lemma_segments_in_utilities(r);
    if let Some(g) = r.gap {
        let c = gap_class_spec(g.0);
        assert(gap_segment(r)[0] == c);
        assert(gap_segment(r).contains(c));
    }
    let ps = padding_segment(r);
    if let Some(p) = r.padding {
        let c = padding_class_spec(p.0);
        assert(ps[0] == c);
        assert(ps.contains(c));
    } else {
        if r.padding_x is Some {
            assert(ps[0] == "px-4"@);
            assert(ps.contains("px-4"@));
        }
        if r.padding_y is Some {
            assert(ps[ps.len() - 1] == "py-2"@);
            assert(ps.contains("py-2"@));
        }
    }
}

proof fn lemma_weight_and_align_classes(r: StyleRefinement)
    ensures
        r.font_weight == Some(FontWeight::Normal) ==> utility_classes(r).contains("font-normal"@),
        r.font_weight == Some(FontWeight::Medium) ==> utility_classes(r).contains("font-medium"@),
        r.font_weight == Some(FontWeight::Semibold) ==> utility_classes(r).contains("font-semibold"@),
        r.font_weight == Some(FontWeight::Bold) ==> utility_classes(r).contains("font-bold"@),
        r.text_align == Some(TextAlign::Left) ==> utility_classes(r).contains("text-left"@),
        r.text_align == Some(TextAlign::Center) ==> utility_classes(r).contains("text-center"@),
        r.text_align == Some(TextAlign::Right) ==> utility_classes(r).contains("text-right"@),
{
    lemma_segments_in_utilities(r);
    if let Some(w) = r.font_weight {
        let c = font_weight_class_spec(w);
        assert(font_weight_segment(r)[0] == c);
        assert(font_weight_segment(r).contains(c));
    }
    if let Some(a) = r.text_align {
        let c = text_align_class_spec(a);
        assert(text_align_segment(r)[0] == c);
        assert(text_align_segment(r).contains(c));
    }
}
} // verus!
