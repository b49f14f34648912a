//! Maps [`StyleRefinement`] values to Tailwind utility class names.

use vstd::prelude::*;
use crate::color::Color;
use crate::decimal::{decimal, digit_char, push_decimal};
use crate::pixels::{f32_bits_to_i32, within_epsilon_of_one, Pixels};
use crate::style::{FlexDirection, FontWeight, OverflowAxis, StyleRefinement, TextAlign};

verus! {

/// The gap utility for a gap of `bits` (whole pixels 4, 8, 12, 16, 24 have
/// their own; anything else maps to `gap-3`).
pub open spec fn gap_class_spec(bits: u32) -> Seq<char> {
    let v = f32_bits_to_i32(bits);
    if v == 4 {
        "gap-1"@
    } else if v == 8 {
        "gap-2"@
    } else if v == 12 {
        "gap-3"@
    } else if v == 16 {
        "gap-4"@
    } else if v == 24 {
        "gap-6"@
    } else {
        "gap-3"@
    }
}

/// The padding utility for a padding of `bits` (8, 16, 24 whole pixels have
/// their own; anything else maps to `p-4`).
pub open spec fn padding_class_spec(bits: u32) -> Seq<char> {
    let v = f32_bits_to_i32(bits);
    if v == 8 {
        "p-2"@
    } else if v == 16 {
        "p-4"@
    } else if v == 24 {
        "p-6"@
    } else {
        "p-4"@
    }
}

/// The font-size utility for a size of `bits`.
pub open spec fn text_size_class_spec(bits: u32) -> Seq<char> {
    let v = f32_bits_to_i32(bits);
    if v == 14 {
        "text-sm"@
    } else if v == 16 {
        "text-base"@
    } else if v == 18 {
        "text-lg"@
    } else if v == 20 {
        "text-xl"@
    } else if v == 24 {
        "text-2xl"@
    } else if v == 36 {
        "text-4xl"@
    } else {
        "text-base"@
    }
}

pub open spec fn font_weight_class_spec(weight: FontWeight) -> Seq<char> {
    match weight {
        FontWeight::Normal => "font-normal"@,
        FontWeight::Medium => "font-medium"@,
        FontWeight::Semibold => "font-semibold"@,
        FontWeight::Bold => "font-bold"@,
    }
}

pub open spec fn text_align_class_spec(align: TextAlign) -> Seq<char> {
    match align {
        TextAlign::Left => "text-left"@,
        TextAlign::Center => "text-center"@,
        TextAlign::Right => "text-right"@,
    }
}

/// `classes` when `c` holds, else nothing.
pub open spec fn only_if(c: bool, classes: Seq<Seq<char>>) -> Seq<Seq<char>> {
    if c {
        classes
    } else {
        Seq::empty()
    }
}

pub open spec fn display_segment(r: StyleRefinement) -> Seq<Seq<char>> {
    only_if(r.display_flex, seq!["flex"@])
}

pub open spec fn direction_segment(r: StyleRefinement) -> Seq<Seq<char>> {
    match r.flex_direction {
        Some(FlexDirection::Column) => seq!["flex-col"@],
        Some(FlexDirection::Row) => seq!["flex-row"@],
        None => Seq::empty(),
    }
}

pub open spec fn grow_segment(r: StyleRefinement) -> Seq<Seq<char>> {
    only_if(r.flex_grow matches Some(g) && within_epsilon_of_one(g), seq!["flex-1"@])
}

pub open spec fn gap_segment(r: StyleRefinement) -> Seq<Seq<char>> {
    match r.gap {
        Some(g) => seq![gap_class_spec(g.0)],
        None => Seq::empty(),
    }
}

pub open spec fn padding_segment(r: StyleRefinement) -> Seq<Seq<char>> {
    match r.padding {
        Some(p) => seq![padding_class_spec(p.0)],
        None => only_if(r.padding_x is Some, seq!["px-4"@]) + only_if(r.padding_y is Some, seq!["py-2"@]),
    }
}

pub open spec fn size_segment(r: StyleRefinement) -> Seq<Seq<char>> {
    if r.size_full {
        seq!["w-full"@, "h-full"@]
    } else {
        only_if(r.fill_width, seq!["w-full"@]) + only_if(r.fill_height, seq!["h-full"@])
    }
}

pub open spec fn overflow_segment(r: StyleRefinement) -> Seq<Seq<char>> {
    only_if(
        r.overflow_x == Some(OverflowAxis::Scroll) || r.overflow_y == Some(OverflowAxis::Scroll),
        seq!["overflow-auto"@],
    )
}

pub open spec fn border_segment(r: StyleRefinement) -> Seq<Seq<char>> {
    only_if(r.border_width matches Some(w) && within_epsilon_of_one(w.0), seq!["border"@])
}

pub open spec fn radius_segment(r: StyleRefinement) -> Seq<Seq<char>> {
    only_if(r.border_radius is Some, seq!["rounded-md"@])
}

pub open spec fn font_size_segment(r: StyleRefinement) -> Seq<Seq<char>> {
    match r.font_size {
        Some(s) => seq![text_size_class_spec(s.0)],
        None => Seq::empty(),
    }
}

pub open spec fn font_weight_segment(r: StyleRefinement) -> Seq<Seq<char>> {
    match r.font_weight {
        Some(w) => seq![font_weight_class_spec(w)],
        None => Seq::empty(),
    }
}

pub open spec fn text_align_segment(r: StyleRefinement) -> Seq<Seq<char>> {
    match r.text_align {
        Some(a) => seq![text_align_class_spec(a)],
        None => Seq::empty(),
    }
}

pub open spec fn background_segment(r: StyleRefinement) -> Seq<Seq<char>> {
    only_if(r.background is Some, seq!["bg-surface"@])
}

pub open spec fn text_color_segment(r: StyleRefinement) -> Seq<Seq<char>> {
    only_if(r.text_color is Some, seq!["text-foreground"@])
}

/// The utility classes of a refinement, in order: display, direction, grow,
/// gap, padding, size, overflow, border, radius, font size, weight,
/// alignment, background, text color. Colors themselves are not part of
/// these: see [`color_class_slots`].
pub open spec fn utility_classes(r: StyleRefinement) -> Seq<Seq<char>> {
    display_segment(r) + direction_segment(r) + grow_segment(r) + gap_segment(r) + padding_segment(r) + size_segment(r) + overflow_segment(r) + border_segment(r) + radius_segment(r) + font_size_segment(r) + font_weight_segment(r) + text_align_segment(r) + background_segment(r) + text_color_segment(r)
}

/// The views of a sequence of class names.
pub open spec fn class_views(classes: Seq<&str>) -> Seq<Seq<char>> {
    classes.map_values(|c: &str| c@)
}

fn gap_class(value: Pixels) -> (c: &'static str)
    ensures
        c@ == gap_class_spec(value.0),
{
    match value.whole() {
        4 => "gap-1",
        8 => "gap-2",
        12 => "gap-3",
        16 => "gap-4",
        24 => "gap-6",
        _ => "gap-3",
    }
}

fn padding_class(value: Pixels) -> (c: &'static str)
    ensures
        c@ == padding_class_spec(value.0),
{
    match value.whole() {
        8 => "p-2",
        16 => "p-4",
        24 => "p-6",
        _ => "p-4",
    }
}

fn text_size_class(value: Pixels) -> (c: &'static str)
    ensures
        c@ == text_size_class_spec(value.0),
{
    match value.whole() {
        14 => "text-sm",
        16 => "text-base",
        18 => "text-lg",
        20 => "text-xl",
        24 => "text-2xl",
        36 => "text-4xl",
        _ => "text-base",
    }
}

pub fn font_weight_class(weight: FontWeight) -> (c: &'static str)
    ensures
        c@ == font_weight_class_spec(weight),
{
    match weight {
        FontWeight::Normal => "font-normal",
        FontWeight::Medium => "font-medium",
        FontWeight::Semibold => "font-semibold",
        FontWeight::Bold => "font-bold",
    }
}

pub fn text_align_class(align: TextAlign) -> (c: &'static str)
    ensures
        c@ == text_align_class_spec(align),
{
    match align {
        TextAlign::Left => "text-left",
        TextAlign::Center => "text-center",
        TextAlign::Right => "text-right",
    }
}

fn push_class(classes: &mut Vec<&'static str>, class: &'static str)
    ensures
        class_views(final(classes)@) == class_views(old(classes)@) + seq![class@],
{
    classes.push(class);
    assert(class_views(classes@) =~= class_views(old(classes)@) + seq![class@]);
}

fn push_display_segment(classes: &mut Vec<&'static str>, r: &StyleRefinement)
    ensures
        class_views(final(classes)@) == class_views(old(classes)@) + display_segment(*r),
{
    if r.display_flex {
        push_class(classes, "flex");
    }
    assert(class_views(classes@) =~= class_views(old(classes)@) + display_segment(*r));
}

fn push_direction_segment(classes: &mut Vec<&'static str>, r: &StyleRefinement)
    ensures
        class_views(final(classes)@) == class_views(old(classes)@) + direction_segment(*r),
{
    match r.flex_direction {
        Some(FlexDirection::Column) => push_class(classes, "flex-col"),
        Some(FlexDirection::Row) => push_class(classes, "flex-row"),
        None => {},
    }
    assert(class_views(classes@) =~= class_views(old(classes)@) + direction_segment(*r));
}

fn push_grow_segment(classes: &mut Vec<&'static str>, r: &StyleRefinement)
    ensures
        class_views(final(classes)@) == class_views(old(classes)@) + grow_segment(*r),
{
    if let Some(grow) = r.flex_grow {
        if grow == 0x3f80_0000 || grow == 0x3f7f_ffff {
            push_class(classes, "flex-1");
        }
    }
    assert(class_views(classes@) =~= class_views(old(classes)@) + grow_segment(*r));
}

fn push_gap_segment(classes: &mut Vec<&'static str>, r: &StyleRefinement)
    ensures
        class_views(final(classes)@) == class_views(old(classes)@) + gap_segment(*r),
{
    if let Some(gap) = r.gap {
        push_class(classes, gap_class(gap));
    }
    assert(class_views(classes@) =~= class_views(old(classes)@) + gap_segment(*r));
}

fn push_padding_segment(classes: &mut Vec<&'static str>, r: &StyleRefinement)
    ensures
        class_views(final(classes)@) == class_views(old(classes)@) + padding_segment(*r),
{
    if let Some(padding) = r.padding {
        push_class(classes, padding_class(padding));
    } else {
        if r.padding_x.is_some() {
            push_class(classes, "px-4");
        }
        if r.padding_y.is_some() {
            push_class(classes, "py-2");
        }
    }
    assert(class_views(classes@) =~= class_views(old(classes)@) + padding_segment(*r));
}

fn push_size_segment(classes: &mut Vec<&'static str>, r: &StyleRefinement)
    ensures
        class_views(final(classes)@) == class_views(old(classes)@) + size_segment(*r),
{
    if r.size_full {
        push_class(classes, "w-full");
        push_class(classes, "h-full");
    } else {
        if r.fill_width {
            push_class(classes, "w-full");
        }
        if r.fill_height {
            push_class(classes, "h-full");
        }
    }
    assert(class_views(classes@) =~= class_views(old(classes)@) + size_segment(*r));
}

fn push_overflow_segment(classes: &mut Vec<&'static str>, r: &StyleRefinement)
    ensures
        class_views(final(classes)@) == class_views(old(classes)@) + overflow_segment(*r),
{
    if matches!(r.overflow_x, Some(OverflowAxis::Scroll)) || matches!(r.overflow_y, Some(OverflowAxis::Scroll)) {
        push_class(classes, "overflow-auto");
    }
    assert(class_views(classes@) =~= class_views(old(classes)@) + overflow_segment(*r));
}

fn push_border_segment(classes: &mut Vec<&'static str>, r: &StyleRefinement)
    ensures
        class_views(final(classes)@) == class_views(old(classes)@) + border_segment(*r),
{
    if let Some(width) = r.border_width {
        if width.is_one() {
            push_class(classes, "border");
        }
    }
    assert(class_views(classes@) =~= class_views(old(classes)@) + border_segment(*r));
}

fn push_radius_segment(classes: &mut Vec<&'static str>, r: &StyleRefinement)
    ensures
        class_views(final(classes)@) == class_views(old(classes)@) + radius_segment(*r),
{
    if r.border_radius.is_some() {
        push_class(classes, "rounded-md");
    }
    assert(class_views(classes@) =~= class_views(old(classes)@) + radius_segment(*r));
}

fn push_font_size_segment(classes: &mut Vec<&'static str>, r: &StyleRefinement)
    ensures
        class_views(final(classes)@) == class_views(old(classes)@) + font_size_segment(*r),
{
    if let Some(size) = r.font_size {
        push_class(classes, text_size_class(size));
    }
    assert(class_views(classes@) =~= class_views(old(classes)@) + font_size_segment(*r));
}

fn push_font_weight_segment(classes: &mut Vec<&'static str>, r: &StyleRefinement)
    ensures
        class_views(final(classes)@) == class_views(old(classes)@) + font_weight_segment(*r),
{
    if let Some(weight) = r.font_weight {
        push_class(classes, font_weight_class(weight));
    }
    assert(class_views(classes@) =~= class_views(old(classes)@) + font_weight_segment(*r));
}

fn push_text_align_segment(classes: &mut Vec<&'static str>, r: &StyleRefinement)
    ensures
        class_views(final(classes)@) == class_views(old(classes)@) + text_align_segment(*r),
{
    if let Some(align) = r.text_align {
        push_class(classes, text_align_class(align));
    }
    assert(class_views(classes@) =~= class_views(old(classes)@) + text_align_segment(*r));
}

fn push_background_segment(classes: &mut Vec<&'static str>, r: &StyleRefinement)
    ensures
        class_views(final(classes)@) == class_views(old(classes)@) + background_segment(*r),
{
    if r.background.is_some() {
        push_class(classes, "bg-surface");
    }
    assert(class_views(classes@) =~= class_views(old(classes)@) + background_segment(*r));
}

fn push_text_color_segment(classes: &mut Vec<&'static str>, r: &StyleRefinement)
    ensures
        class_views(final(classes)@) == class_views(old(classes)@) + text_color_segment(*r),
{
    if r.text_color.is_some() {
        push_class(classes, "text-foreground");
    }
    assert(class_views(classes@) =~= class_views(old(classes)@) + text_color_segment(*r));
}

/// The Tailwind utility classes of a refinement.
pub fn classes_from_refinement(refinement: &StyleRefinement) -> (classes: Vec<&'static str>)
    ensures
        class_views(classes@) == utility_classes(*refinement),
{
    let mut classes: Vec<&'static str> = Vec::new();
    let ghost r = *refinement;
    push_display_segment(&mut classes, refinement);
    push_direction_segment(&mut classes, refinement);
    push_grow_segment(&mut classes, refinement);
    push_gap_segment(&mut classes, refinement);
    push_padding_segment(&mut classes, refinement);
    push_size_segment(&mut classes, refinement);
    push_overflow_segment(&mut classes, refinement);
    push_border_segment(&mut classes, refinement);
    push_radius_segment(&mut classes, refinement);
    push_font_size_segment(&mut classes, refinement);
    push_font_weight_segment(&mut classes, refinement);
    push_text_align_segment(&mut classes, refinement);
    push_background_segment(&mut classes, refinement);
    push_text_color_segment(&mut classes, refinement);
    assert(class_views(classes@) =~= utility_classes(r));
    classes
}

/// The arbitrary color classes a refinement asks for, in order: background
/// (`bg`), text (`text`), border (`border`), each with its color.
pub open spec fn color_slots(r: StyleRefinement) -> Seq<(Seq<char>, Color)> {
    (match r.background {
        Some(c) => seq![("bg"@, c)],
        None => Seq::empty(),
    }) + (match r.text_color {
        Some(c) => seq![("text"@, c)],
        None => Seq::empty(),
    }) + (match r.border_color {
        Some(c) => seq![("border"@, c)],
        None => Seq::empty(),
    })
}

/// The arbitrary color classes a refinement asks for, in order; each is
/// rendered by [`color_to_tailwind_arbitrary`] from the color's 8-bit
/// channels.
pub fn color_class_slots(refinement: &StyleRefinement) -> (slots: Vec<(&'static str, Color)>)
    ensures
        slots@.map_values(|p: (&'static str, Color)| (p.0@, p.1)) == color_slots(*refinement),
{
    let mut slots: Vec<(&'static str, Color)> = Vec::new();
    if let Some(c) = refinement.background {
        slots.push(("bg", c));
    }
    if let Some(c) = refinement.text_color {
        slots.push(("text", c));
    }
    if let Some(c) = refinement.border_color {
        slots.push(("border", c));
    }
    assert(slots@.map_values(|p: (&'static str, Color)| (p.0@, p.1)) =~= color_slots(*refinement));
    slots
}

/// The lowercase hexadecimal digit of `d`.
pub open spec fn hex_digit(d: nat) -> char {
    if d < 10 {
        digit_char(d)
    } else {
        (87 + d) as char
    }
}

/// Two lowercase hexadecimal digits of a byte.
pub open spec fn hex_byte(b: u8) -> Seq<char> {
    seq![hex_digit(b as nat / 16), hex_digit(b as nat % 16)]
}

/// The alpha channel `a` (out of 255) as a fraction with two decimals,
/// rounded to the nearest hundredth.
pub open spec fn alpha_fraction(a: u8) -> Seq<char> {
    let hundredths = (a as nat * 200 + 255) / 510;
    if hundredths >= 100 {
        "1.00"@
    } else {
        seq!['0', '.', digit_char(hundredths / 10), digit_char(hundredths % 10)]
    }
}

/// The arbitrary-value class for a color with 8-bit channels `rgba`:
/// `prefix-[r g b / alpha]` when it is translucent, `prefix-[#rrggbb]` when
/// it is opaque.
pub open spec fn arbitrary_color_class(rgba: [u8; 4], prefix: Seq<char>) -> Seq<char> {
    if rgba[3] < 255 {
        prefix + "-["@ + decimal(rgba[0] as nat) + " "@ + decimal(rgba[1] as nat) + " "@ + decimal(
            rgba[2] as nat,
        ) + " / "@ + alpha_fraction(rgba[3]) + "]"@
    } else {
        prefix + "-[#"@ + hex_byte(rgba[0]) + hex_byte(rgba[1]) + hex_byte(rgba[2]) + "]"@
    }
}

fn hex_digit_str(d: u8) -> (s: &'static str)
    requires
        d < 16,
    ensures
        s@ == seq![hex_digit(d as nat)],
{
    proof {
        reveal_strlit("0");
        reveal_strlit("1");
        reveal_strlit("2");
        reveal_strlit("3");
        reveal_strlit("4");
        reveal_strlit("5");
        reveal_strlit("6");
        reveal_strlit("7");
        reveal_strlit("8");
        reveal_strlit("9");
        reveal_strlit("a");
        reveal_strlit("b");
        reveal_strlit("c");
        reveal_strlit("d");
        reveal_strlit("e");
        reveal_strlit("f");
    }
    match d {
        0 => "0",
        1 => "1",
        2 => "2",
        3 => "3",
        4 => "4",
        5 => "5",
        6 => "6",
        7 => "7",
        8 => "8",
        9 => "9",
        10 => "a",
        11 => "b",
        12 => "c",
        13 => "d",
        14 => "e",
        _ => "f",
    }
}

fn push_hex_byte(out: &mut String, b: u8)
    ensures
        final(out)@ == old(out)@ + hex_byte(b),
{
    out.append(hex_digit_str(b / 16));
    out.append(hex_digit_str(b % 16));
    assert(final(out)@ =~= old(out)@ + hex_byte(b));
}

/// The arbitrary-value color class for a color with 8-bit channels.
pub fn color_to_tailwind_arbitrary(rgba: [u8; 4], prefix: &str) -> (class: String)
    ensures
        class@ == arbitrary_color_class(rgba, prefix@),
{
    let mut out = String::from_str(prefix);
    if rgba[3] < 255 {
        out.append("-[");
        push_decimal(&mut out, rgba[0] as u64);
        out.append(" ");
        push_decimal(&mut out, rgba[1] as u64);
        out.append(" ");
        push_decimal(&mut out, rgba[2] as u64);
        out.append(" / ");
        let hundredths: u32 = ((rgba[3] as u32) * 200 + 255) / 510;
        if hundredths >= 100 {
            out.append("1.00");
        } else {
            let ghost before = out@;
            out.append("0.");
            push_decimal(&mut out, (hundredths / 10) as u64);
            push_decimal(&mut out, (hundredths % 10) as u64);
            proof {
                reveal_strlit("0.");
                assert(decimal((hundredths / 10) as nat) == seq![digit_char((hundredths / 10) as nat)]);
                assert(decimal((hundredths % 10) as nat) == seq![digit_char((hundredths % 10) as nat)]);
                assert(out@ =~= before + alpha_fraction(rgba[3]));
            }
        }
        out.append("]");
    } else {
        out.append("-[#");
        push_hex_byte(&mut out, rgba[0]);
        push_hex_byte(&mut out, rgba[1]);
        push_hex_byte(&mut out, rgba[2]);
        out.append("]");
    }
    out
}

/// `parts` joined with single spaces.
pub open spec fn join_spaces(parts: Seq<Seq<char>>) -> Seq<char>
    decreases parts.len(),
{
    if parts.len() == 0 {
        Seq::empty()
    } else if parts.len() == 1 {
        parts[0]
    } else {
        join_spaces(parts.drop_last()) + " "@ + parts.last()
    }
}

/// `classes`, each prefixed with `hover:`.
pub open spec fn hover_prefixed(classes: Seq<Seq<char>>) -> Seq<Seq<char>> {
    classes.map_values(|c: Seq<char>| "hover:"@ + c)
}

/// The class attribute of an element: its utility classes, then its
/// arbitrary color classes `color_classes` (rendered from
/// [`color_class_slots`]), then the utility classes of its hover refinement
/// prefixed with `hover:`, separated by single spaces.
pub open spec fn class_string_spec(r: StyleRefinement, color_classes: Seq<Seq<char>>) -> Seq<char> {
    join_spaces(
        utility_classes(r) + color_classes + match r.hover {
            Some(h) => hover_prefixed(utility_classes(*h)),
            None => Seq::empty(),
        },
    )
}

fn push_joined(out: &mut String, empty: bool, Ghost(parts): Ghost<Seq<Seq<char>>>, piece: &str)
    requires
        old(out)@ == join_spaces(parts),
        empty == (parts.len() == 0),
    ensures
        final(out)@ == join_spaces(parts.push(piece@)),
{
    if !empty {
        out.append(" ");
    }
    out.append(piece);
    proof {
        assert(parts.push(piece@).drop_last() =~= parts);
        if parts.len() == 0 {
            assert(final(out)@ =~= piece@);
        }
    }
}

/// The class attribute of an element, given the rendered arbitrary color
/// classes of its [`color_class_slots`].
pub fn class_string_from_refinement(refinement: &StyleRefinement, color_classes: &Vec<String>) -> (s:
    String)
    ensures
        s@ == class_string_spec(*refinement, color_classes@.map_values(|c: String| c@)),
{
    let mut out = String::new();
    let ghost mut parts: Seq<Seq<char>> = Seq::empty();
    let utilities = classes_from_refinement(refinement);
    let mut i: usize = 0;
    while i < utilities.len()
        invariant
            0 <= i <= utilities@.len(),
            out@ == join_spaces(parts),
            parts == class_views(utilities@).subrange(0, i as int),
        decreases utilities@.len() - i,
    {
        push_joined(&mut out, i == 0, Ghost(parts), utilities[i]);
        proof {
            parts = parts.push(utilities@[i as int]@);
        }
        assert(parts =~= class_views(utilities@).subrange(0, i + 1));
        i = i + 1;
    }
    let ghost base = parts;
    assert(base =~= utility_classes(*refinement));
    let ulen = utilities.len();
    let clen = color_classes.len();
    let mut j: usize = 0;
    while j < color_classes.len()
        invariant
            0 <= j <= color_classes@.len(),
            base.len() == ulen,
            out@ == join_spaces(parts),
            parts == base + color_classes@.map_values(|c: String| c@).subrange(0, j as int),
        decreases color_classes@.len() - j,
    {
        push_joined(&mut out, j == 0 && ulen == 0, Ghost(parts), color_classes[j].as_str());
        proof {
            parts = parts.push(color_classes@[j as int]@);
        }
        assert(parts =~= base + color_classes@.map_values(|c: String| c@).subrange(0, j + 1));
        j = j + 1;
    }
    let ghost with_colors = parts;
    assert(with_colors =~= base + color_classes@.map_values(|c: String| c@));
    match &refinement.hover {
        Some(hover) => {
            let hovered = classes_from_refinement(hover);
            let mut k: usize = 0;
            while k < hovered.len()
                invariant
                    0 <= k <= hovered@.len(),
                    with_colors.len() == ulen + clen,
                    out@ == join_spaces(parts),
                    parts == with_colors + hover_prefixed(class_views(hovered@)).subrange(
                        0,
                        k as int,
                    ),
                decreases hovered@.len() - k,
            {
                let mut piece = String::from_str("hover:");
                piece.append(hovered[k]);
                push_joined(&mut out, k == 0 && clen == 0 && ulen == 0, Ghost(parts), piece.as_str());
                proof {
                    parts = parts.push(piece@);
                }
                assert(parts =~= with_colors + hover_prefixed(class_views(hovered@)).subrange(
                    0,
                    k + 1,
                ));
                k = k + 1;
            }
            assert(parts =~= with_colors + hover_prefixed(class_views(hovered@)));
        },
        None => {
            assert(parts =~= with_colors + Seq::<Seq<char>>::empty());
        },
    }
    out
}

/// The value of a lowercase hexadecimal digit character.
pub open spec fn hex_value(c: char) -> int {
    if '0' <= c && c <= '9' {
        c as int - 48
    } else {
        c as int - 87
    }
}

/// The value of a decimal digit character.
pub open spec fn digit_value(c: char) -> int {
    c as int - 48
}

/// The two hexadecimal digits of a byte read back as the byte, each being a
/// digit `0`-`9` or a lowercase letter `a`-`f`.
pub proof fn lemma_hex_byte_reads_back(b: u8)
    ensures
        hex_byte(b).len() == 2,
        16 * hex_value(hex_byte(b)[0]) + hex_value(hex_byte(b)[1]) == b,
        forall|k: int| 0 <= k < 2 ==> ('0' <= #[trigger] hex_byte(b)[k] <= '9' || 'a' <= hex_byte(b)[k] <= 'f'),
{
    let hi = b as nat / 16;
    let lo = b as nat % 16;
    assert(hex_byte(b)[0] == hex_digit(hi));
    assert(hex_byte(b)[1] == hex_digit(lo));
    assert(hi < 16 && lo < 16);
    assert(b as nat == 16 * hi + lo);
}

/// The alpha written for a translucent color is the channel as a fraction of
/// 255, rounded to the nearest hundredth: four characters `d.dd` whose value
/// in hundredths `h` satisfies `|255 h - 100 a| <= 255 / 2`.
pub proof fn lemma_alpha_fraction_rounds(a: u8)
    requires
        a < 255,
    ensures
        ({
            let f = alpha_fraction(a);
            let h = 100 * digit_value(f[0]) + 10 * digit_value(f[2]) + digit_value(f[3]);
            &&& f.len() == 4
            &&& f[1] == '.'
            &&& -255 < 2 * (255 * h - 100 * a) <= 255
        }),
{
    reveal_strlit("1.00");
    let q = (a as nat * 200 + 255) / 510;
    assert(510 * q <= a * 200 + 255 < 510 * q + 510) by (nonlinear_arith)
        requires
            q == (a as nat * 200 + 255) / 510,
    ;
    if q < 100 {
        let d1 = q / 10;
        let d0 = q % 10;
        assert(q == 10 * d1 + d0);
        assert(digit_value(digit_char(d1)) == d1);
        assert(digit_value(digit_char(d0)) == d0);
    } else {
        assert(q == 100);
    }
}

/// An opaque color's class is the prefix, `-[#`, the red, green and blue
/// channels as two hexadecimal digits each, in that order, and `]`.
pub proof fn lemma_opaque_color_class(rgba: [u8; 4], prefix: Seq<char>)
    requires
        rgba[3] == 255,
    ensures
        ({
            let c = arbitrary_color_class(rgba, prefix);
            let n = prefix.len() as int;
            &&& c.len() == n + 10
            &&& c.subrange(0, n) == prefix
            &&& c[n] == '-' && c[n + 1] == '[' && c[n + 2] == '#' && c[n + 9] == ']'
            &&& 16 * hex_value(c[n + 3]) + hex_value(c[n + 4]) == rgba[0]
            &&& 16 * hex_value(c[n + 5]) + hex_value(c[n + 6]) == rgba[1]
            &&& 16 * hex_value(c[n + 7]) + hex_value(c[n + 8]) == rgba[2]
        }),
{
    reveal_strlit("-[#");
    reveal_strlit("]");
    lemma_hex_byte_reads_back(rgba[0]);
    lemma_hex_byte_reads_back(rgba[1]);
    lemma_hex_byte_reads_back(rgba[2]);
    let c = arbitrary_color_class(rgba, prefix);
    let n = prefix.len() as int;
    let r = hex_byte(rgba[0]);
    let g = hex_byte(rgba[1]);
    let b = hex_byte(rgba[2]);
    assert(c =~= prefix + "-[#"@ + r + g + b + "]"@);
    assert(c.subrange(0, n) =~= prefix);
    assert(c[n + 3] == r[0] && c[n + 4] == r[1]);
    assert(c[n + 5] == g[0] && c[n + 6] == g[1]);
    assert(c[n + 7] == b[0] && c[n + 8] == b[1]);
}

} // verus!
