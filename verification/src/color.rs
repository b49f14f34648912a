//! Colors carried by style refinements.

use vstd::prelude::*;

verus! {

/// An RGBA color; each channel is the IEEE-754 bit pattern of an `f32` in
/// `0.0..=1.0`, carried unchanged.
#[derive(Clone, Copy, Debug, PartialEq, Eq, Structural)]
pub struct Color {
    pub r: u32,
    pub g: u32,
    pub b: u32,
    pub a: u32,
}

impl Color {
    /// The color with the given channel bit patterns.
    pub fn from_bits(r: u32, g: u32, b: u32, a: u32) -> (c: Self)
        ensures
            c == (Color { r, g, b, a }),
    {
        Color { r, g, b, a }
    }

    /// Fully transparent black (every channel `0.0`).
    pub fn transparent() -> (c: Self)
        ensures
            c == (Color { r: 0, g: 0, b: 0, a: 0 }),
    {
        Color { r: 0, g: 0, b: 0, a: 0 }
    }
}

} // verus!
