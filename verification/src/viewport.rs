//! Layout viewports. Extents are held as `f32` bit patterns; layout always
//! runs in a definite space of at least one pixel on each axis.

use vstd::prelude::*;

verus! {

/// The bit pattern of `1.0f32`.
pub const ONE_BITS: u32 = 0x3f80_0000;

/// The bit pattern of `x.max(1.0)` for the `f32` `x` with bit pattern `bits`:
/// `x` itself when it is greater than one (positive and above `1.0`,
/// infinity included), and `1.0` otherwise, NaN included.
pub open spec fn definite_extent_spec(bits: u32) -> u32 {
    if ONE_BITS < bits && bits <= 0x7f80_0000 {
        bits
    } else {
        ONE_BITS
    }
}

/// The extent layout uses for an extent of `bits`: at least one pixel.
pub fn definite_extent(bits: u32) -> (r: u32)
    ensures
        r == definite_extent_spec(bits),
{
    if ONE_BITS < bits && bits <= 0x7f80_0000 {
        bits
    } else {
        ONE_BITS
    }
}

/// The size of the surface layout runs in.
#[derive(Clone, Copy, Debug, PartialEq, Eq, Structural)]
pub struct LayoutViewport {
    pub width: u32,
    pub height: u32,
}

impl LayoutViewport {
    /// A viewport of the given extents.
    pub fn new(width: u32, height: u32) -> (v: Self)
        ensures
            v == (LayoutViewport { width, height }),
    {
        LayoutViewport { width, height }
    }

    /// The width layout runs with.
    pub fn definite_width(self) -> (w: u32)
        ensures
            w == definite_extent_spec(self.width),
    {
        definite_extent(self.width)
    }

    /// The height layout runs with.
    pub fn definite_height(self) -> (h: u32)
        ensures
            h == definite_extent_spec(self.height),
    {
        definite_extent(self.height)
    }
}

/// Whether `bits` is the pattern of a float that is at least one (NaN
/// excluded).
pub open spec fn at_least_one(bits: u32) -> bool {
    ONE_BITS <= bits && bits <= 0x7f80_0000
}

/// The definite extent is always at least one, and an extent that is already
/// at least one is kept.
pub proof fn lemma_definite_extent(bits: u32)
    ensures
        at_least_one(definite_extent_spec(bits)),
        at_least_one(bits) ==> definite_extent_spec(bits) == bits,
        definite_extent_spec(definite_extent_spec(bits)) == definite_extent_spec(bits),
{
}

} // verus!
