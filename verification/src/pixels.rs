//! CSS-pixel distances. A distance is held as the bit pattern of the `f32`
//! the author wrote, so that it travels through the library unchanged; the
//! library only ever reads its whole-pixel part.

use vstd::prelude::*;

verus! {

/// A CSS-pixel distance, held as the IEEE-754 bit pattern of an `f32`.
#[derive(Clone, Copy, Debug, PartialEq, Eq, Structural)]
pub struct Pixels(pub u32);

/// `2` raised to `n`.
pub open spec fn two_pow(n: nat) -> nat
    decreases n,
{
    if n == 0 {
        1
    } else {
        2 * two_pow((n - 1) as nat)
    }
}

/// The value of `x as i32` for the `f32` whose bit pattern is `bits`: the
/// number truncated toward zero, saturated at the bounds of `i32`, and zero
/// for NaN.
pub open spec fn f32_bits_to_i32(bits: u32) -> int {
    let exponent = (bits / 0x80_0000) % 0x100;
    let fraction = bits % 0x80_0000;
    let negative = bits >= 0x8000_0000;
    if exponent == 255 && fraction != 0 {
        0
    } else if exponent < 127 {
        0
    } else if exponent >= 158 {
        if negative {
            i32::MIN as int
        } else {
            i32::MAX as int
        }
    } else {
        let significand = fraction + 0x80_0000;
        let shift = exponent - 127;
        let magnitude = if shift <= 23 {
            significand / (two_pow((23 - shift) as nat) as int)
        } else {
            significand * (two_pow((shift - 23) as nat) as int)
        };
        if negative {
            -magnitude
        } else {
            magnitude
        }
    }
}

/// Whether the `f32` with bit pattern `bits` lies within `f32::EPSILON` of
/// one: exactly `1.0` and the float just below it.
pub open spec fn within_epsilon_of_one(bits: u32) -> bool {
    bits == 0x3f80_0000 || bits == 0x3f7f_ffff
}

proof fn lemma_two_pow_monotonic(a: nat, b: nat)
    requires
        a <= b,
    ensures
        1 <= two_pow(a) <= two_pow(b),
    decreases b,
{
    if b > 0 {
        if a < b {
            lemma_two_pow_monotonic(a, (b - 1) as nat);
        } else {
            lemma_two_pow_monotonic((a - 1) as nat, (b - 1) as nat);
        }
    }
}

fn two_pow_u32(n: u32) -> (r: u32)
    requires
        n <= 23,
    ensures
        r == two_pow(n as nat),
{
    let mut r: u32 = 1;
    let mut i: u32 = 0;
    while i < n
        invariant
            0 <= i <= n,
            n <= 23,
            r == two_pow(i as nat),
        decreases n - i,
    {
        proof {
            lemma_two_pow_monotonic(i as nat, 22);
            assert(two_pow(22) == 0x40_0000) by {
                reveal_with_fuel(two_pow, 23);
            }
        }
        r = r * 2;
        i = i + 1;
    }
    r
}

impl Pixels {
    /// The `f32` bit pattern of the distance.
    pub fn value(self) -> (r: u32)
        ensures
            r == self.0,
    {
        self.0
    }

    /// The whole-pixel part of the distance, as `value as i32` gives it.
    pub fn whole(self) -> (r: i32)
        ensures
            r == f32_bits_to_i32(self.0),
    {
        let bits = self.0;
        let exponent = (bits / 0x80_0000) % 0x100;
        let fraction = bits % 0x80_0000;
        let negative = bits >= 0x8000_0000;
        if exponent == 255 && fraction != 0 {
            0
        } else if exponent < 127 {
            0
        } else if exponent >= 158 {
            if negative {
                i32::MIN
            } else {
                i32::MAX
            }
        } else {
            let significand = fraction + 0x80_0000;
            let shift = exponent - 127;
            let magnitude: u32;
            if shift <= 23 {
                let p = two_pow_u32(23 - shift);
                proof {
                    lemma_two_pow_monotonic(0, (23 - shift) as nat);
                }
                magnitude = significand / p;
                assert(magnitude <= significand) by (nonlinear_arith)
                    requires
                        p >= 1,
                        magnitude == significand / p,
                ;
            } else {
                let p = two_pow_u32(shift - 23);
                proof {
                    lemma_two_pow_monotonic((shift - 23) as nat, 7);
                    assert(two_pow(7) == 128) by {
                        reveal_with_fuel(two_pow, 8);
                    }
                }
                assert(significand * p < 0x8000_0000) by (nonlinear_arith)
                    requires
                        significand < 0x100_0000,
                        p <= 128,
                ;
                magnitude = significand * p;
            }
            if negative {
                -(magnitude as i32)
            } else {
                magnitude as i32
            }
        }
    }

    /// Whether the distance is within `f32::EPSILON` of one pixel.
    pub fn is_one(self) -> (r: bool)
        ensures
            r == within_epsilon_of_one(self.0),
    {
        self.0 == 0x3f80_0000 || self.0 == 0x3f7f_ffff
    }
}

/// Constructs a pixel distance from the bit pattern of an `f32`.
pub fn px(value: u32) -> (r: Pixels)
    ensures
        r.0 == value,
{
    Pixels(value)
}

} // verus!
