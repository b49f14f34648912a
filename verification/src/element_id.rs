//! Stable identities for element nodes.

use vstd::prelude::*;

verus! {

/// Stable identity for element nodes in a tree.
#[derive(Clone, Copy, Debug, PartialEq, Eq, Hash, Structural)]
pub struct ElementId(pub u64);

/// The source of fresh element identities: a counter that starts at one and
/// advances by one (wrapping) each time an identity is drawn from it.
#[derive(Debug)]
pub struct ElementIds {
    next: u64,
}

impl ElementIds {
    /// The identity the next draw hands out.
    pub closed spec fn next_value(&self) -> u64 {
        self.next
    }

    /// A fresh source whose first identity is one.
    pub fn new() -> (ids: Self)
        ensures
            ids.next_value() == 1,
    {
        ElementIds { next: 1 }
    }

    /// A source whose next identity is `next`; identities start at one, so
    /// `next` is at least one.
    pub fn starting_at(next: u64) -> (ids: Self)
        requires
            next >= 1,
        ensures
            ids.next_value() == next,
    {
        ElementIds { next }
    }

    /// The identity the next draw hands out, without drawing it.
    pub fn peek(&self) -> (value: u64)
        ensures
            value == self.next_value(),
    {
        self.next
    }
}

/// The counter value after `n` draws starting from `start`.
pub open spec fn advanced(start: u64, n: nat) -> u64 {
    ((start as nat + n) % 0x1_0000_0000_0000_0000) as u64
}

impl ElementId {
    /// Draws a fresh identity from `ids`.
    pub fn new(ids: &mut ElementIds) -> (id: Self)
        ensures
            id.0 == old(ids).next_value(),
            final(ids).next_value() == advanced(old(ids).next_value(), 1),
    {
        let id = ElementId(ids.next);
        ids.next = ids.next.wrapping_add(1);
        id
    }

    pub fn from_u64(id: u64) -> (r: Self)
        ensures
            r.0 == id,
    {
        ElementId(id)
    }

    pub fn as_u64(self) -> (r: u64)
        ensures
            r == self.0,
    {
        self.0
    }
}

/// Identities drawn one after another from one source are pairwise distinct
/// as long as fewer than 2^64 are drawn: the `a`-th and `b`-th draws differ.
pub proof fn lemma_drawn_ids_distinct(start: u64, a: nat, b: nat)
    requires
        a < b < 0x1_0000_0000_0000_0000,
    ensures
        advanced(start, a) != advanced(start, b),
{
    let m: int = 0x1_0000_0000_0000_0000;
    let x = start as int + a;
    let y = start as int + b;
    assert(0 < y - x < m);
    if x % m == y % m {
        assert(x == (x / m) * m + x % m) by (nonlinear_arith)
            requires
                m > 0,
        ;
        assert(y == (y / m) * m + y % m) by (nonlinear_arith)
            requires
                m > 0,
        ;
        assert((y / m - x / m) * m == y - x) by (nonlinear_arith)
            requires
                x == (x / m) * m + x % m,
                y == (y / m) * m + y % m,
                x % m == y % m,
        ;
        assert(false) by (nonlinear_arith)
            requires
                (y / m - x / m) * m == y - x,
                0 < y - x < m,
                m > 0,
        ;
    }
}

/// Identities drawn one after another from a source that started at one or
/// above increase and stay at one or above, as long as the counter has not
/// passed `u64::MAX`: the `a`-th draw is below the `b`-th.
pub proof fn lemma_drawn_ids_increase(start: u64, a: nat, b: nat)
    requires
        1 <= start,
        a < b,
        start + b <= u64::MAX,
    ensures
        1 <= advanced(start, a) < advanced(start, b),
{
    let m: nat = 0x1_0000_0000_0000_0000;
    assert((start as nat + a) % m == start as nat + a);
    assert((start as nat + b) % m == start as nat + b);
}

} // verus!
