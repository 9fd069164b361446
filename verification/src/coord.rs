//! A modular screen coordinate: an unsigned value confined to `[0, max]`
//! with wraparound addition and subtraction, modeling one terminal axis.

use vstd::arithmetic::div_mod::{
    lemma_add_mod_noop, lemma_mod_add_multiples_vanish, lemma_mod_bound, lemma_small_mod,
    lemma_sub_mod_noop,
};
use vstd::prelude::*;

verus! {

/// One screen axis position on a circular line of size `max + 1`:
/// the value `n` always stays in `[0, max]`.
#[derive(Copy, Clone, Debug, PartialEq, Eq, Structural)]
pub struct WrapU32 {
    pub n: u32,
    pub max: u32,
}

impl WrapU32 {
    /// The invariant every operation preserves: `n` lies in `[0, max]`,
    /// and `max + 1` (the size of the circle) fits in a `u32`.
    pub open spec fn wf(self) -> bool {
        self.n <= self.max && self.max < u32::MAX
    }

    /// The size of the circular coordinate space.
    pub open spec fn modulus(self) -> int {
        self.max + 1
    }

    /// Mathematical wraparound addition: `n' = (n + delta) mod (max + 1)`.
    pub open spec fn spec_add(self, delta: int) -> WrapU32 {
        WrapU32 { n: (((self.n + delta) % self.modulus()) as u32), max: self.max }
    }

    /// Mathematical wraparound subtraction: `n' = (n - delta) mod (max + 1)`,
    /// with the mathematical (always non-negative) remainder.
    pub open spec fn spec_sub(self, delta: int) -> WrapU32 {
        WrapU32 { n: (((self.n - delta) % self.modulus()) as u32), max: self.max }
    }

    /// Wraparound addition of a scalar step.
    pub fn add(self, delta: u32) -> (r: WrapU32)
        requires
            self.wf(),
        ensures
            r == self.spec_add(delta as int),
            r.wf(),
    {
        let m: u32 = self.max + 1;
        let d: u32 = delta % m;
        proof {
            lemma_small_mod(self.n as nat, m as nat);
            lemma_add_mod_noop(self.n as int, delta as int, m as int);
            if d > self.max - self.n {
                // n + d lies in [m, 2m): one more subtraction of m reduces it.
                lemma_mod_add_multiples_vanish(self.n + d - m, m as int);
                lemma_small_mod((self.n + d - m) as nat, m as nat);
            } else {
                lemma_small_mod((self.n + d) as nat, m as nat);
            }
        }
        if d <= self.max - self.n {
            WrapU32 { n: self.n + d, max: self.max }
        } else {
            WrapU32 { n: self.n - (m - d), max: self.max }
        }
    }

    /// Wraparound subtraction of a scalar step, computed without underflow.
    pub fn sub(self, delta: u32) -> (r: WrapU32)
        requires
            self.wf(),
        ensures
            r == self.spec_sub(delta as int),
            r.wf(),
    {
        let m: u32 = self.max + 1;
        let d: u32 = delta % m;
        proof {
            lemma_small_mod(self.n as nat, m as nat);
            lemma_sub_mod_noop(self.n as int, delta as int, m as int);
            if self.n >= d {
                lemma_small_mod((self.n - d) as nat, m as nat);
            } else {
                // n - d lies in [-m, 0): adding m once lands in [0, m).
                lemma_mod_add_multiples_vanish(self.n - d, m as int);
                lemma_small_mod((self.n - d + m) as nat, m as nat);
            }
        }
        if self.n >= d {
            WrapU32 { n: self.n - d, max: self.max }
        } else {
            WrapU32 { n: self.n + (m - d), max: self.max }
        }
    }

    /// Wraparound addition of another coordinate sharing the same `max`.
    pub fn add_coord(self, other: WrapU32) -> (r: WrapU32)
        requires
            self.wf(),
            other.max == self.max,
        ensures
            r == self.spec_add(other.n as int),
            r.wf(),
    {
        self.add(other.n)
    }

    /// Wraparound subtraction of another coordinate sharing the same `max`.
    pub fn sub_coord(self, other: WrapU32) -> (r: WrapU32)
        requires
            self.wf(),
            other.max == self.max,
        ensures
            r == self.spec_sub(other.n as int),
            r.wf(),
    {
        self.sub(other.n)
    }
}

/// Adding any step and then subtracting the same step restores the original
/// coordinate, for every non-negative step, however large.
pub proof fn lemma_add_sub_round_trip(c: WrapU32, delta: int)
    requires
        c.wf(),
        delta >= 0,
    ensures
        c.spec_add(delta).spec_sub(delta) == c,
{
    let m = c.modulus();
    let a = (c.n + delta) % m;
    lemma_mod_bound(c.n + delta, m);
    lemma_small_mod(a as nat, m as nat);
    lemma_small_mod(c.n as nat, m as nat);
    // (a - delta) mod m == (a mod m - delta mod m) mod m == ((n + delta) - delta) mod m
    lemma_sub_mod_noop(a, delta, m);
    lemma_sub_mod_noop(c.n + delta, delta, m);
}

/// The coordinate reached from `c` after `k` single steps of wraparound
/// addition by 1.
pub open spec fn add_ones(c: WrapU32, k: nat) -> WrapU32
    decreases k,
{
    if k == 0 {
        c
    } else {
        add_ones(c, (k - 1) as nat).spec_add(1)
    }
}

/// After `k` single steps the position is `(n + k) mod (max + 1)`,
/// and `max` never changes.
pub proof fn lemma_add_ones_value(c: WrapU32, k: nat)
    requires
        c.wf(),
    ensures
        add_ones(c, k).max == c.max,
        add_ones(c, k).n == (c.n + k) % c.modulus(),
    decreases k,
{
    let m = c.modulus();
    if k == 0 {
        lemma_small_mod(c.n as nat, m as nat);
    } else {
        lemma_add_ones_value(c, (k - 1) as nat);
        let prev = add_ones(c, (k - 1) as nat);
        lemma_mod_bound(c.n + k - 1, m);
        lemma_small_mod(prev.n as nat, m as nat);
        if m == 1 {
            assert(prev.n == 0 && c.n == 0);
            assert((prev.n + 1) % m == 0) by {
                lemma_mod_add_multiples_vanish(0, m);
                lemma_small_mod(0nat, m as nat);
            }
            assert((c.n + k) % m == 0) by {
                lemma_small_mod(0nat, m as nat);
                assert(c.n + k == k * m) by {
                    assert(k * 1 == k) by (nonlinear_arith);
                }
                vstd::arithmetic::div_mod::lemma_mod_multiples_basic(k as int, m);
            }
        } else {
            lemma_small_mod(1nat, m as nat);
            lemma_add_mod_noop(c.n + k - 1, 1, m);
        }
    }
}

/// Full-cycle closure: adding 1 exactly `max + 1` times returns every valid
/// coordinate to where it started.
pub proof fn lemma_full_cycle(c: WrapU32)
    requires
        c.wf(),
    ensures
        add_ones(c, (c.max + 1) as nat) == c,
{
    let m = c.modulus();
    lemma_add_ones_value(c, (c.max + 1) as nat);
    lemma_mod_add_multiples_vanish(c.n as int, m);
    lemma_small_mod(c.n as nat, m as nat);
}

} // verus!
