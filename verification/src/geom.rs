//! Geometry: 2D sizes and lengths that may combine an absolute part with a
//! ratio of a reference length.

use vstd::prelude::*;
use vstd::arithmetic::div_mod::lemma_hoist_over_denominator;

verus! {

/// The denominator of the ratio component of a [`Linear`]: ratios are
/// expressed in thousandths of the reference length.
pub const PER_MILLE: u64 = 1000;

/// A 2D magnitude: an ordered pair of absolute lengths.
#[derive(Clone, Copy, Debug, PartialEq, Eq, Structural)]
pub struct Size {
    /// The horizontal extent.
    pub width: u64,
    /// The vertical extent.
    pub height: u64,
}

impl Size {
    /// Create a size from its two components.
    pub fn new(width: u64, height: u64) -> (s: Size)
        ensures
            s == (Size { width, height }),
    {
        Size { width, height }
    }

    /// True if this size fits componentwise into `other`.
    pub open spec fn fits_into(self, other: Size) -> bool {
        self.width <= other.width && self.height <= other.height
    }
}

/// A length expressed as `absolute + ratio * reference`, where the ratio is
/// measured in thousandths. It can state a fixed length (`rat == 0`), a pure
/// proportion of a reference length (`abs == 0`), or a mix of both.
#[derive(Clone, Copy, Debug, PartialEq, Eq, Structural)]
pub struct Linear {
    /// The absolute component.
    pub abs: u64,
    /// The ratio component, in thousandths of the reference length.
    pub rat: u64,
}

impl Linear {
    /// A purely absolute length.
    pub fn from_abs(abs: u64) -> (l: Linear)
        ensures
            l == (Linear { abs, rat: 0 }),
    {
        Linear { abs, rat: 0 }
    }

    /// A pure proportion of the reference length, in thousandths.
    pub fn from_rat(rat: u64) -> (l: Linear)
        ensures
            l == (Linear { abs: 0, rat }),
    {
        Linear { abs: 0, rat }
    }

    /// The length this value denotes against a given reference length:
    /// the absolute part plus the ratio part applied to the reference,
    /// saturating at the largest representable length.
    pub open spec fn spec_resolve(self, reference: u64) -> u64 {
        let v = self.abs + (self.rat * reference) / (PER_MILLE as int);
        if v > u64::MAX {
            u64::MAX
        } else {
            v as u64
        }
    }

    /// Resolve this length against a reference length.
    pub fn resolve(&self, reference: u64) -> (r: u64)
        ensures
            r == self.spec_resolve(reference),
    {
        proof {
            assert((self.rat as int) * (reference as int) <= (u64::MAX as int) * (u64::MAX as int))
                by (nonlinear_arith)
                requires
                    self.rat <= u64::MAX,
                    reference <= u64::MAX,
            ;
        }
        let wide: u128 = (self.rat as u128) * (reference as u128);
        let part: u128 = wide / (PER_MILLE as u128);
        let total: u128 = part + (self.abs as u128);
        if total > (u64::MAX as u128) {
            u64::MAX
        } else {
            total as u64
        }
    }
}

/// Resolving is constant in the reference for a length without a ratio
/// component: every reference yields the absolute part.
pub proof fn lemma_resolve_absolute(l: Linear, r1: u64, r2: u64)
    requires
        l.rat == 0,
    ensures
        l.spec_resolve(r1) == l.abs,
        l.spec_resolve(r1) == l.spec_resolve(r2),
{
}

/// A resolved length decomposes into the absolute component plus the
/// resolved ratio component, whenever the sum does not saturate.
pub proof fn lemma_resolve_split(l: Linear, r: u64)
    requires
        l.abs + (Linear { abs: 0, rat: l.rat }).spec_resolve(r) <= u64::MAX,
    ensures
        l.spec_resolve(r) == l.abs + (Linear { abs: 0, rat: l.rat }).spec_resolve(r),
{
}

/// The ratio component scales with the reference, provided resolving the
/// reference incurs no rounding and nothing saturates: a reference `k`
/// times as long resolves to `k` times the length.
pub proof fn lemma_resolve_ratio_scales(l: Linear, r: u64, k: u64)
    requires
        l.abs == 0,
        (l.rat * r) % (PER_MILLE as int) == 0,
        k * r <= u64::MAX,
        k * (l.rat * r / (PER_MILLE as int)) <= u64::MAX,
    ensures
        l.spec_resolve((k * r) as u64) == k * l.spec_resolve(r),
{
    let d = PER_MILLE as int;
    let a = l.rat * r;
    let m = a / d;
    assert(a == m * d) by {
        vstd::arithmetic::div_mod::lemma_fundamental_div_mod(a, d);
    }
    assert(l.rat * ((k * r) as u64) == k * a) by (nonlinear_arith)
        requires
            a == l.rat * r,
            k * r <= u64::MAX,
    ;
    assert(k * a == (k * m) * d) by (nonlinear_arith)
        requires
            a == m * d,
    ;
    assert((k * m) * d / d == k * m) by {
        vstd::arithmetic::div_mod::lemma_div_by_multiple(k * m, d);
    }
    assert(0 <= m) by {
        vstd::arithmetic::div_mod::lemma_div_pos_is_pos(a, d);
    }
    if k > 0 {
        assert(m <= k * m) by (nonlinear_arith)
            requires
                0 <= m,
                1 <= k,
        ;
    }
}

/// The ratio component is additive in the reference, provided the first
/// part incurs no rounding and nothing saturates. (With rounding the claim
/// fails: a ratio of 500 thousandths against references 1 and 1 gives
/// 0 + 0, while against their sum 2 it gives 1.)
pub proof fn lemma_resolve_ratio_additive(l: Linear, r1: u64, r2: u64)
    requires
        l.abs == 0,
        (l.rat * r1) % (PER_MILLE as int) == 0,
        r1 + r2 <= u64::MAX,
        l.rat * (r1 + r2) / (PER_MILLE as int) <= u64::MAX,
    ensures
        l.spec_resolve((r1 + r2) as u64) == l.spec_resolve(r1) + l.spec_resolve(r2),
{
    let d = PER_MILLE as int;
    let a = l.rat * r1;
    let b = l.rat * r2;
    let k = a / d;
    assert(a == k * d) by {
        vstd::arithmetic::div_mod::lemma_fundamental_div_mod(a, d);
    }
    assert(l.rat * ((r1 + r2) as u64) == a + b) by (nonlinear_arith)
        requires
            a == l.rat * r1,
            b == l.rat * r2,
            r1 + r2 <= u64::MAX,
    ;
    assert(b / d + k == (b + k * d) / d) by {
        lemma_hoist_over_denominator(b, k, d as nat);
    }
    assert((a + b) / d == a / d + b / d);
}

} // verus!
