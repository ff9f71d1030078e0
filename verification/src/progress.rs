//! Fixed-point progress fractions.
//!
//! The engine reports progress as a fraction of the whole operation. To keep
//! the arithmetic exact and verifiable, a fraction is stored as a number of
//! `units` out of `SCALE`, so a value of `SCALE` units means "complete".

use vstd::prelude::*;

verus! {

/// Number of units that make up a whole: a fraction is `units / SCALE`.
pub const SCALE: u64 = 1_000_000_000;

/// A progress fraction in fixed-point form: `units / SCALE`.
#[derive(PartialEq, Eq, Structural, Clone, Copy, Debug)]
pub struct Progress {
    units: u64,
}

/// What rescaling a local fraction into a parent's frame yields: the local
/// value is squeezed into the `count`-th of `total` equal slots.
pub open spec fn spec_rescale(units: int, count: int, total: int) -> int {
    (units + count * SCALE) / total
}

impl Progress {
    /// Every fraction that executable code can build stays within one.
    #[verifier::type_invariant]
    pub closed spec fn wf(self) -> bool {
        self.units <= SCALE
    }

    /// The number of fixed-point units of this fraction.
    pub closed spec fn val(self) -> int {
        self.units as int
    }

    /// The value of the fraction `numerator / denominator` on the fixed grid.
    pub open spec fn spec_ratio(numerator: int, denominator: int) -> int {
        (numerator * SCALE) / denominator
    }

    /// A fraction is well formed exactly when its value is at most one,
    /// and its value is never negative.
    pub proof fn lemma_wf_iff_val(self)
        ensures
            self.wf() <==> self.val() <= SCALE,
            0 <= self.val(),
    {
    }

    /// The fraction zero, as a value.
    pub closed spec fn spec_zero() -> Progress {
        Progress { units: 0 }
    }

    /// The fraction one, as a value.
    pub closed spec fn spec_one() -> Progress {
        Progress { units: SCALE }
    }

    /// The fraction `numerator / denominator` on the fixed grid, as a
    /// value. Outside the executable range the unit count wraps, which
    /// never arises for fractions built by executable code.
    pub closed spec fn spec_of_ratio(numerator: int, denominator: int) -> Progress {
        Progress { units: Self::spec_ratio(numerator, denominator) as u64 }
    }

    /// What the zero and one fraction values mean in units.
    pub proof fn lemma_value_forms()
        ensures
            Self::spec_zero().val() == 0,
            Self::spec_one().val() == SCALE,
            Self::spec_zero().wf(),
            Self::spec_one().wf(),
    {
    }

    /// What `spec_of_ratio` means in units for a genuine fraction.
    pub proof fn lemma_of_ratio_val(numerator: int, denominator: int)
        requires
            1 <= denominator,
            0 <= numerator <= denominator,
        ensures
            Self::spec_of_ratio(numerator, denominator).val() == Self::spec_ratio(
                numerator,
                denominator,
            ),
            Self::spec_of_ratio(numerator, denominator).wf(),
            0 <= Self::spec_ratio(numerator, denominator) <= SCALE,
    {
        assert(0 <= (numerator * SCALE) / denominator <= SCALE) by (nonlinear_arith)
            requires
                1 <= denominator,
                0 <= numerator <= denominator,
                0 < SCALE,
        ;
    }

    /// Later numerators never lower the fraction.
    pub proof fn lemma_ratio_monotone(n1: int, n2: int, denominator: int)
        requires
            1 <= denominator,
            0 <= n1 <= n2,
        ensures
            Self::spec_ratio(n1, denominator) <= Self::spec_ratio(n2, denominator),
    {
        assert((n1 * SCALE) / denominator <= (n2 * SCALE) / denominator) by (nonlinear_arith)
            requires
                1 <= denominator,
                0 <= n1 <= n2,
                0 < SCALE,
        ;
    }

    /// The number of fixed-point units of this fraction.
    pub fn units(&self) -> (r: u64)
        ensures
            r == self.val(),
    {
        self.units
    }

    /// The fraction zero.
    pub fn zero() -> (r: Self)
        ensures
            r == Self::spec_zero(),
            r.val() == 0,
            r.wf(),
    {
        Progress { units: 0 }
    }

    /// The fraction one.
    pub fn one() -> (r: Self)
        ensures
            r == Self::spec_one(),
            r.val() == SCALE,
            r.wf(),
    {
        Progress { units: SCALE }
    }

    /// The fraction `numerator / denominator`, rounded down to the fixed grid.
    pub fn ratio(numerator: u64, denominator: u64) -> (r: Self)
        requires
            1 <= denominator,
            numerator <= denominator,
        ensures
            r == Self::spec_of_ratio(numerator as int, denominator as int),
            r.val() == Self::spec_ratio(numerator as int, denominator as int),
            r.wf(),
    {
        proof {
            assert((numerator as int) * (SCALE as int) <= (u64::MAX as int) * (SCALE as int))
                by (nonlinear_arith)
                requires
                    0 <= numerator <= u64::MAX,
                    0 <= SCALE,
            ;
        }
        let n: u128 = (numerator as u128) * (SCALE as u128);
        let d: u128 = denominator as u128;
        let q: u128 = n / d;
        proof {
            assert(n <= d * SCALE) by (nonlinear_arith)
                requires
                    n == numerator * SCALE,
                    numerator <= d,
                    0 <= SCALE,
            ;
            lemma_div_bound(n as int, d as int, SCALE as int);
        }
        Progress { units: q as u64 }
    }

    /// Rescaling this fraction into slot `count` of `total` equal slots,
    /// as a value. Outside the executable range the unit count wraps, which
    /// never arises for fractions built by executable code.
    pub closed spec fn spec_rescaled(self, count: int, total: int) -> Progress {
        Progress { units: spec_rescale(self.units as int, count, total) as u64 }
    }

    /// What `spec_rescaled` means for the unit count of a well-formed input.
    pub proof fn lemma_rescaled_val(self, count: int, total: int)
        requires
            self.wf(),
            0 <= count < total,
        ensures
            self.spec_rescaled(count, total).val() == spec_rescale(self.val(), count, total),
            self.spec_rescaled(count, total).wf(),
    {
        lemma_rescale_in_range(self.units as int, count, total);
    }

    /// Rescales this local fraction into slot `count` of `len + 1` equal
    /// slots of a parent frame.
    pub fn rescale(self, count: u128, len: usize) -> (r: Self)
        requires
            count <= len as int,
        ensures
            r == self.spec_rescaled(count as int, len as int + 1),
            r.val() == spec_rescale(self.val(), count as int, len as int + 1),
            r.wf(),
    {
        proof {
            use_type_invariant(self);
            lemma_rescale_in_range(self.units as int, count as int, len as int + 1);
            assert((count as int) * (SCALE as int) <= (u64::MAX as int) * (SCALE as int))
                by (nonlinear_arith)
                requires
                    0 <= count <= u64::MAX,
                    0 <= SCALE,
            ;
        }
        let num: u128 = (self.units as u128) + count * (SCALE as u128);
        let den: u128 = (len as u128) + 1;
        let q: u128 = num / den;
        Progress { units: q as u64 }
    }
}

/// Division of a bounded numerator stays bounded: if `n <= d * b` then
/// `n / d <= b`.
proof fn lemma_div_bound(n: int, d: int, b: int)
    requires
        1 <= d,
        0 <= n,
        n <= d * b,
    ensures
        0 <= n / d <= b,
{
    assert(0 <= n / d <= b) by (nonlinear_arith)
        requires
            1 <= d,
            0 <= n,
            n <= d * b,
    ;
}

/// A well-formed fraction rescaled into a genuine slot stays within one.
pub proof fn lemma_rescale_in_range(units: int, count: int, total: int)
    requires
        0 <= units <= SCALE,
        0 <= count < total,
    ensures
        0 <= spec_rescale(units, count, total) <= SCALE,
{
    assert(0 <= (units + count * SCALE) / total <= SCALE) by (nonlinear_arith)
        requires
            0 <= units <= SCALE,
            0 <= count < total,
    ;
}

/// Rescaling is monotone in both the local fraction and the slot index, so a
/// child that reports non-decreasing values keeps them non-decreasing in the
/// parent's frame, and later slots always sit at or above earlier ones.
pub proof fn lemma_rescale_monotone(u1: int, c1: int, u2: int, c2: int, total: int)
    requires
        1 <= total,
        0 <= u1,
        0 <= u2,
        u1 <= u2 || (u1 <= SCALE && c1 < c2),
        0 <= c1 <= c2,
    ensures
        spec_rescale(u1, c1, total) <= spec_rescale(u2, c2, total),
{
    assert((u1 + c1 * SCALE) <= (u2 + c2 * SCALE)) by (nonlinear_arith)
        requires
            u1 <= u2 || (u1 <= SCALE && c1 < c2),
            0 <= u1,
            0 <= u2,
            0 <= c1 <= c2,
    ;
    assert((u1 + c1 * SCALE) / total <= (u2 + c2 * SCALE) / total) by (nonlinear_arith)
        requires
            1 <= total,
            0 <= u1 + c1 * SCALE,
            (u1 + c1 * SCALE) <= (u2 + c2 * SCALE),
    ;
}

} // verus!
