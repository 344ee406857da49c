//! Similarity scores and the match threshold.
//!
//! A score crosses the provider boundary as the bit pattern of an IEEE-754
//! single. The library only ever orders scores, and among the patterns with a
//! clear sign bit, up to and including positive infinity, the order of the
//! patterns is the order of the numbers they encode.

use vstd::arithmetic::power2::{
    lemma_pow2_pos, lemma_pow2_strictly_increases, lemma_pow2_unfold, pow2,
};
use vstd::prelude::*;

verus! {

/// Bit pattern of the single-precision number nearest to six tenths: the
/// least score that counts as a match, for every tenant alike.
pub const MATCH_THRESHOLD_BITS: u32 = 0x3F19_999A;

/// Bit pattern of positive infinity, the greatest pattern that is a number
/// and not negative.
pub const POSITIVE_INFINITY_BITS: u32 = 0x7F80_0000;

/// Bit pattern of one, the score of two equal templates.
pub const ONE_BITS: u32 = 0x3F80_0000;

/// A similarity score, held as the provider produced it.
#[derive(Clone, Copy, Debug, PartialEq, Eq, Structural)]
pub struct Similarity {
    pub bits: u32,
}

impl Similarity {
    /// The eight exponent bits of the pattern.
    pub open spec fn exponent(self) -> nat {
        ((self.bits / 0x80_0000) % 0x100) as nat
    }

    /// The twenty-three fraction bits of the pattern.
    pub open spec fn fraction(self) -> nat {
        (self.bits % 0x80_0000) as nat
    }

    /// The sign bit is set.
    pub open spec fn sign_bit(self) -> bool {
        self.bits >= 0x8000_0000
    }

    /// The pattern encodes a number that is not infinite.
    pub open spec fn is_finite(self) -> bool {
        self.exponent() < 0xFF
    }

    /// The pattern encodes no number: all exponent bits set, and a fraction
    /// bit.
    pub open spec fn is_nan(self) -> bool {
        self.exponent() == 0xFF && self.fraction() != 0
    }

    /// The magnitude of the number that a finite pattern encodes, counted in
    /// units of two to the power of minus 149, the least magnitude there is.
    pub open spec fn magnitude(self) -> nat {
        if self.exponent() == 0 {
            self.fraction()
        } else {
            (0x80_0000 + self.fraction()) * pow2((self.exponent() - 1) as nat)
        }
    }

    /// The score reaches the threshold: it is a number, not negative, and not
    /// below six tenths.
    pub open spec fn is_match(self) -> bool {
        MATCH_THRESHOLD_BITS <= self.bits <= POSITIVE_INFINITY_BITS
    }

    /// The score lies between zero and one, both included, as a provider is
    /// to produce it.
    pub open spec fn in_unit_interval(self) -> bool {
        self.bits <= ONE_BITS || self.bits == 0x8000_0000
    }

    /// Takes a score by its bit pattern.
    pub fn from_bits(bits: u32) -> (s: Similarity)
        ensures
            s.bits == bits,
    {
        Similarity { bits }
    }

    /// The score of no match at all: zero.
    pub fn zero() -> (s: Similarity)
        ensures
            s.bits == 0,
    {
        Similarity { bits: 0 }
    }

    /// The bit pattern of the score.
    pub fn to_bits(&self) -> (bits: u32)
        ensures
            bits == self.bits,
    {
        self.bits
    }

    /// Applies the threshold. The score is taken as it is and never clamped.
    pub fn meets_threshold(&self) -> (r: bool)
        ensures
            r == self.is_match(),
    {
        MATCH_THRESHOLD_BITS <= self.bits && self.bits <= POSITIVE_INFINITY_BITS
    }
}

/// The threshold as a score.
pub open spec fn threshold() -> Similarity {
    Similarity { bits: MATCH_THRESHOLD_BITS }
}

/// Among finite patterns with a clear sign bit a greater exponent is a
/// greater magnitude, whatever the fractions are.
proof fn lemma_exponent_orders(a: Similarity, b: Similarity)
    requires
        a.exponent() < b.exponent(),
    ensures
        a.magnitude() < b.magnitude(),
{
    let fa = a.fraction();
    let fb = b.fraction();
    let high = pow2((b.exponent() - 1) as nat);
    lemma_pow2_pos((b.exponent() - 1) as nat);
    assert(0x80_0000 <= (0x80_0000 + fb) * high) by (nonlinear_arith)
        requires
            high >= 1,
            fb >= 0,
    ;
    if a.exponent() == 0 {
    } else {
        let low = pow2((a.exponent() - 1) as nat);
        lemma_pow2_pos((a.exponent() - 1) as nat);
        lemma_pow2_unfold(a.exponent());
        if a.exponent() < b.exponent() - 1 {
            lemma_pow2_strictly_increases(a.exponent(), (b.exponent() - 1) as nat);
        }
        assert(2 * low <= high);
        assert((0x80_0000 + fa) * low < (0x80_0000 + fb) * high) by (nonlinear_arith)
            requires
                fa < 0x80_0000,
                fb >= 0,
                low >= 1,
                2 * low <= high,
        ;
    }
}

/// Among finite patterns with a clear sign bit a lesser pattern is a lesser
/// magnitude.
proof fn lemma_pattern_orders(a: Similarity, b: Similarity)
    requires
        !a.sign_bit(),
        !b.sign_bit(),
        b.is_finite(),
        a.bits < b.bits,
    ensures
        a.magnitude() < b.magnitude(),
{
    if a.exponent() < b.exponent() {
        lemma_exponent_orders(a, b);
    } else {
        assert(a.exponent() == b.exponent());
        assert(a.fraction() < b.fraction());
        if a.exponent() != 0 {
            let scale = pow2((a.exponent() - 1) as nat);
            lemma_pow2_pos((a.exponent() - 1) as nat);
            let fa = a.fraction();
            let fb = b.fraction();
            assert((0x80_0000 + fa) * scale < (0x80_0000 + fb) * scale) by (nonlinear_arith)
                requires
                    fa < fb,
                    scale >= 1,
            ;
        }
    }
}

/// The order of the patterns is the order of the numbers: of two finite
/// patterns with a clear sign bit, one is not above the other exactly when
/// its magnitude is not above the other's.
pub proof fn lemma_order_of_patterns(a: Similarity, b: Similarity)
    requires
        !a.sign_bit(),
        !b.sign_bit(),
        a.is_finite(),
        b.is_finite(),
    ensures
        a.bits <= b.bits <==> a.magnitude() <= b.magnitude(),
        a.bits == b.bits <==> a.magnitude() == b.magnitude(),
{
    if a.bits < b.bits {
        lemma_pattern_orders(a, b);
    }
    if b.bits < a.bits {
        lemma_pattern_orders(b, a);
    }
}

/// What the threshold means: a score reaches it exactly when it is a number
/// without a sign bit that is infinite or has at least the magnitude of the
/// threshold. The threshold is 10066330 parts in 16777216 of one, which is
/// the single nearest to six tenths; one is two to the power of 149 units.
pub proof fn lemma_threshold_means(s: Similarity)
    ensures
        s.is_match() <==> !s.is_nan() && !s.sign_bit() && (!s.is_finite() || s.magnitude()
            >= threshold().magnitude()),
        threshold().magnitude() == 10066330 * pow2(125),
        (Similarity { bits: ONE_BITS }).magnitude() == 16777216 * pow2(125),
        5 * 10066330 - 3 * 16777216 == 2,
{
    let one = Similarity { bits: ONE_BITS };
    assert(threshold().exponent() == 126 && threshold().fraction() == 1677722);
    assert(one.exponent() == 127 && one.fraction() == 0);
    lemma_pow2_unfold(126);
    assert(0x80_0000 * pow2(126) == 16777216 * pow2(125)) by (nonlinear_arith)
        requires
            pow2(126) == 2 * pow2(125),
    ;
    if !s.sign_bit() && s.is_finite() {
        lemma_order_of_patterns(s, threshold());
    }
}

/// What it means to lie between zero and one, for a pattern with a clear sign
/// bit: to be finite and of no greater magnitude than one.
pub proof fn lemma_unit_interval_means(s: Similarity)
    requires
        !s.sign_bit(),
    ensures
        s.in_unit_interval() <==> s.is_finite() && s.magnitude() <= (Similarity {
            bits: ONE_BITS,
        }).magnitude(),
{
    let one = Similarity { bits: ONE_BITS };
    assert(one.exponent() == 127 && one.fraction() == 0);
    if s.is_finite() {
        lemma_order_of_patterns(s, one);
    }
}

/// A score that is no number and a score with its sign bit set are never
/// matches; the score of two equal templates always is.
pub proof fn lemma_threshold_cases(s: Similarity)
    ensures
        s.is_nan() ==> !s.is_match(),
        s.sign_bit() ==> !s.is_match(),
        s.bits == ONE_BITS ==> s.is_match() && s.in_unit_interval(),
{
}

} // verus!
