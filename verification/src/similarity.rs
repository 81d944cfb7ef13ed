//! Cosine similarity between feature vectors, carried exactly.
//!
//! The cosine of two level vectors is `dot / (|a| * |b|)`.  Instead of a
//! rounded quotient, a score keeps the dot product and the product of the
//! two squared norms; since every level is nonnegative, two scores compare
//! by cross-multiplying their squares, with no rounding and no division.
//! A degenerate pair (zero norm, mismatched or zero length) scores zero.

use vstd::prelude::*;
use crate::feature::{dot_prefix, norm_sq_of, lemma_dot_prefix_bounds, FeatureVector, DOT_MAX};

verus! {

/// A pair is degenerate when the cosine is declared zero rather than computed:
/// empty or mismatched vectors, or a vector of norm zero.
/// Largest possible squared denominator: DOT_MAX * DOT_MAX.
pub const DEN_MAX: u64 = 70938274037760000;

pub open spec fn degenerate_pair(a: Seq<u8>, b: Seq<u8>) -> bool {
    ||| a.len() == 0
    ||| b.len() == 0
    ||| a.len() != b.len()
    ||| norm_sq_of(a) == 0
    ||| norm_sq_of(b) == 0
}

/// Numerator of the similarity of `a` and `b`: their dot product,
/// or zero for a degenerate pair.
pub open spec fn score_num(a: Seq<u8>, b: Seq<u8>) -> int {
    if degenerate_pair(a, b) {
        0
    } else {
        dot_prefix(a, b, a.len() as int)
    }
}

/// Squared denominator of the similarity of `a` and `b`: the product of the
/// squared norms, or one for a degenerate pair.
pub open spec fn score_den(a: Seq<u8>, b: Seq<u8>) -> int {
    if degenerate_pair(a, b) {
        1
    } else {
        norm_sq_of(a) * norm_sq_of(b)
    }
}

/// `n1 / sqrt(d1) <= n2 / sqrt(d2)`, stated without roots or division:
/// both numerators are nonnegative, so squares compare the same way.
pub open spec fn score_le(n1: int, d1: int, n2: int, d2: int) -> bool {
    n1 * n1 * d2 <= n2 * n2 * d1
}

/// Similarity of two feature vectors as an exact rational:
/// the value is `num / sqrt(den)`.
pub struct SimScore {
    pub num: u64,
    pub den: u64,
}

impl SimScore {
    /// Bounds under which comparisons cannot overflow.
    pub open spec fn wf(self) -> bool {
        &&& self.num <= DOT_MAX
        &&& 1 <= self.den <= DEN_MAX
    }

    /// The score of a degenerate pair: exactly zero.
    pub open spec fn is_zero(self) -> bool {
        self.num == 0
    }

    /// Whether this score is exactly one, i.e. `num == sqrt(den)`.
    pub fn is_one(&self) -> (r: bool)
        requires
            self.wf(),
        ensures
            r == ((self.num as int) * (self.num as int) == self.den as int),
    {
        proof {
            vstd::arithmetic::mul::lemma_mul_upper_bound(
                self.num as int, DOT_MAX as int, self.num as int, DOT_MAX as int);
            lemma_dot_max_squared();
        }
        (self.num as u128) * (self.num as u128) == self.den as u128
    }

    /// Whether this score is at most `other`.
    pub fn le(&self, other: &SimScore) -> (r: bool)
        requires
            self.wf(),
            other.wf(),
        ensures
            r == score_le(self.num as int, self.den as int, other.num as int, other.den as int),
    {
        proof {
            lemma_score_sq_bound(self.num as int, other.den as int);
            lemma_score_sq_bound(other.num as int, self.den as int);
        }
        let lhs: u128 = (self.num as u128) * (self.num as u128) * (other.den as u128);
        let rhs: u128 = (other.num as u128) * (other.num as u128) * (self.den as u128);
        lhs <= rhs
    }
}

/// DOT_MAX squared is DEN_MAX.
proof fn lemma_dot_max_squared()
    ensures
        (DOT_MAX as int) * (DOT_MAX as int) == DEN_MAX as int,
{
    assert(266342400int * 266342400int == 70938274037760000int) by (nonlinear_arith);
}

/// `n * n * d` stays below `2^128` for an in-bounds numerator and denominator.
proof fn lemma_score_sq_bound(n: int, d: int)
    requires
        0 <= n <= DOT_MAX,
        0 <= d <= DEN_MAX,
    ensures
        0 <= n * n <= DEN_MAX,
        0 <= n * n * d < u128::MAX,
{
    lemma_dot_max_squared();
    vstd::arithmetic::mul::lemma_mul_upper_bound(n, DOT_MAX as int, n, DOT_MAX as int);
    vstd::arithmetic::mul::lemma_mul_nonnegative(n, n);
    vstd::arithmetic::mul::lemma_mul_nonnegative(n * n, d);
    vstd::arithmetic::mul::lemma_mul_upper_bound(n * n, DEN_MAX as int, d, DEN_MAX as int);
    assert(70938274037760000int * 70938274037760000int
        == 5032238723456334453905817600000000int) by (nonlinear_arith);
}

/// Similarity of `a` and `b` as an exact score.
///
/// The result is zero exactly on degenerate pairs; otherwise its numerator
/// is the dot product and its squared denominator the product of the norms.
pub fn cosine(a: &FeatureVector, b: &FeatureVector) -> (r: SimScore)
    requires
        a.wf(),
        b.wf(),
    ensures
        r.wf(),
        r.num == score_num(a.levels@, b.levels@),
        r.den == score_den(a.levels@, b.levels@),
        degenerate_pair(a.levels@, b.levels@) ==> r.is_zero(),
{
    if a.levels.len() == 0 || b.levels.len() == 0 || a.levels.len() != b.levels.len()
        || a.norm_sq == 0 || b.norm_sq == 0 {
        SimScore { num: 0, den: 1 }
    } else {
        let num = crate::feature::dot_levels(&a.levels, &b.levels);
        proof {
            lemma_dot_prefix_bounds(a.levels@, b.levels@, a.levels@.len() as int);
            lemma_dot_prefix_bounds(a.levels@, a.levels@, a.levels@.len() as int);
            lemma_dot_prefix_bounds(b.levels@, b.levels@, b.levels@.len() as int);
            vstd::arithmetic::mul::lemma_mul_upper_bound(
                a.norm_sq as int, DOT_MAX as int, b.norm_sq as int, DOT_MAX as int);
            lemma_dot_max_squared();
            lemma_pos_mul_pos(a.norm_sq as int, b.norm_sq as int);
        }
        let den = a.norm_sq * b.norm_sq;
        SimScore { num, den }
    }
}

/// The product of two positive integers is positive.
proof fn lemma_pos_mul_pos(x: int, y: int)
    requires
        1 <= x,
        1 <= y,
    ensures
        1 <= x * y,
{
    vstd::arithmetic::mul::lemma_mul_strictly_positive(x, y);
}

/// Law: a vector with a nonzero norm has similarity exactly one with itself.
pub proof fn lemma_cosine_self_is_one(v: Seq<u8>)
    requires
        v.len() > 0,
        norm_sq_of(v) != 0,
    ensures
        score_num(v, v) * score_num(v, v) == score_den(v, v),
{
}

/// Law: a degenerate pair scores exactly zero, never a division fault.
pub proof fn lemma_cosine_degenerate_is_zero(a: Seq<u8>, b: Seq<u8>)
    requires
        degenerate_pair(a, b),
    ensures
        score_num(a, b) == 0,
        score_den(a, b) == 1,
{
}

} // verus!
