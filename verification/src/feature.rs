//! Feature vectors: the fixed-size luminance fingerprint of one frame.
//!
//! A frame's luminance plane is reduced to `FEATURE_DIM` levels, each in
//! `0 ..= 255`; similarity between two frames is judged on these vectors
//! alone.  The squared Euclidean norm is precomputed once and carried with
//! the levels, so every later comparison is a dot product away.

use vstd::prelude::*;

verus! {

/// Number of components of a full feature vector (a 64 by 64 grid).
pub const FEATURE_DIM: usize = 4096;

/// Largest value of one component times itself (255 * 255).
pub const LEVEL_SQ_MAX: u64 = 65025;

/// Largest possible squared norm or dot product: FEATURE_DIM * LEVEL_SQ_MAX.
pub const DOT_MAX: u64 = 266342400;

/// Dot product of the first `n` components of `a` and `b`.
pub open spec fn dot_prefix(a: Seq<u8>, b: Seq<u8>, n: int) -> int
    decreases n,
{
    if n <= 0 {
        0
    } else {
        dot_prefix(a, b, n - 1) + (a[n - 1] as int) * (b[n - 1] as int)
    }
}

/// Squared Euclidean norm of a vector of levels.
pub open spec fn norm_sq_of(v: Seq<u8>) -> int {
    dot_prefix(v, v, v.len() as int)
}

/// A dot product of level vectors is nonnegative and at most `n * LEVEL_SQ_MAX`.
pub proof fn lemma_dot_prefix_bounds(a: Seq<u8>, b: Seq<u8>, n: int)
    requires
        0 <= n,
        n <= a.len(),
        n <= b.len(),
    ensures
        0 <= dot_prefix(a, b, n),
        dot_prefix(a, b, n) <= n * (LEVEL_SQ_MAX as int),
    decreases n,
{
    if n > 0 {
        lemma_dot_prefix_bounds(a, b, n - 1);
        vstd::arithmetic::mul::lemma_mul_upper_bound(a[n - 1] as int, 255, b[n - 1] as int, 255);
    }
}

/// Fingerprint of one frame: levels plus the precomputed squared norm.
pub struct FeatureVector {
    pub levels: Vec<u8>,
    pub norm_sq: u64,
}

impl FeatureVector {
    /// The norm field matches the levels and the vector is not oversized.
    pub open spec fn wf(self) -> bool {
        &&& self.levels@.len() <= FEATURE_DIM
        &&& self.norm_sq == norm_sq_of(self.levels@)
    }

    /// Builds a feature vector, computing the squared norm of `levels`.
    pub fn new(levels: Vec<u8>) -> (r: FeatureVector)
        requires
            levels@.len() <= FEATURE_DIM,
        ensures
            r.wf(),
            r.levels@ == levels@,
    {
        let norm_sq = dot_levels(&levels, &levels);
        FeatureVector { levels, norm_sq }
    }
}

/// Copies a feature vector, keeping levels and norm exactly.
pub fn copy_feature(f: &FeatureVector) -> (r: FeatureVector)
    ensures
        r.levels@ == f.levels@,
        r.norm_sq == f.norm_sq,
        f.wf() ==> r.wf(),
{
    FeatureVector { levels: crate::raster::copy_bytes(&f.levels), norm_sq: f.norm_sq }
}

/// Dot product of two level vectors of equal length.
pub fn dot_levels(a: &Vec<u8>, b: &Vec<u8>) -> (r: u64)
    requires
        a@.len() == b@.len(),
        a@.len() <= FEATURE_DIM,
    ensures
        r == dot_prefix(a@, b@, a@.len() as int),
{
    let n = a.len();
    let mut sum: u64 = 0;
    let mut i: usize = 0;
    while i < n
        invariant
            i <= n,
            n == a@.len() == b@.len(),
            n <= FEATURE_DIM,
            sum == dot_prefix(a@, b@, i as int),
        decreases n - i,
    {
        proof {
            lemma_dot_prefix_bounds(a@, b@, i as int);
            vstd::arithmetic::mul::lemma_mul_upper_bound(a@[i as int] as int, 255, b@[i as int] as int, 255);
        }
        sum = sum + (a[i] as u64) * (b[i] as u64);
        i = i + 1;
    }
    sum
}

} // verus!
