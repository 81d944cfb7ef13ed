//! Feature extraction: bilinear downscale of a luminance plane to the
//! fixed 64 by 64 grid, in exact fixed-point arithmetic.
//!
//! The source position of output cell `o` along an axis of `src` samples
//! is `(o + 1/2) * src/64 - 1/2`, kept as the integer numerator over the
//! fixed denominator 128.  Each output cell blends the two neighbouring
//! samples on each axis with weights proportional to the fractional part,
//! clamping at both plane edges; the blended value, over denominator
//! `128 * 128`, is divided back down to a level in `0 ..= 255`.  The cost
//! is one pass over the output grid, independent of the source size.

use vstd::prelude::*;
use crate::feature::{FeatureVector, FEATURE_DIM};
use crate::raster::LumaPlane;
use vstd::arithmetic::mul::{lemma_mul_upper_bound, lemma_mul_inequality};
use vstd::arithmetic::div_mod::{lemma_div_is_ordered, lemma_fundamental_div_mod,
    lemma_fundamental_div_mod_converse};

verus! {

/// Side of the output grid.
pub const GRID: u64 = 64;

/// Denominator of a source position: twice the grid side.
pub const AXIS_DEN: u64 = 128;

/// Denominator of one blended value: AXIS_DEN * AXIS_DEN.
pub const BLEND_DEN: u64 = 16384;

/// Largest blended value: BLEND_DEN * 255.
pub const BLEND_MAX: u64 = 4177920;

/// Numerator of the source position of output cell `o` along an axis of
/// `src` samples, over denominator AXIS_DEN; negative near the low edge.
pub open spec fn axis_num(o: int, src: int) -> int {
    (2 * o + 1) * src - (GRID as int)
}

/// Index of the lower of the two source samples blended for cell `o`.
pub open spec fn axis_lo(o: int, src: int) -> int {
    if axis_num(o, src) < 0 {
        0
    } else {
        axis_num(o, src) / (AXIS_DEN as int)
    }
}

/// Weight of the upper sample, over denominator AXIS_DEN.
pub open spec fn axis_frac(o: int, src: int) -> int {
    if axis_num(o, src) < 0 {
        0
    } else {
        axis_num(o, src) % (AXIS_DEN as int)
    }
}

/// Index of the upper of the two source samples blended for cell `o`.
pub open spec fn axis_hi(o: int, src: int) -> int {
    if axis_lo(o, src) + 1 <= src - 1 {
        axis_lo(o, src) + 1
    } else {
        src - 1
    }
}

/// The blended luminance of output cell `(oy, ox)`, over denominator
/// BLEND_DEN.
pub open spec fn blend_at(p: LumaPlane, oy: int, ox: int) -> int {
    let y0 = axis_lo(oy, p.height as int);
    let y1 = axis_hi(oy, p.height as int);
    let ry = axis_frac(oy, p.height as int);
    let x0 = axis_lo(ox, p.width as int);
    let x1 = axis_hi(ox, p.width as int);
    let rx = axis_frac(ox, p.width as int);
    (128 - ry) * ((128 - rx) * p.sample_at(y0, x0) + rx * p.sample_at(y0, x1))
        + ry * ((128 - rx) * p.sample_at(y1, x0) + rx * p.sample_at(y1, x1))
}

/// The level of component `k` of the feature vector of plane `p`.
pub open spec fn level_at(p: LumaPlane, k: int) -> int {
    blend_at(p, k / (GRID as int), k % (GRID as int)) / (BLEND_DEN as int)
}

/// The two blended sample indices and the upper weight for cell `o` of an
/// axis with `src` source samples.
fn axis_parts(o: u64, src: u64) -> (r: (u64, u64, u64))
    requires
        o < GRID,
        1 <= src <= 0xFFFF_FFFF,
    ensures
        r.0 == axis_lo(o as int, src as int),
        r.1 == axis_hi(o as int, src as int),
        r.2 == axis_frac(o as int, src as int),
        r.0 <= r.1 < src,
        r.2 < 128,
{
    proof {
        lemma_mul_upper_bound(2 * (o as int) + 1, 127, src as int, 0xFFFF_FFFF);
        assert(127 * 0xFFFF_FFFFint == 545460846465int) by (nonlinear_arith);
    }
    let m_full = (2 * o + 1) * src;
    if m_full < GRID {
        let hi: u64 = if src >= 2 { 1 } else { 0 };
        (0, hi, 0)
    } else {
        let m = m_full - GRID;
        let lo = m / AXIS_DEN;
        let frac = m % AXIS_DEN;
        proof {
            lemma_mul_inequality(2 * (o as int) + 1, 127, src as int);
            lemma_fundamental_div_mod(m as int, AXIS_DEN as int);
            if lo as int >= src as int {
                lemma_mul_inequality(src as int, lo as int, AXIS_DEN as int);
                assert(false);
            }
        }
        let hi = if lo + 1 <= src - 1 {
            lo + 1
        } else {
            src - 1
        };
        (lo, hi, frac)
    }
}

/// Extracts the feature vector of a luminance plane: FEATURE_DIM levels,
/// each the exact bilinear blend of its grid cell.
pub fn extract_feature(plane: &LumaPlane) -> (r: FeatureVector)
    requires
        plane.wf(),
    ensures
        r.wf(),
        r.levels@.len() == FEATURE_DIM,
        forall|k: int| 0 <= k < FEATURE_DIM ==> r.levels@[k] as int == level_at(*plane, k),
{
    let h = plane.height as u64;
    let w = plane.width as u64;
    let mut levels: Vec<u8> = Vec::new();
    let mut oy: u64 = 0;
    while oy < GRID
        invariant
            plane.wf(),
            h == plane.height as u64,
            w == plane.width as u64,
            oy <= GRID,
            levels@.len() == 64 * oy,
            forall|k: int| 0 <= k < levels@.len() ==> levels@[k] as int == level_at(*plane, k),
        decreases GRID - oy,
    {
        let yparts = axis_parts(oy, h);
        let y0 = yparts.0 as usize;
        let y1 = yparts.1 as usize;
        let ry = yparts.2;
        let mut ox: u64 = 0;
        while ox < GRID
            invariant
                plane.wf(),
                h == plane.height as u64,
                w == plane.width as u64,
                oy < GRID,
                ox <= GRID,
                y0 == axis_lo(oy as int, h as int),
                y1 == axis_hi(oy as int, h as int),
                ry == axis_frac(oy as int, h as int),
                y0 <= y1 < plane.height,
                ry < 128,
                levels@.len() == 64 * oy + ox,
                forall|k: int| 0 <= k < levels@.len() ==> levels@[k] as int == level_at(*plane, k),
            decreases GRID - ox,
        {
            let xparts = axis_parts(ox, w);
            let x0 = xparts.0 as usize;
            let x1 = xparts.1 as usize;
            let rx = xparts.2;
            // the buffer length bounds every sample index and fits usize
            let _samples_len = plane.samples.len();
            proof {
                lemma_mul_inequality(y0 as int, plane.height as int - 1, plane.stride as int);
                lemma_mul_inequality(y1 as int, plane.height as int - 1, plane.stride as int);
            }
            let row0 = y0 * plane.stride;
            let row1 = y1 * plane.stride;
            let s00 = plane.samples[row0 + x0] as u64;
            let s01 = plane.samples[row0 + x1] as u64;
            let s10 = plane.samples[row1 + x0] as u64;
            let s11 = plane.samples[row1 + x1] as u64;
            proof {
                lemma_mul_upper_bound(128 - rx as int, 128 - rx as int, s00 as int, 255);
                lemma_mul_upper_bound(rx as int, rx as int, s01 as int, 255);
                lemma_mul_upper_bound(128 - rx as int, 128 - rx as int, s10 as int, 255);
                lemma_mul_upper_bound(rx as int, rx as int, s11 as int, 255);
            }
            let inner0 = (AXIS_DEN - rx) * s00 + rx * s01;
            let inner1 = (AXIS_DEN - rx) * s10 + rx * s11;
            proof {
                lemma_mul_upper_bound(128 - ry as int, 128 - ry as int, inner0 as int, 32640);
                lemma_mul_upper_bound(ry as int, ry as int, inner1 as int, 32640);
            }
            let v = (AXIS_DEN - ry) * inner0 + ry * inner1;
            proof {
                lemma_div_is_ordered(v as int, BLEND_MAX as int, BLEND_DEN as int);
                assert(4177920int / 16384int == 255int) by (nonlinear_arith);
            }
            let lvl = (v / BLEND_DEN) as u8;
            levels.push(lvl);
            proof {
                let k = 64 * (oy as int) + ox as int;
                lemma_fundamental_div_mod_converse(k, 64, oy as int, ox as int);
                assert(blend_at(*plane, oy as int, ox as int) == v);
                assert(levels@[k] as int == level_at(*plane, k));
            }
            ox = ox + 1;
        }
        oy = oy + 1;
    }
    proof {
        assert(levels@.len() == FEATURE_DIM);
    }
    FeatureVector::new(levels)
}

} // verus!
