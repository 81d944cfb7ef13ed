//! Raw pixel carriers: an owned RGB image and a luminance plane.
//!
//! The decoder hands the pipeline one luminance plane per frame for
//! fingerprinting, and an RGB copy of the same frame for later encoding.
//! Both are plain byte buffers with their geometry spelled out.

use vstd::prelude::*;

verus! {

/// Ghost shape of an RGB image.
#[verifier::ext_equal]
pub ghost struct RgbView {
    pub width: int,
    pub height: int,
    pub bytes: Seq<u8>,
}

/// An owned, tightly packed RGB image: three bytes per pixel, row-major.
pub struct RgbImage {
    pub width: u32,
    pub height: u32,
    pub bytes: Vec<u8>,
}

impl View for RgbImage {
    type V = RgbView;

    open spec fn view(&self) -> RgbView {
        RgbView { width: self.width as int, height: self.height as int, bytes: self.bytes@ }
    }
}

impl RgbImage {
    /// The buffer holds exactly three bytes for every pixel.
    pub open spec fn wf(self) -> bool {
        self.bytes@.len() == 3 * (self.width as int) * (self.height as int)
    }
}

/// One frame's luminance plane: `width` live samples per row, rows laid
/// `stride` bytes apart, `height` rows in all.
pub struct LumaPlane {
    pub width: usize,
    pub height: usize,
    pub stride: usize,
    pub samples: Vec<u8>,
}

impl LumaPlane {
    /// Nonempty geometry that the sample buffer really covers.
    pub open spec fn wf(self) -> bool {
        &&& 1 <= self.width <= 0xFFFF_FFFF
        &&& 1 <= self.height <= 0xFFFF_FFFF
        &&& self.width <= self.stride <= 0xFFFF_FFFF
        &&& self.samples@.len() >= (self.height - 1) * self.stride + self.width
    }

    /// The sample at row `y`, column `x`.
    pub open spec fn sample_at(self, y: int, x: int) -> int {
        self.samples@[y * self.stride + x] as int
    }
}

/// Copies a byte buffer, keeping its contents exactly.
pub fn copy_bytes(v: &Vec<u8>) -> (r: Vec<u8>)
    ensures
        r@ == v@,
{
    let mut r: Vec<u8> = Vec::new();
    let mut i: usize = 0;
    while i < v.len()
        invariant
            i <= v@.len(),
            r@ == v@.subrange(0, i as int),
        decreases v@.len() - i,
    {
        r.push(v[i]);
        proof {
            assert(r@ =~= v@.subrange(0, i + 1));
        }
        i = i + 1;
    }
    proof {
        assert(r@ =~= v@);
    }
    r
}

/// Copies an RGB image, keeping geometry and contents.
pub fn copy_rgb(img: &RgbImage) -> (r: RgbImage)
    ensures
        r@ == img@,
        img.wf() ==> r.wf(),
{
    RgbImage { width: img.width, height: img.height, bytes: copy_bytes(&img.bytes) }
}

} // verus!
