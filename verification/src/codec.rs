//! Image and transport encodings at the pipeline's edge.
//!
//! JPEG compression and base64 transport encoding are done by outside
//! crates; their results are functions of their inputs alone, so each is
//! given a name that the callers' contracts use exactly.

use vstd::prelude::*;
use crate::errors::PipelineError;
use crate::raster::RgbImage;
use image::ImageEncoder;

verus! {

/// The JPEG stream (quality 85) of a packed RGB image with the given size.
pub uninterp spec fn jpeg_of(rgb: Seq<u8>, width: u32, height: u32) -> Seq<u8>;

/// The standard padded base64 text of a byte string.
pub uninterp spec fn base64_of(bytes: Seq<u8>) -> Seq<char>;

#[verifier::external_type_specification]
#[verifier::external_body]
pub struct ExImageError(image::ImageError);

/// Relies on image's `JpegEncoder::write_image` at quality 85: the buffer
/// length is checked against `3 * width * height` up front (met here by the
/// precondition), dimensions outside `1 ..= 65535` are rejected as an
/// error, and writing into a `Vec` cannot fail, so valid dimensions
/// succeed with the JPEG stream of the input.
#[verifier::external_body]
fn jpeg_encode_raw(rgb: &Vec<u8>, width: u32, height: u32) -> (r: Result<Vec<u8>, image::ImageError>)
    requires
        rgb@.len() == 3 * (width as int) * (height as int),
    ensures
        r is Ok <==> (1 <= width <= 65535 && 1 <= height <= 65535),
        r matches Ok(b) ==> b@ == jpeg_of(rgb@, width, height),
{
    let mut buf: Vec<u8> = Vec::new();
    let encoder = image::codecs::jpeg::JpegEncoder::new_with_quality(&mut buf, 85);
    match encoder.write_image(rgb, width, height, image::ExtendedColorType::Rgb8) {
        Ok(()) => Ok(buf),
        Err(e) => Err(e),
    }
}

/// Relies on base64's `STANDARD` engine: the result depends on the bytes
/// alone; with padding the output holds four characters for every three
/// input bytes, rounded up.
#[verifier::external_body]
fn base64_encode_raw(bytes: &Vec<u8>) -> (r: String)
    requires
        bytes@.len() <= usize::MAX / 4,
    ensures
        r@ == base64_of(bytes@),
        r@.len() == 4 * ((bytes@.len() + 2) / 3),
{
    base64::Engine::encode(&base64::engine::general_purpose::STANDARD, bytes.as_slice())
}

/// Compresses one selected frame to a JPEG stream.
///
/// Succeeds exactly when both dimensions are in `1 ..= 65535`; any other
/// geometry is reported as an encode failure.
pub fn encode_frame_jpeg(img: &RgbImage) -> (r: Result<Vec<u8>, PipelineError>)
    requires
        img.wf(),
    ensures
        r is Ok <==> (1 <= img.width <= 65535 && 1 <= img.height <= 65535),
        r matches Ok(b) ==> b@ == jpeg_of(img.bytes@, img.width, img.height),
        r matches Err(e) ==> e is EncodeFailed,
{
    match jpeg_encode_raw(&img.bytes, img.width, img.height) {
        Ok(b) => Ok(b),
        Err(_) => Err(PipelineError::EncodeFailed),
    }
}

/// The request one annotation job sends to the description capability:
/// a fixed instruction, the frame inlined as base64, and its media type.
pub struct DescribeRequest {
    pub prompt: String,
    pub image_base64: String,
    pub mime: String,
}

/// Builds the description request for one encoded frame: the instruction
/// text, the base64 transport encoding of the JPEG bytes, and the JPEG
/// media type.
pub fn describe_request(jpeg: &Vec<u8>) -> (r: DescribeRequest)
    requires
        jpeg@.len() <= usize::MAX / 4,
    ensures
        r.prompt@ == "Please describe what you see in this video frame with extremely detailed description try to understand the context of the frames. Make speculative guesses about what might be happening based on the frame!"@,
        r.image_base64@ == base64_of(jpeg@),
        r.image_base64@.len() == 4 * ((jpeg@.len() + 2) / 3),
        r.mime@ == "image/jpeg"@,
{
    DescribeRequest {
        prompt: String::from_str("Please describe what you see in this video frame with extremely detailed description try to understand the context of the frames. Make speculative guesses about what might be happening based on the frame!"),
        image_base64: base64_encode_raw(jpeg),
        mime: String::from_str("image/jpeg"),
    }
}

} // verus!
