//! The compact binary placeholder: a ThumbHash of the bounded image.
//!
//! Of the two known placeholder encodings this library implements the
//! compact binary one. The hash itself is the response payload; clients
//! decode it on their side.

use vstd::prelude::*;
use crate::error::PipelineError;
use crate::raster::{DecodedImage, Raster};
use crate::resize::{lemma_large_size_bounded, resize_to_fit, resized, MAX_DIMENSION};

verus! {

/// The ThumbHash that `thumbhash::rgba_to_thumb_hash` computes for an RGBA
/// picture of `width` by `height`. The routine reads nothing but these three,
/// so the same picture always has the same hash. It works in single-precision
/// floating point and takes cosines on the way to its four-to-six-bit fields.
pub uninterp spec fn thumb_hash_of(width: nat, height: nat, rgba: Seq<u8>) -> Seq<u8>;

/// Calls `thumbhash::rgba_to_thumb_hash`.
///
/// Trusted: the outcome is the hash that `thumb_hash_of` names. The
/// preconditions are the two assertions the routine makes on entry: neither
/// side above 100 pixels, and four bytes per pixel.
#[verifier::external_body]
fn thumb_hash(width: usize, height: usize, rgba: &[u8]) -> (hash: Vec<u8>)
    requires
        width <= 100,
        height <= 100,
        rgba@.len() == width * height * 4,
    ensures
        hash@ == thumb_hash_of(width as nat, height as nat, rgba@),
{
    thumbhash::rgba_to_thumb_hash(width, height, rgba)
}

/// The placeholder of an image, for images the encoder accepts.
pub open spec fn encoded(img: Raster) -> Result<Seq<u8>, PipelineError> {
    if img.fits(MAX_DIMENSION as nat) {
        Ok(thumb_hash_of(img.width, img.height, img.pixels))
    } else {
        Err(PipelineError::EncodingError)
    }
}

/// The bytes of a result, with the error kept.
pub open spec fn bytes_of(r: Result<Vec<u8>, PipelineError>) -> Result<Seq<u8>, PipelineError> {
    match r {
        Ok(bytes) => Ok(bytes@),
        Err(e) => Err(e),
    }
}

/// Hashes an image that is known to be within the encoder's bound.
fn encode_bounded(img: &DecodedImage) -> (hash: Vec<u8>)
    requires
        img@.fits(MAX_DIMENSION as nat),
    ensures
        hash@ == thumb_hash_of(img@.width, img@.height, img@.pixels),
{
    let width: u32 = img.width();
    let height: u32 = img.height();
    let pixels = img.pixels();
    assert(width * height * 4 == 4 * width * height) by (nonlinear_arith);
    thumb_hash(width as usize, height as usize, pixels.as_slice())
}

/// Encodes an image into its placeholder bytes.
///
/// Fails with `EncodingError` exactly when a side of the image exceeds
/// `MAX_DIMENSION`; the output of `resize_to_fit` under that bound never does.
pub fn encode_placeholder(img: &DecodedImage) -> (r: Result<Vec<u8>, PipelineError>)
    ensures
        bytes_of(r) == encoded(img@),
{
    if img.width() > MAX_DIMENSION || img.height() > MAX_DIMENSION {
        return Err(PipelineError::EncodingError);
    }
    Ok(encode_bounded(img))
}

/// Encoding is a function of the pixels and the dimensions: two images with
/// the same content have the same placeholder, byte for byte.
pub proof fn lemma_encoding_deterministic(a: Raster, b: Raster)
    requires
        a.width == b.width,
        a.height == b.height,
        a.pixels =~= b.pixels,
    ensures
        encoded(a) == encoded(b),
        placeholder_of(a) == placeholder_of(b),
{
}

/// The placeholder of a decoded image: bound its size, then encode.
pub open spec fn placeholder_of(img: Raster) -> Result<Seq<u8>, PipelineError> {
    encoded(resized(img, MAX_DIMENSION as nat))
}

/// Bounding an image by `MAX_DIMENSION` always yields one the encoder
/// accepts: the placeholder of a well-formed image never is `EncodingError`.
/// For an image that already fits it is the hash of the image itself.
pub proof fn lemma_placeholder_always_encodes(img: Raster)
    requires
        img.well_formed(),
    ensures
        placeholder_of(img) is Ok,
        resized(img, MAX_DIMENSION as nat).fits(MAX_DIMENSION as nat),
        img.fits(MAX_DIMENSION as nat) ==> placeholder_of(img) == Ok::<Seq<u8>, PipelineError>(
            thumb_hash_of(img.width, img.height, img.pixels),
        ),
{
    if !img.fits(MAX_DIMENSION as nat) {
        lemma_large_size_bounded(img.width, img.height, MAX_DIMENSION as nat);
    }
}

/// Produces the placeholder of a decoded image: bounds the image to
/// `MAX_DIMENSION` and encodes the result. It cannot fail.
pub fn generate_placeholder(img: DecodedImage) -> (payload: Vec<u8>)
    ensures
        Ok::<Seq<u8>, PipelineError>(payload@) == placeholder_of(img@),
{
    let small = resize_to_fit(img, MAX_DIMENSION);
    encode_bounded(&small)
}

} // verus!
