//! Bounding an image's larger side while keeping its aspect ratio.

use vstd::prelude::*;
use crate::raster::{DecodedImage, Raster};

verus! {

/// The side of the placeholder's source image is bounded by this many pixels.
pub const MAX_DIMENSION: u32 = 100;

/// The shorter side after scaling: `max_dim * short / long`, rounded down,
/// but never less than one pixel.
pub open spec fn scaled_side(short: nat, long: nat, max_dim: nat) -> nat {
    let q = (max_dim * short) / long;
    if q < 1 {
        1
    } else {
        q
    }
}

/// The size an image of `width` by `height` is brought to under the bound
/// `max_dim`: unchanged if it already fits, otherwise the longer side becomes
/// `max_dim` and the other follows in proportion.
pub open spec fn target_size(width: nat, height: nat, max_dim: nat) -> (nat, nat) {
    if width <= max_dim && height <= max_dim {
        (width, height)
    } else if width >= height {
        (max_dim, scaled_side(height, width, max_dim))
    } else {
        (scaled_side(width, height, max_dim), max_dim)
    }
}

/// The larger of two numbers.
pub open spec fn larger(a: nat, b: nat) -> nat {
    if a >= b {
        a
    } else {
        b
    }
}

/// The distance between two numbers.
pub open spec fn distance(a: nat, b: nat) -> nat {
    if a >= b {
        (a - b) as nat
    } else {
        (b - a) as nat
    }
}

/// The scaled side lies within one pixel of the exact proportion and never
/// exceeds the bound.
pub proof fn lemma_scaled_side(short: nat, long: nat, max_dim: nat)
    requires
        1 <= short <= long,
        1 <= max_dim,
    ensures
        1 <= scaled_side(short, long, max_dim) <= max_dim,
        short == long ==> scaled_side(short, long, max_dim) == max_dim,
        (scaled_side(short, long, max_dim) - 1) * long < max_dim * short,
        max_dim * short < (scaled_side(short, long, max_dim) + 1) * long,
{
    let n = (max_dim * short) as int;
    let d = long as int;
    let q = n / d;
    assert(n >= 1) by (nonlinear_arith)
        requires
            n == max_dim * short,
            max_dim >= 1,
            short >= 1,
    ;
    assert(n <= max_dim * d) by (nonlinear_arith)
        requires
            n == max_dim * short,
            short <= d,
            max_dim >= 0,
    ;
    assert(0 <= q && q * d <= n && n < (q + 1) * d) by (nonlinear_arith)
        requires
            d > 0,
            n >= 0,
            q == n / d,
    ;
    assert(q <= max_dim) by (nonlinear_arith)
        requires
            q * d <= n,
            n <= max_dim * d,
            d > 0,
    ;
    if short == long {
        assert(q == max_dim) by (nonlinear_arith)
            requires
                n == max_dim * d,
                d > 0,
                q * d <= n,
                n < (q + 1) * d,
        ;
    }
    let side = scaled_side(short, long, max_dim);
    assert((side - 1) * long < max_dim * short && max_dim * short < (side + 1) * long)
        by (nonlinear_arith)
        requires
            side == if q < 1 { 1 } else { q },
            0 <= q,
            q * d <= n,
            n < (q + 1) * d,
            n >= 1,
            d > 0,
            d == long,
            n == max_dim * short,
    ;
}

/// An image that already fits keeps its size.
pub proof fn lemma_small_size_kept(width: nat, height: nat, max_dim: nat)
    requires
        width <= max_dim,
        height <= max_dim,
    ensures
        target_size(width, height, max_dim) == (width, height),
{
}

/// An image that exceeds the bound is brought exactly to it: the larger
/// target side equals `max_dim`, both sides are at least one pixel, neither
/// grows, and the proportion is kept up to one pixel of rounding, that is,
/// `|out_w * height - out_h * width| < max(width, height)`.
pub proof fn lemma_large_size_bounded(width: nat, height: nat, max_dim: nat)
    requires
        1 <= width,
        1 <= height,
        1 <= max_dim,
        larger(width, height) > max_dim,
    ensures
        ({
            let (out_w, out_h) = target_size(width, height, max_dim);
            &&& larger(out_w, out_h) == max_dim
            &&& 1 <= out_w <= width
            &&& 1 <= out_h <= height
            &&& (width >= height ==> out_w == max_dim)
            &&& (height >= width ==> out_h == max_dim)
            &&& distance(out_w * height, out_h * width) < larger(width, height)
        }),
{
    let (out_w, out_h) = target_size(width, height, max_dim);
    if width >= height {
        lemma_scaled_side(height, width, max_dim);
        assert(out_w == max_dim);
        assert(out_h == scaled_side(height, width, max_dim));
        assert((out_h - 1) * width == out_h * width - width) by (nonlinear_arith);
        assert((out_h + 1) * width == out_h * width + width) by (nonlinear_arith);
        assert(out_h <= height) by (nonlinear_arith)
            requires
                (out_h - 1) * width < max_dim * height,
                max_dim < width,
                out_h >= 1,
                height >= 1,
        ;
    } else {
        lemma_scaled_side(width, height, max_dim);
        assert(out_h == max_dim);
        assert(out_w == scaled_side(width, height, max_dim));
        assert((out_w - 1) * height == out_w * height - height) by (nonlinear_arith);
        assert((out_w + 1) * height == out_w * height + height) by (nonlinear_arith);
        assert(out_w <= width) by (nonlinear_arith)
            requires
                (out_w - 1) * height < max_dim * width,
                max_dim < height,
                out_w >= 1,
                width >= 1,
        ;
    }
}

/// Computes the shorter target side.
fn scale_side(short: u32, long: u32, max_dim: u32) -> (side: u32)
    requires
        1 <= short <= long,
        1 <= max_dim,
    ensures
        side == scaled_side(short as nat, long as nat, max_dim as nat),
{
    proof {
        lemma_scaled_side(short as nat, long as nat, max_dim as nat);
        assert(max_dim * short <= 0xffff_ffff * 0xffff_ffff) by (nonlinear_arith)
            requires
                0 <= max_dim <= 0xffff_ffff,
                0 <= short <= 0xffff_ffff,
        ;
    }
    let q: u64 = (max_dim as u64) * (short as u64) / (long as u64);
    if q < 1 {
        1
    } else {
        q as u32
    }
}

/// The dimensions that `resize_to_fit` gives an image of this size.
pub fn target_dimensions(width: u32, height: u32, max_dim: u32) -> (size: (u32, u32))
    requires
        1 <= width,
        1 <= height,
        1 <= max_dim,
    ensures
        (size.0 as nat, size.1 as nat) == target_size(width as nat, height as nat, max_dim as nat),
{
    if width <= max_dim && height <= max_dim {
        (width, height)
    } else if width >= height {
        (max_dim, scale_side(height, width, max_dim))
    } else {
        (scale_side(width, height, max_dim), max_dim)
    }
}

/// The pixels that `image::imageops::resize` with the nearest-neighbour
/// filter produces from an RGBA8 picture of `width` by `height` when asked for
/// `new_width` by `new_height`.
pub uninterp spec fn nearest_resampled(
    width: nat,
    height: nat,
    pixels: Seq<u8>,
    new_width: nat,
    new_height: nat,
) -> Seq<u8>;

/// Calls `image::imageops::resize` with `FilterType::Nearest` on an RGBA8
/// buffer made of the given parts.
///
/// Trusted: the outcome is the buffer that `nearest_resampled` names, and it
/// holds `new_width * new_height` pixels of four bytes, which is how the
/// routine allocates its output. The preconditions keep the buffer large
/// enough for `ImageBuffer::from_raw` and every size the routine computes
/// within `usize`.
#[verifier::external_body]
fn resample_nearest(
    width: u32,
    height: u32,
    pixels: Vec<u8>,
    new_width: u32,
    new_height: u32,
) -> (out: Vec<u8>)
    requires
        1 <= width,
        1 <= height,
        1 <= new_width,
        1 <= new_height,
        pixels@.len() == 4 * width * height,
        4 * width * new_height <= usize::MAX,
        4 * new_width * new_height <= usize::MAX,
    ensures
        out@ == nearest_resampled(
            width as nat,
            height as nat,
            pixels@,
            new_width as nat,
            new_height as nat,
        ),
        out@.len() == 4 * new_width * new_height,
{
    let source = image::RgbaImage::from_raw(width, height, pixels).unwrap();
    let filter = image::imageops::FilterType::Nearest;
    image::imageops::resize(&source, new_width, new_height, filter).into_raw()
}

/// The image that `resize_to_fit` returns: the same image if it fits, else
/// the resampled one at the target size.
pub open spec fn resized(img: Raster, max_dim: nat) -> Raster {
    if img.fits(max_dim) {
        img
    } else {
        let (width, height) = target_size(img.width, img.height, max_dim);
        Raster {
            width,
            height,
            pixels: nearest_resampled(img.width, img.height, img.pixels, width, height),
        }
    }
}

/// Downsamples an image so that neither side exceeds `max_dim`.
///
/// An image that already fits is handed back as it is. Otherwise the longer
/// side becomes exactly `max_dim`, the other side is scaled by the same ratio
/// and rounded down (but stays at least one pixel), and the pixels are picked
/// by nearest-neighbour sampling.
pub fn resize_to_fit(img: DecodedImage, max_dim: u32) -> (out: DecodedImage)
    requires
        1 <= max_dim,
    ensures
        out@ == resized(img@, max_dim as nat),
        img@.fits(max_dim as nat) ==> out == img,
        out@.fits(max_dim as nat),
        !img@.fits(max_dim as nat) ==> {
            &&& larger(out@.width, out@.height) == max_dim
            &&& distance(out@.width * img@.height, out@.height * img@.width) < larger(
                img@.width,
                img@.height,
            )
        },
{
    if img.width() <= max_dim && img.height() <= max_dim {
        return img;
    }
    let ghost before = img@;
    let (width, height, pixels) = img.into_parts();
    let len: usize = pixels.len();
    let (new_width, new_height) = target_dimensions(width, height, max_dim);
    proof {
        lemma_large_size_bounded(width as nat, height as nat, max_dim as nat);
        assert(len == 4 * width * height);
        assert(4 * width * new_height <= 4 * width * height) by (nonlinear_arith)
            requires
                new_height <= height,
                width >= 0,
        ;
        assert(4 * new_width * new_height <= 4 * width * height) by (nonlinear_arith)
            requires
                new_height <= height,
                new_width <= width,
                0 <= new_width,
                0 <= new_height,
        ;
    }
    let resampled = resample_nearest(width, height, pixels, new_width, new_height);
    DecodedImage::from_parts(new_width, new_height, resampled)
}

} // verus!
