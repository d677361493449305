//! Decoded images: a dense RGBA pixel buffer with its dimensions.

use vstd::prelude::*;
use crate::error::PipelineError;

verus! {

/// The mathematical content of an image: its size and its RGBA bytes, row by row.
pub struct Raster {
    pub width: nat,
    pub height: nat,
    pub pixels: Seq<u8>,
}

impl Raster {
    /// Both dimensions are positive and the buffer holds four bytes per pixel.
    pub open spec fn well_formed(self) -> bool {
        &&& self.width >= 1
        &&& self.height >= 1
        &&& self.pixels.len() == 4 * self.width * self.height
    }

    /// Neither dimension exceeds `max_dim`.
    pub open spec fn fits(self, max_dim: nat) -> bool {
        self.width <= max_dim && self.height <= max_dim
    }
}

/// A decoded image. Every value has positive dimensions and a buffer of
/// exactly `width * height * 4` bytes.
#[derive(Debug, PartialEq, Eq)]
pub struct DecodedImage {
    width: u32,
    height: u32,
    pixels: Vec<u8>,
}

impl View for DecodedImage {
    type V = Raster;

    closed spec fn view(&self) -> Raster {
        Raster { width: self.width as nat, height: self.height as nat, pixels: self.pixels@ }
    }
}

impl DecodedImage {
    #[verifier::type_invariant]
    spec fn inv(self) -> bool {
        self@.well_formed()
    }

    /// Builds an image from its parts, or `None` when a dimension is zero or
    /// the buffer length is not `width * height * 4`.
    pub fn new(width: u32, height: u32, pixels: Vec<u8>) -> (r: Option<DecodedImage>)
        ensures
            (Raster { width: width as nat, height: height as nat, pixels: pixels@ }).well_formed()
                <==> r is Some,
            r matches Some(img) ==> img@ == (Raster {
                width: width as nat,
                height: height as nat,
                pixels: pixels@,
            }),
    {
        if width == 0 || height == 0 {
            return None;
        }
        assert(width * height <= 0xffff_ffff * 0xffff_ffff) by (nonlinear_arith)
            requires
                width <= 0xffff_ffff,
                height <= 0xffff_ffff,
        ;
        let area: u64 = (width as u64) * (height as u64);
        let len: usize = pixels.len();
        assert(4 * width * height == 4 * (width * height)) by (nonlinear_arith);
        if len % 4 != 0 || (len / 4) as u64 != area {
            return None;
        }
        Some(DecodedImage { width, height, pixels })
    }

    /// Builds an image from parts that are known to match.
    pub(crate) fn from_parts(width: u32, height: u32, pixels: Vec<u8>) -> (img: DecodedImage)
        requires
            (Raster { width: width as nat, height: height as nat, pixels: pixels@ }).well_formed(),
        ensures
            img@ == (Raster { width: width as nat, height: height as nat, pixels: pixels@ }),
    {
        DecodedImage { width, height, pixels }
    }

    /// The width in pixels.
    pub fn width(&self) -> (w: u32)
        ensures
            w == self@.width,
            self@.well_formed(),
    {
        proof {
            use_type_invariant(self);
        }
        self.width
    }

    /// The height in pixels.
    pub fn height(&self) -> (h: u32)
        ensures
            h == self@.height,
            self@.well_formed(),
    {
        proof {
            use_type_invariant(self);
        }
        self.height
    }

    /// The RGBA bytes, row by row.
    pub fn pixels(&self) -> (p: &Vec<u8>)
        ensures
            p@ == self@.pixels,
            self@.well_formed(),
    {
        proof {
            use_type_invariant(self);
        }
        &self.pixels
    }

    /// Takes the image apart into width, height and buffer.
    pub fn into_parts(self) -> (parts: (u32, u32, Vec<u8>))
        ensures
            parts.0 == self@.width,
            parts.1 == self@.height,
            parts.2@ == self@.pixels,
            self@.well_formed(),
    {
        proof {
            use_type_invariant(&self);
        }
        (self.width, self.height, self.pixels)
    }
}

} // verus!
