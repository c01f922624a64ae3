//! Host-side rasters: the 8-bit pixel arrays that are handed to the image
//! codec once a result has been read back.

use vstd::prelude::*;
use crate::error::ComputeError;
use crate::outside::{color_bytes_per_pixel, encodable_bytes};

verus! {

/// The pixel layout of an 8-bit raster.
#[derive(Debug, Clone, Copy, PartialEq, Eq, Structural)]
pub enum RasterLayout {
    /// One grey byte per pixel.
    Luma8,
    /// Four bytes per pixel: red, green, blue, alpha.
    Rgba8,
}

impl RasterLayout {
    /// The number of bytes that one pixel takes.
    pub open spec fn spec_bytes_per_pixel(self) -> int {
        match self {
            RasterLayout::Luma8 => 1,
            RasterLayout::Rgba8 => 4,
        }
    }

    /// The number of bytes that one pixel takes, as the image codec counts
    /// them.
    pub fn bytes_per_pixel(&self) -> (r: u8)
        ensures
            r == self.spec_bytes_per_pixel(),
    {
        color_bytes_per_pixel(*self)
    }
}

/// The number of bytes in a raster of the given size and layout.
pub open spec fn raster_len(width: int, height: int, layout: RasterLayout) -> int {
    width * height * layout.spec_bytes_per_pixel()
}

/// `len` as a `usize`, or the largest `usize` if it does not fit.
pub open spec fn saturated(len: int) -> usize {
    if len <= usize::MAX {
        len as usize
    } else {
        usize::MAX
    }
}

/// Checks that `pixels` is a raster of `width` by `height` pixels in the
/// given layout, and hands its bytes on for encoding. A raster of any other
/// length is rejected here, before the codec sees it.
pub fn raster_bytes<'a>(pixels: &'a Vec<u8>, width: u32, height: u32, layout: RasterLayout) -> (r:
    Result<&'a [u8], ComputeError>)
    ensures
        match r {
            Ok(bytes) => pixels@.len() == raster_len(width as int, height as int, layout) && bytes@
                == pixels@,
            Err(e) => pixels@.len() != raster_len(width as int, height as int, layout) && e == (
            ComputeError::SizeMismatch {
                expected: saturated(raster_len(width as int, height as int, layout)),
                actual: pixels.len(),
            }),
        },
{
    let per_pixel = layout.bytes_per_pixel();
    assert(0 <= width * height <= 0xffff_ffff * 0xffff_ffff) by (nonlinear_arith)
        requires
            0 <= width <= 0xffff_ffff,
            0 <= height <= 0xffff_ffff,
    ;
    assert(per_pixel * (width * height) <= 4 * (0xffff_ffff * 0xffff_ffff)) by (nonlinear_arith)
        requires
            0 <= per_pixel <= 4,
            0 <= width * height <= 0xffff_ffff * 0xffff_ffff,
    ;
    let expected: u128 = per_pixel as u128 * (width as u128 * height as u128);
    if pixels.len() as u128 == expected {
        Ok(encodable_bytes(pixels.as_slice()))
    } else {
        let shown = if expected <= usize::MAX as u128 {
            expected as usize
        } else {
            usize::MAX
        };
        Err(ComputeError::SizeMismatch { expected: shown, actual: pixels.len() })
    }
}

} // verus!
