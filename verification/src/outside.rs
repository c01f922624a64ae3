//! The calls this library makes into other crates. Verus takes the contract
//! of each on trust; nothing here is proved.

use vstd::prelude::*;
use crate::raster::RasterLayout;

verus! {

/// The row alignment, in bytes, that `wgpu` demands of a copy between a
/// texture and a buffer.
pub open spec fn staging_row_alignment() -> int {
    256
}

/// The 32-bit word that the four bytes from `4 * index` on spell, least
/// significant byte first.
pub open spec fn word_le(bytes: Seq<u8>, index: int) -> int {
    bytes[4 * index] + 0x100 * bytes[4 * index + 1] + 0x1_0000 * bytes[4 * index + 2] + 0x100_0000
        * bytes[4 * index + 3]
}

/// The 32-bit word that the four bytes from `4 * index` on spell, most
/// significant byte first.
pub open spec fn word_be(bytes: Seq<u8>, index: int) -> int {
    0x100_0000 * bytes[4 * index] + 0x1_0000 * bytes[4 * index + 1] + 0x100 * bytes[4 * index + 2]
        + bytes[4 * index + 3]
}

/// `bytes` holds `words` one after the other, four bytes each, in the byte
/// order of the machine, whichever of the two that is.
pub open spec fn in_host_order(bytes: Seq<u8>, words: Seq<u32>) -> bool {
    &&& bytes.len() == 4 * words.len()
    &&& {
        ||| forall|i: int| 0 <= i < words.len() ==> #[trigger] word_le(bytes, i) == words[i]
        ||| forall|i: int| 0 <= i < words.len() ==> #[trigger] word_be(bytes, i) == words[i]
    }
}

/// Reads `wgpu::COPY_BYTES_PER_ROW_ALIGNMENT`, which the crate declares as
/// the constant 256.
#[verifier::external_body]
pub(crate) fn copy_row_alignment() -> (r: u32)
    ensures
        r == staging_row_alignment(),
{
    wgpu::COPY_BYTES_PER_ROW_ALIGNMENT
}

/// Calls `image::ColorType::bytes_per_pixel` on the colour type that stands
/// for `layout`. The crate gives 1 for `L8` and 4 for `Rgba8`.
#[verifier::external_body]
pub(crate) fn color_bytes_per_pixel(layout: RasterLayout) -> (r: u8)
    ensures
        r == layout.spec_bytes_per_pixel(),
{
    let color = match layout {
        RasterLayout::Luma8 => image::ColorType::L8,
        RasterLayout::Rgba8 => image::ColorType::Rgba8,
    };
    color.bytes_per_pixel()
}

/// Calls `image::EncodableLayout::as_bytes` on a slice of bytes, for which
/// the crate hands the same bytes back.
#[verifier::external_body]
pub(crate) fn encodable_bytes(pixels: &[u8]) -> (r: &[u8])
    ensures
        r@ == pixels@,
{
    image::EncodableLayout::as_bytes(pixels)
}

/// Calls `bytemuck::cast_slice` to view 32-bit words as bytes, and copies
/// them out. The cast keeps the memory as it is, so each word shows as its
/// four bytes in the byte order of the machine; from words to bytes it
/// cannot fail.
#[verifier::external_body]
pub(crate) fn word_bytes(words: &[u32]) -> (r: Vec<u8>)
    ensures
        in_host_order(r@, words@),
{
    bytemuck::cast_slice::<u32, u8>(words).to_vec()
}

} // verus!
