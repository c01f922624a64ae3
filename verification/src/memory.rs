//! Device memory objects as the host describes them: linear buffers and
//! two-dimensional images, how large they are, and which host arrays may be
//! copied to and from them.

use vstd::prelude::*;
use crate::error::ComputeError;
use crate::outside::{copy_row_alignment, in_host_order, staging_row_alignment, word_bytes};

verus! {

/// The width in bytes of one element. Every element that the engine moves is
/// a 32-bit scalar.
pub const ELEMENT_BYTES: u64 = 4;

/// How a device object may be touched.
#[derive(Debug, Clone, Copy, PartialEq, Eq, Structural)]
pub enum Access {
    ReadWrite,
    ReadOnly,
    WriteOnly,
    HostReadOnly,
}

/// The channel layout of an image.
#[derive(Debug, Clone, Copy, PartialEq, Eq, Structural)]
pub enum Channels {
    /// One channel per pixel.
    R,
    /// Four channels per pixel.
    Rgba,
}

impl Channels {
    /// The number of elements in one pixel.
    pub open spec fn spec_count(self) -> int {
        match self {
            Channels::R => 1,
            Channels::Rgba => 4,
        }
    }

    /// The number of elements in one pixel.
    pub fn count(&self) -> (r: u32)
        ensures
            r == self.spec_count(),
    {
        match self {
            Channels::R => 1,
            Channels::Rgba => 4,
        }
    }
}

/// The data type of the elements of an image.
#[derive(Debug, Clone, Copy, PartialEq, Eq, Structural)]
pub enum ElementType {
    /// 32-bit floating point, the one type that images are created with.
    Float32,
}

impl ElementType {
    /// The width of one element in bytes.
    pub open spec fn spec_bytes(self) -> int {
        match self {
            ElementType::Float32 => ELEMENT_BYTES as int,
        }
    }

    /// The width of one element in bytes.
    pub fn bytes(&self) -> (r: u64)
        ensures
            r == self.spec_bytes(),
    {
        match self {
            ElementType::Float32 => ELEMENT_BYTES,
        }
    }
}

/// What a `Buffer` stands for: a flat array of `len` elements on the
/// device.
pub struct BufferView {
    pub len: usize,
    pub access: Access,
}

/// A linear buffer.
#[derive(Debug, Clone, Copy, PartialEq, Eq)]
pub struct Buffer {
    len: usize,
    access: Access,
}

impl View for Buffer {
    type V = BufferView;

    closed spec fn view(&self) -> BufferView {
        BufferView { len: self.len, access: self.access }
    }
}

/// The number of elements in an image of the given size and layout.
pub open spec fn image_elements(width: int, height: int, channels: Channels) -> int {
    width * height * channels.spec_count()
}

/// An image of this size can be created: it is not empty, a host array can
/// hold its elements, and its size in bytes fits in 64 bits.
pub open spec fn image_fits(width: int, height: int, channels: Channels) -> bool {
    &&& width * height > 0
    &&& image_elements(width, height, channels) <= usize::MAX
    &&& image_elements(width, height, channels) * ELEMENT_BYTES <= u64::MAX
}

/// What an `Image` stands for: a `width` by `height` grid of pixels on the
/// device.
pub struct ImageView {
    pub width: u32,
    pub height: u32,
    pub channels: Channels,
    pub element: ElementType,
    pub access: Access,
}

impl ImageView {
    /// The number of elements: one per channel of each pixel.
    pub open spec fn element_count(self) -> int {
        image_elements(self.width as int, self.height as int, self.channels)
    }

    /// The number of bytes in one row of pixels.
    pub open spec fn row_bytes(self) -> int {
        self.width * self.channels.spec_count() * ELEMENT_BYTES
    }
}

/// An image object.
#[derive(Debug, Clone, Copy, PartialEq, Eq)]
pub struct Image {
    width: u32,
    height: u32,
    channels: Channels,
    element: ElementType,
    access: Access,
}

impl View for Image {
    type V = ImageView;

    closed spec fn view(&self) -> ImageView {
        ImageView {
            width: self.width,
            height: self.height,
            channels: self.channels,
            element: self.element,
            access: self.access,
        }
    }
}

/// Describes a buffer of `element_count` elements. Where initial host data
/// is supplied, `initial_len` is its length, which must be `element_count`
/// exactly.
pub fn create_buffer(element_count: usize, access: Access, initial_len: Option<usize>) -> (r:
    Result<Buffer, ComputeError>)
    ensures
        match r {
            Ok(buffer) => {
                &&& element_count * ELEMENT_BYTES <= u64::MAX
                &&& initial_len matches Some(n) ==> n == element_count
                &&& buffer@ == (BufferView { len: element_count, access })
            },
            Err(e) => if element_count * ELEMENT_BYTES > u64::MAX {
                e == ComputeError::InvalidExtent
            } else {
                initial_len matches Some(n) && n != element_count && e
                    == (ComputeError::SizeMismatch { expected: element_count, actual: n })
            },
        },
{
    if element_count as u128 * 4 > u64::MAX as u128 {
        return Err(ComputeError::InvalidExtent);
    }
    match initial_len {
        Some(n) if n != element_count => Err(
            ComputeError::SizeMismatch { expected: element_count, actual: n },
        ),
        _ => Ok(Buffer { len: element_count, access }),
    }
}

/// Describes an image of `width` by `height` pixels. An empty image, or one
/// too large to address, is rejected.
pub fn create_image(
    width: u32,
    height: u32,
    channels: Channels,
    element: ElementType,
    access: Access,
) -> (r: Result<Image, ComputeError>)
    ensures
        match r {
            Ok(image) => {
                &&& image_fits(width as int, height as int, channels)
                &&& image@ == (ImageView { width, height, channels, element, access })
            },
            Err(e) => !image_fits(width as int, height as int, channels) && e
                == ComputeError::InvalidExtent,
        },
{
    proof {
        lemma_pixel_bounds(width as int, height as int, channels);
    }
    let pixels: u128 = width as u128 * height as u128;
    let elements: u128 = pixels * channels.count() as u128;
    if pixels == 0 || elements > usize::MAX as u128 || elements * 4 > u64::MAX as u128 {
        Err(ComputeError::InvalidExtent)
    } else {
        Ok(Image { width, height, channels, element, access })
    }
}

/// What a copy between a host array of `host_len` elements and a device
/// object of `element_count` elements comes to: the number of bytes moved,
/// or a size mismatch, which is found before the device is touched.
fn transfer(element_count: usize, host_len: usize) -> (r: Result<u64, ComputeError>)
    requires
        element_count * ELEMENT_BYTES <= u64::MAX,
    ensures
        r == spec_transfer(element_count as int, host_len),
{
    if host_len == element_count {
        Ok(element_count as u64 * ELEMENT_BYTES)
    } else {
        Err(ComputeError::SizeMismatch { expected: element_count, actual: host_len })
    }
}

/// The outcome of copying between a device object of `element_count`
/// elements and a host array of `host_len` elements: the bytes moved where
/// the two lengths agree, a size mismatch where they do not.
pub open spec fn spec_transfer(element_count: int, host_len: usize) -> Result<u64, ComputeError> {
    if host_len == element_count {
        Ok((element_count * ELEMENT_BYTES) as u64)
    } else {
        Err(ComputeError::SizeMismatch { expected: element_count as usize, actual: host_len })
    }
}

impl Buffer {
    #[verifier::type_invariant]
    spec fn addressable(self) -> bool {
        self.len * ELEMENT_BYTES <= u64::MAX
    }

    /// The number of elements.
    pub fn len(&self) -> (r: usize)
        ensures
            r == self@.len,
    {
        self.len
    }

    /// The access the buffer was created with.
    pub fn access(&self) -> (r: Access)
        ensures
            r == self@.access,
    {
        self.access
    }

    /// The size of the buffer in bytes.
    pub fn byte_len(&self) -> (r: u64)
        ensures
            r == self@.len * ELEMENT_BYTES,
    {
        proof {
            use_type_invariant(self);
        }
        self.len as u64 * ELEMENT_BYTES
    }

    /// Checks a copy of a host array of `host_len` elements into the
    /// buffer, and gives the number of bytes to copy.
    pub fn upload(&self, host_len: usize) -> (r: Result<u64, ComputeError>)
        ensures
            r == spec_transfer(self@.len as int, host_len),
    {
        proof {
            use_type_invariant(self);
        }
        transfer(self.len, host_len)
    }

    /// Checks a copy of the buffer into a host array of `host_len`
    /// elements, and gives the number of bytes to copy.
    pub fn read_back(&self, host_len: usize) -> (r: Result<u64, ComputeError>)
        ensures
            r == spec_transfer(self@.len as int, host_len),
    {
        proof {
            use_type_invariant(self);
        }
        transfer(self.len, host_len)
    }
}

impl Image {
    #[verifier::type_invariant]
    spec fn addressable(self) -> bool {
        image_fits(self.width as int, self.height as int, self.channels)
    }

    /// The width in pixels.
    pub fn width(&self) -> (r: u32)
        ensures
            r == self@.width,
    {
        self.width
    }

    /// The height in pixels.
    pub fn height(&self) -> (r: u32)
        ensures
            r == self@.height,
    {
        self.height
    }

    /// The channel layout.
    pub fn channels(&self) -> (r: Channels)
        ensures
            r == self@.channels,
    {
        self.channels
    }

    /// The data type of the elements.
    pub fn element(&self) -> (r: ElementType)
        ensures
            r == self@.element,
    {
        self.element
    }

    /// The access the image was created with.
    pub fn access(&self) -> (r: Access)
        ensures
            r == self@.access,
    {
        self.access
    }

    /// The number of elements: one per channel of each pixel.
    pub fn element_count(&self) -> (r: usize)
        ensures
            r == self@.element_count(),
            r > 0,
            r * ELEMENT_BYTES <= u64::MAX,
    {
        proof {
            use_type_invariant(self);
            lemma_pixel_bounds(self.width as int, self.height as int, self.channels);
        }
        let pixels: u128 = self.width as u128 * self.height as u128;
        (pixels * self.channels.count() as u128) as usize
    }

    /// The size of the image in bytes.
    pub fn byte_len(&self) -> (r: u64)
        ensures
            r == self@.element_count() * ELEMENT_BYTES,
    {
        self.element_count() as u64 * ELEMENT_BYTES
    }

    /// The number of bytes in one row of pixels.
    pub fn row_bytes(&self) -> (r: u64)
        ensures
            r == self@.row_bytes(),
    {
        proof {
            lemma_pixel_bounds(self.width as int, 1, self.channels);
        }
        self.width as u64 * self.channels.count() as u64 * ELEMENT_BYTES
    }

    /// Checks a copy of a host array of `host_len` elements into the image
    /// and gives the number of bytes to copy. The copy always fills the
    /// whole image, so the array must hold every element of it.
    pub fn upload(&self, host_len: usize) -> (r: Result<u64, ComputeError>)
        ensures
            r == spec_transfer(self@.element_count(), host_len),
    {
        transfer(self.element_count(), host_len)
    }

    /// Checks a copy of the whole image into a host array of `host_len`
    /// elements and gives the number of bytes to copy.
    pub fn read_back(&self, host_len: usize) -> (r: Result<u64, ComputeError>)
        ensures
            r == spec_transfer(self@.element_count(), host_len),
    {
        transfer(self.element_count(), host_len)
    }

    /// The width and the height of the image as the eight bytes of a
    /// parameter block: two 32-bit words, width first, in the byte order of
    /// the host.
    pub fn extent_block(&self) -> (r: Vec<u8>)
        ensures
            in_host_order(r@, seq![self@.width, self@.height]),
    {
        let words: [u32; 2] = [self.width, self.height];
        word_bytes(words.as_slice())
    }

    /// The row pitch for reading the image back through a staging buffer,
    /// on a device that copies between images and buffers only in rows
    /// aligned to `staging_row_alignment()` bytes. Fails if the rows of this
    /// image are not so aligned, or if the pitch does not fit in 32 bits.
    pub fn staging_row_bytes(&self) -> (r: Result<u32, ComputeError>)
        ensures
            match r {
                Ok(pitch) => pitch == self@.row_bytes() && self@.row_bytes()
                    % staging_row_alignment() == 0,
                Err(e) => (self@.row_bytes() > u32::MAX || self@.row_bytes()
                    % staging_row_alignment() != 0) && e == ComputeError::InvalidExtent,
            },
    {
        let pitch = self.row_bytes();
        let alignment = copy_row_alignment();
        if pitch <= u32::MAX as u64 && pitch % (alignment as u64) == 0 {
            Ok(pitch as u32)
        } else {
            Err(ComputeError::InvalidExtent)
        }
    }
}

/// Products of 32-bit sizes and a channel count stay far below 128 bits,
/// and a pixel count that is positive makes the element count positive.
proof fn lemma_pixel_bounds(width: int, height: int, channels: Channels)
    requires
        0 <= width <= u32::MAX,
        0 <= height <= u32::MAX,
    ensures
        0 <= width * height <= 0xffff_ffff * 0xffff_ffff,
        width * height <= image_elements(width, height, channels) <= 4 * (width * height),
        image_elements(width, height, channels) == (width * height) * channels.spec_count(),
        0 <= width * channels.spec_count() <= 4 * width,
{
    assert(0 <= width * height <= 0xffff_ffff * 0xffff_ffff) by (nonlinear_arith)
        requires
            0 <= width <= 0xffff_ffff,
            0 <= height <= 0xffff_ffff,
    ;
    let pixels = width * height;
    let count = channels.spec_count();
    assert(pixels * count == count * pixels && width * count == count * width) by (nonlinear_arith);
}

} // verus!
