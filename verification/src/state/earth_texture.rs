//! The layout of the image of the earth that is drawn on the cylinder.
//!
//! The image comes as raw bytes: rows from top to bottom, each row pixel by
//! pixel from left to right, each pixel as four bytes (red, green, blue,
//! alpha), with nothing before, between or after. Bytes of any other length
//! are no such image and must not be handed to the texture.
use vstd::prelude::*;

verus! {

/// The bytes of one pixel.
pub const BYTES_PER_PIXEL: u32 = 4;

/// The width of the image of the earth, in pixels.
pub const EARTH_WIDTH: u32 = 2048;

/// The height of the image of the earth, in pixels.
pub const EARTH_HEIGHT: u32 = 1024;

/// How the bytes of an image are laid out.
#[derive(Clone, Copy, Debug, PartialEq, Eq, Structural)]
pub struct ImageLayout {
    /// The pixels of a row.
    pub width: u32,
    /// The rows.
    pub height: u32,
    /// The bytes from the start of a row to the start of the next.
    pub bytes_per_row: u32,
    /// The rows of the image.
    pub rows_per_image: u32,
}

/// The bytes of an image of `width` by `height` pixels.
pub open spec fn image_len(width: u32, height: u32) -> int {
    BYTES_PER_PIXEL * width * height
}

/// The layout of an image of `width` by `height` pixels.
pub open spec fn layout_of(width: u32, height: u32) -> ImageLayout {
    ImageLayout {
        width,
        height,
        bytes_per_row: (BYTES_PER_PIXEL * width) as u32,
        rows_per_image: height,
    }
}

/// Whether `len` bytes are an image of `width` by `height` pixels whose
/// layout can be written down: the bytes of a row are counted in 32 bits.
pub open spec fn is_image(width: u32, height: u32, len: usize) -> bool {
    BYTES_PER_PIXEL * width <= u32::MAX && len == image_len(width, height)
}

/// The layout of `len` bytes taken as an image of `width` by `height`
/// pixels, and `None` where they are no such image.
pub fn image_layout(width: u32, height: u32, len: usize) -> (layout: Option<ImageLayout>)
    ensures
        layout == (if is_image(width, height, len) {
            Some(layout_of(width, height))
        } else {
            None
        }),
{
    if width > u32::MAX / BYTES_PER_PIXEL {
        return None;
    }
    let bytes_per_row: u32 = BYTES_PER_PIXEL * width;
    assert(bytes_per_row * height <= u32::MAX * u32::MAX) by (nonlinear_arith)
        requires
            bytes_per_row <= u32::MAX,
            height <= u32::MAX,
    ;
    assert(BYTES_PER_PIXEL * width * height == bytes_per_row * height) by (nonlinear_arith)
        requires
            bytes_per_row == BYTES_PER_PIXEL * width,
    ;
    let total: u64 = bytes_per_row as u64 * height as u64;
    if len as u64 == total {
        Some(ImageLayout { width, height, bytes_per_row, rows_per_image: height })
    } else {
        None
    }
}

/// The layout of `len` bytes taken as the image of the earth, and `None`
/// where they are not of its length.
pub fn earth_layout(len: usize) -> (layout: Option<ImageLayout>)
    ensures
        layout == (if len == image_len(EARTH_WIDTH, EARTH_HEIGHT) {
            Some(layout_of(EARTH_WIDTH, EARTH_HEIGHT))
        } else {
            None
        }),
        image_len(EARTH_WIDTH, EARTH_HEIGHT) == 8_388_608,
{
    image_layout(EARTH_WIDTH, EARTH_HEIGHT, len)
}

} // verus!
