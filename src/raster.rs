//! The RGBA image that frames are painted into, kept in an `image` crate
//! buffer.
use vstd::prelude::*;

use image::{Rgba, RgbaImage};

verus! {

/// An RGBA image, held in an `image::RgbaImage`.
#[verifier::external_body]
pub struct FrameImage {
    image: RgbaImage,
}

/// The pixels of an image, row by row from the top left corner.
pub uninterp spec fn image_pixels(img: FrameImage) -> Seq<Rgba<u8>>;

/// The width and height of an image.
pub uninterp spec fn image_dimensions(img: FrameImage) -> (u32, u32);

/// The position of pixel `(x, y)` in the row-by-row order of an image that
/// is `width` pixels wide.
pub open spec fn pixel_index(width: int, x: int, y: int) -> int {
    y * width + x
}

impl FrameImage {
    /// Relies on `ImageBuffer::from_pixel`: an image of the given size whose
    /// every pixel is `pixel`. It allocates `4 * width * height` bytes and
    /// panics where that does not fit a `Vec`.
    #[verifier::external_body]
    pub(crate) fn filled(width: u32, height: u32, pixel: Rgba<u8>) -> (r: FrameImage)
        requires
            4 * width * height <= isize::MAX,
        ensures
            image_dimensions(r) == (width, height),
            image_pixels(r) == Seq::new((width * height) as nat, |i: int| pixel),
    {
        FrameImage { image: RgbaImage::from_pixel(width, height, pixel) }
    }

    /// Relies on `ImageBuffer::dimensions`: the width and height the image
    /// was made with.
    #[verifier::external_body]
    fn dimensions(&self) -> (r: (u32, u32))
        ensures
            r == image_dimensions(*self),
    {
        self.image.dimensions()
    }

    /// Relies on `ImageBuffer::get_pixel`: the pixel at `(x, y)`. It panics
    /// outside the image's bounds.
    #[verifier::external_body]
    fn pixel_at(&self, x: u32, y: u32) -> (r: Rgba<u8>)
        requires
            x < image_dimensions(*self).0,
            y < image_dimensions(*self).1,
        ensures
            r == image_pixels(*self)[pixel_index(image_dimensions(*self).0 as int, x as int, y as int)],
    {
        *self.image.get_pixel(x, y)
    }

    /// Relies on `ImageBuffer::put_pixel`: overwrites pixel `(x, y)` and
    /// nothing else. It panics outside the image's bounds.
    #[verifier::external_body]
    pub(crate) fn put_pixel(&mut self, x: u32, y: u32, pixel: Rgba<u8>)
        requires
            x < image_dimensions(*old(self)).0,
            y < image_dimensions(*old(self)).1,
        ensures
            image_dimensions(*final(self)) == image_dimensions(*old(self)),
            image_pixels(*final(self)) == image_pixels(*old(self)).update(
                pixel_index(image_dimensions(*old(self)).0 as int, x as int, y as int),
                pixel,
            ),
    {
        self.image.put_pixel(x, y, pixel)
    }
    /// The image's width in pixels.
    pub fn width(&self) -> (r: u32)
        ensures
            r == image_dimensions(*self).0,
    {
        self.dimensions().0
    }

    /// The image's height in pixels.
    pub fn height(&self) -> (r: u32)
        ensures
            r == image_dimensions(*self).1,
    {
        self.dimensions().1
    }

    /// The pixel at `(x, y)`, counted from the top left corner.
    pub fn get_pixel(&self, x: u32, y: u32) -> (r: Rgba<u8>)
        requires
            x < image_dimensions(*self).0,
            y < image_dimensions(*self).1,
        ensures
            r == image_pixels(*self)[pixel_index(image_dimensions(*self).0 as int, x as int, y as int)],
    {
        self.pixel_at(x, y)
    }
}

} // verus!
