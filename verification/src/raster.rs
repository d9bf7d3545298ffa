//! Raster images, kept in an image buffer of the `image` crate: the tracer
//! reads textures from them and writes its output into them.

use vstd::prelude::*;

verus! {

/// A colour of three 8-bit channels: red, green, blue.
pub type Rgb8 = (u8, u8, u8);

/// An image of 8-bit RGB pixels.
#[verifier::external_body]
#[derive(Debug)]
pub struct Raster {
    buffer: image::RgbImage,
}

/// The width and height of an image, in pixels.
pub uninterp spec fn raster_dimensions(raster: Raster) -> (u32, u32);

/// The colours of an image, by column and row; row 0 is the top.
pub uninterp spec fn raster_pixels(raster: Raster) -> Map<(u32, u32), Rgb8>;

/// `ImageBuffer::new`: an image of the given size, every channel of every
/// pixel zero. It panics where three times the width, or that times the
/// height, exceeds what a vector can hold, which the precondition leaves
/// out.
#[verifier::external_body]
fn new_buffer(width: u32, height: u32) -> (raster: Raster)
    requires
        3 * width <= usize::MAX,
        3 * width * height <= isize::MAX,
    ensures
        raster_dimensions(raster) == (width, height),
        forall|x: u32, y: u32|
            x < width && y < height ==> #[trigger] raster_pixels(raster)[(x, y)] == (
                0u8,
                0u8,
                0u8,
            ),
{
    Raster { buffer: image::RgbImage::new(width, height) }
}

/// `ImageBuffer::width`: the first of the dimensions.
#[verifier::external_body]
fn buffer_width(raster: &Raster) -> (width: u32)
    ensures
        width == raster_dimensions(*raster).0,
{
    raster.buffer.width()
}

/// `ImageBuffer::height`: the second of the dimensions.
#[verifier::external_body]
fn buffer_height(raster: &Raster) -> (height: u32)
    ensures
        height == raster_dimensions(*raster).1,
{
    raster.buffer.height()
}

/// `ImageBuffer::get_pixel`: the colour at a column and row. It panics
/// outside the image, which the precondition leaves out.
#[verifier::external_body]
fn buffer_get(raster: &Raster, x: u32, y: u32) -> (color: Rgb8)
    requires
        x < raster_dimensions(*raster).0,
        y < raster_dimensions(*raster).1,
    ensures
        color == raster_pixels(*raster)[(x, y)],
{
    let pixel = raster.buffer.get_pixel(x, y);
    (pixel.0[0], pixel.0[1], pixel.0[2])
}

/// `ImageBuffer::put_pixel`: sets the colour at a column and row and leaves
/// the rest of the image, and its size, as they were. It panics outside the
/// image, which the precondition leaves out.
#[verifier::external_body]
fn buffer_put(raster: &mut Raster, x: u32, y: u32, color: Rgb8)
    requires
        x < raster_dimensions(*old(raster)).0,
        y < raster_dimensions(*old(raster)).1,
    ensures
        raster_dimensions(*final(raster)) == raster_dimensions(*old(raster)),
        raster_pixels(*final(raster)) == raster_pixels(*old(raster)).insert((x, y), color),
{
    raster.buffer.put_pixel(x, y, image::Rgb([color.0, color.1, color.2]));
}

impl Raster {
    /// The image's width.
    pub open spec fn spec_width(self) -> u32 {
        raster_dimensions(self).0
    }

    /// The image's height.
    pub open spec fn spec_height(self) -> u32 {
        raster_dimensions(self).1
    }

    /// The colour at a column and row.
    pub open spec fn at(self, x: u32, y: u32) -> Rgb8 {
        raster_pixels(self)[(x, y)]
    }

    /// Whether a column and row lie within the image.
    pub open spec fn contains(self, x: u32, y: u32) -> bool {
        x < self.spec_width() && y < self.spec_height()
    }

    /// Whether an image of this size can be held: the three bytes of each
    /// pixel of a row, and those of all rows, must fit a vector.
    pub open spec fn fits(width: u32, height: u32) -> bool {
        3 * width <= usize::MAX && 3 * width * height <= isize::MAX
    }

    /// A black image of the given size, or `None` if an image of that size
    /// cannot be held.
    pub fn new(width: u32, height: u32) -> (r: Option<Raster>)
        ensures
            r.is_some() == Self::fits(width, height),
            r matches Some(raster) ==> {
                &&& raster.spec_width() == width
                &&& raster.spec_height() == height
                &&& forall|x: u32, y: u32|
                    x < width && y < height ==> #[trigger] raster.at(x, y) == (0u8, 0u8, 0u8)
            },
    {
        let wide: u128 = width as u128;
        let high: u128 = height as u128;
        assert(wide * high <= 0xffff_ffff * 0xffff_ffff) by (nonlinear_arith)
            requires
                0 <= wide <= 0xffff_ffff,
                0 <= high <= 0xffff_ffff,
        ;
        let pixels: u128 = wide * high;
        let bytes: u128 = 3 * pixels;
        assert(bytes == 3 * width * height) by (nonlinear_arith)
            requires
                bytes == 3 * pixels,
                pixels == wide * high,
                wide == width,
                high == height,
        ;
        if 3 * wide <= usize::MAX as u128 && bytes <= isize::MAX as u128 {
            Some(new_buffer(width, height))
        } else {
            None
        }
    }

    /// The image's width in pixels.
    pub fn width(&self) -> (r: u32)
        ensures
            r == self.spec_width(),
    {
        buffer_width(self)
    }

    /// The image's height in pixels.
    pub fn height(&self) -> (r: u32)
        ensures
            r == self.spec_height(),
    {
        buffer_height(self)
    }

    /// The colour at a column and row, or `None` outside the image.
    pub fn get_pixel(&self, x: u32, y: u32) -> (r: Option<Rgb8>)
        ensures
            r == (if self.contains(x, y) {
                Some(self.at(x, y))
            } else {
                None
            }),
    {
        if x < buffer_width(self) && y < buffer_height(self) {
            Some(buffer_get(self, x, y))
        } else {
            None
        }
    }

    /// Sets the colour at a column and row and leaves every other pixel as it
    /// was. Outside the image nothing changes, and `false` is returned.
    pub fn put_pixel(&mut self, x: u32, y: u32, color: Rgb8) -> (done: bool)
        ensures
            done == old(self).contains(x, y),
            final(self).spec_width() == old(self).spec_width(),
            final(self).spec_height() == old(self).spec_height(),
            done ==> raster_pixels(*final(self)) == raster_pixels(*old(self)).insert((x, y), color),
            !done ==> raster_pixels(*final(self)) == raster_pixels(*old(self)),
    {
        if x < buffer_width(self) && y < buffer_height(self) {
            buffer_put(self, x, y, color);
            true
        } else {
            false
        }
    }
}

} // verus!
