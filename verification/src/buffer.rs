//! The raster itself: an RGBA buffer of the `image` crate, and what this
//! library takes on trust about it.

use crate::grid::{lemma_position_index, pixel_of, pixels_of, with_pixel, Grid, Pixel};
use vstd::prelude::*;

verus! {

/// An in-memory RGBA image, eight bits per channel, held in an
/// `image::RgbaImage`. Verus does not look inside: what the buffer holds is
/// named by [`raster_dimensions`] and [`raster_samples`].
#[verifier::external_body]
pub struct Raster {
    buffer: image::RgbaImage,
}

/// The width and the height of the buffer, as `ImageBuffer::dimensions`
/// gives them.
pub uninterp spec fn raster_dimensions(raster: Raster) -> (u32, u32);

/// The samples of the underlying container, as `ImageBuffer::as_raw` gives
/// them: row after row, four samples per pixel.
pub uninterp spec fn raster_samples(raster: Raster) -> Seq<u8>;

impl View for Raster {
    type V = Grid;

    open spec fn view(&self) -> Grid {
        Grid {
            width: raster_dimensions(*self).0 as nat,
            height: raster_dimensions(*self).1 as nat,
            pixels: pixels_of(
                raster_samples(*self),
                (raster_dimensions(*self).0 * raster_dimensions(*self).1) as nat,
            ),
        }
    }
}

impl Raster {
    /// The container holds the pixels and nothing after them: four samples
    /// for each of the width × height pixels.
    pub open spec fn packed(&self) -> bool {
        raster_samples(*self).len() == 4 * self@.width * self@.height
    }

    /// The view of a raster holds one pixel for each position, and the
    /// samples of a packed raster are those of its view.
    pub proof fn lemma_view(&self)
        ensures
            self@.wf(),
            self.packed() ==> raster_samples(*self) == self@.samples(),
    {
        if self.packed() {
            let count = self@.width * self@.height;
            assert(4 * count == 4 * self@.width * self@.height) by (nonlinear_arith)
                requires
                    count == self@.width * self@.height,
            ;
            assert(raster_samples(*self) =~= self@.samples());
        }
    }

    /// Makes a raster of the given size from its samples: row after row,
    /// four samples per pixel. The samples must be exactly those of
    /// `width * height` pixels, and a row must be addressable.
    pub fn from_samples(width: u32, height: u32, samples: Vec<u8>) -> (made: Option<Raster>)
        ensures
            match made {
                Some(raster) => {
                    &&& samples.len() == 4 * width * height
                    &&& 4 * width <= usize::MAX
                    &&& raster@ == (Grid {
                        width: width as nat,
                        height: height as nat,
                        pixels: pixels_of(samples@, (width * height) as nat),
                    })
                    &&& raster_samples(raster) == samples@
                    &&& raster.packed()
                },
                None => samples.len() != 4 * width * height || 4 * width > usize::MAX,
            },
    {
        assert(4 * (width as u128) * (height as u128) <= 0x4_0000_0000_0000_0000) by (nonlinear_arith);
        let needed: u128 = 4 * (width as u128) * (height as u128);
        if samples.len() as u128 != needed {
            return None;
        }
        buffer_from_raw(width, height, samples)
    }

    /// The number of columns.
    pub fn width(&self) -> (width: u32)
        ensures
            width == self@.width,
    {
        buffer_dimensions(self).0
    }

    /// The number of rows.
    pub fn height(&self) -> (height: u32)
        ensures
            height == self@.height,
    {
        buffer_dimensions(self).1
    }

    /// The pixel at column `x` of row `y`, if the raster has that position.
    pub fn pixel(&self, x: u32, y: u32) -> (found: Option<Pixel>)
        ensures
            match found {
                Some(pixel) => self@.contains(x as int, y as int) && pixel == self@.at(
                    x as int,
                    y as int,
                ),
                None => !self@.contains(x as int, y as int),
            },
    {
        let (width, height) = buffer_dimensions(self);
        if x < width && y < height {
            proof {
                lemma_position_index(width as int, height as int, x as int, y as int);
            }
            Some(buffer_get_pixel(self, x, y))
        } else {
            None
        }
    }

    /// Gives up the raster for its samples: row after row, four samples per
    /// pixel.
    pub fn into_samples(self) -> (samples: Vec<u8>)
        ensures
            samples@ == raster_samples(self),
            self.packed() ==> samples@ == self@.samples(),
    {
        proof {
            self.lemma_view();
        }
        buffer_into_raw(self)
    }
}

/// `ImageBuffer::dimensions`: returns the width and the height. A buffer of
/// the crate always holds at least four samples for each of its
/// width × height pixels: its constructors take no container that is
/// shorter, and nothing changes the size or the length afterwards.
#[verifier::external_body]
pub(crate) fn buffer_dimensions(raster: &Raster) -> (d: (u32, u32))
    ensures
        d == raster_dimensions(*raster),
        4 * d.0 * d.1 <= raster_samples(*raster).len() <= usize::MAX,
{
    raster.buffer.dimensions()
}

/// `ImageBuffer::new`: a buffer of the given size with every sample zero.
/// It panics where the number of samples does not fit in `usize`.
#[verifier::external_body]
pub(crate) fn buffer_new(width: u32, height: u32) -> (raster: Raster)
    requires
        4 * width <= usize::MAX,
        4 * width * height <= usize::MAX,
    ensures
        raster_dimensions(raster) == (width, height),
        raster_samples(raster) == Seq::new((4 * width * height) as nat, |i: int| 0u8),
{
    Raster { buffer: image::ImageBuffer::new(width, height) }
}

/// `ImageBuffer::from_raw`: takes the container as it is, if it holds at
/// least four samples for each pixel, and refuses it otherwise.
#[verifier::external_body]
pub(crate) fn buffer_from_raw(width: u32, height: u32, samples: Vec<u8>) -> (made: Option<Raster>)
    ensures
        match made {
            Some(raster) => {
                &&& 4 * width <= usize::MAX
                &&& 4 * width * height <= samples.len()
                &&& raster_dimensions(raster) == (width, height)
                &&& raster_samples(raster) == samples@
            },
            None => 4 * width > usize::MAX || 4 * width * height > samples.len(),
        },
{
    match image::ImageBuffer::from_raw(width, height, samples) {
        Some(buffer) => Some(Raster { buffer }),
        None => None,
    }
}

/// `ImageBuffer::into_raw`: gives the container back.
#[verifier::external_body]
pub(crate) fn buffer_into_raw(raster: Raster) -> (samples: Vec<u8>)
    ensures
        samples@ == raster_samples(raster),
{
    raster.buffer.into_raw()
}

/// `ImageBuffer::get_pixel`: the four samples that start at
/// `4 * (y * width + x)`. It panics outside the bounds.
#[verifier::external_body]
pub(crate) fn buffer_get_pixel(raster: &Raster, x: u32, y: u32) -> (pixel: Pixel)
    requires
        x < raster_dimensions(*raster).0,
        y < raster_dimensions(*raster).1,
    ensures
        pixel == pixel_of(raster_samples(*raster), y * raster_dimensions(*raster).0 + x),
{
    let image::Rgba([red, green, blue, alpha]) = *raster.buffer.get_pixel(x, y);
    Pixel { red, green, blue, alpha }
}

/// `ImageBuffer::put_pixel`: overwrites the four samples that start at
/// `4 * (y * width + x)` and nothing else. It panics outside the bounds.
#[verifier::external_body]
pub(crate) fn buffer_put_pixel(raster: &mut Raster, x: u32, y: u32, pixel: Pixel)
    requires
        x < raster_dimensions(*old(raster)).0,
        y < raster_dimensions(*old(raster)).1,
    ensures
        raster_dimensions(*final(raster)) == raster_dimensions(*old(raster)),
        raster_samples(*final(raster)) == with_pixel(
            raster_samples(*old(raster)),
            y * raster_dimensions(*old(raster)).0 + x,
            pixel,
        ),
{
    raster.buffer.put_pixel(x, y, image::Rgba([pixel.red, pixel.green, pixel.blue, pixel.alpha]));
}

} // verus!
