//! The rotation itself.

use crate::buffer::{
    buffer_dimensions, buffer_get_pixel, buffer_new, buffer_put_pixel, raster_dimensions,
    raster_samples, Raster,
};
use crate::error::ErrorKind;
use crate::grid::{lemma_position_index, lemma_with_pixel};
use vstd::prelude::*;

verus! {

/// Rotates a raster by 90 degrees clockwise into a fresh raster.
///
/// The result has the width and the height swapped, and the pixel at
/// `(x, y)` of the input stands at `(height - 1 - y, x)` of the result, its
/// channels untouched. A raster without pixels is refused.
pub fn rotate_clockwise_90(raster: &Raster) -> (rotated: Result<Raster, ErrorKind>)
    ensures
        match rotated {
            Ok(turned) => {
                &&& raster@.width >= 1
                &&& raster@.height >= 1
                &&& turned@ == raster@.rotated()
                &&& turned.packed()
                &&& forall|x: int, y: int|
                    raster@.contains(x, y) ==> turned@.at(raster@.height - 1 - y, x)
                        == #[trigger] raster@.at(x, y)
            },
            Err(kind) => {
                &&& kind == ErrorKind::InvalidDimensions
                &&& (raster@.width == 0 || raster@.height == 0)
            },
        },
{
    let (width, height) = buffer_dimensions(raster);
    if width == 0 || height == 0 {
        return Err(ErrorKind::InvalidDimensions);
    }
    let ghost w = width as int;
    let ghost h = height as int;
    proof {
        assert(4 * h <= 4 * w * h && 4 * h * w == 4 * w * h) by (nonlinear_arith)
            requires
                w >= 1,
                h >= 1,
        ;
        assert(raster@.wf());
    }
    let mut turned = buffer_new(height, width);
    for y in 0..height
        invariant
            w == width,
            h == height,
            w >= 1,
            h >= 1,
            w == raster@.width,
            h == raster@.height,
            4 * w * h <= raster_samples(*raster).len(),
            raster_dimensions(turned) == (height, width),
            raster_samples(turned).len() == 4 * h * w,
            forall|sx: int, sy: int|
                0 <= sx < w && 0 <= sy < y ==> turned@.at(h - 1 - sy, sx) == #[trigger] raster@.at(
                    sx,
                    sy,
                ),
    {
        for x in 0..width
            invariant
                w == width,
                h == height,
                w >= 1,
                h >= 1,
                0 <= y < h,
                w == raster@.width,
                h == raster@.height,
                4 * w * h <= raster_samples(*raster).len(),
                raster_dimensions(turned) == (height, width),
                raster_samples(turned).len() == 4 * h * w,
                forall|sx: int, sy: int|
                    0 <= sx < w && (0 <= sy < y || (sy == y && sx < x)) ==> turned@.at(
                        h - 1 - sy,
                        sx,
                    ) == #[trigger] raster@.at(sx, sy),
        {
            let pixel = buffer_get_pixel(raster, x, y);
            let ghost before = turned@;
            let ghost samples = raster_samples(turned);
            buffer_put_pixel(&mut turned, height - 1 - y, x, pixel);
            proof {
                let target = x * h + (h - 1 - y);
                lemma_position_index(h, w, h - 1 - y, x as int);
                lemma_position_index(w, h, x as int, y as int);
                assert(4 * (h * w) == 4 * h * w) by (nonlinear_arith);
                lemma_with_pixel(samples, (h * w) as nat, target, pixel);
                assert(turned@.pixels == before.pixels.update(target, pixel));
                assert(pixel == raster@.at(x as int, y as int));
                assert forall|sx: int, sy: int|
                    0 <= sx < w && (0 <= sy < y || (sy == y && sx < x + 1)) implies turned@.at(
                        h - 1 - sy,
                        sx,
                    ) == #[trigger] raster@.at(sx, sy) by {
                    lemma_position_index(h, w, h - 1 - sy, sx);
                    if sx == x && sy == y {
                    } else {
                        assert(before.at(h - 1 - sy, sx) == raster@.at(sx, sy));
                    }
                }
            }
        }
    }
    proof {
        raster@.lemma_rotated_unique(turned@);
    }
    Ok(turned)
}

} // verus!
