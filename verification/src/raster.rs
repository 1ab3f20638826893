//! The trusted boundary to the `image` crate: the raster that backs a
//! [`crate::buffer::Buffer`] is an `image::ImageBuffer`, held in an opaque
//! struct and reached only through a few wrappers whose contracts speak of
//! two named spec functions, the raster's dimensions and its pixel
//! contents.

use vstd::prelude::*;

use crate::pixel::Rgba8;
use crate::pixel::white;

verus! {

/// The dense RGBA8 raster held by every buffer of this library. The field
/// is an `image::ImageBuffer` and stays hidden: all knowledge of it flows
/// through the contracts below.
#[verifier::external_body]
pub struct Raster {
    inner: image::ImageBuffer<image::Rgba<u8>, Vec<u8>>,
}

/// The dimensions (width, height) of a raster.
pub uninterp spec fn raster_dims(img: Raster) -> (int, int);

/// The pixel contents of a raster, keyed by (x, y) coordinate.
pub uninterp spec fn raster_pixels(img: Raster) -> Map<(int, int), Rgba8>;

/// Relies on image::ImageBuffer::from_pixel: a width-by-height raster with
/// every pixel set to the given value, here opaque white. It panics only
/// when the backing allocation would overflow usize, which the
/// precondition rules out.
#[verifier::external_body]
pub(crate) fn raster_new(w: u32, h: u32) -> (r: Raster)
    requires
        4 * w * h <= usize::MAX,
    ensures
        raster_dims(r) == (w as int, h as int),
        forall|x: int, y: int|
            0 <= x < w && 0 <= y < h ==> #[trigger] raster_pixels(r)[(x, y)] == white(),
{
    Raster {
        inner: image::ImageBuffer::from_pixel(w, h, image::Rgba([255u8, 255u8, 255u8, 255u8])),
    }
}

/// Relies on image::ImageBuffer::put_pixel: replaces the pixel at (x, y)
/// and touches nothing else. It panics on out-of-bounds coordinates, which
/// the precondition rules out.
#[verifier::external_body]
pub(crate) fn raster_put(img: &mut Raster, x: u32, y: u32, c: Rgba8)
    requires
        x < raster_dims(*old(img)).0,
        y < raster_dims(*old(img)).1,
    ensures
        raster_dims(*final(img)) == raster_dims(*old(img)),
        forall|i: int, j: int|
            0 <= i < raster_dims(*final(img)).0 && 0 <= j < raster_dims(*final(img)).1
                ==> #[trigger] raster_pixels(*final(img))[(i, j)] == (if i == x as int && j == y as int {
                c
            } else {
                raster_pixels(*old(img))[(i, j)]
            }),
{
    img.inner.put_pixel(x, y, image::Rgba([c.r, c.g, c.b, c.a]))
}

/// Relies on image::ImageBuffer::get_pixel: returns the pixel at (x, y).
/// It panics on out-of-bounds coordinates, which the precondition rules
/// out.
#[verifier::external_body]
pub(crate) fn raster_get(img: &Raster, x: u32, y: u32) -> (c: Rgba8)
    requires
        x < raster_dims(*img).0,
        y < raster_dims(*img).1,
    ensures
        c == raster_pixels(*img)[(x as int, y as int)],
{
    let p = img.inner.get_pixel(x, y);
    Rgba8 { r: p.0[0], g: p.0[1], b: p.0[2], a: p.0[3] }
}

/// Relies on image::ImageBuffer's Clone impl: the copy has the same
/// dimensions and the same pixel data as the source.
#[verifier::external_body]
pub(crate) fn raster_clone(img: &Raster) -> (r: Raster)
    ensures
        raster_dims(r) == raster_dims(*img),
        forall|i: int, j: int|
            0 <= i < raster_dims(r).0 && 0 <= j < raster_dims(r).1
                ==> #[trigger] raster_pixels(r)[(i, j)] == raster_pixels(*img)[(i, j)],
{
    Raster { inner: img.inner.clone() }
}

} // verus!
