//! The pixel buffer: a resizable two-dimensional grid of RGBA8 pixels with
//! a deterministic resize operation that preserves the overlapping region
//! and fills newly exposed area with opaque white.

use vstd::prelude::*;

use crate::pixel::DrawRequest;
use crate::pixel::OutOfBounds;
use crate::pixel::Rgba8;
use crate::pixel::out_of_bounds;
use crate::pixel::white;
use crate::raster::Raster;
use crate::raster::raster_clone;
use crate::raster::raster_dims;
use crate::raster::raster_get;
use crate::raster::raster_new;
use crate::raster::raster_pixels;
use crate::raster::raster_put;

verus! {

/// A dense row-major raster of `width * height` RGBA8 pixels. It has
/// exactly one mutator at a time; snapshots handed out are copies, never
/// aliases.
pub struct Buffer {
    pub width: u32,
    pub height: u32,
    pub img: Raster,
}

impl Buffer {
    /// The recorded dimensions agree with the raster that backs the buffer.
    pub open spec fn wf(self) -> bool {
        raster_dims(self.img) == (self.width as int, self.height as int)
    }

    /// The pixel at coordinate (x, y), as a mathematical view.
    pub open spec fn pix(self, x: int, y: int) -> Rgba8 {
        raster_pixels(self.img)[(x, y)]
    }

    /// Both buffers show the same picture: equal dimensions, equal pixels.
    pub open spec fn same_view(self, other: Buffer) -> bool {
        &&& self.width == other.width
        &&& self.height == other.height
        &&& forall|x: int, y: int|
            0 <= x < self.width && 0 <= y < self.height ==> #[trigger] self.pix(x, y) == other.pix(x, y)
    }

    /// A buffer filled with opaque white. Dimensions are assumed positive
    /// by the surrounding system; a zero-area buffer is a degenerate but
    /// legal case with no pixels to read or write.
    pub fn new(x: u32, y: u32) -> (b: Buffer)
        requires
            4 * x * y <= usize::MAX,
        ensures
            b.wf(),
            b.width == x,
            b.height == y,
            forall|i: int, j: int| 0 <= i < x && 0 <= j < y ==> #[trigger] b.pix(i, j) == white(),
    {
        let img = raster_new(x, y);
        Buffer { width: x, height: y, img }
    }

    /// Writes one pixel. The coordinate must be in bounds: a caller that
    /// cannot guarantee that uses [`Buffer::write`] instead.
    pub fn put_pixel(&mut self, x: u32, y: u32, color: Rgba8)
        requires
            old(self).wf(),
            x < old(self).width,
            y < old(self).height,
        ensures
            final(self).wf(),
            final(self).width == old(self).width,
            final(self).height == old(self).height,
            forall|i: int, j: int|
                0 <= i < old(self).width && 0 <= j < old(self).height
                    ==> #[trigger] final(self).pix(i, j) == (if i == x as int && j == y as int {
                    color
                } else {
                    old(self).pix(i, j)
                }),
    {
        raster_put(&mut self.img, x, y, color);
    }

    /// The checked write: rejects an out-of-bounds coordinate with
    /// `OutOfBounds` and leaves the buffer unchanged, writes the pixel
    /// otherwise. An `Err` here means some producer held stale resolution
    /// knowledge.
    pub fn write(&mut self, x: u32, y: u32, color: Rgba8) -> (r: Result<(), OutOfBounds>)
        requires
            old(self).wf(),
        ensures
            final(self).wf(),
            final(self).width == old(self).width,
            final(self).height == old(self).height,
            r is Ok <==> x < old(self).width && y < old(self).height,
            r is Ok ==> forall|i: int, j: int|
                0 <= i < old(self).width && 0 <= j < old(self).height
                    ==> #[trigger] final(self).pix(i, j) == (if i == x as int && j == y as int {
                    color
                } else {
                    old(self).pix(i, j)
                }),
            r is Err ==> *final(self) == *old(self) && r == Err::<(), OutOfBounds>(
                out_of_bounds(x, y),
            ),
    {
        if x < self.width && y < self.height {
            raster_put(&mut self.img, x, y, color);
            Ok(())
        } else {
            Err(OutOfBounds { x, y })
        }
    }

    /// Applies one draw request through the checked write.
    pub fn apply(&mut self, req: DrawRequest) -> (r: Result<(), OutOfBounds>)
        requires
            old(self).wf(),
        ensures
            final(self).wf(),
            final(self).width == old(self).width,
            final(self).height == old(self).height,
            r is Ok <==> req.in_bounds(old(self).width as int, old(self).height as int),
            r is Ok ==> forall|i: int, j: int|
                0 <= i < old(self).width && 0 <= j < old(self).height
                    ==> #[trigger] final(self).pix(i, j) == (if i == req.x as int && j == req.y as int {
                    req.color
                } else {
                    old(self).pix(i, j)
                }),
            r is Err ==> *final(self) == *old(self) && r == Err::<(), OutOfBounds>(
                out_of_bounds(req.x, req.y),
            ),
    {
        self.write(req.x, req.y, req.color)
    }

    /// Rescales to the requested size: a pure function of the old picture
    /// and the new dimensions. Every coordinate inside both the old and the
    /// new bounds keeps its pixel; all newly exposed pixels are opaque
    /// white.
    pub fn scale(&mut self, new_x: u32, new_y: u32)
        requires
            old(self).wf(),
            4 * new_x * new_y <= usize::MAX,
        ensures
            final(self).wf(),
            final(self).width == new_x,
            final(self).height == new_y,
            forall|i: int, j: int|
                0 <= i < new_x && 0 <= j < new_y
                    ==> #[trigger] final(self).pix(i, j) == (if i < old(self).width && j < old(
                    self,
                ).height {
                    old(self).pix(i, j)
                } else {
                    white()
                }),
    {
        let fresh = copy_overlap(&*self, new_x, new_y);
        self.img = fresh;
        self.width = new_x;
        self.height = new_y;
    }

    /// A point-in-time copy, the consumer's escape hatch for handing the
    /// picture to a rendering collaborator without aliasing the live
    /// buffer.
    pub fn snapshot(&self) -> (r: Buffer)
        requires
            self.wf(),
        ensures
            r.wf(),
            r.same_view(*self),
    {
        self.clone()
    }

    /// A deep copy of the buffer.
    pub fn clone(&self) -> (r: Buffer)
        requires
            self.wf(),
        ensures
            r.wf(),
            r.same_view(*self),
    {
        Buffer { width: self.width, height: self.height, img: raster_clone(&self.img) }
    }

    /// Consumes this buffer and hands back the replacement.
    pub fn replace(self, other: Buffer) -> (r: Buffer)
        ensures
            r == other,
    {
        other
    }

    /// A read-only view of the backing raster.
    pub fn buf_ref(&self) -> (r: &Raster)
        ensures
            *r == self.img,
    {
        &self.img
    }

    /// A mutable view of the backing raster; the recorded dimensions stay
    /// as they are, so the borrower must leave the raster's dimensions
    /// alone to keep the buffer well-formed.
    pub fn buf_mut_ref(&mut self) -> (r: &mut Raster)
        ensures
            *r == old(self).img,
            final(self).img == *final(r),
            final(self).width == old(self).width,
            final(self).height == old(self).height,
    {
        &mut self.img
    }

    /// Reads one pixel, `None` outside the bounds.
    pub fn pixel(&self, x: u32, y: u32) -> (r: Option<Rgba8>)
        requires
            self.wf(),
        ensures
            x < self.width && y < self.height ==> r == Some(self.pix(x as int, y as int)),
            !(x < self.width && y < self.height) ==> r is None,
    {
        if x < self.width && y < self.height {
            Some(raster_get(&self.img, x, y))
        } else {
            None
        }
    }
}

/// The pixel at (x, y) after applying a sequence of draw requests to a
/// buffer in order: the last request aimed at (x, y) wins; if none aims
/// there, the original pixel stays.
pub open spec fn pix_after(b: Buffer, reqs: Seq<DrawRequest>, x: int, y: int) -> Rgba8
    decreases reqs.len(),
{
    if reqs.len() == 0 {
        b.pix(x, y)
    } else {
        let last = reqs[reqs.len() - 1];
        if last.x == x && last.y == y {
            last.color
        } else {
            pix_after(b, reqs.drop_last(), x, y)
        }
    }
}

/// Builds the raster for a rescale: the overlap copied from `src`, the
/// rest opaque white.
#[verifier::loop_isolation(false)]
fn copy_overlap(src: &Buffer, new_x: u32, new_y: u32) -> (r: Raster)
    requires
        src.wf(),
        4 * new_x * new_y <= usize::MAX,
    ensures
        raster_dims(r) == (new_x as int, new_y as int),
        forall|i: int, j: int|
            0 <= i < new_x && 0 <= j < new_y ==> #[trigger] raster_pixels(r)[(i, j)] == (if i < src.width && j
                < src.height {
                src.pix(i, j)
            } else {
                white()
            }),
{
    let mut fresh = raster_new(new_x, new_y);
    let copy_w: u32 = if src.width < new_x {
        src.width
    } else {
        new_x
    };
    let copy_h: u32 = if src.height < new_y {
        src.height
    } else {
        new_y
    };
    let mut yy: u32 = 0;
    while yy < copy_h
        invariant
            yy <= copy_h,
            raster_dims(fresh) == (new_x as int, new_y as int),
            forall|i: int, j: int|
                0 <= i < new_x && 0 <= j < new_y ==> #[trigger] raster_pixels(fresh)[(i, j)] == (if i < copy_w
                    && j < yy {
                    src.pix(i, j)
                } else {
                    white()
                }),
        decreases copy_h - yy,
    {
        let mut xx: u32 = 0;
        while xx < copy_w
            invariant
                xx <= copy_w,
                yy < copy_h,
                raster_dims(fresh) == (new_x as int, new_y as int),
                forall|i: int, j: int|
                    0 <= i < new_x && 0 <= j < new_y ==> #[trigger] raster_pixels(fresh)[(i, j)] == (if (i
                        < copy_w && j < yy) || (j == yy && i < xx) {
                        src.pix(i, j)
                    } else {
                        white()
                    }),
            decreases copy_w - xx,
        {
            let c = raster_get(&src.img, xx, yy);
            raster_put(&mut fresh, xx, yy, c);
            xx = xx + 1;
        }
        yy = yy + 1;
    }
    fresh
}

} // verus!
