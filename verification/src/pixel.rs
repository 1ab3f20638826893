use vstd::prelude::*;

verus! {

/// A single RGBA pixel value: four independent byte channels, no
/// premultiplication semantics assumed.
#[derive(Clone, Copy, Debug, PartialEq, Eq, Structural)]
pub struct Rgba8 {
    pub r: u8,
    pub g: u8,
    pub b: u8,
    pub a: u8,
}

/// The fill color of a fresh buffer and of newly exposed area: opaque white.
pub open spec fn white() -> Rgba8 {
    Rgba8 { r: 255, g: 255, b: 255, a: 255 }
}

/// Executable constructor for the opaque-white fill color.
pub fn opaque_white() -> (c: Rgba8)
    ensures
        c == white(),
{
    Rgba8 { r: 255, g: 255, b: 255, a: 255 }
}

/// One pixel write produced by a worker and applied once by the consumer.
#[derive(Clone, Copy, Debug, PartialEq, Eq, Structural)]
pub struct DrawRequest {
    pub x: u32,
    pub y: u32,
    pub color: Rgba8,
}

impl DrawRequest {
    /// The request addresses a pixel inside a `w` by `h` raster.
    pub open spec fn in_bounds(self, w: int, h: int) -> bool {
        self.x < w && self.y < h
    }
}

/// A write was aimed at a coordinate outside the buffer: a contract breach
/// of the resize protocol, surfaced loudly rather than clamped.
#[derive(Clone, Copy, Debug, PartialEq, Eq, Structural)]
pub struct OutOfBounds {
    pub x: u32,
    pub y: u32,
}

/// The rejection value for a write aimed at (x, y).
pub open spec fn out_of_bounds(x: u32, y: u32) -> OutOfBounds {
    OutOfBounds { x, y }
}

} // verus!
