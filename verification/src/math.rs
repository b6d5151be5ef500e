//! Points, rectangles and transforms, carried as bit patterns.
//!
//! Every scalar in this module is the IEEE-754 binary32 bit pattern of a
//! single-precision number. The library moves scalars from one record to
//! another; arithmetic on them is left to whoever evaluates the records.

use vstd::prelude::*;

verus! {

/// Bit pattern of `0.0`.
pub const ZERO: u32 = 0x0000_0000;

/// Bit pattern of `0.5`.
pub const HALF: u32 = 0x3f00_0000;

/// Bit pattern of `-0.5`.
pub const NEG_HALF: u32 = 0xbf00_0000;

/// A point or an extent in two dimensions.
#[derive(Clone, Copy, Debug, PartialEq, Eq, Structural)]
pub struct Vec2 {
    pub x: u32,
    pub y: u32,
}

/// A point in three dimensions.
#[derive(Clone, Copy, Debug, PartialEq, Eq, Structural)]
pub struct Vec3 {
    pub x: u32,
    pub y: u32,
    pub z: u32,
}

/// A 4×4 transform, its sixteen scalars in column-major order.
#[derive(Clone, Copy, Debug, PartialEq, Eq)]
pub struct Mat4 {
    pub cols: [u32; 16],
}

/// An axis-aligned rectangle in the pixel space of a source image.
#[derive(Clone, Copy, Debug, PartialEq, Eq, Structural)]
pub struct Rect {
    pub min: Vec2,
    pub max: Vec2,
}

impl Vec2 {
    /// The origin.
    pub fn zero() -> (v: Vec2)
        ensures
            v == (Vec2 { x: ZERO, y: ZERO }),
    {
        Vec2 { x: ZERO, y: ZERO }
    }
}

impl Rect {
    /// The point of the rectangle that is sampled at corner `k` of a quad,
    /// the corners counted in winding order: bottom-left, top-left,
    /// top-right, bottom-right. Image space grows downwards, so the bottom
    /// edge is the one at `max.y`.
    pub open spec fn spec_anchor(self, k: int) -> Vec2 {
        if k == 0 {
            Vec2 { x: self.min.x, y: self.max.y }
        } else if k == 1 {
            self.min
        } else if k == 2 {
            Vec2 { x: self.max.x, y: self.min.y }
        } else {
            self.max
        }
    }

    /// The anchor of corner `k`, for `k` below 4.
    pub fn anchor(&self, k: usize) -> (p: Vec2)
        requires
            k < 4,
        ensures
            p == self.spec_anchor(k as int),
    {
        if k == 0 {
            Vec2 { x: self.min.x, y: self.max.y }
        } else if k == 1 {
            self.min
        } else if k == 2 {
            Vec2 { x: self.max.x, y: self.min.y }
        } else {
            self.max
        }
    }
}

} // verus!
