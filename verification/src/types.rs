//! Plain value types carried across the native boundary: positions, sizes,
//! geometries, and the opaque bitfields for resize edges, view types and
//! view states.

use vstd::prelude::*;

verus! {

/// A position in output-local coordinates.
#[derive(Clone, Copy, PartialEq, Eq, Structural, Debug)]
pub struct Point {
    pub x: i32,
    pub y: i32,
}

/// A size in pixels.
#[derive(Clone, Copy, PartialEq, Eq, Structural, Debug)]
pub struct Size {
    pub w: u32,
    pub h: u32,
}

/// A rectangle: where a view sits and how large it is.
#[derive(Clone, Copy, PartialEq, Eq, Structural, Debug)]
pub struct Geometry {
    pub origin: Point,
    pub size: Size,
}

impl Geometry {
    /// True of the zero-origin, zero-size sentinel.
    pub open spec fn is_zeroed(self) -> bool {
        self.origin.x == 0 && self.origin.y == 0 && self.size.w == 0 && self.size.h == 0
    }

    /// The zero-origin, zero-size sentinel. A buffer handed to the native
    /// visible-geometry call starts out as this value, because the native
    /// side writes into caller-owned memory and may not touch every field.
    pub fn zeroed() -> (geometry: Geometry)
        ensures
            geometry.is_zeroed(),
    {
        Geometry { origin: Point { x: 0, y: 0 }, size: Size { w: 0, h: 0 } }
    }
}

/// Edge flags passed along with an interactive resize, opaque to this layer.
#[derive(Clone, Copy, PartialEq, Eq, Structural, Debug)]
pub struct ResizeEdge {
    pub bits: u32,
}

/// A view's type bitfield, opaque to this layer.
#[derive(Clone, Copy, PartialEq, Eq, Structural, Debug)]
pub struct ViewType {
    pub bits: u32,
}

/// A view's state bitfield (maximized, fullscreen, ...), opaque to this layer.
#[derive(Clone, Copy, PartialEq, Eq, Structural, Debug)]
pub struct ViewState {
    pub bits: u32,
}

} // verus!
