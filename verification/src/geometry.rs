//! Points and displacements, each coordinate a bit pattern (see `scalar`).
use vstd::prelude::*;

verus! {

/// A position on the canvas, in single precision.
#[derive(Clone, Copy, Debug, PartialEq, Eq, Structural)]
pub struct Point {
    pub x: u32,
    pub y: u32,
}

/// A displacement on the canvas, in single precision.
#[derive(Clone, Copy, Debug, PartialEq, Eq, Structural)]
pub struct Vector {
    pub x: u32,
    pub y: u32,
}

/// A position in the drawing, in double precision.
#[derive(Clone, Copy, Debug, PartialEq, Eq, Structural)]
pub struct WidePoint {
    pub x: u64,
    pub y: u64,
}

/// A segment of the drawing, from `p0` to `p1`.
#[derive(Clone, Copy, Debug, PartialEq, Eq, Structural)]
pub struct WideLine {
    pub p0: WidePoint,
    pub p1: WidePoint,
}

impl Point {
    /// The origin: both coordinates positive zero.
    pub fn origin() -> (point: Self)
        ensures
            point == (Point { x: 0, y: 0 }),
    {
        Point { x: 0, y: 0 }
    }

    pub fn new(x: u32, y: u32) -> (point: Self)
        ensures
            point == (Point { x, y }),
    {
        Point { x, y }
    }
}

impl Vector {
    pub fn new(x: u32, y: u32) -> (vector: Self)
        ensures
            vector == (Vector { x, y }),
    {
        Vector { x, y }
    }
}

impl WidePoint {
    pub fn new(x: u64, y: u64) -> (point: Self)
        ensures
            point == (WidePoint { x, y }),
    {
        WidePoint { x, y }
    }
}

impl WideLine {
    pub fn new(p0: WidePoint, p1: WidePoint) -> (line: Self)
        ensures
            line == (WideLine { p0, p1 }),
    {
        WideLine { p0, p1 }
    }
}

} // verus!
