//! What the editor asks of its host: floating-point arithmetic and the
//! toolkit's default text.
//!
//! The editor decides which numbers are added, subtracted, measured and
//! widened, and in which order; the host carries the operations out. Contracts
//! in this crate therefore speak of a result as one that the host's operation
//! admits for the given operands.
use vstd::prelude::*;
use crate::geometry::{Point, Vector, WideLine, WidePoint};
use crate::text::TextLabel;

verus! {

/// The host's arithmetic on bit patterns, and its default text.
pub struct Host<Sum, Difference, Distance, Widen> {
    /// A label in the toolkit's default style. A new label has its style and
    /// no content.
    pub blank: TextLabel,
    /// `a + b` in single precision.
    pub sum: Sum,
    /// `a - b` in single precision.
    pub difference: Difference,
    /// The Euclidean distance between two points, in single precision.
    pub distance: Distance,
    /// The same number in double precision.
    pub widen: Widen,
}

impl<Sum, Difference, Distance, Widen> Host<Sum, Difference, Distance, Widen> where
    Sum: Fn(u32, u32) -> u32,
    Difference: Fn(u32, u32) -> u32,
    Distance: Fn(Point, Point) -> u32,
    Widen: Fn(u32) -> u64,
 {
    /// Every operation accepts every operand.
    pub open spec fn total(&self) -> bool {
        &&& forall|a: u32, b: u32| call_requires(self.sum, (a, b))
        &&& forall|a: u32, b: u32| call_requires(self.difference, (a, b))
        &&& forall|p: Point, q: Point| call_requires(self.distance, (p, q))
        &&& forall|a: u32| call_requires(self.widen, (a,))
    }

    /// `moved` is `point + by`, coordinate by coordinate.
    pub open spec fn translates(&self, point: Point, by: Vector, moved: Point) -> bool {
        &&& call_ensures(self.sum, (point.x, by.x), moved.x)
        &&& call_ensures(self.sum, (point.y, by.y), moved.y)
    }

    /// `by` is `to - from`, coordinate by coordinate.
    pub open spec fn displaces(&self, from: Point, to: Point, by: Vector) -> bool {
        &&& call_ensures(self.difference, (to.x, from.x), by.x)
        &&& call_ensures(self.difference, (to.y, from.y), by.y)
    }

    /// `length` is the distance from `from` to `to`.
    pub open spec fn measures(&self, from: Point, to: Point, length: u32) -> bool {
        call_ensures(self.distance, (from, to), length)
    }

    /// `wide` is `point` in double precision.
    pub open spec fn widens(&self, point: Point, wide: WidePoint) -> bool {
        &&& call_ensures(self.widen, (point.x,), wide.x)
        &&& call_ensures(self.widen, (point.y,), wide.y)
    }

    /// `point + by`.
    pub fn translate(&self, point: Point, by: Vector) -> (moved: Point)
        requires
            self.total(),
        ensures
            self.translates(point, by, moved),
    {
        let x: u32 = (self.sum)(point.x, by.x);
        let y: u32 = (self.sum)(point.y, by.y);
        Point { x, y }
    }

    /// `to - from`.
    pub fn displacement(&self, from: Point, to: Point) -> (by: Vector)
        requires
            self.total(),
        ensures
            self.displaces(from, to, by),
    {
        let x: u32 = (self.difference)(to.x, from.x);
        let y: u32 = (self.difference)(to.y, from.y);
        Vector { x, y }
    }

    /// The distance from `from` to `to`.
    pub fn measure(&self, from: Point, to: Point) -> (length: u32)
        requires
            self.total(),
        ensures
            self.measures(from, to, length),
    {
        (self.distance)(from, to)
    }

    /// `point` in double precision.
    pub fn widen_point(&self, point: Point) -> (wide: WidePoint)
        requires
            self.total(),
        ensures
            self.widens(point, wide),
    {
        let x: u64 = (self.widen)(point.x);
        let y: u64 = (self.widen)(point.y);
        WidePoint { x, y }
    }

    /// The segment from `p0` to `p1` in double precision.
    pub fn widen_line(&self, p0: Point, p1: Point) -> (line: WideLine)
        requires
            self.total(),
        ensures
            self.widens(p0, line.p0),
            self.widens(p1, line.p1),
    {
        let p0 = self.widen_point(p0);
        let p1 = self.widen_point(p1);
        WideLine { p0, p1 }
    }
}

} // verus!
