//! The shapes a drawing is made of.
use vstd::prelude::*;
use crate::geometry::{WideLine, WidePoint};
use crate::scalar::{is_finite_64, storable_64, to_storable_64};
use crate::text::{TextLabel, TextModel};

verus! {

/// A committed shape.
#[derive(Debug)]
pub enum Shape {
    Point(WidePoint),
    Line(WideLine),
    Text(TextLabel),
}

/// A shape as a value.
pub enum ShapeModel {
    Point(WidePoint),
    Line(WideLine),
    Text(TextModel),
}

impl View for Shape {
    type V = ShapeModel;

    open spec fn view(&self) -> ShapeModel {
        match self {
            Shape::Point(point) => ShapeModel::Point(*point),
            Shape::Line(line) => ShapeModel::Line(*line),
            Shape::Text(label) => ShapeModel::Text(label@),
        }
    }
}

impl WidePoint {
    /// The point as a file holds it: each coordinate finite.
    pub open spec fn stored(self) -> WidePoint {
        WidePoint { x: storable_64(self.x), y: storable_64(self.y) }
    }

    /// The point as a file holds it.
    pub fn to_stored(self) -> (point: WidePoint)
        ensures
            point == self.stored(),
    {
        WidePoint { x: to_storable_64(self.x), y: to_storable_64(self.y) }
    }
}

impl WideLine {
    /// The segment as a file holds it: each coordinate finite.
    pub open spec fn stored(self) -> WideLine {
        WideLine { p0: self.p0.stored(), p1: self.p1.stored() }
    }

    /// The segment as a file holds it.
    pub fn to_stored(self) -> (line: WideLine)
        ensures
            line == self.stored(),
    {
        WideLine { p0: self.p0.to_stored(), p1: self.p1.to_stored() }
    }
}

impl ShapeModel {
    /// Whether a file can hold the shape as it is: every number is finite.
    pub open spec fn is_storable(self) -> bool {
        match self {
            ShapeModel::Point(point) => is_finite_64(point.x) && is_finite_64(point.y),
            ShapeModel::Line(line) => {
                &&& is_finite_64(line.p0.x)
                &&& is_finite_64(line.p0.y)
                &&& is_finite_64(line.p1.x)
                &&& is_finite_64(line.p1.y)
            },
            ShapeModel::Text(label) => label.is_storable(),
        }
    }

    /// The shape as a file holds it: of the same kind, every number finite.
    pub open spec fn stored(self) -> ShapeModel {
        match self {
            ShapeModel::Point(point) => ShapeModel::Point(point.stored()),
            ShapeModel::Line(line) => ShapeModel::Line(line.stored()),
            ShapeModel::Text(label) => ShapeModel::Text(label.stored()),
        }
    }
}

/// The values of a sequence of shapes, in order.
pub open spec fn models(shapes: Seq<Shape>) -> Seq<ShapeModel> {
    Seq::new(shapes.len(), |i: int| shapes[i]@)
}

/// A sequence of shapes as a file holds it.
pub open spec fn stored_models(shapes: Seq<ShapeModel>) -> Seq<ShapeModel> {
    Seq::new(shapes.len(), |i: int| shapes[i].stored())
}

impl Clone for Shape {
    fn clone(&self) -> (shape: Self)
        ensures
            shape@ == self@,
    {
        match self {
            Shape::Point(point) => Shape::Point(*point),
            Shape::Line(line) => Shape::Line(*line),
            Shape::Text(label) => Shape::Text(label.clone()),
        }
    }
}

impl Shape {
    /// The shape as a file holds it.
    pub fn to_stored(&self) -> (shape: Shape)
        ensures
            shape@ == self@.stored(),
    {
        match self {
            Shape::Point(point) => Shape::Point(point.to_stored()),
            Shape::Line(line) => Shape::Line(line.to_stored()),
            Shape::Text(label) => Shape::Text(label.to_stored()),
        }
    }
}

/// Copies a list of shapes.
pub fn copy_shapes(shapes: &Vec<Shape>) -> (copy: Vec<Shape>)
    ensures
        models(copy@) == models(shapes@),
{
    let mut copy: Vec<Shape> = Vec::new();
    let mut i: usize = 0;
    while i < shapes.len()
        invariant
            i <= shapes.len(),
            copy.len() == i,
            forall|k: int| 0 <= k < i ==> copy[k]@ == shapes[k]@,
        decreases shapes.len() - i,
    {
        copy.push(shapes[i].clone());
        i += 1;
    }
    assert(models(copy@) =~= models(shapes@));
    copy
}

/// Copies a list of shapes, each as a file holds it.
pub fn store_shapes(shapes: &Vec<Shape>) -> (copy: Vec<Shape>)
    ensures
        models(copy@) == stored_models(models(shapes@)),
{
    let mut copy: Vec<Shape> = Vec::new();
    let mut i: usize = 0;
    while i < shapes.len()
        invariant
            i <= shapes.len(),
            copy.len() == i,
            forall|k: int| 0 <= k < i ==> copy[k]@ == shapes[k]@.stored(),
        decreases shapes.len() - i,
    {
        copy.push(shapes[i].to_stored());
        i += 1;
    }
    assert(models(copy@) =~= stored_models(models(shapes@)));
    copy
}

/// What is stored of a shape can be stored as it is, so storing twice is
/// storing once; and a shape that can be stored as it is, is.
pub proof fn law_stored_shape(shape: ShapeModel)
    ensures
        shape.stored().is_storable(),
        shape.stored().stored() == shape.stored(),
        shape.is_storable() ==> shape.stored() == shape,
{
}

} // verus!
