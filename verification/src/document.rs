//! What is kept of a drawing: its shapes, its annotations and the view.
use vstd::prelude::*;
use crate::geometry::Point;
use crate::scalar::{is_finite_32, storable_32, to_storable_32};
use crate::shape::{copy_shapes, models, store_shapes, stored_models, Shape, ShapeModel};

verus! {

/// An annotation of the drawing. Annotations are carried along; no edit reads
/// or changes them.
#[derive(Clone, Copy, Debug, PartialEq, Eq, Structural)]
pub struct Concept {}

/// The drawing.
#[derive(Debug)]
pub struct Document {
    /// The committed shapes, in the order in which they were committed. They
    /// are painted in this order.
    pub shapes: Vec<Shape>,
    pub concepts: Vec<Concept>,
    /// How far the canvas has been panned.
    pub view_offset: Point,
}

/// A drawing as a value.
pub struct DocumentModel {
    pub shapes: Seq<ShapeModel>,
    pub concepts: Seq<Concept>,
    pub view_offset: Point,
}

impl View for Document {
    type V = DocumentModel;

    open spec fn view(&self) -> DocumentModel {
        DocumentModel {
            shapes: models(self.shapes@),
            concepts: self.concepts@,
            view_offset: self.view_offset,
        }
    }
}

impl Point {
    /// The point as a file holds it: each coordinate finite.
    pub open spec fn stored(self) -> Point {
        Point { x: storable_32(self.x), y: storable_32(self.y) }
    }

    /// The point as a file holds it.
    pub fn to_stored(self) -> (point: Point)
        ensures
            point == self.stored(),
    {
        Point { x: to_storable_32(self.x), y: to_storable_32(self.y) }
    }
}

impl DocumentModel {
    /// Whether a file can hold the drawing as it is: every number of every
    /// shape and of the view offset is finite.
    pub open spec fn is_storable(self) -> bool {
        &&& forall|i: int| 0 <= i < self.shapes.len() ==> (#[trigger] self.shapes[i]).is_storable()
        &&& is_finite_32(self.view_offset.x)
        &&& is_finite_32(self.view_offset.y)
    }

    /// The drawing as a file holds it: the same shapes in the same order and
    /// the same annotations, every number finite (an infinity or a NaN
    /// replaced by the largest finite number).
    pub open spec fn stored(self) -> DocumentModel {
        DocumentModel {
            shapes: stored_models(self.shapes),
            concepts: self.concepts,
            view_offset: self.view_offset.stored(),
        }
    }

    /// The drawing with one more shape, on top of the others.
    pub open spec fn with_shape(self, shape: ShapeModel) -> DocumentModel {
        DocumentModel { shapes: self.shapes.push(shape), ..self }
    }

    /// The drawing without its topmost shape; an empty drawing as it is.
    pub open spec fn without_last(self) -> DocumentModel {
        if self.shapes.len() > 0 {
            DocumentModel { shapes: self.shapes.drop_last(), ..self }
        } else {
            self
        }
    }
}

impl Clone for Document {
    fn clone(&self) -> (document: Self)
        ensures
            document@ == self@,
    {
        Document {
            shapes: copy_shapes(&self.shapes),
            concepts: self.concepts.clone(),
            view_offset: self.view_offset,
        }
    }
}

impl Document {
    /// A drawing without shapes, not panned.
    pub fn new() -> (document: Document)
        ensures
            document@ == (DocumentModel {
                shapes: Seq::empty(),
                concepts: Seq::empty(),
                view_offset: Point { x: 0, y: 0 },
            }),
    {
        let document = Document {
            shapes: Vec::new(),
            concepts: Vec::new(),
            view_offset: Point { x: 0, y: 0 },
        };
        assert(models(document.shapes@) =~= Seq::empty());
        document
    }

    /// The drawing as a file holds it.
    pub fn to_stored(&self) -> (document: Document)
        ensures
            document@ == self@.stored(),
    {
        Document {
            shapes: store_shapes(&self.shapes),
            concepts: self.concepts.clone(),
            view_offset: self.view_offset.to_stored(),
        }
    }

    /// Puts a shape on top of the others.
    pub fn commit(&mut self, shape: Shape)
        ensures
            final(self)@ == old(self)@.with_shape(shape@),
    {
        self.shapes.push(shape);
        assert(models(self.shapes@) =~= models(old(self).shapes@).push(shape@));
    }

    /// Takes the topmost shape away, if there is one.
    pub fn retract(&mut self)
        ensures
            final(self)@ == old(self)@.without_last(),
    {
        let _ = self.shapes.pop();
        proof {
            if old(self).shapes@.len() > 0 {
                assert(models(self.shapes@) =~= models(old(self).shapes@).drop_last());
            }
        }
    }
}

/// What is stored of a drawing has as many shapes, each the stored form of
/// the shape in its place, and can be stored as it is. So storing twice is
/// storing once: what was read back from a file is written to the next file
/// unchanged.
pub proof fn law_stored_document_is_stable(document: DocumentModel)
    ensures
        document.stored().shapes.len() == document.shapes.len(),
        forall|i: int|
            0 <= i < document.shapes.len() ==> document.stored().shapes[i]
                == document.shapes[i].stored(),
        document.stored().is_storable(),
        document.stored().stored() == document.stored(),
{
    assert(stored_models(stored_models(document.shapes)) =~= stored_models(document.shapes));
}

/// A drawing in which every number is finite is stored bit for bit.
pub proof fn law_finite_document_is_stored_as_it_is(document: DocumentModel)
    requires
        document.is_storable(),
    ensures
        document.stored() == document,
{
    assert(stored_models(document.shapes) =~= document.shapes) by {
        assert forall|i: int| 0 <= i < document.shapes.len() implies stored_models(
            document.shapes,
        )[i] == document.shapes[i] by {
            assert(document.shapes[i].is_storable());
        }
    }
}

} // verus!
