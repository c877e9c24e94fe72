//! An atom of a scene.
use vstd::prelude::*;

verus! {

/// A position in space, each coordinate a single-precision pattern.
#[derive(Clone, Copy, Debug, PartialEq, Eq, Structural)]
pub struct Vector3 {
    pub x: u32,
    pub y: u32,
    pub z: u32,
}

/// An atom.
#[derive(Clone, Copy, Debug, PartialEq, Eq, Structural)]
pub struct Atom {
    pub position: Vector3,
}

impl Vector3 {
    pub fn new(x: u32, y: u32, z: u32) -> (vector: Self)
        ensures
            vector == (Vector3 { x, y, z }),
    {
        Vector3 { x, y, z }
    }
}

impl Atom {
    pub fn new(position: Vector3) -> (atom: Self)
        ensures
            atom.position == position,
    {
        Self { position }
    }
}

impl Default for Atom {
    /// An atom at the origin.
    fn default() -> (atom: Self)
        ensures
            atom.position == (Vector3 { x: 0, y: 0, z: 0 }),
    {
        Self { position: Vector3 { x: 0, y: 0, z: 0 } }
    }
}

} // verus!
