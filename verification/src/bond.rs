//! A bond between two atoms.
use vstd::prelude::*;
use crate::atom::{Atom, Vector3};

verus! {

/// A bond: the two atoms it joins, from the first to the second.
#[derive(Clone, Copy, Debug)]
pub struct Bond {
    pub atoms: [Atom; 2],
}

impl Bond {
    pub fn new(atoms: [Atom; 2]) -> (bond: Self)
        ensures
            bond.atoms == atoms,
    {
        Self { atoms }
    }
}

impl Default for Bond {
    /// A bond between two atoms at the origin.
    fn default() -> (bond: Self)
        ensures
            bond.atoms[0].position == (Vector3 { x: 0, y: 0, z: 0 }),
            bond.atoms[1].position == (Vector3 { x: 0, y: 0, z: 0 }),
    {
        Self { atoms: [Atom::default(), Atom::default()] }
    }
}

} // verus!
