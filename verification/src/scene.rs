//! A scene of atoms and bonds.
use vstd::prelude::*;
use crate::atom::Atom;
use crate::bond::Bond;

verus! {

/// Atoms and bonds, each in the order in which they were added.
#[derive(Debug)]
pub struct Scene {
    pub atoms: Vec<Atom>,
    pub bonds: Vec<Bond>,
}

impl Scene {
    /// A scene without atoms and bonds.
    pub fn new() -> (scene: Self)
        ensures
            scene.atoms@ == Seq::<Atom>::empty(),
            scene.bonds@ == Seq::<Bond>::empty(),
    {
        Self { atoms: Vec::new(), bonds: Vec::new() }
    }

    /// Adds an atom after the others.
    pub fn add_atom(&mut self, atom: Atom)
        ensures
            final(self).atoms@ == old(self).atoms@.push(atom),
            final(self).bonds@ == old(self).bonds@,
    {
        self.atoms.push(atom);
    }

    /// Adds a bond after the others.
    pub fn add_bond(&mut self, bond: Bond)
        ensures
            final(self).bonds@ == old(self).bonds@.push(bond),
            final(self).atoms@ == old(self).atoms@,
    {
        self.bonds.push(bond);
    }
}

impl Default for Scene {
    /// A scene without atoms and bonds.
    fn default() -> (scene: Self)
        ensures
            scene.atoms@ == Seq::<Atom>::empty(),
            scene.bonds@ == Seq::<Bond>::empty(),
    {
        Scene::new()
    }
}

} // verus!
