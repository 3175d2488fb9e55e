//! A point mass, and the mathematical model of a system of them.

use crate::pairs::BODIES_COUNT;
use vstd::prelude::*;

verus! {

/// A point mass: position, velocity and mass in the caller's scalars.
#[derive(Debug, PartialEq)]
pub struct Body<S> {
    pub position: [S; 3],
    pub velocity: [S; 3],
    pub mass: S,
}

impl<S: Copy> Clone for Body<S> {
    fn clone(&self) -> (copy: Self)
        ensures
            copy == *self,
    {
        *self
    }
}

impl<S: Copy> Copy for Body<S> {

}

/// What a body is to the contracts: its components as sequences.
pub struct BodyModel<S> {
    pub position: Seq<S>,
    pub velocity: Seq<S>,
    pub mass: S,
}

/// A system is the sequence of its bodies, the Sun first.
pub type System<S> = Seq<BodyModel<S>>;

impl<S> View for Body<S> {
    type V = BodyModel<S>;

    open spec fn view(&self) -> BodyModel<S> {
        BodyModel { position: self.position@, velocity: self.velocity@, mass: self.mass }
    }
}

/// The system that an array of bodies holds.
pub open spec fn system_of<S>(bodies: [Body<S>; BODIES_COUNT]) -> System<S> {
    Seq::new(BODIES_COUNT as nat, |b: int| bodies[b]@)
}

/// A system has `BODIES_COUNT` bodies, each with three coordinates.
pub open spec fn is_system<S>(sys: System<S>) -> bool {
    &&& sys.len() == BODIES_COUNT
    &&& forall|b: int|
        0 <= b < BODIES_COUNT ==> (#[trigger] sys[b]).position.len() == 3 && sys[b].velocity.len()
            == 3
}

/// Every array of bodies holds a system.
pub proof fn lemma_array_holds_system<S>(bodies: [Body<S>; BODIES_COUNT])
    ensures
        is_system(system_of(bodies)),
{
}

} // verus!
