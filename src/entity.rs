use vstd::prelude::*;

verus! {

/// An opaque widget identifier: a slot of the world and the generation of
/// that slot at the moment the entity was created.
#[derive(Clone, Copy, Debug, PartialEq, Eq, Structural, Hash)]
pub struct Entity {
    pub index: u32,
    pub generation: u32,
}

impl Entity {
    pub fn new(index: u32, generation: u32) -> (r: Entity)
        ensures
            r.index == index,
            r.generation == generation,
    {
        Entity { index, generation }
    }
}

} // verus!
