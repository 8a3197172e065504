use vstd::prelude::*;
use crate::ecs::components::{kind_offsets, rotate_vectors, GameEntityType, Turn};
use crate::types::WorldVector2;

verus! {

/// What the collision world keeps with each of its objects: the name of its
/// group, the cells that it covers as displacements from its position, and
/// the entity that it stands for.
#[derive(Clone, Debug)]
pub struct CollisionObjectData {
    pub name: Option<&'static str>,
    pub vectors: Vec<WorldVector2>,
    pub entity_id: Option<u32>,
}

impl Default for CollisionObjectData {
    fn default() -> (data: CollisionObjectData)
        ensures
            data.name is None,
            data.vectors@ == Seq::<WorldVector2>::empty(),
            data.entity_id is None,
    {
        CollisionObjectData { name: None, vectors: Vec::new(), entity_id: None }
    }
}

impl CollisionObjectData {
    /// Data without a name, without cells and without an entity.
    pub fn new() -> (data: CollisionObjectData)
        ensures
            data.name is None,
            data.vectors@ == Seq::<WorldVector2>::empty(),
            data.entity_id is None,
    {
        CollisionObjectData { name: None, vectors: Vec::new(), entity_id: None }
    }

    pub fn with_vectors(self, vectors: Vec<WorldVector2>) -> (data: CollisionObjectData)
        ensures
            data.vectors == vectors,
            data.name == self.name,
            data.entity_id == self.entity_id,
    {
        CollisionObjectData { name: self.name, vectors, entity_id: self.entity_id }
    }

    pub fn with_name(self, name: &'static str) -> (data: CollisionObjectData)
        ensures
            data.name == Some(name),
            data.vectors == self.vectors,
            data.entity_id == self.entity_id,
    {
        CollisionObjectData { name: Some(name), vectors: self.vectors, entity_id: self.entity_id }
    }

    pub fn with_entity_id(self, id: u32) -> (data: CollisionObjectData)
        ensures
            data.entity_id == Some(id),
            data.vectors == self.vectors,
            data.name == self.name,
    {
        CollisionObjectData { name: self.name, vectors: self.vectors, entity_id: Some(id) }
    }

    /// The data of an entity of the given kind: the name and the cells of
    /// the kind, and the entity.
    pub fn of_kind(kind: &GameEntityType, id: u32) -> (data: CollisionObjectData)
        ensures
            data.name is Some,
            data.name->0@ == kind.name(),
            data.entity_id == Some(id),
            data.vectors.len() == kind_offsets(*kind).len(),
            forall|i: int|
                0 <= i < data.vectors.len() ==> (#[trigger] data.vectors[i]).offset()
                    == kind_offsets(*kind)[i],
    {
        CollisionObjectData::new().with_name(kind.get_name()).with_vectors(
            kind.vectors(),
        ).with_entity_id(id)
    }

    /// The cells after the given turn, as `rotate` would leave them. The
    /// data stays as it is: this is how a placement is looked at before it
    /// is taken.
    pub fn turned_vectors(&self, turn: Turn) -> (vectors: Vec<WorldVector2>)
        requires
            turn.fits(self.vectors@),
        ensures
            vectors.len() == self.vectors.len(),
            forall|i: int|
                0 <= i < vectors.len() ==> (#[trigger] vectors[i]).offset() == turn.apply(
                    self.vectors[i].offset(),
                ),
    {
        rotate_vectors(&self.vectors, turn)
    }

    /// Turns the cells about the position of the object.
    pub fn rotate(&mut self, turn: Turn)
        requires
            turn.fits(old(self).vectors@),
        ensures
            final(self).name == old(self).name,
            final(self).entity_id == old(self).entity_id,
            final(self).vectors.len() == old(self).vectors.len(),
            forall|i: int|
                0 <= i < final(self).vectors.len() ==> (#[trigger] final(self).vectors[i]).offset()
                    == turn.apply(old(self).vectors[i].offset()),
    {
        self.vectors = rotate_vectors(&self.vectors, turn);
    }
}

} // verus!
