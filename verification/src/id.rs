//! Identities: connections on the wire, entities in the simulated world.

use std::collections::HashMap;
use std::marker::PhantomData;
use vstd::prelude::*;

verus! {

broadcast use vstd::std_specs::hash::group_hash_axioms;

/// The process-unique number of a connection, also the network-wide name of
/// the entity that the connection controls.
#[derive(Clone, Copy, Debug, PartialEq, Eq, Structural, Hash)]
pub struct NetworkId(pub u64);

impl View for NetworkId {
    type V = u64;

    open spec fn view(&self) -> u64 {
        self.0
    }
}

impl NetworkId {
    /// The number behind the id.
    pub fn value(self) -> (raw: u64)
        ensures
            raw == self@,
    {
        self.0
    }
}

impl From<u64> for NetworkId {
    fn from(value: u64) -> (id: Self) {
        NetworkId(value)
    }
}

impl vstd::std_specs::convert::FromSpecImpl<u64> for NetworkId {
    open spec fn obeys_from_spec() -> bool {
        true
    }

    open spec fn from_spec(value: u64) -> Self {
        NetworkId(value)
    }
}

/// A handle to something in the simulated world: an index into the world's
/// storage and the generation of that slot.
#[derive(Clone, Copy, Debug, PartialEq, Eq, Structural, Hash)]
pub struct Entity {
    index: u32,
    generation: u32,
}

impl Entity {
    /// The handle of slot `index` in its first generation.
    pub fn from_raw(index: u32) -> (entity: Self)
        ensures
            entity.spec_index() == index,
            entity.spec_generation() == 0,
    {
        Entity { index, generation: 0 }
    }

    pub closed spec fn spec_index(self) -> u32 {
        self.index
    }

    pub closed spec fn spec_generation(self) -> u32 {
        self.generation
    }

    #[verifier::when_used_as_spec(spec_index)]
    pub fn index(self) -> (index: u32)
        ensures
            index == self.spec_index(),
    {
        self.index
    }

    #[verifier::when_used_as_spec(spec_generation)]
    pub fn generation(self) -> (generation: u32)
        ensures
            generation == self.spec_generation(),
    {
        self.generation
    }
}


/// The entities of one side's world by the network ids that they are known
/// under. `S` names the side.
pub struct NetworkToWorld<S> {
    map: HashMap<u64, Entity>,
    marker: PhantomData<S>,
}

impl<S> View for NetworkToWorld<S> {
    type V = Map<u64, Entity>;

    closed spec fn view(&self) -> Map<u64, Entity> {
        self.map@
    }
}

impl<S> NetworkToWorld<S> {
    pub fn new() -> (world: Self)
        ensures
            world@ == Map::<u64, Entity>::empty(),
    {
        NetworkToWorld { map: HashMap::new(), marker: PhantomData }
    }

    /// Makes `entity` the one that `id` names, and returns the one that it
    /// named before.
    pub fn insert(&mut self, id: NetworkId, entity: Entity) -> (previous: Option<Entity>)
        ensures
            final(self)@ == old(self)@.insert(id@, entity),
            previous == if old(self)@.contains_key(id@) {
                Some(old(self)@[id@])
            } else {
                None
            },
    {
        self.map.insert(id.0, entity)
    }

    /// The entity that `id` names.
    pub fn get(&self, id: &NetworkId) -> (entity: Option<Entity>)
        ensures
            entity == if self@.contains_key(id@) {
                Some(self@[id@])
            } else {
                None
            },
    {
        match self.map.get(&id.0) {
            Some(entity) => Some(*entity),
            None => None,
        }
    }

    /// Forgets `id`, and returns the entity that it named.
    pub fn remove(&mut self, id: &NetworkId) -> (entity: Option<Entity>)
        ensures
            final(self)@ == old(self)@.remove(id@),
            entity == if old(self)@.contains_key(id@) {
                Some(old(self)@[id@])
            } else {
                None
            },
    {
        self.map.remove(&id.0)
    }
}

impl<S> Default for NetworkToWorld<S> {
    fn default() -> (world: Self)
        ensures
            world@ == Map::<u64, Entity>::empty(),
    {
        NetworkToWorld { map: HashMap::new(), marker: PhantomData }
    }
}

} // verus!
