//! The entity table of one game instance.

use vstd::prelude::*;
use vstd::std_specs::iter::IteratorSpec;
use vstd::std_specs::slice::into_iter_elts;

use super::wrapper::{IterMutWrapper, Wrapper};
use super::Entity;
use crate::id::{EntityKind, Id, WeakId};

verus! {

/// Whether some entity of `entities` has the identifier `id`.
pub open spec fn holds(entities: Seq<Entity>, id: u64) -> bool {
    exists|i: int| 0 <= i < entities.len() && (#[trigger] entities[i])@.id == id
}

/// Whether `index` is the first place of `entities` with the identifier `id`.
pub open spec fn first_with(entities: Seq<Entity>, id: u64, index: int) -> bool {
    &&& 0 <= index < entities.len()
    &&& entities[index]@.id == id
    &&& forall|j: int| 0 <= j < index ==> (#[trigger] entities[j])@.id != id
}

/// The first place of `entities` with the identifier `id`, if there is one.
pub open spec fn position_of(entities: Seq<Entity>, id: u64) -> Option<int> {
    if holds(entities, id) {
        Some(choose|i: int| first_with(entities, id, i))
    } else {
        None
    }
}

/// Whether no two entities of `entities` share an identifier.
pub open spec fn unique_ids(entities: Seq<Entity>) -> bool {
    forall|i: int, j: int|
        0 <= i < j < entities.len() ==> (#[trigger] entities[i])@.id != (#[trigger] entities[j])@.id
}

/// The first place with an identifier is the only one that answers to
/// [`first_with`], so [`position_of`] names it.
pub proof fn lemma_first_is_position(entities: Seq<Entity>, id: u64, index: int)
    requires
        first_with(entities, id, index),
    ensures
        position_of(entities, id) == Some(index),
{
    assert(holds(entities, id));
    let chosen = choose|i: int| first_with(entities, id, i);
    assert(first_with(entities, id, chosen));
    if chosen < index {
        assert(entities[chosen]@.id != id);
    } else if index < chosen {
        assert(entities[index]@.id != id);
    }
}

/// Where [`position_of`] names a place, that place is the first with the
/// identifier; where it names none, no entity has the identifier.
pub proof fn lemma_position_is_first(entities: Seq<Entity>, id: u64)
    ensures
        match position_of(entities, id) {
            Some(index) => first_with(entities, id, index),
            None => forall|i: int| 0 <= i < entities.len() ==> (#[trigger] entities[i])@.id != id,
        },
{
    if holds(entities, id) {
        let witness = choose|i: int| 0 <= i < entities.len() && (#[trigger] entities[i])@.id == id;
        lemma_some_first(entities, id, witness);
    }
}

/// Below any place with the identifier there is a first one.
proof fn lemma_some_first(entities: Seq<Entity>, id: u64, bound: int)
    requires
        0 <= bound < entities.len(),
        entities[bound]@.id == id,
    ensures
        exists|i: int| first_with(entities, id, i),
    decreases bound,
{
    if exists|j: int| 0 <= j < bound && (#[trigger] entities[j])@.id == id {
        let j = choose|j: int| 0 <= j < bound && (#[trigger] entities[j])@.id == id;
        lemma_some_first(entities, id, j);
    } else {
        assert(first_with(entities, id, bound));
    }
}

/// The entities of one game instance, in a fixed order.
///
/// The table owns its entities. Entities are found by identifier, by a scan
/// from the front; where several share an identifier, the first one answers.
/// The view of a table is the sequence of its entities.
#[derive(Debug)]
pub struct EntityStore {
    entities: Vec<Entity>,
}

impl View for EntityStore {
    type V = Seq<Entity>;

    closed spec fn view(&self) -> Seq<Entity> {
        self.entities@
    }
}

impl EntityStore {
    /// An empty table.
    pub fn new() -> (store: EntityStore)
        ensures
            store@ == Seq::<Entity>::empty(),
    {
        EntityStore { entities: Vec::new() }
    }

    /// Puts `entity` at the end of the table.
    pub fn push(&mut self, entity: Entity)
        ensures
            final(self)@ == old(self)@.push(entity),
    {
        self.entities.push(entity)
    }

    /// The number of entities in the table.
    pub fn len(&self) -> (len: usize)
        ensures
            len == self@.len(),
    {
        self.entities.len()
    }

    /// Takes the first entity with the identifier `id` out of the table and
    /// hands it over; those behind it move up by one place. Where no entity
    /// has the identifier, the table stays as it is.
    pub fn remove(&mut self, id: Id<EntityKind>) -> (removed: Option<Entity>)
        ensures
            match position_of(old(self)@, id@) {
                Some(position) => {
                    &&& removed == Some(old(self)@[position])
                    &&& final(self)@ == old(self)@.remove(position)
                },
                None => removed is None && final(self)@ == old(self)@,
            },
    {
        proof {
            lemma_position_is_first(self@, id@);
        }
        let position = match self.get_position(id) {
            Some(pos) => pos,
            None => return None,
        };
        Some(self.entities.remove(position))
    }

    /// The first entity with the identifier `id`.
    pub fn get(&self, id: Id<EntityKind>) -> (found: Option<&Entity>)
        ensures
            match position_of(self@, id@) {
                Some(position) => found == Some(&self@[position]),
                None => found is None,
            },
    {
        proof {
            lemma_position_is_first(self@, id@);
        }
        match self.get_position(id) {
            Some(position) => Some(&self.entities[position]),
            None => None,
        }
    }

    /// The first entity whose identifier has the number of `id`: the live
    /// entity, if any, that a number from outside names.
    pub fn find(&self, id: WeakId<EntityKind>) -> (found: Option<&Entity>)
        ensures
            match position_of(self@, id@) {
                Some(position) => found == Some(&self@[position]),
                None => found is None,
            },
    {
        let mut position: usize = 0;
        while position < self.entities.len()
            invariant
                position <= self.entities.len(),
                forall|j: int| 0 <= j < position ==> (#[trigger] self.entities@[j])@.id != id@,
            decreases self.entities.len() - position,
        {
            if self.entities[position].get_id().as_u64() == id.as_u64() {
                proof {
                    lemma_first_is_position(self@, id@, position as int);
                }
                return Some(&self.entities[position]);
            }
            position += 1;
        }
        None
    }

    /// The first entity with the identifier `id`, to be changed in place.
    pub fn get_mut(&mut self, id: Id<EntityKind>) -> (found: Option<&mut Entity>)
        ensures
            match position_of(old(self)@, id@) {
                Some(position) => {
                    &&& found matches Some(entity)
                    &&& *entity == old(self)@[position]
                    &&& final(self)@ == old(self)@.update(position, *final(entity))
                },
                None => found is None && final(self)@ == old(self)@,
            },
    {
        proof {
            lemma_position_is_first(self@, id@);
        }
        match self.get_position(id) {
            Some(position) => Some(&mut self.entities[position]),
            None => None,
        }
    }

    /// The first entity with the identifier `id`, to be changed in place,
    /// together with a view of all the others.
    ///
    /// While the two are in use the table itself cannot be touched. The
    /// table afterwards holds, in the order of before, what the view's two
    /// stretches hold at the end and, between them, the entity as it was
    /// left.
    pub fn get_mut_wrapper<'a>(&'a mut self, id: Id<EntityKind>) -> (found: Option<
        (&'a mut Entity, Wrapper<'a>),
    >)
        ensures
            match position_of(old(self)@, id@) {
                Some(position) => {
                    &&& found matches Some((entity, rest))
                    &&& *entity == old(self)@[position]
                    &&& rest@ == old(self)@.remove(position)
                    &&& rest.excluded() == position
                    &&& rest.fits()
                    &&& final(self)@ == final(rest.before())@ + seq![*final(entity)]
                        + final(rest.after())@
                },
                None => found is None && final(self)@ == old(self)@,
            },
    {
        proof {
            lemma_position_is_first(self@, id@);
        }
        match self.get_position(id) {
            Some(position) => Wrapper::new(self.entities.as_mut_slice(), position),
            None => None,
        }
    }

    /// The first place of the table with the identifier `id`.
    pub fn get_position(&self, id: Id<EntityKind>) -> (found: Option<usize>)
        ensures
            match position_of(self@, id@) {
                Some(position) => found matches Some(place) && place == position,
                None => found is None,
            },
    {
        let mut position: usize = 0;
        while position < self.entities.len()
            invariant
                position <= self.entities.len(),
                forall|j: int| 0 <= j < position ==> (#[trigger] self.entities@[j])@.id != id@,
            decreases self.entities.len() - position,
        {
            if self.entities[position].get_id() == id {
                proof {
                    lemma_first_is_position(self@, id@, position as int);
                }
                return Some(position);
            }
            position += 1;
        }
        None
    }

    /// A pass over the entities in table order, to be read.
    pub fn iter(&self) -> (pass: std::slice::Iter<'_, Entity>)
        ensures
            into_iter_elts(pass) == self@,
            pass.obeys_prophetic_iter_laws(),
            IteratorSpec::decrease(&pass) is Some,
            IteratorSpec::initial_value_relation(&pass, &pass),
    {
        self.entities.as_slice().iter()
    }

    /// The entities in table order, as one stretch, to be read.
    pub fn as_slice(&self) -> (entities: &[Entity])
        ensures
            entities@ == self@,
    {
        self.entities.as_slice()
    }

    /// The entities in table order, to be changed one at a time. The table
    /// afterwards holds what the slice holds at the end.
    pub fn iter_mut(&mut self) -> (entities: &mut [Entity])
        ensures
            entities@ == old(self)@,
            final(self)@ == final(entities)@,
    {
        self.entities.as_mut_slice()
    }

    /// A pass over the table that takes each entity in turn as the one to be
    /// changed, with a view of all the others.
    pub fn iter_mut_wrapper(&mut self) -> (pass: IterMutWrapper<'_>)
        ensures
            pass.entities()@ == old(self)@,
            pass.position() == 0,
            final(self)@ == final(pass.entities())@,
    {
        IterMutWrapper::new(self.entities.as_mut_slice())
    }
}

} // verus!
