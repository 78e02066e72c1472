//! One game instance: its entities, and the work that can be asked of it
//! from outside.

use vstd::prelude::*;

use crate::entity::store::{lemma_position_is_first, position_of};
use crate::entity::{Entity, EntityStore, EntityType, EntityTypeView};
use crate::id::{EntityKind, WeakId};
use crate::messages::{Command, CommandView, EntityState, EntityStateView, Outcome, OutcomeView};

verus! {

/// Why an entity was not removed.
#[derive(Clone, Copy, Debug, PartialEq, Eq, Structural)]
pub enum RemoveEntityError {
    /// No live entity of the instance has the identifier.
    NotFound,
    /// The entity is a player's character, which a plain removal may not
    /// take out of the game.
    IsPlayer,
}

/// The report for clients on an entity.
pub open spec fn state_of(entity: Entity) -> EntityStateView {
    EntityStateView {
        entity: entity@.id,
        position: entity@.position,
        orientation: entity@.orientation,
    }
}

/// The reports on all the entities of a table, in table order.
pub open spec fn states_of(entities: Seq<Entity>) -> Seq<EntityStateView> {
    Seq::new(entities.len(), |i: int| state_of(entities[i]))
}

/// What a plain removal under the number `id` makes of a table, and what it
/// answers: an unknown number and a player's character both leave the table
/// as it is, each with an error of its own; any other entity leaves the
/// table.
pub open spec fn removal(entities: Seq<Entity>, id: u64) -> (
    Seq<Entity>,
    Result<(), RemoveEntityError>,
) {
    match position_of(entities, id) {
        None => (entities, Err(RemoveEntityError::NotFound)),
        Some(position) => if entities[position]@.e_type is Player {
            (entities, Err(RemoveEntityError::IsPlayer))
        } else {
            (entities.remove(position), Ok(()))
        },
    }
}

/// What a unit of work makes of an instance's table, and what it answers.
pub open spec fn effect(entities: Seq<Entity>, command: CommandView) -> (Seq<Entity>, OutcomeView) {
    match command {
        CommandView::GetEntities => (entities, OutcomeView::Entities(states_of(entities))),
        CommandView::RemoveEntity(id) => (
            removal(entities, id).0,
            OutcomeView::Removed(removal(entities, id).1),
        ),
    }
}

/// The state of one game instance. Its view is the sequence of its
/// entities.
#[derive(Debug)]
pub struct Instance {
    entities: EntityStore,
}

impl View for Instance {
    type V = Seq<Entity>;

    closed spec fn view(&self) -> Seq<Entity> {
        self.entities@
    }
}

impl Instance {
    /// An instance without entities.
    pub fn new() -> (instance: Self)
        ensures
            instance@ == Seq::<Entity>::empty(),
    {
        Instance { entities: EntityStore::new() }
    }

    /// Lets `entity` into the instance.
    pub fn add_entity(&mut self, entity: Entity)
        ensures
            final(self)@ == old(self)@.push(entity),
    {
        self.entities.push(entity)
    }

    /// The instance's entity table, to be read.
    pub fn entities(&self) -> (entities: &EntityStore)
        ensures
            entities@ == self@,
    {
        &self.entities
    }

    /// The instance's entity table, to be changed. The instance afterwards
    /// holds what the table holds at the end.
    pub fn entities_mut(&mut self) -> (entities: &mut EntityStore)
        ensures
            entities@ == old(self)@,
            final(self)@ == final(entities)@,
    {
        &mut self.entities
    }

    /// The reports on all the entities of the instance, in table order.
    pub fn get_entities(&self) -> (states: Vec<EntityState>)
        ensures
            states.deep_view() == states_of(self@),
    {
        let entities = self.entities.as_slice();
        let mut states: Vec<EntityState> = Vec::new();
        let mut position: usize = 0;
        while position < entities.len()
            invariant
                entities@ == self@,
                position <= entities@.len(),
                states@.len() == position,
                forall|i: int| 0 <= i < position ==> (#[trigger] states@[i])@ == state_of(self@[i]),
            decreases entities.len() - position,
        {
            states.push(entities[position].to_entity_state());
            position += 1;
        }
        assert(states.deep_view() =~= states_of(self@));
        states
    }

    /// Takes the entity that the number `id` names out of the instance, on
    /// behalf of an administrator. A player's character is not taken out
    /// this way; it stays where it is.
    pub fn remove_entity(&mut self, id: WeakId<EntityKind>) -> (result: Result<
        (),
        RemoveEntityError,
    >)
        ensures
            final(self)@ == removal(old(self)@, id@).0,
            result == removal(old(self)@, id@).1,
    {
        proof {
            lemma_position_is_first(self@, id@);
        }
        let live = match self.entities.find(id) {
            None => {
                return Err(RemoveEntityError::NotFound);
            },
            Some(entity) => match entity.get_type() {
                EntityType::Player(_) => {
                    return Err(RemoveEntityError::IsPlayer);
                },
                EntityType::Invoked(_) => entity.get_id(),
            },
        };
        let _ = self.entities.remove(live);
        Ok(())
    }

    /// Carries out one unit of work to its end.
    pub fn execute(&mut self, command: Command) -> (outcome: Outcome)
        ensures
            final(self)@ == effect(old(self)@, command@).0,
            outcome@ == effect(old(self)@, command@).1,
    {
        match command {
            Command::GetEntities => Outcome::Entities(self.get_entities()),
            Command::RemoveEntity(id) => Outcome::Removed(self.remove_entity(id)),
        }
    }
}

/// A plain removal never takes a player's character out: it answers
/// [`RemoveEntityError::IsPlayer`], and the table, the character with it, is
/// what it was.
pub proof fn lemma_player_is_kept(entities: Seq<Entity>, id: u64)
    requires
        position_of(entities, id) matches Some(position) && entities[position]@.e_type is Player,
    ensures
        removal(entities, id) == (entities, Err::<(), RemoveEntityError>(RemoveEntityError::IsPlayer)),
        position_of(removal(entities, id).0, id) == position_of(entities, id),
{
}

} // verus!
