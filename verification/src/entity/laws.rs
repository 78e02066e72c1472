//! What holds of the entity table whatever is done with it.

use vstd::prelude::*;

use super::store::{
    first_with, holds, lemma_first_is_position, lemma_position_is_first, position_of, unique_ids,
};
use super::wrapper::{shown_place, table_place};
use super::{entity_of_player, player_of_entity, Entity};
use crate::data::PlayerView;
use crate::id::successor;

verus! {

/// The table that [`super::EntityStore::remove`] leaves of `entities`.
pub open spec fn without(entities: Seq<Entity>, id: u64) -> Seq<Entity> {
    match position_of(entities, id) {
        Some(position) => entities.remove(position),
        None => entities,
    }
}

/// One change to a table.
pub enum Change {
    /// An entity is put in.
    Insert(Entity),
    /// The entity with an identifier is taken out.
    Remove(u64),
}

/// The table that a run of changes makes of the empty table.
pub open spec fn replay(changes: Seq<Change>) -> Seq<Entity>
    decreases changes.len(),
{
    if changes.len() == 0 {
        Seq::empty()
    } else {
        let before = replay(changes.drop_last());
        match changes.last() {
            Change::Insert(entity) => before.push(entity),
            Change::Remove(id) => without(before, id),
        }
    }
}

/// Whether a run of changes keeps to the rule that callers owe the table:
/// no entity is put in under an identifier that the table holds already.
pub open spec fn orderly(changes: Seq<Change>) -> bool
    decreases changes.len(),
{
    if changes.len() == 0 {
        true
    } else {
        &&& orderly(changes.drop_last())
        &&& match changes.last() {
            Change::Insert(entity) => !holds(replay(changes.drop_last()), entity@.id),
            Change::Remove(_) => true,
        }
    }
}

/// An entity that is put in under an identifier that the table does not hold
/// is the one found under that identifier, and the identifiers stay
/// distinct.
pub proof fn lemma_found_after_insert(entities: Seq<Entity>, entity: Entity)
    requires
        !holds(entities, entity@.id),
    ensures
        position_of(entities.push(entity), entity@.id) == Some(entities.len() as int),
        entities.push(entity)[entities.len() as int] == entity,
        unique_ids(entities) ==> unique_ids(entities.push(entity)),
{
    let after = entities.push(entity);
    assert forall|j: int| 0 <= j < entities.len() implies (#[trigger] after[j])@.id
        != entity@.id by {
        assert(after[j] == entities[j]);
    }
    lemma_first_is_position(after, entity@.id, entities.len() as int);
    if unique_ids(entities) {
        assert forall|i: int, j: int| 0 <= i < j < after.len() implies (#[trigger] after[i])@.id
            != (#[trigger] after[j])@.id by {
            assert(after[i] == entities[i]);
            if j < entities.len() {
                assert(after[j] == entities[j]);
            }
        }
    }
}

/// Where identifiers are distinct, nothing is found under an identifier once
/// its entity has been taken out; every other entity is still found, one
/// place further up if it stood behind; and the identifiers stay distinct.
pub proof fn lemma_gone_after_remove(entities: Seq<Entity>, id: u64)
    requires
        unique_ids(entities),
    ensures
        position_of(without(entities, id), id) is None,
        unique_ids(without(entities, id)),
        forall|other: u64|
            other != id ==> (#[trigger] position_of(without(entities, id), other)) == (
            match (position_of(entities, other), position_of(entities, id)) {
                (Some(place), Some(gap)) => Some(shown_place(gap, place)),
                (found, _) => found,
            }),
{
    lemma_position_is_first(entities, id);
    let after = without(entities, id);
    match position_of(entities, id) {
        Some(gap) => {
            assert forall|j: int| 0 <= j < after.len() implies (#[trigger] after[j])@.id != id by {
                assert(after[j] == entities[table_place(gap, j)]);
            }
            assert(!holds(after, id));
            assert forall|i: int, j: int| 0 <= i < j < after.len() implies (#[trigger] after[i])@.id
                != (#[trigger] after[j])@.id by {
                assert(after[i] == entities[table_place(gap, i)]);
                assert(after[j] == entities[table_place(gap, j)]);
            }
            assert forall|other: u64| other != id implies (#[trigger] position_of(after, other))
                == (match position_of(entities, other) {
                Some(place) => Some(shown_place(gap, place)),
                None => None,
            }) by {
                lemma_excluded_view(entities, gap, other);
            }
        },
        None => {},
    }
}

/// What a view shows when the entity at `gap` is left out of `entities`:
/// under an identifier other than that entity's, the view finds the entity
/// that the table finds, at its place in the table; where no such entity is
/// in the table, the view finds none.
pub proof fn lemma_excluded_view(entities: Seq<Entity>, gap: int, other: u64)
    requires
        0 <= gap < entities.len(),
        entities[gap]@.id != other,
    ensures
        match position_of(entities, other) {
            Some(place) => {
                &&& place != gap
                &&& position_of(entities.remove(gap), other) == Some(shown_place(gap, place))
                &&& entities.remove(gap)[shown_place(gap, place)] == entities[place]
                &&& table_place(gap, shown_place(gap, place)) == place
            },
            None => position_of(entities.remove(gap), other) is None,
        },
{
    lemma_position_is_first(entities, other);
    let rest = entities.remove(gap);
    match position_of(entities, other) {
        Some(place) => {
            let shown = shown_place(gap, place);
            assert(rest[shown] == entities[place]);
            assert forall|j: int| 0 <= j < shown implies (#[trigger] rest[j])@.id != other by {
                assert(rest[j] == entities[table_place(gap, j)]);
            }
            lemma_first_is_position(rest, other, shown);
        },
        None => {
            assert forall|j: int| 0 <= j < rest.len() implies (#[trigger] rest[j])@.id != other by {
                assert(rest[j] == entities[table_place(gap, j)]);
            }
            assert(!holds(rest, other));
        },
    }
}

/// Where identifiers are distinct, the view that goes with the entity found
/// under `id` finds nothing under `id`, and under the identifier of every
/// other entity of the table it finds an entity with that identifier.
pub proof fn lemma_exclusive_with_rest(entities: Seq<Entity>, id: u64)
    requires
        unique_ids(entities),
        holds(entities, id),
    ensures
        position_of(entities, id) matches Some(gap) && {
            let rest = entities.remove(gap);
            &&& position_of(rest, id) is None
            &&& forall|k: int|
                0 <= k < entities.len() && k != gap ==> {
                    &&& position_of(rest, (#[trigger] entities[k])@.id)
                        == Some(shown_place(gap, k))
                    &&& rest[shown_place(gap, k)]@.id == entities[k]@.id
                }
        },
{
    lemma_position_is_first(entities, id);
    let gap = position_of(entities, id)->0;
    let rest = entities.remove(gap);
    lemma_primary_not_in_rest(entities, gap);
    assert(!holds(rest, id));
    assert forall|k: int| 0 <= k < entities.len() && k != gap implies {
        &&& position_of(rest, (#[trigger] entities[k])@.id) == Some(shown_place(gap, k))
        &&& rest[shown_place(gap, k)]@.id == entities[k]@.id
    } by {
        let other = entities[k]@.id;
        assert(other != id) by {
            if k < gap {
                assert(entities[k]@.id != entities[gap]@.id);
            } else {
                assert(entities[gap]@.id != entities[k]@.id);
            }
        }
        assert(first_with(entities, other, k)) by {
            assert forall|j: int| 0 <= j < k implies (#[trigger] entities[j])@.id != other by {
                assert(entities[j]@.id != entities[k]@.id);
            }
        }
        lemma_first_is_position(entities, other, k);
        lemma_excluded_view(entities, gap, other);
    }
}

/// Where identifiers are distinct, the view that goes with the entity at
/// `turn` shows every other entity of the table, one fewer than the table
/// holds, and none of them has that entity's identifier.
pub proof fn lemma_primary_not_in_rest(entities: Seq<Entity>, turn: int)
    requires
        unique_ids(entities),
        0 <= turn < entities.len(),
    ensures
        entities.remove(turn).len() == entities.len() - 1,
        forall|j: int|
            0 <= j < entities.len() - 1 ==> (#[trigger] entities.remove(turn)[j])@.id
                != entities[turn]@.id,
        forall|j: int|
            0 <= j < entities.len() - 1 ==> (#[trigger] entities.remove(turn)[j])
                == entities[table_place(turn, j)],
{
    let rest = entities.remove(turn);
    assert forall|j: int| 0 <= j < entities.len() - 1 implies (#[trigger] rest[j])@.id
        != entities[turn]@.id by {
        let place = table_place(turn, j);
        assert(rest[j] == entities[place]);
        if place < turn {
            assert(entities[place]@.id != entities[turn]@.id);
        } else {
            assert(entities[turn]@.id != entities[place]@.id);
        }
    }
}

/// Whether every identifier in the table is below `bound`.
pub open spec fn below(entities: Seq<Entity>, bound: u64) -> bool {
    forall|i: int| 0 <= i < entities.len() ==> (#[trigger] entities[i])@.id < bound
}

/// A table whose identifiers all came from one counter holds none under the
/// number that the counter hands out next. So an entity made with that
/// number can be put in: the identifiers stay distinct, and all of them are
/// below the number that the counter hands out after it. (This is so until
/// the counter has handed out its largest number and starts over.)
pub proof fn lemma_fresh_identifier(entities: Seq<Entity>, entity: Entity, upcoming: u64)
    requires
        below(entities, upcoming),
        entity@.id == upcoming,
        upcoming < u64::MAX,
    ensures
        !holds(entities, entity@.id),
        below(entities.push(entity), successor(upcoming)),
        unique_ids(entities) ==> unique_ids(entities.push(entity)),
{
    let after = entities.push(entity);
    assert forall|i: int| 0 <= i < after.len() implies (#[trigger] after[i])@.id
        < successor(upcoming) by {
        if i < entities.len() {
            assert(after[i] == entities[i]);
        }
    }
    lemma_found_after_insert(entities, entity);
}

/// After any run of inserts and removes that keeps to the callers' rule, the
/// identifiers in the table are distinct; an entity that was just put in is
/// found under its identifier; and nothing is found under an identifier that
/// was just taken out.
pub proof fn lemma_table_history(changes: Seq<Change>)
    requires
        orderly(changes),
    ensures
        unique_ids(replay(changes)),
        changes.len() > 0 ==> match changes.last() {
            Change::Insert(entity) => {
                &&& position_of(replay(changes), entity@.id) matches Some(place)
                &&& replay(changes)[place] == entity
            },
            Change::Remove(id) => position_of(replay(changes), id) is None,
        },
    decreases changes.len(),
{
    if changes.len() > 0 {
        lemma_table_history(changes.drop_last());
        let before = replay(changes.drop_last());
        match changes.last() {
            Change::Insert(entity) => {
                lemma_found_after_insert(before, entity);
            },
            Change::Remove(id) => {
                lemma_gone_after_remove(before, id);
            },
        }
    }
}

/// A persisted player that is brought to life and saved again, with nothing
/// done to it in between, comes back with the identifier, name, skin, map,
/// raw attributes, place and health it had; experience, gold and guild come
/// back blank.
pub proof fn lemma_round_trip(player: PlayerView, id: u64)
    ensures
        player_of_entity(entity_of_player(player, id)) == Some(
            PlayerView { experience: 0, gold: 0, guild: Seq::empty(), ..player },
        ),
{
}

} // verus!

