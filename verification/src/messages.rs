//! What the simulation reports about an entity to the outside.

use vstd::prelude::*;

use crate::entity::Direction;
use crate::geometry::Point;
use crate::id::{EntityKind, Id, WeakId};
use crate::instance::RemoveEntityError;

verus! {

/// Where an entity is and which way it faces: the part of its state that
/// clients are told about.
#[derive(Clone, Copy, Debug)]
pub struct EntityState {
    entity: Id<EntityKind>,
    position: Point,
    orientation: Direction,
}

/// What an [`EntityState`] holds, as plain values.
pub struct EntityStateView {
    pub entity: u64,
    pub position: Point,
    pub orientation: Direction,
}

impl DeepView for EntityState {
    type V = EntityStateView;

    open spec fn deep_view(&self) -> EntityStateView {
        self@
    }
}

impl View for EntityState {
    type V = EntityStateView;

    closed spec fn view(&self) -> EntityStateView {
        EntityStateView {
            entity: self.entity@,
            position: self.position,
            orientation: self.orientation,
        }
    }
}

impl EntityState {
    /// The report on the entity `entity`, at `position`, facing `orientation`.
    pub fn new(entity: Id<EntityKind>, position: Point, orientation: Direction) -> (state: Self)
        ensures
            state@ == (EntityStateView { entity: entity@, position, orientation }),
    {
        EntityState { entity, position, orientation }
    }

    /// The entity that the report is about.
    pub fn get_id(&self) -> (id: Id<EntityKind>)
        ensures
            id@ == self@.entity,
    {
        self.entity
    }

    /// Where the entity is.
    pub fn get_position(&self) -> (position: Point)
        ensures
            position == self@.position,
    {
        self.position
    }

    /// Which way the entity faces.
    pub fn get_orientation(&self) -> (orientation: Direction)
        ensures
            orientation == self@.orientation,
    {
        self.orientation
    }
}

/// A unit of work for one game instance.
#[derive(Clone, Copy, Debug)]
pub enum Command {
    /// Report on every entity of the instance.
    GetEntities,
    /// Take the entity with this number out of the instance.
    RemoveEntity(WeakId<EntityKind>),
}

/// What a [`Command`] holds, as plain values.
pub enum CommandView {
    GetEntities,
    RemoveEntity(u64),
}

impl View for Command {
    type V = CommandView;

    open spec fn view(&self) -> CommandView {
        match *self {
            Command::GetEntities => CommandView::GetEntities,
            Command::RemoveEntity(id) => CommandView::RemoveEntity(id@),
        }
    }
}

/// What a game instance answers to a [`Command`].
#[derive(Debug)]
pub enum Outcome {
    /// The reports that were asked for.
    Entities(Vec<EntityState>),
    /// How the removal went.
    Removed(Result<(), RemoveEntityError>),
}

/// What an [`Outcome`] holds, as plain values.
#[verifier::ext_equal]
pub enum OutcomeView {
    Entities(Seq<EntityStateView>),
    Removed(Result<(), RemoveEntityError>),
}

impl View for Outcome {
    type V = OutcomeView;

    open spec fn view(&self) -> OutcomeView {
        match *self {
            Outcome::Entities(states) => OutcomeView::Entities(states.deep_view()),
            Outcome::Removed(result) => OutcomeView::Removed(result),
        }
    }
}

/// A unit of work for the game as a whole.
#[derive(Clone, Copy, Debug)]
pub enum Request {
    /// Begin to shut the game down.
    Shutdown,
    /// Hand a unit of work on to the instance with this number.
    ForInstance { instance: u64, command: Command },
}

/// What goes back to whoever submitted a [`Request`].
#[derive(Debug)]
pub enum Reply {
    /// The game did what was asked.
    Done,
    /// No live instance has the number that the request names.
    InstanceNotFound,
    /// The instance's answer to the unit of work that was handed on.
    Instance(Outcome),
}

/// What a [`Reply`] holds, as plain values.
#[verifier::ext_equal]
pub enum ReplyView {
    Done,
    InstanceNotFound,
    Instance(OutcomeView),
}

impl View for Reply {
    type V = ReplyView;

    open spec fn view(&self) -> ReplyView {
        match *self {
            Reply::Done => ReplyView::Done,
            Reply::InstanceNotFound => ReplyView::InstanceNotFound,
            Reply::Instance(outcome) => ReplyView::Instance(outcome@),
        }
    }
}

} // verus!
