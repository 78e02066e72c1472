//! The persisted form of a player, as storage hands it over and takes it back.

use vstd::prelude::*;

use crate::geometry::Scalar;
use crate::id::{Id, MapKind, PlayerKind};

verus! {

/// The seven raw attributes of a character.
#[derive(Clone, Copy, Debug, PartialEq, Eq, Structural)]
pub struct Stats {
    pub level: u64,
    pub strength: u64,
    pub dexterity: u64,
    pub constitution: u64,
    pub intelligence: u64,
    pub precision: u64,
    pub wisdom: u64,
}

/// A place, together with the map it lies on.
#[derive(Clone, Copy, Debug)]
pub struct Position {
    pub x: Scalar,
    pub y: Scalar,
    pub map: Id<MapKind>,
}

/// What a [`Position`] holds, as plain values.
pub struct PositionView {
    pub x: Scalar,
    pub y: Scalar,
    pub map: u64,
}

impl View for Position {
    type V = PositionView;

    open spec fn view(&self) -> PositionView {
        PositionView { x: self.x, y: self.y, map: self.map@ }
    }
}

/// A player as persistent storage knows it.
#[derive(Debug)]
pub struct Player {
    pub id: Id<PlayerKind>,
    pub name: String,
    pub skin: u64,
    pub current_pv: u64,
    pub position: Position,
    pub experience: u64,
    pub gold: u64,
    pub guild: String,
    pub stats: Stats,
}

/// What a [`Player`] holds, as plain values.
pub struct PlayerView {
    pub id: u64,
    pub name: Seq<char>,
    pub skin: u64,
    pub current_pv: u64,
    pub position: PositionView,
    pub experience: u64,
    pub gold: u64,
    pub guild: Seq<char>,
    pub stats: Stats,
}

impl View for Player {
    type V = PlayerView;

    open spec fn view(&self) -> PlayerView {
        PlayerView {
            id: self.id@,
            name: self.name@,
            skin: self.skin,
            current_pv: self.current_pv,
            position: self.position@,
            experience: self.experience,
            gold: self.gold,
            guild: self.guild@,
            stats: self.stats,
        }
    }
}

} // verus!
