//! Simulation core of a multiplayer game server: the table of live entities
//! of one game instance, the view that lets one entity be updated while the
//! others stay reachable, and the single-owner dispatch of queued work.

pub mod data;
pub mod entity;
pub mod game;
pub mod geometry;
pub mod id;
pub mod instance;
pub mod management;
pub mod messages;
pub mod text;
