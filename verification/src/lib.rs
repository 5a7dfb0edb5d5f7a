//! The authoritative simulation core of a real-time multiplayer naval
//! combat server: it takes one player-issued command per call, validates
//! it against the current world state, and applies its effect to the
//! entities and the player record, reporting a typed reason whenever a
//! command is refused.

pub mod error;
pub mod sanitize;
pub mod vector;
pub mod angle;
pub mod catalog;
pub mod entity;
pub mod player;
pub mod world;
pub mod command;
