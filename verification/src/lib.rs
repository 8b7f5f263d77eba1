//! A world-progression engine for a small persistent story world.
//!
//! The engine interprets a player action, decides which mutations the world
//! store has to perform, advances a tension-driven story phase and selects a
//! templated narrative event for the new phase.  Everything in this crate is
//! a function from plain values to plain values; durable storage, the
//! configuration files and the network stay with the caller.
//!
//! - `world`: the entities of the world and their views.
//! - `store`: the operations that the engine asks of the store, and what
//!   they do to a snapshot.
//! - `catalog`: event templates and narrative lines.
//! - `phase`: tension and the story-phase state machine.
//! - `action`: player actions and the operations they ask for.
//! - `engine`: the engine itself.
//! - `text`, `random`: helpers.

pub mod action;
pub mod catalog;
pub mod engine;
pub mod phase;
mod random;
pub mod store;
pub mod text;
pub mod world;

pub use crate::action::{Action, ActionRequest};
pub use crate::catalog::{Effect, EventTemplate, PhaseNarrative};
pub use crate::engine::{ConfigurationError, EngineError, EventResponse, GameMaster, Outcome};
pub use crate::store::{get_world_state, log_event, populate_initial_data, StoreError, StoreOp};
pub use crate::world::{Faction, Location, Npc, Player, World, WorldState};
