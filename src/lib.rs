//! World and entity state of a small grid-based dungeon game: a sparse map of
//! discovered cells, a player with health and a move counter, and a hidden
//! prize among the boxes placed on the map.
//!
//! Every operation that the host would see (a draw, a message, a stats
//! update) is appended, in order, to an effect log that the caller performs.
pub mod grid;
pub mod effects;
pub mod player;
pub mod world;
pub mod laws;

pub use effects::{Effect, Notice, Stats};
pub use grid::{CellContent, GridPoint};
pub use player::PlayerCore;
pub use world::Engine;
