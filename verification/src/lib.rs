//! Core of a grid-based roguelike level: procedural dungeon generation by
//! cellular-automaton smoothing, materialization of the grid into renderable
//! entities, and the level finite-state machine that drives both.

pub mod entities;
pub mod grid;
pub mod instance;
pub mod materialize;
pub mod renderables;
pub mod state;
