//! Simulation core of a grid-based roguelike: a fixed 80x50 tile map with a
//! deterministic two-room generator, an entity store of typed component
//! records with a deferred-mutation barrier, and the per-frame systems
//! (input-driven movement, render projection) that read and write them.

pub mod components;
pub mod game;
pub mod map;
pub mod player;
pub mod rect;
pub mod render;
pub mod store;
