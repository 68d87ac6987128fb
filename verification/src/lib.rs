//! Core simulation of a tile-based dungeon: a grid of blocking /
//! sight-blocking tiles, procedural carving of rooms and tunnels,
//! collision-aware entity movement, and a two-pass frame compositor.

pub mod color;
pub mod entity;
pub mod frame;
pub mod grid;
pub mod input;
pub mod mapgen;
pub mod render;

pub use color::Color;
pub use entity::Object;
pub use frame::Frame;
pub use grid::Game;
pub use grid::Grid;
pub use grid::Tile;
pub use input::Action;
pub use input::Key;
pub use mapgen::CarveOp;
pub use mapgen::Rect;
