//! A falling-block puzzle engine.
//!
//! The engine owns a fixed 10 x 24 grid of cells and one falling piece of
//! four cells. Commands move or rotate the piece when the target cells are
//! free and inside the grid, or lock the piece into the grid and spawn the
//! next one. Every executable function carries a contract that Verus proves.

pub mod collision;
pub mod game;
pub mod grid;
pub mod moves;
pub mod piece;
pub mod position;
pub mod rotation;
pub mod translation;
