//! A small tile-painting board: a rectangular grid of typed, colored tiles
//! laid out in a centered integer coordinate frame, with click-to-paint,
//! hover-highlight and a button bar that picks the active paint type.

pub mod grid;
pub mod rng;
pub mod select;
pub mod tile;
