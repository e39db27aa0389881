//! Layout and dirty-state synchronisation for a rectangular grid of tiles.
//!
//! Lengths are fixed-point integers (`fixed::FIXED_ONE` units per pixel) so
//! that every coordinate the layout produces is exact and provable.
pub mod fixed;
pub mod config;
pub mod tile;
pub mod grid;
pub mod lemmas;
