//! Movement and sprite animation of a single 2D player character.
//!
//! The crate turns a direction of input and the time that has passed into a
//! facing, a "moving" flag, an animation mode and a cell of a fixed sprite
//! sheet. Every function carries a contract, and the contracts are proved.

pub mod control;
pub mod player;
