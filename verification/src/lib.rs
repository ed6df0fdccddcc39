//! A small terminal farming game: a player moves over a grid of blocks and
//! interacts with them. The core is a tick-driven simulation in which blocks
//! and items mutate shared game state through a partial-update protocol.

use vstd::prelude::*;

pub mod blocks;
pub mod game;
pub mod items;
pub mod map;
pub mod maps;
pub mod player;
pub mod rng;
pub mod text;
pub mod things;
pub mod ui;

verus! {

/// Width bound of the map: valid x coordinates are `0..=MAX_X`.
pub const MAX_X: u16 = 29;

/// Height bound of the map: valid y coordinates are `0..=MAX_Y`.
pub const MAX_Y: u16 = 11;

} // verus!
