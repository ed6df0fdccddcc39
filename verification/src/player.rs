//! Player session state, the player's limits policy, and the inventory.

use vstd::prelude::*;

use crate::things::ItemData;

verus! {

/// The per-session player state: counters and accumulated resources.
#[derive(Clone, Copy, PartialEq, Eq, Structural, Debug)]
pub struct Player {
    pub health: u32,
    pub xp: u32,
    pub gold: u32,
    pub wheat: u32,
    pub water: u32,
}

/// The player a fresh session starts with.
pub open spec fn spec_new_player() -> Player {
    Player { health: 10, xp: 1, gold: 0, wheat: 0, water: 0 }
}

impl Player {
    /// Creates a new player.
    pub fn new() -> (r: Player)
        ensures
            r == spec_new_player(),
    {
        Player { health: 10, xp: 1, gold: 0, wheat: 0, water: 0 }
    }
}

impl Default for Player {
    fn default() -> (r: Player)
        ensures
            r == spec_new_player(),
    {
        Player::new()
    }
}

/// The player's limits: the caps that behaviors consult to clamp resource
/// gains.
#[derive(Clone, Copy, PartialEq, Eq, Structural, Debug)]
pub struct PlayerLimits {
    pub health: u32,
    pub wheat: u32,
    pub water: u32,
}

/// The default limits policy.
pub open spec fn spec_default_limits() -> PlayerLimits {
    PlayerLimits { health: 10, wheat: 500, water: 4 }
}

impl PlayerLimits {
    /// Obtains the default player limits.
    pub fn new() -> (r: PlayerLimits)
        ensures
            r == spec_default_limits(),
    {
        PlayerLimits { health: 10, wheat: 500, water: 4 }
    }

    /// Applies item effects on the limits. No item in the current set adjusts
    /// a limit, so the limits pass through unchanged.
    pub fn with(self, _items: &Vec<ItemData>) -> (r: PlayerLimits)
        ensures
            r == self,
    {
        self
    }
}

impl Default for PlayerLimits {
    fn default() -> (r: PlayerLimits)
        ensures
            r == spec_default_limits(),
    {
        PlayerLimits::new()
    }
}

/// The player's inventory: an ordered sequence of items, insertion order
/// being display order.
#[derive(Clone, PartialEq, Eq, Debug)]
pub struct PlayerInventory {
    pub items: Vec<ItemData>,
}

impl Default for PlayerInventory {
    /// A fresh inventory is empty.
    fn default() -> (r: PlayerInventory)
        ensures
            r.items@ == Seq::<ItemData>::empty(),
    {
        PlayerInventory { items: Vec::new() }
    }
}

} // verus!
