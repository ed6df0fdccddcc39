//! Block behaviors: the closed set of block variants, the update records a
//! behavior invocation returns, and the wheat state machine.

use vstd::prelude::*;

use crate::items::{spec_bread_item, Bread};
use crate::player::{Player, PlayerInventory, PlayerLimits};
use crate::rng::{seq_advance, seq_roll, RandomSource};
use crate::things::{empty_partial, CollisionTy, PartialBlockState};
use crate::ui::{BlockTy, Point};

verus! {

/// How many update ticks a harvested wheat block takes to regrow.
pub const REGROW_TICKS: u8 = 7;

/// The smallest wheat yield of one harvest.
pub const YIELD_MIN: u32 = 1;

/// The largest wheat yield of one harvest.
pub const YIELD_MAX: u32 = 3;

/// Updates made by a block behavior invocation: a delta to the invoked block
/// itself, and deltas addressed to blocks at other positions, applied by the
/// map after the block's own delta.
#[derive(Clone, PartialEq, Eq, Debug)]
pub struct BlockUpdates {
    /// Update on the invoked block itself.
    pub this: PartialBlockState,
    /// Updates on blocks at other positions.
    pub other: Vec<(Point, PartialBlockState)>,
}

impl BlockUpdates {
    /// Creates a new empty update.
    pub fn new() -> (r: BlockUpdates)
        ensures
            r.this == empty_partial(),
            r.other@ == Seq::<(Point, PartialBlockState)>::empty(),
    {
        BlockUpdates { this: PartialBlockState { pos: None, collision: None, ty: None }, other: Vec::new() }
    }

    /// Builder: sets the delta on the invoked block itself.
    pub fn this(self, this: PartialBlockState) -> (r: BlockUpdates)
        ensures
            r.this == this,
            r.other == self.other,
    {
        BlockUpdates { this, other: self.other }
    }

    /// Builder: appends one delta addressed to the block at `point`.
    pub fn other(self, point: Point, state: PartialBlockState) -> (r: BlockUpdates)
        ensures
            r.this == self.this,
            r.other@ == self.other@.push((point, state)),
    {
        let mut u = self;
        u.other.push((point, state));
        u
    }

    /// Builder: appends a batch of deltas addressed to other blocks.
    pub fn others(self, batch: Vec<(Point, PartialBlockState)>) -> (r: BlockUpdates)
        ensures
            r.this == self.this,
            r.other@ == self.other@ + batch@,
    {
        let mut u = self;
        let mut i: usize = 0;
        while i < batch.len()
            invariant
                i <= batch@.len(),
                u.this == self.this,
                u.other@ == self.other@ + batch@.subrange(0, i as int),
            decreases batch@.len() - i,
        {
            u.other.push(batch[i]);
            proof {
                assert(self.other@ + batch@.subrange(0, i + 1) =~= (self.other@ + batch@.subrange(
                    0,
                    i as int,
                )).push(batch@[i as int]));
            }
            i = i + 1;
        }
        proof {
            assert(batch@.subrange(0, batch@.len() as int) =~= batch@);
        }
        u
    }

    /// Wraps the updates into a [`Result`].
    pub fn ok<E>(self) -> (r: Result<BlockUpdates, E>)
        ensures
            r == Result::<BlockUpdates, E>::Ok(self),
    {
        Ok(self)
    }
}

impl Default for BlockUpdates {
    /// An empty update: no delta on the invoked block, none on others.
    fn default() -> (r: BlockUpdates)
        ensures
            r.this == empty_partial(),
            r.other@ == Seq::<(Point, PartialBlockState)>::empty(),
    {
        BlockUpdates::new()
    }
}

/// A block with no behavior: it occupies a cell with fixed collision and
/// glyph and never changes state (impassable terrain such as water).
#[derive(Clone, Copy, PartialEq, Eq, Structural, Debug)]
pub struct Generic;

/// A wheat block: harvestable when its internal counter is zero, regrowing
/// while the counter runs down.
#[derive(Clone, Copy, PartialEq, Eq, Structural, Debug)]
pub struct Wheat {
    /// Remaining regrowth ticks; zero means fully grown and harvestable.
    pub tick: u8,
}

/// The closed set of block behavior variants.
#[derive(Clone, Copy, PartialEq, Eq, Structural, Debug)]
pub enum Block {
    Generic(Generic),
    Wheat(Wheat),
}

/// The delta a wheat block emits when it finishes regrowing: harvestable
/// again, shown as grown wheat.
pub open spec fn wheat_grown_delta() -> PartialBlockState {
    PartialBlockState { pos: None, collision: Some(CollisionTy::CanUse), ty: Some(BlockTy::Wheat) }
}

/// The delta a wheat block emits when it is harvested: passable but not
/// usable, shown as growing wheat.
pub open spec fn wheat_harvested_delta() -> PartialBlockState {
    PartialBlockState {
        pos: None,
        collision: Some(CollisionTy::NoCollision),
        ty: Some(BlockTy::GrowingWheat),
    }
}

/// What one update does to a wheat block: nothing while fully grown; else
/// the counter goes down, and on the call where it reaches zero the block
/// emits the delta that makes it harvestable again.
pub open spec fn spec_wheat_update(w: Wheat) -> (Wheat, PartialBlockState) {
    if w.tick == 0 {
        (w, empty_partial())
    } else if w.tick == 1 {
        (Wheat { tick: 0 }, wheat_grown_delta())
    } else {
        (Wheat { tick: (w.tick - 1) as u8 }, empty_partial())
    }
}

/// What one interaction does to a wheat block, the player, and the roll
/// sequence, and which delta and new inventory item it produces. Harvest
/// happens only when the block is fully grown and the player is not already
/// at the wheat cap; the yield is the first roll, reduced into the yield
/// range and clamped at the cap.
pub open spec fn spec_wheat_interact(w: Wheat, player: Player, limit: u32, rolls: Seq<u64>) -> (
    Wheat,
    Player,
    Seq<u64>,
    PartialBlockState,
    Option<crate::things::ItemData>,
) {
    if w.tick != 0 || player.wheat == limit {
        (w, player, rolls, empty_partial(), None)
    } else {
        let y = seq_roll(rolls, YIELD_MIN, YIELD_MAX);
        let nw: u32 = if player.wheat + y > limit {
            limit
        } else {
            (player.wheat + y) as u32
        };
        (
            Wheat { tick: REGROW_TICKS },
            Player { wheat: nw, ..player },
            seq_advance(rolls),
            wheat_harvested_delta(),
            Some(spec_bread_item()),
        )
    }
}

impl Wheat {
    /// Creates a fully grown wheat block.
    pub fn new() -> (r: Wheat)
        ensures
            r == (Wheat { tick: 0 }),
    {
        Wheat { tick: 0 }
    }

    /// Updates the wheat by one tick of regrowth.
    pub fn update(&mut self) -> (u: BlockUpdates)
        ensures
            (*final(self), u.this) == spec_wheat_update(*old(self)),
            u.other@ == Seq::<(Point, PartialBlockState)>::empty(),
    {
        if self.tick != 0 {
            self.tick = self.tick - 1;
            if self.tick == 0 {
                return BlockUpdates::new().this(
                    PartialBlockState {
                        pos: None,
                        collision: Some(CollisionTy::CanUse),
                        ty: Some(BlockTy::Wheat),
                    },
                );
            }
        }
        BlockUpdates::new()
    }

    /// Harvests the wheat if it is fully grown and the player has room:
    /// grants a rolled amount of wheat clamped at the limit, starts the
    /// regrowth counter, appends a fresh baking bread to the inventory, and
    /// emits the delta that marks the block as regrowing.
    pub fn interact(
        &mut self,
        player: &mut Player,
        inventory: &mut PlayerInventory,
        limits: &PlayerLimits,
        rng: &mut RandomSource,
    ) -> (u: BlockUpdates)
        ensures
            u.other@ == Seq::<(Point, PartialBlockState)>::empty(),
            final(rng).is_sequence() == old(rng).is_sequence(),
            old(rng).is_sequence() ==> ({
                let (w2, p2, r2, d, it) = spec_wheat_interact(
                    *old(self),
                    *old(player),
                    limits.wheat,
                    old(rng).remaining(),
                );
                *final(self) == w2 && *final(player) == p2 && final(rng).remaining() == r2
                    && u.this == d && final(inventory).items@ == (match it {
                    Some(i) => old(inventory).items@.push(i),
                    None => old(inventory).items@,
                })
            }),
            old(self).tick != 0 || old(player).wheat == limits.wheat ==> *final(self) == *old(self)
                && *final(player) == *old(player) && final(inventory).items@ == old(
                inventory,
            ).items@ && u.this == empty_partial() && *final(rng) == *old(rng),
            old(self).tick == 0 && old(player).wheat != limits.wheat ==> final(self).tick
                == REGROW_TICKS && u.this == wheat_harvested_delta() && final(inventory).items@
                == old(inventory).items@.push(spec_bread_item()) && *final(player) == (Player {
                wheat: final(player).wheat,
                ..*old(player)
            }) && ((final(player).wheat == limits.wheat && old(player).wheat + YIELD_MAX
                >= limits.wheat) || (old(player).wheat + YIELD_MIN <= final(player).wheat <= old(
                player,
            ).wheat + YIELD_MAX && final(player).wheat <= limits.wheat)),
    {
        if self.tick == 0 {
            if player.wheat == limits.wheat {
                return BlockUpdates::new();
            }
            let y = rng.next_in_range(YIELD_MIN, YIELD_MAX);
            let cand: u64 = player.wheat as u64 + y as u64;
            player.wheat = if cand > limits.wheat as u64 {
                limits.wheat
            } else {
                cand as u32
            };
            self.tick = REGROW_TICKS;
            inventory.items.push(Bread::new());
            return BlockUpdates::new().this(
                PartialBlockState {
                    pos: None,
                    collision: Some(CollisionTy::NoCollision),
                    ty: Some(BlockTy::GrowingWheat),
                },
            );
        }
        BlockUpdates::new()
    }
}

/// What one update does to a block: dispatch over the closed variant set. A
/// generic block never changes.
pub open spec fn spec_block_update(b: Block) -> (Block, PartialBlockState) {
    match b {
        Block::Generic(_) => (b, empty_partial()),
        Block::Wheat(w) => {
            let (w2, d) = spec_wheat_update(w);
            (Block::Wheat(w2), d)
        },
    }
}

/// What one interaction does to a block: dispatch over the closed variant
/// set. A generic block never reacts.
pub open spec fn spec_block_interact(b: Block, player: Player, limit: u32, rolls: Seq<u64>) -> (
    Block,
    Player,
    Seq<u64>,
    PartialBlockState,
    Option<crate::things::ItemData>,
) {
    match b {
        Block::Generic(_) => (b, player, rolls, empty_partial(), None),
        Block::Wheat(w) => {
            let (w2, p2, r2, d, it) = spec_wheat_interact(w, player, limit, rolls);
            (Block::Wheat(w2), p2, r2, d, it)
        },
    }
}

impl Block {
    /// Updates the block by one tick: passive time-based progression.
    pub fn update(&mut self) -> (u: BlockUpdates)
        ensures
            (*final(self), u.this) == spec_block_update(*old(self)),
            u.other@ == Seq::<(Point, PartialBlockState)>::empty(),
    {
        match self {
            Block::Generic(_) => BlockUpdates::new(),
            Block::Wheat(w) => w.update(),
        }
    }

    /// Interacts with the block on behalf of the player standing on it.
    pub fn interact(
        &mut self,
        player: &mut Player,
        inventory: &mut PlayerInventory,
        limits: &PlayerLimits,
        rng: &mut RandomSource,
    ) -> (u: BlockUpdates)
        ensures
            u.other@ == Seq::<(Point, PartialBlockState)>::empty(),
            u.this.pos is None,
            final(rng).is_sequence() == old(rng).is_sequence(),
            final(player).health == old(player).health,
            final(player).xp == old(player).xp,
            final(player).gold == old(player).gold,
            final(player).water == old(player).water,
            final(player).wheat == old(player).wheat || (old(player).wheat + YIELD_MIN
                <= final(player).wheat <= old(player).wheat + YIELD_MAX && final(player).wheat
                <= limits.wheat) || (final(player).wheat == limits.wheat && old(player).wheat
                + YIELD_MAX >= limits.wheat),
            final(inventory).items@ == old(inventory).items@ || final(inventory).items@
                == old(inventory).items@.push(spec_bread_item()),
            old(rng).is_sequence() ==> ({
                let (b2, p2, r2, d, it) = spec_block_interact(
                    *old(self),
                    *old(player),
                    limits.wheat,
                    old(rng).remaining(),
                );
                *final(self) == b2 && *final(player) == p2 && final(rng).remaining() == r2
                    && u.this == d && final(inventory).items@ == (match it {
                    Some(i) => old(inventory).items@.push(i),
                    None => old(inventory).items@,
                })
            }),
    {
        match self {
            Block::Generic(_) => BlockUpdates::new(),
            Block::Wheat(w) => w.interact(player, inventory, limits, rng),
        }
    }
}

/// The wheat state after `n` updates.
pub open spec fn wheat_after_updates(w: Wheat, n: nat) -> Wheat
    decreases n,
{
    if n == 0 {
        w
    } else {
        spec_wheat_update(wheat_after_updates(w, (n - 1) as nat)).0
    }
}

/// Wheat regrowth law: starting from a freshly harvested block (counter at
/// [`REGROW_TICKS`]), the `k`-th update leaves the counter at
/// `REGROW_TICKS - k`; every update before the last emits no delta, and
/// exactly the final one emits the delta that flips the block back to
/// harvestable grown wheat.
pub proof fn lemma_wheat_regrowth(k: nat)
    requires
        1 <= k <= REGROW_TICKS,
    ensures
        wheat_after_updates(Wheat { tick: REGROW_TICKS }, k).tick == REGROW_TICKS - k,
        k < REGROW_TICKS ==> spec_wheat_update(
            wheat_after_updates(Wheat { tick: REGROW_TICKS }, (k - 1) as nat),
        ).1 == empty_partial(),
        k == REGROW_TICKS ==> spec_wheat_update(
            wheat_after_updates(Wheat { tick: REGROW_TICKS }, (k - 1) as nat),
        ).1 == wheat_grown_delta(),
    decreases k,
{
    if k > 1 {
        lemma_wheat_regrowth((k - 1) as nat);
    }
}

} // verus!
