//! The world container: the active map's placed blocks, lookup by position,
//! and the orchestration of per-tick updates — every included block's own
//! delta is merged first, and only then are the collected cross-block deltas
//! propagated, so no behavior ever observes a half-updated neighbor.

use vstd::prelude::*;

use crate::blocks::{spec_block_interact, spec_block_update, Block, YIELD_MAX, YIELD_MIN};
use crate::items::spec_bread_item;
use crate::maps::{lemma_farm_positions_unique, spec_farm, GameMap};
use crate::player::{spec_default_limits, Player, PlayerInventory, PlayerLimits};
use crate::rng::{seq_advance, seq_roll, RandomSource};
use crate::things::{spec_merge, BlockData, ItemData, PartialBlockState};
use crate::ui::{CellDraw, Point};

verus! {

/// The percentage chance for a block or item to be included in one random
/// tick: each entity is an independent trial.
pub const TICK_CHANCE: u32 = 15;

/// The map invariant: at most one block occupies any grid cell.
pub open spec fn positions_unique(blocks: Seq<BlockData>) -> bool {
    forall|i: int, j: int|
        0 <= i < j < blocks.len() ==> blocks[i].state.pos != blocks[j].state.pos
}

/// The first index whose block sits at `pos`, if any.
pub open spec fn spec_find_at(blocks: Seq<BlockData>, pos: Point) -> Option<int>
    decreases blocks.len(),
{
    if blocks.len() == 0 {
        None
    } else if blocks[0].state.pos == pos {
        Some(0int)
    } else {
        match spec_find_at(blocks.skip(1), pos) {
            Some(i) => Some(i + 1),
            None => None,
        }
    }
}

/// A linear scan that stopped at `i` (with no hit before it) agrees with
/// [`spec_find_at`].
proof fn lemma_find_at_scan(blocks: Seq<BlockData>, pos: Point, i: int)
    requires
        0 <= i <= blocks.len(),
        forall|j: int| 0 <= j < i ==> blocks[j].state.pos != pos,
        i < blocks.len() ==> blocks[i].state.pos == pos,
    ensures
        spec_find_at(blocks, pos) == if i < blocks.len() {
            Some(i)
        } else {
            None::<int>
        },
    decreases blocks.len(),
{
    if blocks.len() == 0 {
    } else if blocks[0].state.pos == pos {
        assert(i == 0);
    } else {
        assert(blocks[0].state.pos != pos);
        assert(i >= 1);
        assert(forall|j: int| 0 <= j < i - 1 ==> blocks.skip(1)[j] == blocks[j + 1]);
        if i < blocks.len() {
            assert(blocks.skip(1)[i - 1] == blocks[i]);
        }
        lemma_find_at_scan(blocks.skip(1), pos, i - 1);
    }
}

/// Finds the first block at `pos` by linear scan.
fn find_index(v: &Vec<BlockData>, pos: Point) -> (r: Option<usize>)
    ensures
        match r {
            Some(i) => spec_find_at(v@, pos) == Some(i as int) && i < v@.len()
                && v@[i as int].state.pos == pos,
            None => spec_find_at(v@, pos) is None,
        },
{
    let mut i: usize = 0;
    while i < v.len()
        invariant
            i <= v@.len(),
            forall|j: int| 0 <= j < i ==> v@[j].state.pos != pos,
        decreases v@.len() - i,
    {
        if v[i].state.pos == pos {
            proof {
                lemma_find_at_scan(v@, pos, i as int);
            }
            return Some(i);
        }
        i = i + 1;
    }
    proof {
        lemma_find_at_scan(v@, pos, i as int);
    }
    None
}

/// A block after its own random-tick update: the new behavior state, with
/// the emitted delta merged into the block's generic state.
pub open spec fn spec_ticked_block(b: BlockData) -> BlockData {
    let (nb, delta) = spec_block_update(b.block);
    BlockData { state: spec_merge(b.state, delta), block: nb }
}

/// A block's own update never moves it: the delta it emits leaves the
/// position absent.
pub proof fn lemma_block_update_keeps_pos(b: Block)
    ensures
        spec_block_update(b).1.pos is None,
{
}

/// The first phase of a random tick, run over the first `n` blocks: each
/// consumes one inclusion roll; an included block's own delta is merged into
/// its state at once, its cell is queued for redraw, and its cross-block
/// deltas are collected for the second phase.
pub open spec fn spec_tick_pass(blocks: Seq<BlockData>, rolls: Seq<u64>, n: int) -> (
    Seq<BlockData>,
    Seq<u64>,
    Seq<CellDraw>,
    Seq<(Point, PartialBlockState)>,
)
    decreases n,
{
    if n <= 0 {
        (blocks, rolls, Seq::empty(), Seq::empty())
    } else {
        let (bs, rs, rd, pd) = spec_tick_pass(blocks, rolls, n - 1);
        let roll = seq_roll(rs, 0, 99);
        let rs1 = seq_advance(rs);
        if roll < TICK_CHANCE {
            let nb = spec_ticked_block(bs[n - 1]);
            (
                bs.update(n - 1, nb),
                rs1,
                rd.push(CellDraw { pos: nb.state.pos, ty: nb.state.ty }),
                pd,
            )
        } else {
            (bs, rs1, rd, pd)
        }
    }
}

/// The second phase of a random tick (and of an interaction): the collected
/// cross-block deltas, applied in emission order. Each delta is merged into
/// the first block found at its target position and queues that cell for
/// redraw; a delta whose target has no block is dropped.
pub open spec fn spec_apply_pending(
    blocks: Seq<BlockData>,
    pending: Seq<(Point, PartialBlockState)>,
    n: int,
) -> (Seq<BlockData>, Seq<CellDraw>)
    decreases n,
{
    if n <= 0 {
        (blocks, Seq::empty())
    } else {
        let (bs, rd) = spec_apply_pending(blocks, pending, n - 1);
        let (p, d) = pending[n - 1];
        match spec_find_at(bs, p) {
            Some(i) => {
                let merged = spec_merge(bs[i].state, d);
                (
                    bs.update(i, BlockData { state: merged, block: bs[i].block }),
                    rd.push(CellDraw { pos: merged.pos, ty: merged.ty }),
                )
            },
            None => (bs, rd),
        }
    }
}

/// One whole random tick over a block sequence: the first phase visits every
/// block, then the second phase applies the collected cross-block deltas to
/// the world in which every block's own delta is already merged.
pub open spec fn spec_world_tick(blocks: Seq<BlockData>, rolls: Seq<u64>) -> (
    Seq<BlockData>,
    Seq<u64>,
    Seq<CellDraw>,
) {
    let (bs, rs, rd, pd) = spec_tick_pass(blocks, rolls, blocks.len() as int);
    let (bs2, rd2) = spec_apply_pending(bs, pd, pd.len() as int);
    (bs2, rs, rd + rd2)
}

/// Determinism of the random tick: its result is a function of the starting
/// blocks and the roll sequence alone, so the same deterministic rolls
/// applied twice to the same world yield the identical world.
pub proof fn lemma_random_tick_deterministic(
    blocks1: Seq<BlockData>,
    rolls1: Seq<u64>,
    blocks2: Seq<BlockData>,
    rolls2: Seq<u64>,
)
    requires
        blocks1 == blocks2,
        rolls1 == rolls2,
    ensures
        spec_world_tick(blocks1, rolls1) == spec_world_tick(blocks2, rolls2),
{
}

/// Propagation ordering: a random tick factors into its two phases — the
/// world the cross-block deltas are applied to is exactly the world in which
/// every included block's own delta has already been merged, so an entity's
/// own delta is visible before any delta aimed at another entity is
/// processed.
pub proof fn lemma_tick_two_phase(blocks: Seq<BlockData>, rolls: Seq<u64>)
    ensures
        ({
            let (bs1, rs, rd1, pd) = spec_tick_pass(blocks, rolls, blocks.len() as int);
            let (bs2, rd2) = spec_apply_pending(bs1, pd, pd.len() as int);
            spec_world_tick(blocks, rolls) == (bs2, rs, rd1 + rd2)
        }),
{
}

/// Runs the first tick phase over a block vector.
fn tick_blocks(v: &mut Vec<BlockData>, rng: &mut RandomSource) -> (out: (
    Vec<CellDraw>,
    Vec<(Point, PartialBlockState)>,
))
    ensures
        final(rng).is_sequence() == old(rng).is_sequence(),
        final(v)@.len() == old(v)@.len(),
        forall|j: int|
            0 <= j < old(v)@.len() ==> #[trigger] final(v)@[j] == old(v)@[j] || final(v)@[j]
                == spec_ticked_block(old(v)@[j]),
        forall|j: int|
            0 <= j < old(v)@.len() ==> #[trigger] final(v)@[j].state.pos == old(v)@[j].state.pos,
        out.1@.len() == 0,
        old(rng).is_sequence() ==> ({
            let (bs, rs, rd, pd) = spec_tick_pass(
                old(v)@,
                old(rng).remaining(),
                old(v)@.len() as int,
            );
            final(v)@ == bs && final(rng).remaining() == rs && out.0@ == rd && out.1@ == pd
        }),
{
    let ghost blocks0 = v@;
    let ghost rolls0 = rng.remaining();
    let ghost init_seq = rng.is_sequence();
    let mut redraws: Vec<CellDraw> = Vec::new();
    let mut pending: Vec<(Point, PartialBlockState)> = Vec::new();
    let mut i: usize = 0;
    while i < v.len()
        invariant
            i <= v@.len(),
            v@.len() == blocks0.len(),
            rng.is_sequence() == init_seq,
            pending@.len() == 0,
            forall|j: int| i <= j < blocks0.len() ==> #[trigger] v@[j] == blocks0[j],
            forall|j: int|
                0 <= j < i ==> #[trigger] v@[j] == blocks0[j] || v@[j] == spec_ticked_block(
                    blocks0[j],
                ),
            forall|j: int| 0 <= j < i ==> #[trigger] v@[j].state.pos == blocks0[j].state.pos,
            init_seq ==> ({
                let (bs, rs, rd, pd) = spec_tick_pass(blocks0, rolls0, i as int);
                v@ == bs && rng.remaining() == rs && redraws@ == rd && pending@ == pd
            }),
        decreases v@.len() - i,
    {
        let roll = rng.next_in_range(0, 99);
        if roll < TICK_CHANCE {
            let b = v[i];
            let mut blk = b.block;
            let mut u = blk.update();
            let mut st = b.state;
            st.merge_with(u.this);
            proof {
                lemma_block_update_keeps_pos(b.block);
            }
            v[i] = BlockData { state: st, block: blk };
            redraws.push(CellDraw { pos: st.pos, ty: st.ty });
            pending.append(&mut u.other);
            proof {
                assert(pending@.len() == 0);
            }
        }
        i = i + 1;
    }
    (redraws, pending)
}

/// Applies collected cross-block deltas to a block vector, in emission
/// order, and returns the cells to redraw.
fn apply_pending_blocks(
    v: &mut Vec<BlockData>,
    pending: &Vec<(Point, PartialBlockState)>,
) -> (redraws: Vec<CellDraw>)
    ensures
        ({
            let (bs, rd) = spec_apply_pending(old(v)@, pending@, pending@.len() as int);
            final(v)@ == bs && redraws@ == rd
        }),
{
    let ghost blocks0 = v@;
    let mut redraws: Vec<CellDraw> = Vec::new();
    let mut k: usize = 0;
    while k < pending.len()
        invariant
            k <= pending@.len(),
            ({
                let (bs, rd) = spec_apply_pending(blocks0, pending@, k as int);
                v@ == bs && redraws@ == rd
            }),
        decreases pending@.len() - k,
    {
        let (p, d) = pending[k];
        match find_index(v, p) {
            Some(i) => {
                let b = v[i];
                let mut st = b.state;
                st.merge_with(d);
                v[i] = BlockData { state: st, block: b.block };
                redraws.push(CellDraw { pos: st.pos, ty: st.ty });
            },
            None => {},
        }
        k = k + 1;
    }
    redraws
}

/// The game's maps. The default map is the farm.
#[derive(Clone, PartialEq, Eq, Debug)]
pub struct GameMaps {
    pub current_map: GameMap,
    pub farm: Vec<BlockData>,
}

/// What interacting at a position does to the blocks, the player, the
/// inventory, and the roll sequence: the block found there (if any) reacts,
/// its own delta is merged at once, and its cross-block deltas would then be
/// propagated (no current behavior emits any).
pub open spec fn spec_interact_at(
    blocks: Seq<BlockData>,
    pos: Point,
    player: Player,
    inv: Seq<ItemData>,
    rolls: Seq<u64>,
) -> (Seq<BlockData>, Player, Seq<ItemData>, Seq<u64>) {
    match spec_find_at(blocks, pos) {
        None => (blocks, player, inv, rolls),
        Some(i) => {
            let (b2, p2, r2, d, it) = spec_block_interact(
                blocks[i].block,
                player,
                spec_default_limits().wheat,
                rolls,
            );
            let merged = spec_merge(blocks[i].state, d);
            (
                blocks.update(i, BlockData { state: merged, block: b2 }),
                p2,
                match it {
                    Some(x) => inv.push(x),
                    None => inv,
                },
                r2,
            )
        },
    }
}

impl GameMaps {
    /// The blocks of the currently active map.
    pub open spec fn current_blocks(&self) -> Seq<BlockData> {
        match self.current_map {
            GameMap::Farm => self.farm@,
        }
    }

    /// Initializes the default game map.
    pub fn init() -> (r: GameMaps)
        ensures
            r.current_map == GameMap::Farm,
            r.current_blocks() == spec_farm(),
            positions_unique(r.current_blocks()),
    {
        proof {
            lemma_farm_positions_unique();
        }
        GameMaps { current_map: GameMap::Farm, farm: GameMap::Farm.init() }
    }

    /// The blocks on the current map.
    pub fn get_current(&self) -> (r: &Vec<BlockData>)
        ensures
            r@ == self.current_blocks(),
    {
        match self.current_map {
            GameMap::Farm => &self.farm,
        }
    }

    /// Mutable access to the blocks on the current map.
    pub fn get_current_mut(&mut self) -> (r: &mut Vec<BlockData>)
        ensures
            r@ == old(self).current_blocks(),
            final(self).current_map == old(self).current_map,
            final(self).current_blocks() == final(r)@,
    {
        match self.current_map {
            GameMap::Farm => &mut self.farm,
        }
    }

    /// Finds the block at a position, if one is placed there.
    pub fn find_at(&self, pos: Point) -> (r: Option<&BlockData>)
        ensures
            match spec_find_at(self.current_blocks(), pos) {
                Some(i) => r matches Some(b) && *b == self.current_blocks()[i],
                None => r is None,
            },
    {
        let v = self.get_current();
        match find_index(v, pos) {
            Some(i) => Some(&v[i]),
            None => None,
        }
    }

    /// Finds the block at a position for mutation, if one is placed there.
    /// The world after the borrow ends differs from the old one exactly at
    /// the found block.
    pub fn find_at_mut(&mut self, pos: Point) -> (r: Option<&mut BlockData>)
        ensures
            final(self).current_map == old(self).current_map,
            match spec_find_at(old(self).current_blocks(), pos) {
                Some(i) => r matches Some(b) && *b == old(self).current_blocks()[i]
                    && final(self).current_blocks() == old(self).current_blocks().update(
                    i,
                    *final(b),
                ),
                None => r is None && *final(self) == *old(self),
            },
    {
        match self.current_map {
            GameMap::Farm => {
                match find_index(&self.farm, pos) {
                    Some(i) => Some(&mut self.farm[i]),
                    None => None,
                }
            },
        }
    }

    /// Does one random tick over all blocks of the current map: every block
    /// is included independently with [`TICK_CHANCE`] percent probability;
    /// included blocks' own deltas are merged at once, their cross-block
    /// deltas afterwards. Returns the cells to redraw.
    pub fn do_random_tick(&mut self, rng: &mut RandomSource) -> (redraws: Vec<CellDraw>)
        ensures
            final(self).current_map == old(self).current_map,
            final(rng).is_sequence() == old(rng).is_sequence(),
            final(self).current_blocks().len() == old(self).current_blocks().len(),
            forall|j: int|
                0 <= j < old(self).current_blocks().len()
                    ==> #[trigger] final(self).current_blocks()[j].state.pos == old(
                    self,
                ).current_blocks()[j].state.pos,
            forall|j: int|
                0 <= j < old(self).current_blocks().len()
                    ==> #[trigger] final(self).current_blocks()[j] == old(self).current_blocks()[j]
                    || final(self).current_blocks()[j] == spec_ticked_block(
                    old(self).current_blocks()[j],
                ),
            positions_unique(old(self).current_blocks()) ==> positions_unique(
                final(self).current_blocks(),
            ),
            old(rng).is_sequence() ==> ({
                let (bs, rs, rd) = spec_world_tick(
                    old(self).current_blocks(),
                    old(rng).remaining(),
                );
                final(self).current_blocks() == bs && final(rng).remaining() == rs && redraws@
                    == rd
            }),
    {
        match self.current_map {
            GameMap::Farm => {
                let (mut redraws, pending) = tick_blocks(&mut self.farm, rng);
                let mut more = apply_pending_blocks(&mut self.farm, &pending);
                redraws.append(&mut more);
                redraws
            },
        }
    }

    /// Interacts with the block at a position on behalf of the player. If no
    /// block is placed there, nothing happens.
    pub fn interact_at(
        &mut self,
        pos: Point,
        player: &mut Player,
        inventory: &mut PlayerInventory,
        rng: &mut RandomSource,
    )
        ensures
            final(self).current_map == old(self).current_map,
            final(rng).is_sequence() == old(rng).is_sequence(),
            final(self).current_blocks().len() == old(self).current_blocks().len(),
            forall|j: int|
                0 <= j < old(self).current_blocks().len()
                    ==> #[trigger] final(self).current_blocks()[j].state.pos == old(
                    self,
                ).current_blocks()[j].state.pos,
            positions_unique(old(self).current_blocks()) ==> positions_unique(
                final(self).current_blocks(),
            ),
            final(player).health == old(player).health,
            final(player).xp == old(player).xp,
            final(player).gold == old(player).gold,
            final(player).water == old(player).water,
            final(player).wheat == old(player).wheat || (old(player).wheat + YIELD_MIN
                <= final(player).wheat <= old(player).wheat + YIELD_MAX && final(player).wheat
                <= spec_default_limits().wheat) || (final(player).wheat
                == spec_default_limits().wheat && old(player).wheat + YIELD_MAX
                >= spec_default_limits().wheat),
            final(inventory).items@ == old(inventory).items@ || final(inventory).items@
                == old(inventory).items@.push(spec_bread_item()),
            spec_find_at(old(self).current_blocks(), pos) is None ==> *final(self) == *old(self)
                && *final(player) == *old(player) && final(inventory).items@ == old(
                inventory,
            ).items@ && *final(rng) == *old(rng),
            old(rng).is_sequence() ==> ({
                let (bs, p2, inv2, r2) = spec_interact_at(
                    old(self).current_blocks(),
                    pos,
                    *old(player),
                    old(inventory).items@,
                    old(rng).remaining(),
                );
                final(self).current_blocks() == bs && *final(player) == p2
                    && final(inventory).items@ == inv2 && final(rng).remaining() == r2
            }),
    {
        let limits = PlayerLimits::new().with(&inventory.items);
        match self.current_map {
            GameMap::Farm => {
                match find_index(&self.farm, pos) {
                    Some(i) => {
                        let b = self.farm[i];
                        let mut blk = b.block;
                        let mut u = blk.interact(player, inventory, &limits, rng);
                        let mut st = b.state;
                        st.merge_with(u.this);
                        self.farm[i] = BlockData { state: st, block: blk };
                        let more = apply_pending_blocks(&mut self.farm, &u.other);
                        let _ = more;
                    },
                    None => {},
                }
            },
        }
    }
}

} // verus!
