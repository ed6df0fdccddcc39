//! Entity state model: the authoritative state of a placed block, the
//! partial-update records used to merge changes into it, and the item state
//! carried by inventory entries.

use vstd::prelude::*;

use crate::blocks::Block;
use crate::items::Item;
use crate::rng::{seq_advance, seq_roll, RandomSource};
use crate::ui::{ops_view, BlockTy, Color, Point, TextOp, TextOpV};

verus! {

/// How a block reacts to the player standing on or entering its cell.
#[derive(Clone, Copy, PartialEq, Eq, Structural, Debug)]
pub enum CollisionTy {
    /// The player can move into the block.
    NoCollision,
    /// The player can move into the block and interact with it.
    CanUse,
    /// The player cannot move into the block.
    Collision,
}

/// The authoritative, mutable state of one placed block. Exactly one exists
/// per occupied cell; after placement only `collision` and `ty` change, and
/// only through [`BlockState::merge_with`].
#[derive(Clone, Copy, PartialEq, Eq, Structural, Debug)]
pub struct BlockState {
    pub pos: Point,
    pub collision: CollisionTy,
    pub ty: BlockTy,
}

/// A sparse override of a [`BlockState`]: absent fields leave the target
/// unchanged, present fields overwrite it. Produced by one behavior
/// invocation and consumed immediately by a merge; never stored.
#[derive(Clone, Copy, PartialEq, Eq, Debug)]
pub struct PartialBlockState {
    pub pos: Option<Point>,
    pub collision: Option<CollisionTy>,
    pub ty: Option<BlockTy>,
}

/// The partial state with every field absent: merging it changes nothing.
pub open spec fn empty_partial() -> PartialBlockState {
    PartialBlockState { pos: None, collision: None, ty: None }
}

/// What merging `p` into `s` yields: present fields of `p` overwrite the
/// fields of `s`, absent fields keep them.
pub open spec fn spec_merge(s: BlockState, p: PartialBlockState) -> BlockState {
    BlockState {
        pos: match p.pos {
            Some(v) => v,
            None => s.pos,
        },
        collision: match p.collision {
            Some(v) => v,
            None => s.collision,
        },
        ty: match p.ty {
            Some(v) => v,
            None => s.ty,
        },
    }
}

impl Default for PartialBlockState {
    /// An empty partial state: merging it is the identity.
    fn default() -> (r: PartialBlockState)
        ensures
            r == empty_partial(),
    {
        PartialBlockState { pos: None, collision: None, ty: None }
    }
}

impl BlockState {
    /// Merges a partial state into this one: only the fields present in
    /// `partial` are overwritten. This is the sole mutation path for a block
    /// state after creation.
    pub fn merge_with(&mut self, partial: PartialBlockState)
        ensures
            *final(self) == spec_merge(*old(self), partial),
    {
        if let Some(pos) = partial.pos {
            self.pos = pos
        }
        if let Some(collision) = partial.collision {
            self.collision = collision
        }
        if let Some(ty) = partial.ty {
            self.ty = ty
        }
    }
}

/// Merging the same partial state twice yields the same result as merging it
/// once: a merge is idempotent under repeated application.
pub proof fn lemma_merge_idempotent(s: BlockState, p: PartialBlockState)
    ensures
        spec_merge(spec_merge(s, p), p) == spec_merge(s, p),
{
}

/// Merging the empty partial state leaves a block state unchanged.
pub proof fn lemma_merge_identity(s: BlockState)
    ensures
        spec_merge(s, empty_partial()) == s,
{
}

/// One placed block on a map: its generic state together with the behavior
/// variant that owns the block's private state machine.
#[derive(Clone, Copy, PartialEq, Eq, Structural, Debug)]
pub struct BlockData {
    /// Block generic state.
    pub state: BlockState,
    /// Local block state and behavior.
    pub block: Block,
}

impl BlockData {
    /// Creates a new placed block.
    pub fn new(pos: Point, collision: CollisionTy, ty: BlockTy, block: Block) -> (r: BlockData)
        ensures
            r == (BlockData { state: BlockState { pos, collision, ty }, block }),
    {
        BlockData { state: BlockState { pos, collision, ty }, block }
    }
}

/// Tier of an item: a rank influencing its display suffix and color.
#[derive(Clone, Copy, PartialEq, Eq, Structural, Debug)]
pub enum ItemTier {
    /// Common tier, no suffix.
    Common,
    /// Level "I".
    LevelC,
    /// Level "II".
    LevelB,
    /// Level "III".
    LevelA,
    /// Level "III+".
    LevelPlus,
}

impl Default for ItemTier {
    /// A fresh item is common.
    fn default() -> (r: ItemTier)
        ensures
            r == ItemTier::Common,
    {
        ItemTier::Common
    }
}

/// The inclusive band of roll identifiers that a tier covers: a tier is drawn
/// by rolling an identifier and mapping it back through [`spec_rnd_get`].
pub open spec fn spec_rnd_minmax(t: ItemTier) -> (u8, u8) {
    match t {
        ItemTier::Common => (1, 20),
        ItemTier::LevelC => (21, 35),
        ItemTier::LevelB => (36, 45),
        ItemTier::LevelA => (46, 50),
        ItemTier::LevelPlus => (51, 51),
    }
}

/// The tier a roll identifier falls in. Identifiers outside `1..=51` carry no
/// meaning; the spec maps them to the common tier.
pub open spec fn spec_rnd_get(id: u8) -> ItemTier {
    if 21 <= id && id <= 35 {
        ItemTier::LevelC
    } else if 36 <= id && id <= 45 {
        ItemTier::LevelB
    } else if 46 <= id && id <= 50 {
        ItemTier::LevelA
    } else if id == 51 {
        ItemTier::LevelPlus
    } else {
        ItemTier::Common
    }
}

/// The text operations that render a tier's display suffix: an optional
/// color switch, the rank numeral, and a reset to the normal color.
pub open spec fn spec_suffix_ops(t: ItemTier) -> Seq<TextOpV> {
    match t {
        ItemTier::Common => seq![TextOpV::SetColor(Color::Normal)],
        ItemTier::LevelC => seq![TextOpV::Put("I"@), TextOpV::SetColor(Color::Normal)],
        ItemTier::LevelB => seq![
            TextOpV::SetColor(Color::Normal),
            TextOpV::Put("II"@),
            TextOpV::SetColor(Color::Normal),
        ],
        ItemTier::LevelA => seq![
            TextOpV::SetColor(Color::RareItem),
            TextOpV::Put("III"@),
            TextOpV::SetColor(Color::Normal),
        ],
        ItemTier::LevelPlus => seq![
            TextOpV::SetColor(Color::SpecialItem),
            TextOpV::Put("III+"@),
            TextOpV::SetColor(Color::Normal),
        ],
    }
}

impl ItemTier {
    /// The inclusive band of roll identifiers this tier covers.
    pub fn rnd_minmax(self) -> (r: (u8, u8))
        ensures
            r == spec_rnd_minmax(self),
    {
        match self {
            ItemTier::Common => (1, 20),
            ItemTier::LevelC => (21, 35),
            ItemTier::LevelB => (36, 45),
            ItemTier::LevelA => (46, 50),
            ItemTier::LevelPlus => (51, 51),
        }
    }

    /// The tier a roll identifier falls in.
    pub fn rnd_get(id: u8) -> (r: ItemTier)
        requires
            1 <= id <= 51,
        ensures
            r == spec_rnd_get(id),
    {
        if 21 <= id && id <= 35 {
            ItemTier::LevelC
        } else if 36 <= id && id <= 45 {
            ItemTier::LevelB
        } else if 46 <= id && id <= 50 {
            ItemTier::LevelA
        } else if id == 51 {
            ItemTier::LevelPlus
        } else {
            ItemTier::Common
        }
    }

    /// Rolls a tier whose identifier band overlaps `min..=max`: an identifier
    /// is drawn between the lowest identifier of `min` and the highest of
    /// `max`, and mapped back to its tier.
    pub fn rand(min: ItemTier, max: ItemTier, rng: &mut RandomSource) -> (r: ItemTier)
        requires
            spec_rnd_minmax(min).0 <= spec_rnd_minmax(max).1,
        ensures
            final(rng).is_sequence() == old(rng).is_sequence(),
            spec_rnd_minmax(r).0 <= spec_rnd_minmax(max).1,
            spec_rnd_minmax(r).1 >= spec_rnd_minmax(min).0,
            old(rng).is_sequence() ==> r == spec_rnd_get(
                seq_roll(
                    old(rng).remaining(),
                    spec_rnd_minmax(min).0 as u32,
                    spec_rnd_minmax(max).1 as u32,
                ) as u8,
            ) && final(rng).remaining() == seq_advance(old(rng).remaining()),
    {
        let lo = min.rnd_minmax().0;
        let hi = max.rnd_minmax().1;
        let id = rng.next_in_range(lo as u32, hi as u32);
        ItemTier::rnd_get(id as u8)
    }

    /// The text operations that render this tier's display suffix.
    pub fn suffix(self) -> (r: Vec<TextOp>)
        ensures
            ops_view(r@) == spec_suffix_ops(self),
    {
        let r: Vec<TextOp> = match self {
            ItemTier::Common => vec![TextOp::SetColor(Color::Normal)],
            ItemTier::LevelC => vec![
                TextOp::Put("I".to_owned()),
                TextOp::SetColor(Color::Normal),
            ],
            ItemTier::LevelB => vec![
                TextOp::SetColor(Color::Normal),
                TextOp::Put("II".to_owned()),
                TextOp::SetColor(Color::Normal),
            ],
            ItemTier::LevelA => vec![
                TextOp::SetColor(Color::RareItem),
                TextOp::Put("III".to_owned()),
                TextOp::SetColor(Color::Normal),
            ],
            ItemTier::LevelPlus => vec![
                TextOp::SetColor(Color::SpecialItem),
                TextOp::Put("III+".to_owned()),
                TextOp::SetColor(Color::Normal),
            ],
        };
        proof {
            assert(ops_view(r@) =~= spec_suffix_ops(self));
        }
        r
    }
}

/// The generic state of one inventory item.
#[derive(Clone, Copy, PartialEq, Eq, Structural, Debug)]
pub struct ItemState {
    pub tier: ItemTier,
}

impl Default for ItemState {
    /// A fresh item state has the common tier.
    fn default() -> (r: ItemState)
        ensures
            r == (ItemState { tier: ItemTier::Common }),
    {
        ItemState { tier: ItemTier::Common }
    }
}

/// One inventory entry: its generic state together with the item behavior
/// variant that owns the item's private state machine.
#[derive(Clone, Copy, PartialEq, Eq, Structural, Debug)]
pub struct ItemData {
    pub state: ItemState,
    pub item: Item,
}

} // verus!
