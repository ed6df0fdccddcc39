//! Item behaviors: the closed set of item variants, each a small state
//! machine driven by the random tick.

use vstd::prelude::*;

use crate::rng::{seq_advance, seq_roll, RandomSource};
use crate::text::{dec_digits, u64_to_string};
use crate::things::{spec_rnd_get, spec_rnd_minmax, ItemData, ItemState, ItemTier};
use crate::ui::Color;
use vstd::string::StringExecFns;

verus! {

/// The number of baking ticks after which the next update finishes a bread.
pub const BAKE_THRESHOLD: u8 = 3;

/// The smallest mass a finished bread can roll.
pub const MASS_MIN: u8 = 5;

/// The largest mass a finished bread can roll.
pub const MASS_MAX: u8 = 75;

/// A bread item: first baking, then finished with a rolled mass.
#[derive(Clone, Copy, PartialEq, Eq, Structural, Debug)]
pub enum Bread {
    /// Still baking. The counter runs from 0 up to [`BAKE_THRESHOLD`]; the
    /// update after that transitions to [`Bread::Normal`].
    Baking { tick: u8 },
    /// Finished, with its rolled mass. Terminal: updates change nothing.
    Normal { mass: u8 },
}

/// The closed set of item behavior variants.
#[derive(Clone, Copy, PartialEq, Eq, Structural, Debug)]
pub enum Item {
    Bread(Bread),
}

/// Updates made by an item update. Items affect no other items, so this
/// carries nothing; it exists as the update protocol's return value.
#[derive(Clone, Copy, PartialEq, Eq, Structural, Debug)]
pub struct ItemUpdates;

impl ItemUpdates {
    /// Creates a new empty update.
    pub fn new() -> (r: ItemUpdates)
        ensures
            r == ItemUpdates,
    {
        ItemUpdates
    }

    /// Wraps the update into a [`Result`].
    pub fn ok<E>(self) -> (r: Result<ItemUpdates, E>)
        ensures
            r == Result::<ItemUpdates, E>::Ok(self),
    {
        Ok(self)
    }
}

/// The inventory entry a freshly harvested bread starts as: common tier, in
/// the baking state with its counter at zero.
pub open spec fn spec_bread_item() -> ItemData {
    ItemData {
        state: ItemState { tier: ItemTier::Common },
        item: Item::Bread(Bread::Baking { tick: 0 }),
    }
}

/// What one update does to a bread and to its item tier. At the baking
/// threshold the first draw rolls the mass and the second rolls the tier;
/// before it the counter goes up by one (bounded); a finished bread changes
/// nothing.
pub open spec fn spec_bread_update(b: Bread, tier: ItemTier, rolls: Seq<u64>) -> (Bread, ItemTier, Seq<u64>) {
    match b {
        Bread::Baking { tick } => {
            if tick == BAKE_THRESHOLD {
                let mass = seq_roll(rolls, MASS_MIN as u32, MASS_MAX as u32);
                let rolls1 = seq_advance(rolls);
                let id = seq_roll(
                    rolls1,
                    spec_rnd_minmax(ItemTier::Common).0 as u32,
                    spec_rnd_minmax(ItemTier::LevelA).1 as u32,
                );
                (Bread::Normal { mass: mass as u8 }, spec_rnd_get(id as u8), seq_advance(rolls1))
            } else {
                let bumped: u8 = if tick == 255 {
                    255
                } else {
                    (tick + 1) as u8
                };
                (Bread::Baking { tick: bumped }, tier, rolls)
            }
        },
        Bread::Normal { .. } => (b, tier, rolls),
    }
}

/// The display name of a bread.
pub open spec fn spec_bread_name(b: Bread) -> Seq<char> {
    match b {
        Bread::Baking { .. } => "Baking bread"@,
        Bread::Normal { .. } => "Bread"@,
    }
}

/// The display meta of a bread: nothing while baking, the mass with a gram
/// suffix once finished.
pub open spec fn spec_bread_meta(b: Bread) -> Seq<char> {
    match b {
        Bread::Baking { .. } => Seq::empty(),
        Bread::Normal { mass } => dec_digits(mass as int) + "g"@,
    }
}

/// The display color of a bread.
pub open spec fn spec_bread_color(b: Bread) -> Color {
    match b {
        Bread::Baking { .. } => Color::Normal,
        Bread::Normal { .. } => Color::Magenta,
    }
}

impl Bread {
    /// Creates a fresh bread inventory entry, in its initial baking state.
    pub fn new() -> (r: ItemData)
        ensures
            r == spec_bread_item(),
    {
        ItemData {
            state: ItemState { tier: ItemTier::Common },
            item: Item::Bread(Bread::Baking { tick: 0 }),
        }
    }

    /// The item name shown in the inventory panel.
    pub fn name(&self) -> (r: &'static str)
        ensures
            r@ == spec_bread_name(*self),
    {
        match self {
            Bread::Baking { .. } => "Baking bread",
            Bread::Normal { .. } => "Bread",
        }
    }

    /// The item meta shown after the name.
    pub fn meta(&self) -> (r: String)
        ensures
            r@ == spec_bread_meta(*self),
    {
        match self {
            Bread::Baking { .. } => String::new(),
            Bread::Normal { mass } => {
                let mut s = u64_to_string(*mass as u64);
                proof {
                    reveal_strlit("g");
                }
                s.append("g");
                s
            },
        }
    }

    /// The item display color.
    pub fn color(&self) -> (r: Color)
        ensures
            r == spec_bread_color(*self),
    {
        match self {
            Bread::Baking { .. } => Color::Normal,
            Bread::Normal { .. } => Color::Magenta,
        }
    }

    /// Updates the bread by one tick: bake until the threshold, then finish
    /// with a rolled mass and a rolled tier.
    pub fn update(&mut self, this: &mut ItemState, rng: &mut RandomSource) -> (u: ItemUpdates)
        ensures
            final(rng).is_sequence() == old(rng).is_sequence(),
            old(rng).is_sequence() ==> (*final(self), final(this).tier, final(rng).remaining())
                == spec_bread_update(*old(self), old(this).tier, old(rng).remaining()),
            match *old(self) {
                Bread::Baking { tick } => {
                    if tick == BAKE_THRESHOLD {
                        (*final(self) matches Bread::Normal { mass } && MASS_MIN <= mass
                            <= MASS_MAX) && final(this).tier != ItemTier::LevelPlus
                    } else {
                        *final(self) == (Bread::Baking {
                            tick: if tick == 255 {
                                255u8
                            } else {
                                (tick + 1) as u8
                            },
                        }) && *final(this) == *old(this)
                    }
                },
                Bread::Normal { .. } => *final(self) == *old(self) && *final(this) == *old(this),
            },
    {
        let b = *self;
        match b {
            Bread::Baking { tick } => {
                if tick == BAKE_THRESHOLD {
                    let mass = rng.next_in_range(MASS_MIN as u32, MASS_MAX as u32);
                    *self = Bread::Normal { mass: mass as u8 };
                    this.tier = ItemTier::rand(ItemTier::Common, ItemTier::LevelA, rng);
                } else {
                    *self = Bread::Baking {
                        tick: if tick == 255 {
                            255
                        } else {
                            tick + 1
                        },
                    };
                }
            },
            Bread::Normal { .. } => {},
        }
        ItemUpdates::new()
    }
}

/// The bread, tier and roll sequence after `n` updates.
pub open spec fn bread_after_updates(b: Bread, tier: ItemTier, rolls: Seq<u64>, n: nat) -> (
    Bread,
    ItemTier,
    Seq<u64>,
)
    decreases n,
{
    if n == 0 {
        (b, tier, rolls)
    } else {
        let (b1, t1, r1) = bread_after_updates(b, tier, rolls, (n - 1) as nat);
        spec_bread_update(b1, t1, r1)
    }
}

/// Bread baking law, progress part: a bread created as `Baking` with its
/// counter at zero stays baking through the first [`BAKE_THRESHOLD`] updates,
/// its counter incremented by exactly one per call, and neither its tier nor
/// the roll sequence is touched.
pub proof fn lemma_bread_baking_progress(tier: ItemTier, rolls: Seq<u64>, n: nat)
    requires
        n <= BAKE_THRESHOLD,
    ensures
        bread_after_updates(Bread::Baking { tick: 0 }, tier, rolls, n) == (
            Bread::Baking { tick: n as u8 },
            tier,
            rolls,
        ),
    decreases n,
{
    if n > 0 {
        lemma_bread_baking_progress(tier, rolls, (n - 1) as nat);
    }
}

/// Bread baking law, completion part: exactly the update after the counter
/// reaches [`BAKE_THRESHOLD`] — the threshold-plus-first overall — turns the
/// bread into `Normal` with a mass within the configured bounds.
pub proof fn lemma_bread_baking_done(tier: ItemTier, rolls: Seq<u64>)
    ensures
        ({
            let (b2, t2, r2) = bread_after_updates(
                Bread::Baking { tick: 0 },
                tier,
                rolls,
                (BAKE_THRESHOLD + 1) as nat,
            );
            b2 matches Bread::Normal { mass } && MASS_MIN <= mass <= MASS_MAX
        }),
{
    lemma_bread_baking_progress(tier, rolls, BAKE_THRESHOLD as nat);
}

/// The display name of an item: dispatch over the closed variant set.
pub open spec fn spec_item_name(it: Item) -> Seq<char> {
    match it {
        Item::Bread(b) => spec_bread_name(b),
    }
}

/// The display meta of an item: dispatch over the closed variant set.
pub open spec fn spec_item_meta(it: Item) -> Seq<char> {
    match it {
        Item::Bread(b) => spec_bread_meta(b),
    }
}

/// The display color of an item: dispatch over the closed variant set.
pub open spec fn spec_item_color(it: Item) -> Color {
    match it {
        Item::Bread(b) => spec_bread_color(b),
    }
}

/// What one update does to an item and its tier: dispatch over the closed
/// variant set.
pub open spec fn spec_item_update(it: Item, tier: ItemTier, rolls: Seq<u64>) -> (Item, ItemTier, Seq<u64>) {
    match it {
        Item::Bread(b) => {
            let (b2, t2, r2) = spec_bread_update(b, tier, rolls);
            (Item::Bread(b2), t2, r2)
        },
    }
}

impl Item {
    /// The item name shown in the inventory panel.
    pub fn name(&self) -> (r: &'static str)
        ensures
            r@ == spec_item_name(*self),
    {
        match self {
            Item::Bread(b) => b.name(),
        }
    }

    /// The item meta shown after the name.
    pub fn meta(&self) -> (r: String)
        ensures
            r@ == spec_item_meta(*self),
    {
        match self {
            Item::Bread(b) => b.meta(),
        }
    }

    /// The item display color.
    pub fn color(&self) -> (r: Color)
        ensures
            r == spec_item_color(*self),
    {
        match self {
            Item::Bread(b) => b.color(),
        }
    }

    /// Updates the item by one tick.
    pub fn update(&mut self, this: &mut ItemState, rng: &mut RandomSource) -> (u: ItemUpdates)
        ensures
            final(rng).is_sequence() == old(rng).is_sequence(),
            old(rng).is_sequence() ==> (*final(self), final(this).tier, final(rng).remaining())
                == spec_item_update(*old(self), old(this).tier, old(rng).remaining()),
    {
        match self {
            Item::Bread(b) => b.update(this, rng),
        }
    }
}

} // verus!
