//! The game loop / turn controller: applies one player action at a time,
//! moving the player with boundary clamping and collision rejection, firing
//! exactly one random tick per accepted move, and producing the draw
//! commands and panel contents for a display layer to execute.

use vstd::prelude::*;

use crate::blocks::{YIELD_MAX, YIELD_MIN};
use crate::map::{
    positions_unique, spec_find_at, spec_interact_at, spec_ticked_block, spec_world_tick, GameMaps,
    TICK_CHANCE,
};
use crate::maps::{spec_farm, GameMap};
use crate::items::{
    spec_bread_item, spec_item_color, spec_item_meta, spec_item_name, spec_item_update,
};
use crate::player::{spec_default_limits, spec_new_player, Player, PlayerInventory};
use crate::rng::{seq_advance, seq_roll, RandomSource};
use crate::text::{dec_digits, pad_left, pad_left_chars, u64_to_string};
use crate::things::{spec_suffix_ops, BlockData, CollisionTy, ItemData, ItemState, ItemTier};
use crate::ui::{
    lemma_ops_view_concat, ops_view, BlockTy, CellDraw, Color, Point, TextOp, TextOpV,
};
use crate::{MAX_X, MAX_Y};
use vstd::string::StrSliceExecFns;
use vstd::string::StringExecFns;

verus! {

/// What the lore panel currently shows.
#[derive(Clone, Copy, PartialEq, Eq, Structural, Debug)]
pub enum LoreContents {
    /// Nothing to display.
    Nothing,
    /// The resource inventory.
    Inventory,
    /// The item list, by page.
    Items(u8),
    /// Custom content set by some game thing, kept indefinitely.
    CustomEndless,
    /// Custom content set by some game thing, erased once its countdown hits
    /// zero.
    Custom(u8),
}

/// The main game handle: player information and the lore panel selector.
#[derive(Clone, Copy, PartialEq, Eq, Structural, Debug)]
pub struct GameHandle {
    pub player: Player,
    pub lore: LoreContents,
}

/// An action the player can take.
#[derive(Clone, Copy, PartialEq, Eq, Structural, Debug)]
pub enum GameAction {
    /// Move one cell up (y decreases).
    MoveUp,
    /// Move one cell down (y increases).
    MoveDown,
    /// Move one cell left (x decreases).
    MoveLeft,
    /// Move one cell right (x increases).
    MoveRight,
    /// Interact with the block at the player's position.
    Interact,
}

/// One random tick over the first `n` inventory items: each consumes one
/// inclusion roll, and included items run their own update.
pub open spec fn spec_items_tick(items: Seq<ItemData>, rolls: Seq<u64>, n: int) -> (
    Seq<ItemData>,
    Seq<u64>,
)
    decreases n,
{
    if n <= 0 {
        (items, rolls)
    } else {
        let (its, rs) = spec_items_tick(items, rolls, n - 1);
        let roll = seq_roll(rs, 0, 99);
        let rs1 = seq_advance(rs);
        if roll < TICK_CHANCE {
            let (it2, t2, rs2) = spec_item_update(its[n - 1].item, its[n - 1].state.tier, rs1);
            (its.update(n - 1, ItemData { state: ItemState { tier: t2 }, item: it2 }), rs2)
        } else {
            (its, rs1)
        }
    }
}

/// What the lore selector becomes after one redraw: a finite custom content
/// counts down by one; everything else stays.
pub open spec fn spec_lore_next(lore: LoreContents) -> LoreContents {
    match lore {
        LoreContents::Custom(v) => if v == 0 {
            lore
        } else {
            LoreContents::Custom((v - 1) as u8)
        },
        _ => lore,
    }
}

/// The status-panel operations that show the player's health, experience and
/// gold.
pub open spec fn spec_player_info_ops(p: Player) -> Seq<TextOpV> {
    seq![
        TextOpV::SetColor(Color::GrowingWheat),
        TextOpV::Put("狐 "@),
        TextOpV::SetColor(Color::Health),
        TextOpV::Put(dec_digits(p.health as int) + " HP "@),
        TextOpV::SetColor(Color::XP),
        TextOpV::Put(pad_left_chars(dec_digits(p.xp as int), 3) + " XP "@),
        TextOpV::SetColor(Color::Gold),
        TextOpV::Put(pad_left_chars(dec_digits(p.gold as int), 4) + "g"@),
    ]
}

/// The lore-panel operations for the resource inventory: a headline, one
/// line per nonzero resource, and a color reset.
pub open spec fn spec_inventory_ops(player: Player) -> Seq<TextOpV> {
    seq![
        TextOpV::SetColor(Color::GrowingWheat),
        TextOpV::Put("INVENTORY"@),
        TextOpV::Newline,
    ] + (if player.wheat != 0 {
        seq![
            TextOpV::SetColor(Color::Gold),
            TextOpV::Put("Wheat ("@ + dec_digits(player.wheat as int) + ")"@),
            TextOpV::Newline,
        ]
    } else {
        Seq::empty()
    }) + (if player.water != 0 {
        seq![TextOpV::SetColor(Color::XP), TextOpV::Put("Bucket of water"@)] + (if player.water
            > 1 {
            seq![TextOpV::Put(" ("@ + dec_digits(player.water as int) + ")"@)]
        } else {
            Seq::empty()
        }) + seq![TextOpV::Newline]
    } else {
        Seq::empty()
    }) + seq![TextOpV::SetColor(Color::Normal)]
}

/// The lore-panel operations for one item-list line: its running number, its
/// colored name, the tier suffix for uncommon tiers, and its meta.
pub open spec fn spec_item_line_ops(j: int, it: ItemData) -> Seq<TextOpV> {
    seq![
        TextOpV::Put(dec_digits(j + 1) + ". "@),
        TextOpV::SetColor(spec_item_color(it.item)),
        TextOpV::Put(spec_item_name(it.item)),
    ] + (if it.state.tier != ItemTier::Common {
        seq![TextOpV::SetColor(Color::Normal), TextOpV::Put(" "@)] + spec_suffix_ops(
            it.state.tier,
        )
    } else {
        Seq::empty()
    }) + seq![TextOpV::SetColor(Color::Normal)] + (if spec_item_meta(it.item).len() > 0 {
        seq![TextOpV::Put(" ("@ + spec_item_meta(it.item) + ")"@)]
    } else {
        Seq::empty()
    }) + seq![TextOpV::Newline]
}

/// The first item index of an item-list page: nine items per page.
pub open spec fn page_start(page: u8) -> int {
    page as int * 9
}

/// One past the last item index an item-list page shows.
pub open spec fn page_end(len: int, page: u8) -> int {
    if page_start(page) >= len {
        page_start(page)
    } else if len - page_start(page) >= 9 {
        page_start(page) + 9
    } else {
        len
    }
}

/// The item-list lines for the items with indices from the page's start up
/// to `j`.
pub open spec fn spec_items_page_ops(items: Seq<ItemData>, page: u8, j: int) -> Seq<TextOpV>
    decreases j - page_start(page),
{
    if j <= page_start(page) {
        Seq::empty()
    } else {
        spec_items_page_ops(items, page, j - 1) + spec_item_line_ops(j - 1, items[j - 1])
    }
}

/// The lore-panel header of an item-list page.
pub open spec fn spec_items_header_ops(page: u8) -> Seq<TextOpV> {
    seq![
        TextOpV::Clear,
        TextOpV::SetColor(Color::GrowingWheat),
        TextOpV::Put("INVENTORY"@),
        TextOpV::SetColor(Color::Normal),
        TextOpV::Put(" page #"@ + dec_digits(page as int + 1)),
        TextOpV::Newline,
        TextOpV::Newline,
    ]
}

/// The whole lore-panel redraw: always a clear first, then whatever the
/// selector asks for.
pub open spec fn spec_lore_ops(lore: LoreContents, player: Player, items: Seq<ItemData>) -> Seq<
    TextOpV,
> {
    match lore {
        LoreContents::Nothing => seq![TextOpV::Clear],
        LoreContents::CustomEndless => seq![TextOpV::Clear],
        LoreContents::Custom(_) => seq![TextOpV::Clear],
        LoreContents::Inventory => seq![TextOpV::Clear] + spec_inventory_ops(player),
        LoreContents::Items(page) => spec_items_header_ops(page) + spec_items_page_ops(
            items,
            page,
            page_end(items.len() as int, page),
        ),
    }
}

/// The lore-panel operations for one item-list line.
fn item_line_ops(j: usize, it: &ItemData) -> (r: Vec<TextOp>)
    requires
        j < usize::MAX,
    ensures
        ops_view(r@) == spec_item_line_ops(j as int, *it),
{
    let mut r: Vec<TextOp> = Vec::new();
    let mut s = u64_to_string(j as u64 + 1);
    s.append(". ");
    r.push(TextOp::Put(s));
    r.push(TextOp::SetColor(it.item.color()));
    r.push(TextOp::Put(it.item.name().to_owned()));
    if it.state.tier != ItemTier::Common {
        r.push(TextOp::SetColor(Color::Normal));
        r.push(TextOp::Put(" ".to_owned()));
        let mut suf = it.state.tier.suffix();
        r.append(&mut suf);
    }
    r.push(TextOp::SetColor(Color::Normal));
    let meta = it.item.meta();
    if !meta.as_str().is_empty() {
        let mut s2 = " (".to_owned();
        s2.append(meta.as_str());
        s2.append(")");
        r.push(TextOp::Put(s2));
    }
    r.push(TextOp::Newline);
    proof {
        assert(ops_view(r@) =~= spec_item_line_ops(j as int, *it));
    }
    r
}

impl GameHandle {
    /// The status-panel operations that show the player's health, experience
    /// and gold.
    pub fn draw_player_info(&self) -> (r: Vec<TextOp>)
        ensures
            ops_view(r@) == spec_player_info_ops(self.player),
    {
        let mut r: Vec<TextOp> = Vec::new();
        r.push(TextOp::SetColor(Color::GrowingWheat));
        r.push(TextOp::Put("狐 ".to_owned()));
        r.push(TextOp::SetColor(Color::Health));
        let mut s1 = u64_to_string(self.player.health as u64);
        s1.append(" HP ");
        r.push(TextOp::Put(s1));
        r.push(TextOp::SetColor(Color::XP));
        let mut s2 = pad_left(u64_to_string(self.player.xp as u64), 3);
        s2.append(" XP ");
        r.push(TextOp::Put(s2));
        r.push(TextOp::SetColor(Color::Gold));
        let mut s3 = pad_left(u64_to_string(self.player.gold as u64), 4);
        s3.append("g");
        r.push(TextOp::Put(s3));
        proof {
            assert(ops_view(r@) =~= spec_player_info_ops(self.player));
        }
        r
    }

    /// The lore-panel redraw operations, and one step of the custom-content
    /// countdown.
    pub fn draw_lore(&mut self, inventory: &PlayerInventory) -> (r: Vec<TextOp>)
        ensures
            final(self).player == old(self).player,
            final(self).lore == spec_lore_next(old(self).lore),
            ops_view(r@) == spec_lore_ops(old(self).lore, old(self).player, inventory.items@),
    {
        let mut r: Vec<TextOp> = Vec::new();
        r.push(TextOp::Clear);
        match self.lore {
            LoreContents::Nothing | LoreContents::CustomEndless => {
                proof {
                    assert(ops_view(r@) =~= spec_lore_ops(
                        old(self).lore,
                        old(self).player,
                        inventory.items@,
                    ));
                }
            },
            LoreContents::Custom(v) => {
                if v != 0 {
                    self.lore = LoreContents::Custom(v - 1);
                }
                proof {
                    assert(ops_view(r@) =~= spec_lore_ops(
                        old(self).lore,
                        old(self).player,
                        inventory.items@,
                    ));
                }
            },
            LoreContents::Inventory => {
                r.push(TextOp::SetColor(Color::GrowingWheat));
                r.push(TextOp::Put("INVENTORY".to_owned()));
                r.push(TextOp::Newline);
                if self.player.wheat != 0 {
                    r.push(TextOp::SetColor(Color::Gold));
                    let mut s = "Wheat (".to_owned();
                    s.append(u64_to_string(self.player.wheat as u64).as_str());
                    s.append(")");
                    r.push(TextOp::Put(s));
                    r.push(TextOp::Newline);
                }
                if self.player.water != 0 {
                    r.push(TextOp::SetColor(Color::XP));
                    r.push(TextOp::Put("Bucket of water".to_owned()));
                    if self.player.water > 1 {
                        let mut s = " (".to_owned();
                        s.append(u64_to_string(self.player.water as u64).as_str());
                        s.append(")");
                        r.push(TextOp::Put(s));
                    }
                    r.push(TextOp::Newline);
                }
                r.push(TextOp::SetColor(Color::Normal));
                proof {
                    assert(ops_view(r@) =~= spec_lore_ops(
                        old(self).lore,
                        old(self).player,
                        inventory.items@,
                    ));
                }
            },
            LoreContents::Items(page) => {
                r.push(TextOp::SetColor(Color::GrowingWheat));
                r.push(TextOp::Put("INVENTORY".to_owned()));
                r.push(TextOp::SetColor(Color::Normal));
                let mut s = " page #".to_owned();
                s.append(u64_to_string(page as u64 + 1).as_str());
                r.push(TextOp::Put(s));
                r.push(TextOp::Newline);
                r.push(TextOp::Newline);
                proof {
                    assert(ops_view(r@) =~= spec_items_header_ops(page));
                }
                let len = inventory.items.len();
                let start = (page as usize) * 9;
                let end = if start >= len {
                    start
                } else if len - start >= 9 {
                    start + 9
                } else {
                    len
                };
                proof {
                    assert(end as int == page_end(inventory.items@.len() as int, page));
                }
                let mut j = start;
                while j < end
                    invariant
                        start as int == page_start(page),
                        start <= j <= end,
                        end as int == page_end(inventory.items@.len() as int, page),
                        end <= inventory.items@.len() || end == start,
                        ops_view(r@) == spec_items_header_ops(page) + spec_items_page_ops(
                            inventory.items@,
                            page,
                            j as int,
                        ),
                    decreases end - j,
                {
                    let mut line = item_line_ops(j, &inventory.items[j]);
                    proof {
                        lemma_ops_view_concat(r@, line@);
                    }
                    let ghost r_old = r@;
                    let ghost line_v = line@;
                    r.append(&mut line);
                    proof {
                        assert(r@ == r_old + line_v);
                        assert(spec_items_page_ops(inventory.items@, page, j + 1)
                            =~= spec_items_page_ops(inventory.items@, page, j as int)
                            + spec_item_line_ops(j as int, inventory.items@[j as int]));
                        assert(ops_view(r@) =~= spec_items_header_ops(page)
                            + spec_items_page_ops(inventory.items@, page, j + 1));
                    }
                    j = j + 1;
                }
            },
        }
        r
    }

    /// Toggles the resource inventory in the lore panel.
    pub fn toggle_inventory(&mut self)
        ensures
            final(self).player == old(self).player,
            final(self).lore == (if old(self).lore == LoreContents::Inventory {
                LoreContents::Nothing
            } else {
                LoreContents::Inventory
            }),
    {
        match self.lore {
            LoreContents::Inventory => self.lore = LoreContents::Nothing,
            _ => self.lore = LoreContents::Inventory,
        }
    }

    /// Shows the next (or first) page of the item list in the lore panel.
    pub fn toggle_items(&mut self)
        ensures
            final(self).player == old(self).player,
            final(self).lore == (match old(self).lore {
                LoreContents::Items(v) => LoreContents::Items(
                    if v == 255 {
                        255u8
                    } else {
                        (v + 1) as u8
                    },
                ),
                _ => LoreContents::Items(0),
            }),
    {
        match self.lore {
            LoreContents::Items(v) => self.lore = LoreContents::Items(
                if v == 255 {
                    255
                } else {
                    v + 1
                },
            ),
            _ => self.lore = LoreContents::Items(0),
        }
    }

    /// Does one random tick over all inventory items: each is included
    /// independently with [`TICK_CHANCE`] percent probability, and included
    /// items run their own update.
    pub fn do_random_tick(&mut self, inventory: &mut PlayerInventory, rng: &mut RandomSource)
        ensures
            *final(self) == *old(self),
            final(rng).is_sequence() == old(rng).is_sequence(),
            final(inventory).items@.len() == old(inventory).items@.len(),
            old(rng).is_sequence() ==> ({
                let (its, rs) = spec_items_tick(
                    old(inventory).items@,
                    old(rng).remaining(),
                    old(inventory).items@.len() as int,
                );
                final(inventory).items@ == its && final(rng).remaining() == rs
            }),
    {
        let ghost items0 = inventory.items@;
        let ghost rolls0 = rng.remaining();
        let ghost init_seq = rng.is_sequence();
        let mut i: usize = 0;
        while i < inventory.items.len()
            invariant
                i <= inventory.items@.len(),
                inventory.items@.len() == items0.len(),
                rng.is_sequence() == init_seq,
                forall|j: int| i <= j < items0.len() ==> #[trigger] inventory.items@[j] == items0[j],
                init_seq ==> ({
                    let (its, rs) = spec_items_tick(items0, rolls0, i as int);
                    inventory.items@ == its && rng.remaining() == rs
                }),
            decreases items0.len() - i,
        {
            let roll = rng.next_in_range(0, 99);
            if roll < TICK_CHANCE {
                let d = inventory.items[i];
                let mut item = d.item;
                let mut st = d.state;
                let _u = item.update(&mut st, rng);
                inventory.items[i] = ItemData { state: st, item };
            }
            i = i + 1;
        }
    }
}

/// The candidate cell of a move action: one step in the requested direction,
/// or nothing when the step would leave the map.
pub open spec fn spec_move_candidate(pos: Point, act: GameAction) -> Option<Point> {
    match act {
        GameAction::MoveUp => if pos.1 != 0 {
            Some(Point(pos.0, (pos.1 - 1) as u16))
        } else {
            None
        },
        GameAction::MoveDown => if pos.1 != MAX_Y {
            Some(Point(pos.0, (pos.1 + 1) as u16))
        } else {
            None
        },
        GameAction::MoveLeft => if pos.0 != 0 {
            Some(Point((pos.0 - 1) as u16, pos.1))
        } else {
            None
        },
        GameAction::MoveRight => if pos.0 != MAX_X {
            Some(Point((pos.0 + 1) as u16, pos.1))
        } else {
            None
        },
        GameAction::Interact => None,
    }
}

/// Whether the block at `p` (if any) rejects movement into its cell.
pub open spec fn spec_blocked(blocks: Seq<BlockData>, p: Point) -> bool {
    match spec_find_at(blocks, p) {
        Some(i) => blocks[i].state.collision == CollisionTy::Collision,
        None => false,
    }
}

/// Whether the block at `p` (if any) is flagged as interactable.
pub open spec fn spec_can_use_at(blocks: Seq<BlockData>, p: Point) -> bool {
    match spec_find_at(blocks, p) {
        Some(i) => blocks[i].state.collision == CollisionTy::CanUse,
        None => false,
    }
}

/// The glyph shown at `p`: the block there, or air.
pub open spec fn spec_ty_at(blocks: Seq<BlockData>, p: Point) -> BlockTy {
    match spec_find_at(blocks, p) {
        Some(i) => blocks[i].state.ty,
        None => BlockTy::Air,
    }
}

/// The status-panel operations after an action: a usable-here indicator when
/// the player stands on an interactable block, a clear otherwise.
pub open spec fn spec_status_ops(blocks: Seq<BlockData>, p: Point) -> Seq<TextOpV> {
    if spec_can_use_at(blocks, p) {
        seq![
            TextOpV::SetLine(1),
            TextOpV::SetColor(Color::Water),
            TextOpV::Put(" [can use]"@),
        ]
    } else {
        seq![TextOpV::Clear]
    }
}

/// Boundary clamp law: a move that would step over the map edge has no
/// candidate cell, so the action leaves the whole game state unchanged.
pub proof fn lemma_boundary_clamp(pos: Point, act: GameAction)
    requires
        match act {
            GameAction::MoveUp => pos.1 == 0,
            GameAction::MoveDown => pos.1 == MAX_Y,
            GameAction::MoveLeft => pos.0 == 0,
            GameAction::MoveRight => pos.0 == MAX_X,
            GameAction::Interact => false,
        },
    ensures
        spec_move_candidate(pos, act) is None,
{
}

/// Collision law: a block with the impassable collision kind at the
/// candidate cell makes the move attempt blocked, so the action leaves the
/// whole game state unchanged.
pub proof fn lemma_collision_blocks(blocks: Seq<BlockData>, i: int, p: Point)
    requires
        spec_find_at(blocks, p) == Some(i),
        0 <= i < blocks.len(),
        blocks[i].state.collision == CollisionTy::Collision,
    ensures
        spec_blocked(blocks, p),
{
}

/// One whole random tick: first over all blocks of the world, then over all
/// inventory items, threading the roll sequence through both.
pub open spec fn spec_game_tick(blocks: Seq<BlockData>, items: Seq<ItemData>, rolls: Seq<u64>) -> (
    Seq<BlockData>,
    Seq<ItemData>,
    Seq<u64>,
    Seq<CellDraw>,
) {
    let (bs, rs, rd) = spec_world_tick(blocks, rolls);
    let (its, rs2) = spec_items_tick(items, rs, items.len() as int);
    (bs, its, rs2, rd)
}

/// All cells of a full redraw: every block's glyph, then the player's.
pub open spec fn spec_redraw_all(blocks: Seq<BlockData>, ppos: Point) -> Seq<CellDraw> {
    blocks.map(|_i: int, b: BlockData| CellDraw { pos: b.state.pos, ty: b.state.ty }).push(
        CellDraw { pos: ppos, ty: BlockTy::Player },
    )
}

/// The current game: handle, inventory, player position, and the world.
#[derive(Clone, PartialEq, Eq, Debug)]
pub struct Game {
    pub handle: GameHandle,
    pub player_inventory: PlayerInventory,
    pub player_pos: Point,
    pub maps: GameMaps,
}

impl Game {
    /// Creates a new game with a fresh player on the default map.
    pub fn new() -> (r: Game)
        ensures
            r.handle.player == spec_new_player(),
            r.handle.lore == LoreContents::Nothing,
            r.player_pos == Point(0, 0),
            r.player_inventory.items@ == Seq::<ItemData>::empty(),
            r.maps.current_map == GameMap::Farm,
            r.maps.current_blocks() == spec_farm(),
    {
        Game {
            handle: GameHandle { player: Player::new(), lore: LoreContents::Nothing },
            player_pos: Point(0, 0),
            player_inventory: PlayerInventory { items: Vec::new() },
            maps: GameMaps::init(),
        }
    }

    /// The cells of a full map redraw: every block, then the player glyph.
    pub fn redraw_all(&self) -> (r: Vec<CellDraw>)
        ensures
            r@ == spec_redraw_all(self.maps.current_blocks(), self.player_pos),
    {
        let mut r: Vec<CellDraw> = Vec::new();
        let v = self.maps.get_current();
        let mut i: usize = 0;
        while i < v.len()
            invariant
                i <= v@.len(),
                v@ == self.maps.current_blocks(),
                r@.len() == i,
                forall|j: int|
                    0 <= j < i ==> #[trigger] r@[j] == (CellDraw {
                        pos: v@[j].state.pos,
                        ty: v@[j].state.ty,
                    }),
            decreases v@.len() - i,
        {
            let b = &v[i];
            r.push(CellDraw { pos: b.state.pos, ty: b.state.ty });
            i = i + 1;
        }
        r.push(CellDraw { pos: self.player_pos, ty: BlockTy::Player });
        proof {
            assert(r@ =~= spec_redraw_all(self.maps.current_blocks(), self.player_pos));
        }
        r
    }

    /// The lore-panel redraw operations (and one step of the custom-content
    /// countdown).
    pub fn draw_lore(&mut self) -> (r: Vec<TextOp>)
        ensures
            final(self).handle.player == old(self).handle.player,
            final(self).handle.lore == spec_lore_next(old(self).handle.lore),
            final(self).player_inventory == old(self).player_inventory,
            final(self).player_pos == old(self).player_pos,
            final(self).maps == old(self).maps,
            ops_view(r@) == spec_lore_ops(
                old(self).handle.lore,
                old(self).handle.player,
                old(self).player_inventory.items@,
            ),
    {
        self.handle.draw_lore(&self.player_inventory)
    }

    /// Does one whole random tick: all blocks of the world, then all
    /// inventory items. Returns the cells to redraw.
    pub fn do_random_tick(&mut self, rng: &mut RandomSource) -> (redraws: Vec<CellDraw>)
        ensures
            final(self).handle == old(self).handle,
            final(self).player_pos == old(self).player_pos,
            final(self).maps.current_map == old(self).maps.current_map,
            final(rng).is_sequence() == old(rng).is_sequence(),
            final(self).maps.current_blocks().len() == old(self).maps.current_blocks().len(),
            final(self).player_inventory.items@.len() == old(self).player_inventory.items@.len(),
            forall|j: int|
                0 <= j < old(self).maps.current_blocks().len()
                    ==> #[trigger] final(self).maps.current_blocks()[j].state.pos == old(
                    self,
                ).maps.current_blocks()[j].state.pos,
            forall|j: int|
                0 <= j < old(self).maps.current_blocks().len()
                    ==> #[trigger] final(self).maps.current_blocks()[j] == old(
                    self,
                ).maps.current_blocks()[j] || final(self).maps.current_blocks()[j]
                    == spec_ticked_block(old(self).maps.current_blocks()[j]),
            positions_unique(old(self).maps.current_blocks()) ==> positions_unique(
                final(self).maps.current_blocks(),
            ),
            old(rng).is_sequence() ==> ({
                let (bs, its, rs, rd) = spec_game_tick(
                    old(self).maps.current_blocks(),
                    old(self).player_inventory.items@,
                    old(rng).remaining(),
                );
                final(self).maps.current_blocks() == bs && final(self).player_inventory.items@
                    == its && final(rng).remaining() == rs && redraws@ == rd
            }),
    {
        let redraws = self.maps.do_random_tick(rng);
        self.handle.do_random_tick(&mut self.player_inventory, rng);
        redraws
    }

    /// The status-panel operations for the usable-here indicator at the
    /// player's current position.
    pub fn update_status_if_needed(&self) -> (r: Vec<TextOp>)
        ensures
            ops_view(r@) == spec_status_ops(self.maps.current_blocks(), self.player_pos),
    {
        let can_use = match self.maps.find_at(self.player_pos) {
            Some(b) => b.state.collision == CollisionTy::CanUse,
            None => false,
        };
        let mut r: Vec<TextOp> = Vec::new();
        if can_use {
            r.push(TextOp::SetLine(1));
            r.push(TextOp::SetColor(Color::Water));
            r.push(TextOp::Put(" [can use]".to_owned()));
        } else {
            r.push(TextOp::Clear);
        }
        proof {
            assert(ops_view(r@) =~= spec_status_ops(self.maps.current_blocks(), self.player_pos));
        }
        r
    }

    /// Performs one player action. A move is clamped at the map boundary and
    /// rejected by an impassable block — both silently, with no state change
    /// and no tick. An accepted move triggers exactly one random tick and
    /// returns the cells to redraw (the tick's, the vacated cell, the player
    /// glyph) together with the refreshed status indicator. An interaction
    /// delegates to the world at the player's position and triggers no tick.
    pub fn do_action(&mut self, act: GameAction, rng: &mut RandomSource) -> (out: (
        Vec<CellDraw>,
        Vec<TextOp>,
    ))
        requires
            old(self).player_pos.0 <= MAX_X,
            old(self).player_pos.1 <= MAX_Y,
        ensures
            final(self).player_pos.0 <= MAX_X,
            final(self).player_pos.1 <= MAX_Y,
            final(self).handle.lore == old(self).handle.lore,
            final(self).maps.current_map == old(self).maps.current_map,
            final(rng).is_sequence() == old(rng).is_sequence(),
            positions_unique(old(self).maps.current_blocks()) ==> positions_unique(
                final(self).maps.current_blocks(),
            ),
            act != GameAction::Interact ==> (match spec_move_candidate(
                old(self).player_pos,
                act,
            ) {
                None => *final(self) == *old(self) && *final(rng) == *old(rng) && out.0@.len()
                    == 0 && out.1@.len() == 0,
                Some(p) => {
                    if spec_blocked(old(self).maps.current_blocks(), p) {
                        *final(self) == *old(self) && *final(rng) == *old(rng) && out.0@.len()
                            == 0 && out.1@.len() == 0
                    } else {
                        final(self).player_pos == p && final(self).handle.player == old(
                            self,
                        ).handle.player && ops_view(out.1@) == spec_status_ops(
                            final(self).maps.current_blocks(),
                            p,
                        ) && (old(rng).is_sequence() ==> ({
                            let (bs, its, rs, rd) = spec_game_tick(
                                old(self).maps.current_blocks(),
                                old(self).player_inventory.items@,
                                old(rng).remaining(),
                            );
                            final(self).maps.current_blocks() == bs
                                && final(self).player_inventory.items@ == its
                                && final(rng).remaining() == rs && out.0@ == rd.push(
                                CellDraw {
                                    pos: old(self).player_pos,
                                    ty: spec_ty_at(bs, old(self).player_pos),
                                },
                            ).push(CellDraw { pos: p, ty: BlockTy::Player })
                        }))
                    }
                },
            }),
            act == GameAction::Interact ==> ({
                let np = final(self).handle.player;
                let op = old(self).handle.player;
                let cap = spec_default_limits().wheat;
                final(self).player_pos == old(self).player_pos && out.0@.len() == 0 && ops_view(
                    out.1@,
                ) == spec_status_ops(final(self).maps.current_blocks(), old(self).player_pos)
                    && np.health == op.health && np.xp == op.xp && np.gold == op.gold && np.water
                    == op.water && (np.wheat == op.wheat || (op.wheat + YIELD_MIN <= np.wheat
                    <= op.wheat + YIELD_MAX && np.wheat <= cap) || (np.wheat == cap && op.wheat
                    + YIELD_MAX >= cap)) && (final(self).player_inventory.items@ == old(
                    self,
                ).player_inventory.items@ || final(self).player_inventory.items@ == old(
                    self,
                ).player_inventory.items@.push(spec_bread_item()))
            }) && (old(rng).is_sequence() ==> ({
                let (bs, p2, inv2, r2) = spec_interact_at(
                    old(self).maps.current_blocks(),
                    old(self).player_pos,
                    old(self).handle.player,
                    old(self).player_inventory.items@,
                    old(rng).remaining(),
                );
                final(self).maps.current_blocks() == bs && final(self).handle.player == p2
                    && final(self).player_inventory.items@ == inv2 && final(rng).remaining()
                    == r2
            })),
    {
        match act {
            GameAction::Interact => {
                self.maps.interact_at(
                    self.player_pos,
                    &mut self.handle.player,
                    &mut self.player_inventory,
                    rng,
                );
                let status = self.update_status_if_needed();
                (Vec::new(), status)
            },
            _ => {
                let old_pos = self.player_pos;
                let cand: Option<Point> = match act {
                    GameAction::MoveUp => if old_pos.1 != 0 {
                        Some(Point(old_pos.0, old_pos.1 - 1))
                    } else {
                        None
                    },
                    GameAction::MoveDown => if old_pos.1 != MAX_Y {
                        Some(Point(old_pos.0, old_pos.1 + 1))
                    } else {
                        None
                    },
                    GameAction::MoveLeft => if old_pos.0 != 0 {
                        Some(Point(old_pos.0 - 1, old_pos.1))
                    } else {
                        None
                    },
                    GameAction::MoveRight => if old_pos.0 != MAX_X {
                        Some(Point(old_pos.0 + 1, old_pos.1))
                    } else {
                        None
                    },
                    GameAction::Interact => None,
                };
                match cand {
                    None => (Vec::new(), Vec::new()),
                    Some(pos) => {
                        let blocked = match self.maps.find_at(pos) {
                            Some(b) => b.state.collision == CollisionTy::Collision,
                            None => false,
                        };
                        if blocked {
                            (Vec::new(), Vec::new())
                        } else {
                            self.player_pos = pos;
                            let mut cells = self.do_random_tick(rng);
                            let old_ty = match self.maps.find_at(old_pos) {
                                Some(b) => b.state.ty,
                                None => BlockTy::Air,
                            };
                            cells.push(CellDraw { pos: old_pos, ty: old_ty });
                            cells.push(CellDraw { pos, ty: BlockTy::Player });
                            let status = self.update_status_if_needed();
                            (cells, status)
                        }
                    },
                }
            },
        }
    }
}

} // verus!
