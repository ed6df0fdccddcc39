use ppl_game::blocks::{Block, Wheat};
use ppl_game::game::{Game, GameAction, GameHandle, LoreContents};
use ppl_game::items::{Bread, Item};
use ppl_game::map::GameMaps;
use ppl_game::maps::GameMap;
use ppl_game::player::{Player, PlayerInventory};
use ppl_game::rng::RandomSource;
use ppl_game::things::{CollisionTy, ItemData, ItemState, ItemTier};
use ppl_game::ui::{BlockTy, CellDraw, Color, Point, TextOp};
use ppl_game::{MAX_X, MAX_Y};

/// Rolls that exclude every one of the farm's ten blocks from a tick.
fn no_blocks() -> Vec<u64> {
    vec![99; 10]
}

#[test]
fn farm_layout() {
    let maps = GameMaps::init();
    assert_eq!(maps.current_map, GameMap::Farm);
    assert_eq!(maps.farm.len(), 10);
    let first = &maps.farm[0];
    assert_eq!(first.state.pos, Point(1, 1));
    assert_eq!(first.state.collision, CollisionTy::CanUse);
    assert_eq!(first.state.ty, BlockTy::Wheat);
    assert_eq!(first.block, Block::Wheat(Wheat { tick: 0 }));
    let last = &maps.farm[9];
    assert_eq!(last.state.pos, Point(5, 2));
    assert_eq!(last.state.collision, CollisionTy::Collision);
    assert_eq!(last.state.ty, BlockTy::Water);
    assert_eq!(GameMap::Farm.init(), maps.farm);
    assert_eq!(GameMap::default(), GameMap::Farm);
    assert_eq!(maps.get_current(), &maps.farm);
}

#[test]
fn find_at_hits_and_misses() {
    let maps = GameMaps::init();
    let hit = maps.find_at(Point(3, 2)).expect("block at (3, 2)");
    assert_eq!(hit.state.ty, BlockTy::Water);
    assert!(maps.find_at(Point(0, 0)).is_none());
}

#[test]
fn find_at_mut_edits_the_world() {
    let mut maps = GameMaps::init();
    {
        let b = maps.find_at_mut(Point(1, 1)).expect("block at (1, 1)");
        b.state.ty = BlockTy::GrowingWheat;
    }
    assert_eq!(maps.find_at(Point(1, 1)).unwrap().state.ty, BlockTy::GrowingWheat);
    assert!(maps.find_at_mut(Point(0, 0)).is_none());
}

#[test]
fn world_tick_is_deterministic_for_equal_sources() {
    let mut a = GameMaps::init();
    let mut b = GameMaps::init();
    let rolls = vec![3, 88, 14, 200, 7, 99, 1, 55, 0, 42];
    let mut rng_a = RandomSource::Sequence { values: rolls.clone() };
    let mut rng_b = RandomSource::Sequence { values: rolls };
    let redraws_a = a.do_random_tick(&mut rng_a);
    let redraws_b = b.do_random_tick(&mut rng_b);
    assert_eq!(a, b);
    assert_eq!(redraws_a, redraws_b);
    assert_eq!(rng_a, rng_b);
}

#[test]
fn tick_includes_only_low_rolls() {
    let mut maps = GameMaps::init();
    // harvest the wheat at (1, 1) so its counter starts running
    let mut player = Player::new();
    let mut inv = PlayerInventory::default();
    let mut rng = RandomSource::Sequence { values: vec![0] };
    maps.interact_at(Point(1, 1), &mut player, &mut inv, &mut rng);
    assert_eq!(maps.find_at(Point(1, 1)).unwrap().state.ty, BlockTy::GrowingWheat);

    // only the first block rolls under the inclusion chance
    let mut rolls = vec![99u64; 10];
    rolls[0] = 14;
    let mut rng = RandomSource::Sequence { values: rolls };
    let redraws = maps.do_random_tick(&mut rng);
    assert_eq!(redraws, vec![CellDraw { pos: Point(1, 1), ty: BlockTy::GrowingWheat }]);
    assert_eq!(maps.find_at(Point(1, 1)).unwrap().block, Block::Wheat(Wheat { tick: 6 }));
}

#[test]
fn interact_at_harvests_and_missing_target_is_noop() {
    let mut maps = GameMaps::init();
    let mut player = Player::new();
    let mut inv = PlayerInventory::default();
    // yield roll 1 reduces to 1 + 1 % 3 = 2
    let mut rng = RandomSource::Sequence { values: vec![1] };
    maps.interact_at(Point(2, 1), &mut player, &mut inv, &mut rng);
    assert_eq!(player.wheat, 2);
    assert_eq!(inv.items.len(), 1);
    let b = maps.find_at(Point(2, 1)).unwrap();
    assert_eq!(b.state.collision, CollisionTy::NoCollision);
    assert_eq!(b.state.ty, BlockTy::GrowingWheat);
    assert_eq!(b.block, Block::Wheat(Wheat { tick: 7 }));

    // nothing lives at (9, 9): a no-op, and no roll is consumed
    let before = maps.clone();
    let mut rng = RandomSource::Sequence { values: vec![1] };
    maps.interact_at(Point(9, 9), &mut player, &mut inv, &mut rng);
    assert_eq!(maps, before);
    assert_eq!(player.wheat, 2);
    assert_eq!(inv.items.len(), 1);
    assert_eq!(rng, RandomSource::Sequence { values: vec![1] });
}

#[test]
fn boundary_clamp_never_moves() {
    let mut rng = RandomSource::Sequence { values: vec![0; 32] };

    let mut g = Game::new();
    g.player_pos = Point(0, 0);
    let before = g.clone();
    let (cells, status) = g.do_action(GameAction::MoveLeft, &mut rng);
    assert_eq!(g, before);
    assert!(cells.is_empty() && status.is_empty());
    let (cells, status) = g.do_action(GameAction::MoveUp, &mut rng);
    assert_eq!(g, before);
    assert!(cells.is_empty() && status.is_empty());

    g.player_pos = Point(MAX_X, MAX_Y);
    let before = g.clone();
    let (cells, status) = g.do_action(GameAction::MoveRight, &mut rng);
    assert_eq!(g, before);
    assert!(cells.is_empty() && status.is_empty());
    let (cells, status) = g.do_action(GameAction::MoveDown, &mut rng);
    assert_eq!(g, before);
    assert!(cells.is_empty() && status.is_empty());

    // the clamped attempts consumed no randomness
    assert_eq!(rng, RandomSource::Sequence { values: vec![0; 32] });
}

#[test]
fn collision_blocks_the_move() {
    let mut g = Game::new();
    g.player_pos = Point(1, 1);
    let before = g.clone();
    let mut rng = RandomSource::Sequence { values: vec![0; 32] };
    // (1, 2) holds impassable water
    let (cells, status) = g.do_action(GameAction::MoveDown, &mut rng);
    assert_eq!(g, before);
    assert_eq!(g.player_pos, Point(1, 1));
    assert!(cells.is_empty() && status.is_empty());
}

#[test]
fn accepted_move_ticks_once_and_redraws() {
    let mut g = Game::new();
    // no block is included in the tick: ten high rolls, no items yet
    let mut rng = RandomSource::Sequence { values: no_blocks() };
    let (cells, status) = g.do_action(GameAction::MoveRight, &mut rng);
    assert_eq!(g.player_pos, Point(1, 0));
    assert_eq!(
        cells,
        vec![
            CellDraw { pos: Point(0, 0), ty: BlockTy::Air },
            CellDraw { pos: Point(1, 0), ty: BlockTy::Player },
        ]
    );
    // nothing to use at (1, 0)
    assert_eq!(status, vec![TextOp::Clear]);
    // all ten inclusion rolls were consumed
    assert_eq!(rng, RandomSource::Sequence { values: vec![] });
}

#[test]
fn move_onto_wheat_reports_usable() {
    let mut g = Game::new();
    g.player_pos = Point(1, 0);
    let mut rng = RandomSource::Sequence { values: no_blocks() };
    let (cells, status) = g.do_action(GameAction::MoveDown, &mut rng);
    assert_eq!(g.player_pos, Point(1, 1));
    // the vacated cell redraws as air, the new cell as the player
    assert_eq!(cells[cells.len() - 2], CellDraw { pos: Point(1, 0), ty: BlockTy::Air });
    assert_eq!(cells[cells.len() - 1], CellDraw { pos: Point(1, 1), ty: BlockTy::Player });
    assert_eq!(
        status,
        vec![
            TextOp::SetLine(1),
            TextOp::SetColor(Color::Water),
            TextOp::Put(" [can use]".to_owned()),
        ]
    );
}

#[test]
fn interact_action_harvests_under_player() {
    let mut g = Game::new();
    g.player_pos = Point(1, 1);
    let mut rng = RandomSource::Sequence { values: vec![0] };
    let (cells, status) = g.do_action(GameAction::Interact, &mut rng);
    assert!(cells.is_empty());
    assert_eq!(g.handle.player.wheat, 1);
    assert_eq!(g.player_inventory.items.len(), 1);
    assert_eq!(g.player_inventory.items[0].item, Item::Bread(Bread::Baking { tick: 0 }));
    // the harvested block is no longer usable, so the status clears
    assert_eq!(status, vec![TextOp::Clear]);
    assert_eq!(g.player_pos, Point(1, 1));

    // a second interact right away changes nothing
    let mut rng2 = RandomSource::Sequence { values: vec![0] };
    let (_, _) = g.do_action(GameAction::Interact, &mut rng2);
    assert_eq!(g.handle.player.wheat, 1);
    assert_eq!(g.player_inventory.items.len(), 1);
    assert_eq!(rng2, RandomSource::Sequence { values: vec![0] });
}

#[test]
fn full_game_is_deterministic_for_equal_sources() {
    let rolls: Vec<u64> = (0..64).map(|i| (i * 37 + 11) % 256).collect();
    let acts = [
        GameAction::Interact,
        GameAction::MoveRight,
        GameAction::MoveDown,
        GameAction::MoveRight,
        GameAction::Interact,
        GameAction::MoveUp,
    ];
    let mut g1 = Game::new();
    let mut g2 = Game::new();
    let mut r1 = RandomSource::Sequence { values: rolls.clone() };
    let mut r2 = RandomSource::Sequence { values: rolls };
    for act in acts {
        let out1 = g1.do_action(act, &mut r1);
        let out2 = g2.do_action(act, &mut r2);
        assert_eq!(out1, out2);
    }
    assert_eq!(g1, g2);
    assert_eq!(r1, r2);
}

#[test]
fn item_tick_bakes_bread() {
    let handle = &mut GameHandle { player: Player::new(), lore: LoreContents::Nothing };
    let mut inv = PlayerInventory { items: vec![Bread::new()] };
    // four included ticks bake the bread through to its final state
    for _ in 0..3 {
        let mut rng = RandomSource::Sequence { values: vec![0] };
        handle.do_random_tick(&mut inv, &mut rng);
    }
    assert_eq!(inv.items[0].item, Item::Bread(Bread::Baking { tick: 3 }));
    // inclusion roll, mass roll 3 (= mass 8), tier roll 30 (= identifier 31)
    let mut rng = RandomSource::Sequence { values: vec![0, 3, 30] };
    handle.do_random_tick(&mut inv, &mut rng);
    assert_eq!(inv.items[0].item, Item::Bread(Bread::Normal { mass: 8 }));
    assert_eq!(inv.items[0].state.tier, ItemTier::LevelC);

    // an excluded item is untouched
    let before = inv.items[0];
    let mut rng = RandomSource::Sequence { values: vec![99] };
    handle.do_random_tick(&mut inv, &mut rng);
    assert_eq!(inv.items[0], before);
}

#[test]
fn redraw_all_lists_blocks_then_player() {
    let g = Game::new();
    let cells = g.redraw_all();
    assert_eq!(cells.len(), 11);
    assert_eq!(cells[0], CellDraw { pos: Point(1, 1), ty: BlockTy::Wheat });
    assert_eq!(cells[9], CellDraw { pos: Point(5, 2), ty: BlockTy::Water });
    assert_eq!(cells[10], CellDraw { pos: Point(0, 0), ty: BlockTy::Player });
}

#[test]
fn status_indicator_tracks_position() {
    let mut g = Game::new();
    assert_eq!(g.update_status_if_needed(), vec![TextOp::Clear]);
    g.player_pos = Point(1, 1);
    assert_eq!(
        g.update_status_if_needed(),
        vec![
            TextOp::SetLine(1),
            TextOp::SetColor(Color::Water),
            TextOp::Put(" [can use]".to_owned()),
        ]
    );
}

#[test]
fn toggles() {
    let mut h = GameHandle { player: Player::new(), lore: LoreContents::Nothing };
    h.toggle_inventory();
    assert_eq!(h.lore, LoreContents::Inventory);
    h.toggle_inventory();
    assert_eq!(h.lore, LoreContents::Nothing);

    h.toggle_items();
    assert_eq!(h.lore, LoreContents::Items(0));
    h.toggle_items();
    assert_eq!(h.lore, LoreContents::Items(1));
    h.lore = LoreContents::Items(255);
    h.toggle_items();
    assert_eq!(h.lore, LoreContents::Items(255));
}

#[test]
fn player_info_ops() {
    let h = GameHandle { player: Player::new(), lore: LoreContents::Nothing };
    assert_eq!(
        h.draw_player_info(),
        vec![
            TextOp::SetColor(Color::GrowingWheat),
            TextOp::Put("狐 ".to_owned()),
            TextOp::SetColor(Color::Health),
            TextOp::Put("10 HP ".to_owned()),
            TextOp::SetColor(Color::XP),
            TextOp::Put("  1 XP ".to_owned()),
            TextOp::SetColor(Color::Gold),
            TextOp::Put("   0g".to_owned()),
        ]
    );
}

#[test]
fn lore_nothing_and_custom_countdown() {
    let inv = PlayerInventory::default();
    let mut h = GameHandle { player: Player::new(), lore: LoreContents::Nothing };
    assert_eq!(h.draw_lore(&inv), vec![TextOp::Clear]);
    assert_eq!(h.lore, LoreContents::Nothing);

    h.lore = LoreContents::Custom(2);
    assert_eq!(h.draw_lore(&inv), vec![TextOp::Clear]);
    assert_eq!(h.lore, LoreContents::Custom(1));
    h.draw_lore(&inv);
    assert_eq!(h.lore, LoreContents::Custom(0));
    h.draw_lore(&inv);
    assert_eq!(h.lore, LoreContents::Custom(0));

    h.lore = LoreContents::CustomEndless;
    assert_eq!(h.draw_lore(&inv), vec![TextOp::Clear]);
    assert_eq!(h.lore, LoreContents::CustomEndless);
}

#[test]
fn lore_inventory_ops() {
    let inv = PlayerInventory::default();
    let mut player = Player::new();
    player.wheat = 5;
    player.water = 2;
    let mut h = GameHandle { player, lore: LoreContents::Inventory };
    assert_eq!(
        h.draw_lore(&inv),
        vec![
            TextOp::Clear,
            TextOp::SetColor(Color::GrowingWheat),
            TextOp::Put("INVENTORY".to_owned()),
            TextOp::Newline,
            TextOp::SetColor(Color::Gold),
            TextOp::Put("Wheat (5)".to_owned()),
            TextOp::Newline,
            TextOp::SetColor(Color::XP),
            TextOp::Put("Bucket of water".to_owned()),
            TextOp::Put(" (2)".to_owned()),
            TextOp::Newline,
            TextOp::SetColor(Color::Normal),
        ]
    );

    // zero resources hide their lines; one bucket drops the count
    let mut player = Player::new();
    player.water = 1;
    let mut h = GameHandle { player, lore: LoreContents::Inventory };
    assert_eq!(
        h.draw_lore(&inv),
        vec![
            TextOp::Clear,
            TextOp::SetColor(Color::GrowingWheat),
            TextOp::Put("INVENTORY".to_owned()),
            TextOp::Newline,
            TextOp::SetColor(Color::XP),
            TextOp::Put("Bucket of water".to_owned()),
            TextOp::Newline,
            TextOp::SetColor(Color::Normal),
        ]
    );
}

#[test]
fn lore_items_page_ops() {
    let inv = PlayerInventory {
        items: vec![
            Bread::new(),
            ItemData {
                state: ItemState { tier: ItemTier::LevelA },
                item: Item::Bread(Bread::Normal { mass: 42 }),
            },
        ],
    };
    let mut h = GameHandle { player: Player::new(), lore: LoreContents::Items(0) };
    assert_eq!(
        h.draw_lore(&inv),
        vec![
            TextOp::Clear,
            TextOp::SetColor(Color::GrowingWheat),
            TextOp::Put("INVENTORY".to_owned()),
            TextOp::SetColor(Color::Normal),
            TextOp::Put(" page #1".to_owned()),
            TextOp::Newline,
            TextOp::Newline,
            // item 1: a common baking bread without meta
            TextOp::Put("1. ".to_owned()),
            TextOp::SetColor(Color::Normal),
            TextOp::Put("Baking bread".to_owned()),
            TextOp::SetColor(Color::Normal),
            TextOp::Newline,
            // item 2: a rare finished bread with its mass
            TextOp::Put("2. ".to_owned()),
            TextOp::SetColor(Color::Magenta),
            TextOp::Put("Bread".to_owned()),
            TextOp::SetColor(Color::Normal),
            TextOp::Put(" ".to_owned()),
            TextOp::SetColor(Color::RareItem),
            TextOp::Put("III".to_owned()),
            TextOp::SetColor(Color::Normal),
            TextOp::SetColor(Color::Normal),
            TextOp::Put(" (42g)".to_owned()),
            TextOp::Newline,
        ]
    );

    // an empty page shows only the header
    let mut h = GameHandle { player: Player::new(), lore: LoreContents::Items(3) };
    assert_eq!(
        h.draw_lore(&inv),
        vec![
            TextOp::Clear,
            TextOp::SetColor(Color::GrowingWheat),
            TextOp::Put("INVENTORY".to_owned()),
            TextOp::SetColor(Color::Normal),
            TextOp::Put(" page #4".to_owned()),
            TextOp::Newline,
            TextOp::Newline,
        ]
    );
}

#[test]
fn game_new_defaults() {
    let g = Game::new();
    assert_eq!(g.player_pos, Point(0, 0));
    assert_eq!(g.handle.player, Player::new());
    assert_eq!(g.handle.lore, LoreContents::Nothing);
    assert!(g.player_inventory.items.is_empty());
    assert_eq!(g.maps.current_map, GameMap::Farm);
    assert_eq!(g.maps.farm.len(), 10);
}
