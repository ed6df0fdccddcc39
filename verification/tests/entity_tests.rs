use ppl_game::blocks::{Block, BlockUpdates, Generic, Wheat};
use ppl_game::items::{Bread, Item, ItemUpdates};
use ppl_game::player::{Player, PlayerInventory, PlayerLimits};
use ppl_game::rng::RandomSource;
use ppl_game::text::{pad_left, u64_to_string};
use ppl_game::things::{
    BlockData, BlockState, CollisionTy, ItemData, ItemState, ItemTier, PartialBlockState,
};
use ppl_game::ui::{BlockTy, Color, Point, TextOp};

fn empty_partial() -> PartialBlockState {
    PartialBlockState { pos: None, collision: None, ty: None }
}

#[test]
fn merge_overrides_present_fields() {
    let mut block = BlockState {
        ty: BlockTy::GrowingWheat,
        collision: CollisionTy::NoCollision,
        pos: Point(1, 1),
    };
    let partial = PartialBlockState { ty: Some(BlockTy::Wheat), ..Default::default() };
    block.merge_with(partial);
    assert_eq!(block.ty, BlockTy::Wheat);
    assert_eq!(block.pos, Point(1, 1));
    assert_eq!(block.collision, CollisionTy::NoCollision);
}

#[test]
fn merge_same_partial_twice_is_idempotent() {
    let mut once = BlockState {
        ty: BlockTy::Air,
        collision: CollisionTy::NoCollision,
        pos: Point(3, 4),
    };
    let p = PartialBlockState {
        pos: Some(Point(5, 6)),
        collision: Some(CollisionTy::Collision),
        ty: Some(BlockTy::Water),
    };
    let mut twice = once;
    once.merge_with(p);
    twice.merge_with(p);
    twice.merge_with(p);
    assert_eq!(once, twice);
}

#[test]
fn merge_empty_partial_is_identity() {
    let s = BlockState { ty: BlockTy::Wheat, collision: CollisionTy::CanUse, pos: Point(2, 1) };
    let mut merged = s;
    merged.merge_with(PartialBlockState::default());
    assert_eq!(merged, s);
}

#[test]
fn partial_default_has_every_field_absent() {
    let p = PartialBlockState::default();
    assert_eq!(p.pos, None);
    assert_eq!(p.collision, None);
    assert_eq!(p.ty, None);
}

#[test]
fn block_updates_builders() {
    let u = BlockUpdates::new();
    assert_eq!(u.this, empty_partial());
    assert!(u.other.is_empty());

    let d = PartialBlockState { ty: Some(BlockTy::Wall), ..Default::default() };
    let u = BlockUpdates::new().this(d);
    assert_eq!(u.this, d);

    let u = BlockUpdates::new().other(Point(1, 1), d).other(Point(2, 2), d);
    assert_eq!(u.other.len(), 2);
    assert_eq!(u.other[0], (Point(1, 1), d));
    assert_eq!(u.other[1], (Point(2, 2), d));

    let batch = vec![(Point(9, 9), d)];
    let u = BlockUpdates::new().other(Point(1, 1), d).others(batch);
    assert_eq!(u.other.len(), 2);
    assert_eq!(u.other[1], (Point(9, 9), d));

    let r: Result<BlockUpdates, ()> = BlockUpdates::new().ok();
    assert!(r.is_ok());

    let r: Result<ItemUpdates, ()> = ItemUpdates::new().ok();
    assert!(r.is_ok());
}

#[test]
fn wheat_update_counts_down_and_flips_on_last_call() {
    let mut w = Wheat { tick: 7 };
    for step in 1..=7u8 {
        let u = w.update();
        assert!(u.other.is_empty());
        assert_eq!(w.tick, 7 - step);
        if step < 7 {
            assert_eq!(u.this, empty_partial());
        } else {
            assert_eq!(
                u.this,
                PartialBlockState {
                    pos: None,
                    collision: Some(CollisionTy::CanUse),
                    ty: Some(BlockTy::Wheat),
                }
            );
        }
    }
    // fully grown wheat stays put
    let u = w.update();
    assert_eq!(w.tick, 0);
    assert_eq!(u.this, empty_partial());
}

#[test]
fn wheat_interact_harvests_once() {
    let mut w = Wheat::new();
    let mut player = Player::new();
    let mut inv = PlayerInventory::default();
    let limits = PlayerLimits::new();
    // first roll 0 reduces to the minimum yield of 1
    let mut rng = RandomSource::Sequence { values: vec![0] };

    let u = w.interact(&mut player, &mut inv, &limits, &mut rng);
    assert_eq!(w.tick, 7);
    assert_eq!(player.wheat, 1);
    assert_eq!(inv.items.len(), 1);
    assert_eq!(inv.items[0].state.tier, ItemTier::Common);
    assert_eq!(inv.items[0].item, Item::Bread(Bread::Baking { tick: 0 }));
    assert_eq!(
        u.this,
        PartialBlockState {
            pos: None,
            collision: Some(CollisionTy::NoCollision),
            ty: Some(BlockTy::GrowingWheat),
        }
    );

    // immediately afterwards the block is regrowing: a no-op
    let u2 = w.interact(&mut player, &mut inv, &limits, &mut rng);
    assert_eq!(w.tick, 7);
    assert_eq!(player.wheat, 1);
    assert_eq!(inv.items.len(), 1);
    assert_eq!(u2.this, empty_partial());
}

#[test]
fn wheat_interact_at_cap_is_noop() {
    let mut w = Wheat::new();
    let mut player = Player::new();
    player.wheat = 500;
    let mut inv = PlayerInventory::default();
    let limits = PlayerLimits::new();
    let mut rng = RandomSource::Sequence { values: vec![0] };
    let u = w.interact(&mut player, &mut inv, &limits, &mut rng);
    assert_eq!(w.tick, 0);
    assert_eq!(player.wheat, 500);
    assert!(inv.items.is_empty());
    assert_eq!(u.this, empty_partial());
    // the roll was not consumed
    assert_eq!(rng, RandomSource::Sequence { values: vec![0] });
}

#[test]
fn wheat_interact_clamps_at_limit() {
    let mut w = Wheat::new();
    let mut player = Player::new();
    player.wheat = 499;
    let mut inv = PlayerInventory::default();
    let limits = PlayerLimits::new();
    // roll 2 gives the maximum yield of 3, clamped to 500
    let mut rng = RandomSource::Sequence { values: vec![2] };
    w.interact(&mut player, &mut inv, &limits, &mut rng);
    assert_eq!(player.wheat, 500);
}

#[test]
fn generic_block_never_changes() {
    let mut b = Block::Generic(Generic);
    let u = b.update();
    assert_eq!(b, Block::Generic(Generic));
    assert_eq!(u.this, empty_partial());
    assert!(u.other.is_empty());
}

#[test]
fn bread_bakes_for_threshold_then_finishes() {
    let d = Bread::new();
    assert_eq!(d.item, Item::Bread(Bread::Baking { tick: 0 }));
    assert_eq!(d.state.tier, ItemTier::Common);

    let mut bread = Bread::Baking { tick: 0 };
    let mut state = ItemState::default();
    // mass roll 0 reduces to 5; tier roll 0 reduces to identifier 1: common
    let mut rng = RandomSource::Sequence { values: vec![0, 0] };
    for call in 1..=3u8 {
        bread.update(&mut state, &mut rng);
        assert_eq!(bread, Bread::Baking { tick: call });
        assert_eq!(state.tier, ItemTier::Common);
    }
    bread.update(&mut state, &mut rng);
    assert_eq!(bread, Bread::Normal { mass: 5 });
    assert_eq!(state.tier, ItemTier::Common);

    // a finished bread is terminal
    bread.update(&mut state, &mut rng);
    assert_eq!(bread, Bread::Normal { mass: 5 });
}

#[test]
fn bread_mass_stays_in_range() {
    let mut bread = Bread::Baking { tick: 3 };
    let mut state = ItemState::default();
    let mut rng = RandomSource::System;
    bread.update(&mut state, &mut rng);
    match bread {
        Bread::Normal { mass } => assert!((5..=75).contains(&mass)),
        _ => panic!("bread did not finish"),
    }
    assert_ne!(state.tier, ItemTier::LevelPlus);
}

#[test]
fn baking_counter_is_bounded() {
    let mut bread = Bread::Baking { tick: 255 };
    let mut state = ItemState::default();
    let mut rng = RandomSource::System;
    bread.update(&mut state, &mut rng);
    assert_eq!(bread, Bread::Baking { tick: 255 });
}

#[test]
fn bread_display() {
    let baking = Bread::Baking { tick: 1 };
    assert_eq!(baking.name(), "Baking bread");
    assert_eq!(baking.meta(), "");
    assert_eq!(baking.color(), Color::Normal);

    let done = Bread::Normal { mass: 42 };
    assert_eq!(done.name(), "Bread");
    assert_eq!(done.meta(), "42g");
    assert_eq!(done.color(), Color::Magenta);
}

#[test]
fn tier_bands() {
    assert_eq!(ItemTier::Common.rnd_minmax(), (1, 20));
    assert_eq!(ItemTier::LevelC.rnd_minmax(), (21, 35));
    assert_eq!(ItemTier::LevelB.rnd_minmax(), (36, 45));
    assert_eq!(ItemTier::LevelA.rnd_minmax(), (46, 50));
    assert_eq!(ItemTier::LevelPlus.rnd_minmax(), (51, 51));
}

#[test]
fn tier_from_identifier() {
    assert_eq!(ItemTier::rnd_get(1), ItemTier::Common);
    assert_eq!(ItemTier::rnd_get(20), ItemTier::Common);
    assert_eq!(ItemTier::rnd_get(21), ItemTier::LevelC);
    assert_eq!(ItemTier::rnd_get(35), ItemTier::LevelC);
    assert_eq!(ItemTier::rnd_get(36), ItemTier::LevelB);
    assert_eq!(ItemTier::rnd_get(45), ItemTier::LevelB);
    assert_eq!(ItemTier::rnd_get(46), ItemTier::LevelA);
    assert_eq!(ItemTier::rnd_get(50), ItemTier::LevelA);
    assert_eq!(ItemTier::rnd_get(51), ItemTier::LevelPlus);
}

#[test]
fn tier_rand_follows_sequence() {
    // identifiers run 1..=50 for common through level three; 1 + 20 % 50 = 21
    let mut rng = RandomSource::Sequence { values: vec![20] };
    let t = ItemTier::rand(ItemTier::Common, ItemTier::LevelA, &mut rng);
    assert_eq!(t, ItemTier::LevelC);
}

#[test]
fn tier_suffix_ops() {
    assert_eq!(ItemTier::Common.suffix(), vec![TextOp::SetColor(Color::Normal)]);
    assert_eq!(
        ItemTier::LevelC.suffix(),
        vec![TextOp::Put("I".to_owned()), TextOp::SetColor(Color::Normal)]
    );
    assert_eq!(
        ItemTier::LevelA.suffix(),
        vec![
            TextOp::SetColor(Color::RareItem),
            TextOp::Put("III".to_owned()),
            TextOp::SetColor(Color::Normal),
        ]
    );
    assert_eq!(
        ItemTier::LevelPlus.suffix(),
        vec![
            TextOp::SetColor(Color::SpecialItem),
            TextOp::Put("III+".to_owned()),
            TextOp::SetColor(Color::Normal),
        ]
    );
}

#[test]
fn decimal_rendering() {
    assert_eq!(u64_to_string(0), "0");
    assert_eq!(u64_to_string(7), "7");
    assert_eq!(u64_to_string(10), "10");
    assert_eq!(u64_to_string(500), "500");
    assert_eq!(u64_to_string(4294967295), "4294967295");
}

#[test]
fn padding() {
    assert_eq!(pad_left("1".to_owned(), 3), "  1");
    assert_eq!(pad_left("123".to_owned(), 3), "123");
    assert_eq!(pad_left("1234".to_owned(), 3), "1234");
    assert_eq!(pad_left("0".to_owned(), 4), "   0");
}

#[test]
fn sequence_source_is_deterministic_and_bounded() {
    let mut rng = RandomSource::Sequence { values: vec![7, 205] };
    assert_eq!(rng.next_in_range(0, 99), 7);
    // 205 % 100 = 5
    assert_eq!(rng.next_in_range(0, 99), 5);
    // exhausted: the lower bound
    assert_eq!(rng.next_in_range(3, 9), 3);
}

#[test]
fn system_source_stays_in_range() {
    let mut rng = RandomSource::System;
    // a pinned range leaves the generator no choice
    assert_eq!(rng.next_in_range(5, 5), 5);
    for _ in 0..50 {
        let v = rng.next_in_range(10, 12);
        assert!((10..=12).contains(&v));
    }
    // over enough draws a uniform coin shows both faces
    let mut seen = [false; 2];
    for _ in 0..200 {
        seen[rng.next_in_range(0, 1) as usize] = true;
    }
    assert!(seen[0] && seen[1]);
}

#[test]
fn player_and_limit_defaults() {
    let p = Player::new();
    assert_eq!(p.health, 10);
    assert_eq!(p.xp, 1);
    assert_eq!(p.gold, 0);
    assert_eq!(p.wheat, 0);
    assert_eq!(p.water, 0);
    assert_eq!(Player::default(), p);

    let l = PlayerLimits::new();
    assert_eq!(l.health, 10);
    assert_eq!(l.wheat, 500);
    assert_eq!(l.water, 4);
    let inv: Vec<ItemData> = Vec::new();
    let kept = PlayerLimits::new().with(&inv);
    assert_eq!(kept.wheat, l.wheat);

    assert!(PlayerInventory::default().items.is_empty());
}

#[test]
fn block_data_new_places_fields() {
    let b = BlockData::new(
        Point(4, 2),
        CollisionTy::Collision,
        BlockTy::Water,
        Block::Generic(Generic),
    );
    assert_eq!(b.state.pos, Point(4, 2));
    assert_eq!(b.state.collision, CollisionTy::Collision);
    assert_eq!(b.state.ty, BlockTy::Water);
    assert_eq!(b.block, Block::Generic(Generic));
}
