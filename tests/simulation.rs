use shooter_core::consts::{
    HEIGHT, PLAYER_BASE_SPEED, PLAYER_BULLET_HEIGHT, PLAYER_BULLET_SPEED, PLAYER_BULLET_WIDTH,
    PLAYER_HEIGHT, PLAYER_WIDTH, PLAYER_X, PLAYER_Y, STEP, WIDTH,
};
use shooter_core::debug::{DebugInfo, DebugTable};
use shooter_core::entity::{Arsenal, Entity, Sprite};
use shooter_core::flags::{EntityFlags, FlagSet};
use shooter_core::game::{mouse_to_aim, FrameInput, GameState, PlayerAction};
use shooter_core::motion::{
    clamp_to_arena, is_off_screen, isqrt, move_intent, step_along, Point, Rect,
};
use shooter_core::store::EntityStore;

fn bullet_at(x: i64, y: i64) -> Entity {
    Entity {
        bbox: Rect { x, y, w: PLAYER_BULLET_WIDTH, h: PLAYER_BULLET_HEIGHT },
        sprite: Sprite::Bullet,
        speed: PLAYER_BULLET_SPEED,
        arsenal: Arsenal::empty(),
        weapon_cooldown: 0,
        heading: Point { x: 0, y: -1 },
        flags: FlagSet::player_bullet(),
    }
}

fn enemy_at(x: i64, y: i64) -> Entity {
    Entity {
        bbox: Rect { x, y, w: PLAYER_BULLET_WIDTH, h: PLAYER_BULLET_HEIGHT },
        sprite: Sprite::Bullet,
        speed: PLAYER_BULLET_SPEED,
        arsenal: Arsenal::empty(),
        weapon_cooldown: 0,
        heading: Point { x: 0, y: -1 },
        flags: FlagSet::empty().with(EntityFlags::Enemy),
    }
}

#[test]
fn player_bullet_is_not_the_player() {
    let e = bullet_at(0, 0);
    assert!(e.is_player_bullet());
    assert!(!e.is_player());
    assert!(e.is_bullet());
    assert!(!e.is_enemy_bullet());
    assert!(!e.is_enemy());
    assert!(e.should_despawn_off_screen());
    let mut only = e;
    only.flags = FlagSet::empty().with(EntityFlags::Player).with(EntityFlags::Bullet);
    assert!(only.is_player_bullet());
    assert!(!only.is_player());
    assert!(!only.should_despawn_off_screen());
}

#[test]
fn role_predicates_of_plain_roles() {
    let p = GameState::new();
    let pe = p.player_entity();
    assert!(pe.is_player());
    assert!(!pe.is_bullet());
    assert!(!pe.is_player_bullet());
    let e = enemy_at(10, 10);
    assert!(e.is_enemy());
    assert!(!e.is_enemy_bullet());
    let mut eb = e;
    eb.flags = eb.flags.with(EntityFlags::Bullet);
    assert!(eb.is_enemy_bullet());
    assert!(!eb.is_enemy());
    assert_eq!(eb.pos(), Point { x: 10, y: 10 });
}

#[test]
fn flag_set_membership() {
    let f = FlagSet::empty().with(EntityFlags::Smart);
    assert!(f.contains(EntityFlags::Smart));
    assert!(!f.contains(EntityFlags::Player));
    assert_eq!(FlagSet::player_bullet().bits, 21);
    assert_eq!(FlagSet::player().bits, 1);
    assert_eq!(EntityFlags::DespawnOffScreen.mask(), 16);
}

#[test]
fn despawn_boundary_is_exclusive() {
    let mut store = EntityStore::new();
    let out = store.insert(bullet_at(WIDTH + 1, 100_000));
    let edge = store.insert(bullet_at(WIDTH, 100_000));
    store.tick_all(0);
    assert!(store.get(out).is_none());
    assert!(store.get(edge).is_some());
    assert_eq!(store.len(), 1);
}

#[test]
fn off_screen_on_every_side() {
    let w = PLAYER_BULLET_WIDTH;
    assert!(is_off_screen(Rect { x: -w - 1, y: 0, w, h: w }));
    assert!(!is_off_screen(Rect { x: -w, y: 0, w, h: w }));
    assert!(is_off_screen(Rect { x: 0, y: HEIGHT + 1, w, h: w }));
    assert!(!is_off_screen(Rect { x: 0, y: HEIGHT, w, h: w }));
    assert!(is_off_screen(Rect { x: 0, y: -w - 1, w, h: w }));
}

#[test]
fn entities_without_despawn_flag_stay() {
    let mut store = EntityStore::new();
    let k = store.insert(enemy_at(WIDTH * 3, -HEIGHT * 3));
    store.tick_all(STEP);
    assert_eq!(store.get(k), Some(enemy_at(WIDTH * 3, -HEIGHT * 3)));
}

#[test]
fn removal_leaves_the_complement() {
    let mut store = EntityStore::new();
    let mut kept = Vec::new();
    let mut gone = Vec::new();
    for i in 0..10i64 {
        if i % 3 == 0 {
            gone.push(store.insert(bullet_at(WIDTH + 1 + i, 0)));
        } else if i % 3 == 1 {
            kept.push(store.insert(bullet_at(i * 1000, 0)));
        } else {
            kept.push(store.insert(enemy_at(-WIDTH, 0)));
        }
    }
    store.tick_all(0);
    assert_eq!(store.len(), kept.len());
    for k in &kept {
        assert!(store.get(*k).is_some());
    }
    for k in &gone {
        assert!(store.get(*k).is_none());
    }
    let keys = store.keys();
    assert_eq!(keys.len(), kept.len());
    for k in keys {
        assert!(kept.contains(&k));
    }
}

#[test]
fn bullet_advances_along_heading() {
    let mut store = EntityStore::new();
    let mut b = bullet_at(100_000, 300_000);
    b.heading = Point { x: 3, y: 4 };
    let k = store.insert(b);
    store.tick_all(STEP);
    let e = store.get(k).unwrap();
    // 8000 toward (3, 4): 4800 right and 6400 down.
    assert_eq!(e.bbox.x, 104_800);
    assert_eq!(e.bbox.y, 306_400);
}

#[test]
fn aim_above_gives_heading_up() {
    let mut g = GameState::new();
    let p = g.player_entity();
    let cx = p.bbox.x + p.bbox.w / 2;
    let cy = p.bbox.y + p.bbox.h / 2;
    let k = g.spawn_bullet(Point { x: cx, y: cy - 50_000 }).unwrap();
    let b = g.store.get(k).unwrap();
    assert_eq!(b.heading.x, 0);
    assert!(b.heading.y < 0);
    assert_eq!(b.bbox.x, cx - PLAYER_BULLET_WIDTH / 2);
    assert_eq!(b.bbox.y, cy - PLAYER_BULLET_HEIGHT / 2);
}

#[test]
fn aim_at_center_gives_heading_down() {
    let mut g = GameState::new();
    let p = g.player_entity();
    let cx = p.bbox.x + p.bbox.w / 2;
    let cy = p.bbox.y + p.bbox.h / 2;
    let k = g.spawn_bullet(Point { x: cx, y: cy }).unwrap();
    assert_eq!(g.store.get(k).unwrap().heading, Point { x: 0, y: 1 });
}

#[test]
fn attack_frame_spawns_one_bullet_heading_down() {
    let mut g = GameState::new();
    let p = g.player_entity();
    let cx = p.bbox.x + p.bbox.w / 2;
    let cy = p.bbox.y + p.bbox.h / 2;
    let input = FrameInput::none().with(PlayerAction::Attack, true);
    let k = g.simulate_frame(input, Point { x: cx, y: cy + 10_000 }, STEP).unwrap();
    assert_eq!(g.store.len(), 2);
    let b = g.store.get(k).unwrap();
    assert_eq!(
        b.flags,
        FlagSet::empty()
            .with(EntityFlags::Player)
            .with(EntityFlags::Bullet)
            .with(EntityFlags::DespawnOffScreen)
    );
    assert_eq!(b.heading.x, 0);
    assert!(b.heading.y > 0);
    assert_eq!(b.bbox.x, cx - PLAYER_BULLET_WIDTH / 2);
    assert_eq!(b.bbox.y, cy - PLAYER_BULLET_HEIGHT / 2 + PLAYER_BULLET_SPEED);
    let angle = (b.heading.x as f64).atan2(-(b.heading.y as f64));
    assert!((angle - std::f64::consts::PI).abs() < 1e-12);
    assert_eq!(g.player_entity(), p);
}

#[test]
fn frame_without_attack_spawns_nothing() {
    let mut g = GameState::new();
    let r = g.simulate_frame(FrameInput::none(), Point { x: 0, y: 0 }, STEP);
    assert!(r.is_none());
    assert_eq!(g.store.len(), 1);
}

#[test]
fn axis_step_has_full_length() {
    assert_eq!(step_along(1, 0, 6000), (6000, 0));
    assert_eq!(step_along(0, -1, 6000), (0, -6000));
    let mut g = GameState::new();
    g.move_player(FrameInput::none().with(PlayerAction::MoveLeft, true), STEP);
    assert_eq!(g.player_entity().bbox.x, PLAYER_X - PLAYER_BASE_SPEED);
}

#[test]
fn diagonal_step_is_not_faster() {
    let (dx, dy) = step_along(1, 1, 6000);
    // 6000 / sqrt(2) = 4242.64...
    assert_eq!((dx, dy), (4242, 4242));
    let len2 = dx * dx + dy * dy;
    assert!(len2 <= 6000 * 6000);
    assert!((dx + 1) * (dx + 1) + (dy + 1) * (dy + 1) > 6000 * 6000);
    let mut g = GameState::new();
    let input = FrameInput::none()
        .with(PlayerAction::MoveLeft, true)
        .with(PlayerAction::MoveUp, true);
    g.move_player(input, STEP);
    let p = g.player_entity();
    assert_eq!(p.bbox.x, PLAYER_X - 4242);
    assert_eq!(p.bbox.y, PLAYER_Y - 4242);
}

#[test]
fn opposite_intents_resolve() {
    assert_eq!(move_intent(true, true, true, true), (1, 1));
    assert_eq!(move_intent(true, false, true, false), (-1, -1));
    assert_eq!(move_intent(false, false, false, false), (0, 0));
}

#[test]
fn player_is_clamped_into_arena() {
    let r = clamp_to_arena(Rect { x: -5000, y: 999_999, w: PLAYER_WIDTH, h: PLAYER_HEIGHT });
    assert_eq!(r, Rect { x: 0, y: HEIGHT - PLAYER_HEIGHT, w: PLAYER_WIDTH, h: PLAYER_HEIGHT });
    let r = clamp_to_arena(Rect { x: 900_000, y: -1, w: PLAYER_WIDTH, h: PLAYER_HEIGHT });
    assert_eq!(r, Rect { x: WIDTH - PLAYER_WIDTH, y: 0, w: PLAYER_WIDTH, h: PLAYER_HEIGHT });
    let mut g = GameState::new();
    g.move_player(FrameInput::none().with(PlayerAction::MoveDown, true), 100 * STEP);
    assert_eq!(g.player_entity().bbox.y, HEIGHT - PLAYER_HEIGHT);
}

#[test]
fn integer_square_roots() {
    assert_eq!(isqrt(0), 0);
    assert_eq!(isqrt(1), 1);
    assert_eq!(isqrt(15), 3);
    assert_eq!(isqrt(16), 4);
    assert_eq!(isqrt(18_000_000), 4242);
}

#[test]
fn aim_is_the_pointer() {
    let g = GameState::new();
    let p = g.player_entity();
    assert_eq!(mouse_to_aim(&p, Point { x: 12, y: -7 }), Point { x: 12, y: -7 });
}

#[test]
fn frame_input_actions() {
    let i = FrameInput::none().with(PlayerAction::Dash, true);
    assert!(i.active(PlayerAction::Dash));
    assert!(!i.active(PlayerAction::Attack));
    let i = i.with(PlayerAction::Dash, false);
    assert!(!i.active(PlayerAction::Dash));
}

#[test]
fn debug_table_shows_non_blank_lines_in_order() {
    let mut t = DebugTable::new();
    assert!(t.visible().is_empty());
    t.set(DebugInfo::Entities, "Entities: 2".to_string());
    t.set(DebugInfo::DebugModeNotice, "notice".to_string());
    t.set(DebugInfo::Fps, "   ".to_string());
    assert_eq!(t.visible(), vec![DebugInfo::DebugModeNotice, DebugInfo::Entities]);
    assert_eq!(t.get(DebugInfo::Entities), "Entities: 2");
    assert_eq!(t.get(DebugInfo::Player), "");
}

#[test]
fn debug_slots_round_trip() {
    assert_eq!(DebugInfo::Moving.index(), 9);
    for i in 0..10usize {
        assert_eq!(DebugInfo::from_index(i).index(), i);
    }
}

#[test]
fn new_game_holds_the_player() {
    let g = GameState::new();
    assert_eq!(g.store.len(), 1);
    let p = g.player_entity();
    assert_eq!(p.bbox, Rect { x: PLAYER_X, y: PLAYER_Y, w: PLAYER_WIDTH, h: PLAYER_HEIGHT });
    assert_eq!(p.speed, PLAYER_BASE_SPEED);
    assert_eq!(p.arsenal.bullet_shooter.unwrap().ammo, 9000);
    assert_eq!(g.store.keys(), vec![g.player]);
}
