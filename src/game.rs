use vstd::prelude::*;
use slotmap::DefaultKey;
use crate::consts::{
    HEIGHT, MAX_DT, MAX_SPEED, PLAYER_AMMO, PLAYER_BASE_SPEED, PLAYER_BULLET_HEIGHT, PLAYER_BULLET_SPEED,
    PLAYER_BULLET_WIDTH, PLAYER_HEIGHT, PLAYER_WIDTH, PLAYER_X, PLAYER_Y, STEP, WIDTH,
};
use crate::entity::{travel, Arsenal, Entity, Sprite, Weapon};
use crate::flags::{EntityFlags, FlagSet};
use crate::motion::{
    clamp_spec, clamp_to_arena, component_spec, intent_x, intent_y, move_intent, step_along,
    Point, Rect, MAX_STEP,
};
use crate::store::{retained, EntityStore};

verus! {

/// The actions a player can ask for.
#[derive(Clone, Copy, Debug, PartialEq, Eq, Structural)]
pub enum PlayerAction {
    MoveLeft,
    MoveRight,
    MoveUp,
    MoveDown,
    Dash,
    Attack,
}

/// Which actions are active during one frame. For the moves this means
/// "held"; for `Attack` it means that a shot was asked for this frame.
#[derive(Clone, Copy, Debug, PartialEq, Eq, Structural)]
pub struct FrameInput {
    pub move_left: bool,
    pub move_right: bool,
    pub move_up: bool,
    pub move_down: bool,
    pub dash: bool,
    pub attack: bool,
}

impl FrameInput {
    pub open spec fn active_spec(self, a: PlayerAction) -> bool {
        match a {
            PlayerAction::MoveLeft => self.move_left,
            PlayerAction::MoveRight => self.move_right,
            PlayerAction::MoveUp => self.move_up,
            PlayerAction::MoveDown => self.move_down,
            PlayerAction::Dash => self.dash,
            PlayerAction::Attack => self.attack,
        }
    }

    /// No action active.
    pub fn none() -> (r: FrameInput)
        ensures
            forall|a: PlayerAction| !r.active_spec(a),
    {
        FrameInput {
            move_left: false,
            move_right: false,
            move_up: false,
            move_down: false,
            dash: false,
            attack: false,
        }
    }

    /// This input with action `a` active or not, as `on` says.
    pub fn with(self, a: PlayerAction, on: bool) -> (r: FrameInput)
        ensures
            forall|b: PlayerAction| #[trigger]
                r.active_spec(b) == if b == a {
                    on
                } else {
                    self.active_spec(b)
                },
    {
        let mut r = self;
        match a {
            PlayerAction::MoveLeft => r.move_left = on,
            PlayerAction::MoveRight => r.move_right = on,
            PlayerAction::MoveUp => r.move_up = on,
            PlayerAction::MoveDown => r.move_down = on,
            PlayerAction::Dash => r.dash = on,
            PlayerAction::Attack => r.attack = on,
        }
        r
    }

    pub fn active(&self, a: PlayerAction) -> (r: bool)
        ensures
            r == self.active_spec(a),
    {
        match a {
            PlayerAction::MoveLeft => self.move_left,
            PlayerAction::MoveRight => self.move_right,
            PlayerAction::MoveUp => self.move_up,
            PlayerAction::MoveDown => self.move_down,
            PlayerAction::Dash => self.dash,
            PlayerAction::Attack => self.attack,
        }
    }
}

/// Largest coordinate of an aim point.
pub const AIM_LIMIT: i64 = 0x800_0000;

/// The point the player aims at, from the pointer's position. For now the
/// pointer itself.
pub fn mouse_to_aim(player: &Entity, mouse: Point) -> (r: Point)
    ensures
        r == mouse,
{
    mouse
}

/// The player's box after one frame of input `input` lasting `dt` milli-steps:
/// moved by a step of length `travel(speed, dt)` toward the intent, when there
/// is one, then clamped into the arena.
pub open spec fn moved_player(p: Entity, input: FrameInput, dt: int) -> Entity {
    let sx = intent_x(input.move_left, input.move_right);
    let sy = intent_y(input.move_up, input.move_down);
    let s = travel(p.speed as int, dt);
    let x = if sx != 0 || sy != 0 {
        p.bbox.x + component_spec(sx, sy, s)
    } else {
        p.bbox.x as int
    };
    let y = if sx != 0 || sy != 0 {
        p.bbox.y + component_spec(sy, sx, s)
    } else {
        p.bbox.y as int
    };
    Entity {
        bbox: Rect {
            x: clamp_spec(x, 0, WIDTH - p.bbox.w) as i64,
            y: clamp_spec(y, 0, HEIGHT - p.bbox.h) as i64,
            ..p.bbox
        },
        ..p
    }
}

/// The heading from the center of `p`'s box toward `aim`. Aiming at the
/// center itself gives "down", as `atan2(0, -0) = π` does.
pub open spec fn aim_heading(p: Entity, aim: Point) -> Point {
    let hx = aim.x - (p.bbox.x + p.bbox.w / 2);
    let hy = aim.y - (p.bbox.y + p.bbox.h / 2);
    if hx == 0 && hy == 0 {
        Point { x: 0, y: 1 }
    } else {
        Point { x: hx as i64, y: hy as i64 }
    }
}

/// The bullet the player `p` fires toward `aim`: centered on `p`'s box.
pub open spec fn bullet_spec(p: Entity, aim: Point) -> Entity {
    Entity {
        bbox: Rect {
            x: (p.bbox.x + p.bbox.w / 2 - PLAYER_BULLET_WIDTH / 2) as i64,
            y: (p.bbox.y + p.bbox.h / 2 - PLAYER_BULLET_HEIGHT / 2) as i64,
            w: PLAYER_BULLET_WIDTH,
            h: PLAYER_BULLET_HEIGHT,
        },
        sprite: Sprite::Bullet,
        speed: PLAYER_BULLET_SPEED,
        arsenal: Arsenal { bullet_shooter: None },
        weapon_cooldown: 0,
        heading: aim_heading(p, aim),
        flags: FlagSet { bits: 21 },
    }
}

/// Aiming straight above the center of the player's box gives the heading
/// "up", that is rotation 0; straight below gives "down", rotation π.
pub proof fn lemma_vertical_aim(p: Entity, aim: Point)
    requires
        p.wf(),
        aim.x == p.bbox.x + p.bbox.w / 2,
        -AIM_LIMIT <= aim.y <= AIM_LIMIT,
    ensures
        aim.y < p.bbox.y + p.bbox.h / 2 ==> aim_heading(p, aim).x == 0 && aim_heading(p, aim).y
            < 0,
        aim.y > p.bbox.y + p.bbox.h / 2 ==> aim_heading(p, aim).x == 0 && aim_heading(p, aim).y
            > 0,
{
}

/// Room for one more entity in a store.
pub const STORE_ROOM: usize = 0xffff_fffe;

/// The world of one game: the entity store and the key of the player in it.
pub struct GameState {
    pub store: EntityStore,
    pub player: DefaultKey,
}

/// The tags a freshly fired player bullet carries.
pub proof fn lemma_bullet_flags(p: Entity, aim: Point)
    ensures
        bullet_spec(p, aim).flags@ == set![
            EntityFlags::Player,
            EntityFlags::Bullet,
            EntityFlags::DespawnOffScreen,
        ],
{
    let f = bullet_spec(p, aim).flags;
    assert forall|g: EntityFlags| f.has(g) == (g == EntityFlags::Player || g
        == EntityFlags::Bullet || g == EntityFlags::DespawnOffScreen) by {
        let b: u8 = 21;
        assert(b & 1 != 0 && b & 2 == 0 && b & 4 != 0 && b & 8 == 0 && b & 16 != 0)
            by (bit_vector)
            requires b == 21u8;
    }
    assert(f@ =~= set![EntityFlags::Player, EntityFlags::Bullet, EntityFlags::DespawnOffScreen]);
}

impl GameState {
    pub open spec fn player_wf(p: Entity) -> bool {
        &&& p.wf()
        &&& p.bbox.w <= WIDTH
        &&& p.bbox.h <= HEIGHT
        &&& 0 <= p.bbox.x <= WIDTH
        &&& 0 <= p.bbox.y <= HEIGHT
        &&& !p.flags.has(EntityFlags::Bullet)
    }

    /// The store is well formed and holds the player, a non-bullet inside
    /// the arena.
    pub open spec fn wf(&self) -> bool {
        &&& self.store.wf()
        &&& self.store@.contains_key(self.player)
        &&& Self::player_wf(self.store@[self.player])
    }

    /// A store holding the player alone, at its starting place.
    pub fn new() -> (r: GameState)
        ensures
            r.wf(),
            r.store@.dom() == set![r.player],
            r.store@[r.player] == (Entity {
                bbox: Rect { x: PLAYER_X, y: PLAYER_Y, w: PLAYER_WIDTH, h: PLAYER_HEIGHT },
                sprite: Sprite::Player,
                speed: PLAYER_BASE_SPEED,
                arsenal: Arsenal { bullet_shooter: Some(Weapon { ammo: PLAYER_AMMO }) },
                weapon_cooldown: 0,
                heading: Point { x: 0, y: -1i64 },
                flags: r.store@[r.player].flags,
            }),
            r.store@[r.player].flags@ == set![EntityFlags::Player],
    {
        let mut store = EntityStore::new();
        let flags = FlagSet::player();
        let p = Entity {
            bbox: Rect { x: PLAYER_X, y: PLAYER_Y, w: PLAYER_WIDTH, h: PLAYER_HEIGHT },
            sprite: Sprite::Player,
            speed: PLAYER_BASE_SPEED,
            arsenal: Arsenal { bullet_shooter: Some(Weapon { ammo: PLAYER_AMMO }) },
            weapon_cooldown: 0,
            heading: Point { x: 0, y: -1 },
            flags,
        };
        assert(!flags.has(EntityFlags::Bullet)) by {
            assert(!flags@.contains(EntityFlags::Bullet));
        }
        let player = store.insert(p);
        assert(store@.dom() =~= set![player]);
        GameState { store, player }
    }

    /// The player entity.
    pub fn player_entity(&self) -> (r: Entity)
        requires
            self.wf(),
        ensures
            r == self.store@[self.player],
    {
        self.store.get(self.player).unwrap()
    }

    /// Moves the player by one frame of input `input` lasting `dt`
    /// milli-steps, then clamps it into the arena.
    pub fn move_player(&mut self, input: FrameInput, dt: u64)
        requires
            old(self).wf(),
            dt <= MAX_DT,
        ensures
            final(self).wf(),
            final(self).player == old(self).player,
            final(self).store@ == old(self).store@.insert(
                old(self).player,
                moved_player(old(self).store@[old(self).player], input, dt as int),
            ),
            0 <= final(self).store@[final(self).player].bbox.x <= WIDTH
                - final(self).store@[final(self).player].bbox.w,
            0 <= final(self).store@[final(self).player].bbox.y <= HEIGHT
                - final(self).store@[final(self).player].bbox.h,
    {
        let mut p = self.player_entity();
        let (sx, sy) = move_intent(input.move_left, input.move_right, input.move_up, input.move_down);
        if sx != 0 || sy != 0 {
            assert(p.speed * dt <= MAX_SPEED * MAX_DT) by (nonlinear_arith)
                requires 0 <= p.speed <= MAX_SPEED, dt <= MAX_DT;
            let s: i64 = ((p.speed as u64 * dt) / STEP) as i64;
            assert(s <= MAX_STEP);
            let (dx, dy) = step_along(sx, sy, s);
            p.bbox.x = p.bbox.x + dx;
            p.bbox.y = p.bbox.y + dy;
        }
        p.bbox = clamp_to_arena(p.bbox);
        self.store.set(self.player, p);
    }

    /// Fires a bullet from the player toward `aim`, unless the store is full.
    /// Returns the bullet's key.
    pub fn spawn_bullet(&mut self, aim: Point) -> (r: Option<DefaultKey>)
        requires
            old(self).wf(),
            -AIM_LIMIT <= aim.x <= AIM_LIMIT,
            -AIM_LIMIT <= aim.y <= AIM_LIMIT,
        ensures
            final(self).wf(),
            final(self).player == old(self).player,
            r is Some <==> old(self).store@.len() < STORE_ROOM,
            match r {
                Some(k) => !old(self).store@.contains_key(k) && final(self).store@ == old(
                    self,
                ).store@.insert(k, bullet_spec(old(self).store@[old(self).player], aim)),
                None => final(self).store@ == old(self).store@,
            },
    {
        let p = self.player_entity();
        if self.store.len() >= STORE_ROOM {
            return None;
        }
        let cx = p.bbox.x + p.bbox.w / 2;
        let cy = p.bbox.y + p.bbox.h / 2;
        let mut hx = aim.x - cx;
        let mut hy = aim.y - cy;
        if hx == 0 && hy == 0 {
            hy = 1;
        }
        let b = Entity {
            bbox: Rect {
                x: cx - PLAYER_BULLET_WIDTH / 2,
                y: cy - PLAYER_BULLET_HEIGHT / 2,
                w: PLAYER_BULLET_WIDTH,
                h: PLAYER_BULLET_HEIGHT,
            },
            sprite: Sprite::Bullet,
            speed: PLAYER_BULLET_SPEED,
            arsenal: Arsenal::empty(),
            weapon_cooldown: 0,
            heading: Point { x: hx, y: hy },
            flags: FlagSet::player_bullet(),
        };
        let k = self.store.insert(b);
        Some(k)
    }

    /// One frame of simulation: the player moves by `input`, a bullet is
    /// fired toward `aim` when `input` asks for one (and the store has
    /// room), then every entity is ticked by `dt` milli-steps and those that
    /// left the arena for good are removed. Returns the fired bullet's key.
    pub fn simulate_frame(&mut self, input: FrameInput, aim: Point, dt: u64) -> (r: Option<
        DefaultKey,
    >)
        requires
            old(self).wf(),
            -AIM_LIMIT <= aim.x <= AIM_LIMIT,
            -AIM_LIMIT <= aim.y <= AIM_LIMIT,
            dt <= MAX_DT,
        ensures
            final(self).wf(),
            final(self).player == old(self).player,
            ({
                let p = moved_player(old(self).store@[old(self).player], input, dt as int);
                let moved = old(self).store@.insert(old(self).player, p);
                match r {
                    Some(k) => input.attack && !moved.contains_key(k) && final(self).store@
                        == retained(moved.insert(k, bullet_spec(p, aim)), dt as int),
                    None => (!input.attack || moved.len() >= STORE_ROOM) && final(self).store@
                        == retained(moved, dt as int),
                }
            }),
    {
        self.move_player(input, dt);
        let r = if input.attack {
            self.spawn_bullet(aim)
        } else {
            None
        };
        let ghost before = self.store@;
        self.store.tick_all(dt);
        proof {
            let k = self.player;
            let p = before[k];
            assert(before.contains_key(k));
            assert(p.ticked(dt as int) == p);
            assert(p.survives());
            assert(self.store@.contains_key(k));
        }
        r
    }
}

} // verus!
