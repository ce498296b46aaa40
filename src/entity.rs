use vstd::prelude::*;
use crate::consts::{MAX_DT, MAX_SIZE, MAX_SPEED, STEP, WORLD_LIMIT};
use crate::flags::{EntityFlags, FlagSet};
use crate::motion::{
    component_spec, heading_ok, MAX_STEP, is_off_screen, off_screen_spec, step_along, Point, Rect,
};

verus! {

/// Which loaded image an entity is drawn with.
#[derive(Clone, Copy, Debug, PartialEq, Eq, Structural)]
pub enum Sprite {
    Player,
    Bullet,
}

#[derive(Clone, Copy, Debug, PartialEq, Eq, Structural)]
pub struct Weapon {
    pub ammo: u32,
}

#[derive(Clone, Copy, Debug, PartialEq, Eq, Structural)]
pub struct Arsenal {
    pub bullet_shooter: Option<Weapon>,
}

impl Arsenal {
    /// An arsenal without weapons.
    pub fn empty() -> (r: Arsenal)
        ensures
            r.bullet_shooter is None,
    {
        Arsenal { bullet_shooter: None }
    }
}

/// Anything that is simulated and drawn.
///
/// `heading` is the direction the entity faces, as a vector: its angle in
/// radians, clockwise from "up", is `atan2(heading.x, -heading.y)`.
#[derive(Clone, Copy, Debug, PartialEq, Eq, Structural)]
pub struct Entity {
    pub bbox: Rect,
    pub sprite: Sprite,
    pub speed: i64,
    pub arsenal: Arsenal,
    pub weapon_cooldown: u64,
    pub heading: Point,
    pub flags: FlagSet,
}

/// The length of the displacement of an entity of speed `speed` over a
/// frame of `dt` milli-steps.
pub open spec fn travel(speed: int, dt: int) -> int {
    speed * dt / STEP as int
}

pub open spec fn clamp_world(v: int) -> int {
    if v < -WORLD_LIMIT {
        -WORLD_LIMIT
    } else if v > WORLD_LIMIT {
        WORLD_LIMIT as int
    } else {
        v
    }
}

impl Entity {
    /// The bounds every stored entity keeps.
    pub open spec fn wf(self) -> bool {
        &&& 0 <= self.bbox.w <= MAX_SIZE
        &&& 0 <= self.bbox.h <= MAX_SIZE
        &&& -WORLD_LIMIT <= self.bbox.x <= WORLD_LIMIT
        &&& -WORLD_LIMIT <= self.bbox.y <= WORLD_LIMIT
        &&& 0 <= self.speed <= MAX_SPEED
        &&& heading_ok(self.heading.x as int, self.heading.y as int)
    }

    pub fn is_bullet(&self) -> (r: bool)
        ensures
            r == self.flags.has(EntityFlags::Bullet),
    {
        self.flags.contains(EntityFlags::Bullet)
    }

    pub fn is_player_bullet(&self) -> (r: bool)
        ensures
            r == (self.flags.has(EntityFlags::Player) && self.flags.has(EntityFlags::Bullet)),
    {
        self.flags.contains(EntityFlags::Player) && self.flags.contains(EntityFlags::Bullet)
    }

    pub fn is_enemy_bullet(&self) -> (r: bool)
        ensures
            r == (self.flags.has(EntityFlags::Enemy) && self.flags.has(EntityFlags::Bullet)),
    {
        self.flags.contains(EntityFlags::Enemy) && self.flags.contains(EntityFlags::Bullet)
    }

    pub fn is_player(&self) -> (r: bool)
        ensures
            r == (self.flags.has(EntityFlags::Player) && !self.flags.has(EntityFlags::Bullet)),
    {
        self.flags.contains(EntityFlags::Player) && !self.flags.contains(EntityFlags::Bullet)
    }

    pub fn is_enemy(&self) -> (r: bool)
        ensures
            r == (self.flags.has(EntityFlags::Enemy) && !self.flags.has(EntityFlags::Bullet)),
    {
        self.flags.contains(EntityFlags::Enemy) && !self.flags.contains(EntityFlags::Bullet)
    }

    pub fn should_despawn_off_screen(&self) -> (r: bool)
        ensures
            r == self.flags.has(EntityFlags::DespawnOffScreen),
    {
        self.flags.contains(EntityFlags::DespawnOffScreen)
    }

    /// The top-left corner of the entity's box.
    pub fn pos(&self) -> (r: Point)
        ensures
            r.x == self.bbox.x,
            r.y == self.bbox.y,
    {
        Point { x: self.bbox.x, y: self.bbox.y }
    }

    /// The entity after one frame of `dt` milli-steps: a bullet advances
    /// along its heading, anything else stays as it is.
    pub open spec fn ticked(self, dt: int) -> Entity {
        if self.flags.has(EntityFlags::Bullet) {
            let s = travel(self.speed as int, dt);
            let hx = self.heading.x as int;
            let hy = self.heading.y as int;
            Entity {
                bbox: Rect {
                    x: clamp_world(self.bbox.x + component_spec(hx, hy, s)) as i64,
                    y: clamp_world(self.bbox.y + component_spec(hy, hx, s)) as i64,
                    ..self.bbox
                },
                ..self
            }
        } else {
            self
        }
    }

    /// Whether the entity stays in the store after a frame.
    pub open spec fn survives(self) -> bool {
        self.flags.has(EntityFlags::DespawnOffScreen) ==> !off_screen_spec(self.bbox)
    }

    /// Advances the entity by one frame of `dt` milli-steps and tells
    /// whether it stays in the store.
    pub fn tick(&mut self, dt: u64) -> (keep: bool)
        requires
            old(self).wf(),
            dt <= MAX_DT,
        ensures
            *final(self) == old(self).ticked(dt as int),
            final(self).wf(),
            keep == final(self).survives(),
    {
        if self.is_bullet() {
            assert(self.speed * dt <= MAX_SPEED * MAX_DT) by (nonlinear_arith)
                requires 0 <= self.speed <= MAX_SPEED, dt <= MAX_DT;
            let s: i64 = ((self.speed as u64 * dt) / STEP) as i64;
            assert(s <= MAX_STEP);
            let (dx, dy) = step_along(self.heading.x, self.heading.y, s);
            self.bbox.x = clamp_world_exec(self.bbox.x + dx);
            self.bbox.y = clamp_world_exec(self.bbox.y + dy);
        }
        if self.should_despawn_off_screen() {
            !is_off_screen(self.bbox)
        } else {
            true
        }
    }
}

fn clamp_world_exec(v: i64) -> (r: i64)
    requires
        -2 * WORLD_LIMIT <= v <= 2 * WORLD_LIMIT,
    ensures
        r == clamp_world(v as int),
{
    if v < -WORLD_LIMIT {
        -WORLD_LIMIT
    } else if v > WORLD_LIMIT {
        WORLD_LIMIT
    } else {
        v
    }
}

} // verus!
