//! Kinematic state of the moving entities, the per-tick input sample and the
//! tuning constants.

use crate::geometry::Vector;
use vstd::prelude::*;

verus! {

/// Largest magnitude of a velocity, a remainder or a tuning speed.
pub const SPEED_LIMIT: i64 = 0x100_0000_0000;

/// Largest restitution numerator.
pub const RESTITUTION_LIMIT: i64 = 0x1_0000;

/// Identifier of an entity.
#[derive(Clone, Copy, Debug, PartialEq, Eq, Structural)]
pub struct Entity(pub u64);

/// The kind of moving entity that a resolver run and its notification are for.
#[derive(Clone, Copy, Debug, PartialEq, Eq, Structural)]
pub enum Kind {
    Player,
    Ball,
}

/// Velocity in units per tick, the sub-pixel remainder carried between
/// ticks, and the grounded flag, which the resolver sets on every tick to
/// whether its Y pass was blocked.
#[derive(Clone, Copy, Debug, PartialEq, Eq, Structural)]
pub struct Movement {
    pub velocity: Vector,
    pub velocity_remainder: Vector,
    pub on_ground: bool,
}

/// Variable-height jump state: while the timer runs and the jump key is
/// held, the upward speed is sustained. A timer of zero means inactive.
#[derive(Clone, Copy, Debug, PartialEq, Eq, Structural)]
pub struct Jump {
    pub var_jump_timer: i64,
    pub var_jump_speed: i64,
}

/// Consecutive bounces of the ball since it last landed.
#[derive(Clone, Copy, Debug, PartialEq, Eq, Structural)]
pub struct Bounces(pub i8);

/// Reported by the resolver when an entity was blocked on either axis.
#[derive(Clone, Copy, Debug, PartialEq, Eq, Structural)]
pub struct CollisionNotification {
    pub entity: Entity,
    pub kind: Kind,
    pub collided_x: bool,
    pub collided_y: bool,
}

/// One logical key as sampled at the start of a tick.
#[derive(Clone, Copy, Debug, PartialEq, Eq, Structural)]
pub struct Key {
    pub held: bool,
    pub just_pressed: bool,
    pub just_released: bool,
}

/// The four logical keys.
#[derive(Clone, Copy, Debug, PartialEq, Eq, Structural)]
pub struct Input {
    pub left: Key,
    pub right: Key,
    pub jump: Key,
    pub action: Key,
}

/// Horizontal orientation of the player.
#[derive(Clone, Copy, Debug, PartialEq, Eq, Structural)]
pub enum Facing {
    Left,
    Right,
}

/// What the player is doing, for whoever animates it.
#[derive(Clone, Copy, Debug, PartialEq, Eq, Structural)]
pub enum Locomotion {
    Airborne,
    Running,
    Idle,
}

/// Tuning constants, built once and passed by reference. Speeds are in
/// velocity units, accelerations in velocity units gained per tick.
#[derive(Clone, Copy, Debug, PartialEq, Eq, Structural)]
pub struct Config {
    /// Remainder units that make one pixel.
    pub units_per_pixel: i64,
    /// Ticks for which a held jump key sustains the jump.
    pub var_jump_ticks: i64,
    /// Vertical velocity of a jump; negative is upward.
    pub jump_speed: i64,
    pub max_run: i64,
    pub run_accel: i64,
    /// Share of `run_accel` that is left while airborne, in percent.
    pub air_percent: i64,
    pub player_max_fall_speed: i64,
    pub ball_max_fall_speed: i64,
    /// Below this vertical speed a held jump key halves gravity.
    pub half_grav_threshold: i64,
    pub player_gravity: i64,
    pub ball_gravity: i64,
    pub max_ball_bounces: i8,
    /// The ball leaves a solid with `restitution_num / restitution_den`
    /// times its incoming speed, reversed.
    pub restitution_num: i64,
    pub restitution_den: i64,
}

impl Key {
    /// A key that is up and did not change this tick.
    pub fn idle() -> (r: Key)
        ensures
            !r.held && !r.just_pressed && !r.just_released,
    {
        Key { held: false, just_pressed: false, just_released: false }
    }
}

impl Input {
    /// No key held or changed.
    pub fn none() -> (r: Input)
        ensures
            r == (Input {
                left: Key { held: false, just_pressed: false, just_released: false },
                right: Key { held: false, just_pressed: false, just_released: false },
                jump: Key { held: false, just_pressed: false, just_released: false },
                action: Key { held: false, just_pressed: false, just_released: false },
            }),
    {
        Input { left: Key::idle(), right: Key::idle(), jump: Key::idle(), action: Key::idle() }
    }
}

impl Movement {
    /// Velocity and remainder within `SPEED_LIMIT` in magnitude.
    pub open spec fn bounded(self) -> bool {
        &&& self.velocity.within(SPEED_LIMIT as int)
        &&& self.velocity_remainder.within(SPEED_LIMIT as int)
    }

    /// At rest, airborne, with nothing carried over.
    pub fn zeroed() -> (r: Movement)
        ensures
            r == (Movement {
                velocity: Vector { x: 0, y: 0 },
                velocity_remainder: Vector { x: 0, y: 0 },
                on_ground: false,
            }),
            r.bounded(),
    {
        Movement {
            velocity: Vector { x: 0, y: 0 },
            velocity_remainder: Vector { x: 0, y: 0 },
            on_ground: false,
        }
    }

    /// Decides `bounded`.
    pub fn is_bounded(&self) -> (r: bool)
        ensures
            r == self.bounded(),
    {
        -SPEED_LIMIT <= self.velocity.x && self.velocity.x <= SPEED_LIMIT && -SPEED_LIMIT
            <= self.velocity.y && self.velocity.y <= SPEED_LIMIT && -SPEED_LIMIT
            <= self.velocity_remainder.x && self.velocity_remainder.x <= SPEED_LIMIT
            && -SPEED_LIMIT <= self.velocity_remainder.y && self.velocity_remainder.y
            <= SPEED_LIMIT
    }
}

impl Config {
    /// The constants make sense together and leave room for the arithmetic.
    pub open spec fn wf(self) -> bool {
        &&& 1 <= self.units_per_pixel <= SPEED_LIMIT
        &&& 1 <= self.var_jump_ticks
        &&& -SPEED_LIMIT <= self.jump_speed < 0
        &&& 0 <= self.max_run <= SPEED_LIMIT
        &&& 0 <= self.run_accel <= SPEED_LIMIT
        &&& 0 <= self.air_percent <= 100
        &&& 0 <= self.player_max_fall_speed <= SPEED_LIMIT
        &&& 0 <= self.ball_max_fall_speed <= SPEED_LIMIT
        &&& 0 <= self.half_grav_threshold <= SPEED_LIMIT
        &&& 0 <= self.player_gravity <= SPEED_LIMIT
        &&& 0 <= self.ball_gravity <= SPEED_LIMIT
        &&& 0 <= self.max_ball_bounces
        &&& 1 <= self.restitution_den < self.restitution_num <= RESTITUTION_LIMIT
    }

    /// Decides `wf`.
    pub fn is_valid(&self) -> (r: bool)
        ensures
            r == self.wf(),
    {
        1 <= self.units_per_pixel && self.units_per_pixel <= SPEED_LIMIT && 1
            <= self.var_jump_ticks && -SPEED_LIMIT <= self.jump_speed && self.jump_speed < 0 && 0
            <= self.max_run && self.max_run <= SPEED_LIMIT && 0 <= self.run_accel
            && self.run_accel <= SPEED_LIMIT && 0 <= self.air_percent && self.air_percent <= 100
            && 0 <= self.player_max_fall_speed && self.player_max_fall_speed <= SPEED_LIMIT && 0
            <= self.ball_max_fall_speed && self.ball_max_fall_speed <= SPEED_LIMIT && 0
            <= self.half_grav_threshold && self.half_grav_threshold <= SPEED_LIMIT && 0
            <= self.player_gravity && self.player_gravity <= SPEED_LIMIT && 0 <= self.ball_gravity
            && self.ball_gravity <= SPEED_LIMIT && 0 <= self.max_ball_bounces && 1
            <= self.restitution_den && self.restitution_den < self.restitution_num
            && self.restitution_num <= RESTITUTION_LIMIT
    }

    /// The reference tuning at 60 ticks per second. A velocity unit is a
    /// sixtieth of a pixel per second, so a pixel is 3600 remainder units and
    /// an acceleration in pixels per second squared is its own per-tick gain.
    pub fn standard() -> (r: Config)
        ensures
            r.wf(),
            r.units_per_pixel == 3600,
            r.var_jump_ticks == 12,
            r.jump_speed == -6300,
            r.max_run == 5400,
            r.run_accel == 1000,
            r.air_percent == 65,
            r.player_max_fall_speed == 9600,
            r.ball_max_fall_speed == 14400,
            r.half_grav_threshold == 2400,
            r.player_gravity == 900,
            r.ball_gravity == 1500,
            r.max_ball_bounces == 1,
            r.restitution_num == 3,
            r.restitution_den == 2,
    {
        Config {
            units_per_pixel: 3600,
            var_jump_ticks: 12,
            jump_speed: -6300,
            max_run: 5400,
            run_accel: 1000,
            air_percent: 65,
            player_max_fall_speed: 9600,
            ball_max_fall_speed: 14400,
            half_grav_threshold: 2400,
            player_gravity: 900,
            ball_gravity: 1500,
            max_ball_bounces: 1,
            restitution_num: 3,
            restitution_den: 2,
        }
    }
}

} // verus!
