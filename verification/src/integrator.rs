//! The motion integrators: what input and gravity make of the velocity in
//! one tick, before anything moves.

use crate::math::{approach, approach_spec};
use crate::state::{Config, Facing, Input, Jump, Locomotion, Movement, SPEED_LIMIT};
use crate::geometry::Vector;
use vstd::prelude::*;

verus! {

/// The player's state that the integrator reads and writes.
#[derive(Clone, Copy, Debug, PartialEq, Eq, Structural)]
pub struct Player {
    pub movement: Movement,
    pub jump: Jump,
    pub facing: Facing,
    /// Whether the racket is extended. No effect on the physics.
    pub racket: bool,
}

impl Player {
    /// The movement is bounded, and so is the speed that a running jump
    /// timer sustains.
    pub open spec fn bounded(self) -> bool {
        &&& self.movement.bounded()
        &&& -SPEED_LIMIT <= self.jump.var_jump_speed <= SPEED_LIMIT
    }

    /// Decides `bounded`.
    pub fn is_bounded(&self) -> (r: bool)
        ensures
            r == self.bounded(),
    {
        self.movement.is_bounded() && -SPEED_LIMIT <= self.jump.var_jump_speed
            && self.jump.var_jump_speed <= SPEED_LIMIT
    }
}

/// Horizontal acceleration per tick: the full rate on the ground, the
/// configured share of it in the air.
pub open spec fn run_accel_spec(config: Config, on_ground: bool) -> int {
    if on_ground {
        config.run_accel as int
    } else {
        config.run_accel * config.air_percent / 100
    }
}

/// Horizontal velocity after one tick of running in `direction`.
pub open spec fn run_velocity_x_spec(config: Config, movement: Movement, direction: int) -> int {
    approach_spec(
        movement.velocity.x as int,
        config.max_run * direction,
        run_accel_spec(config, movement.on_ground),
    )
}

/// The direction that the held keys ask for; left wins over right.
pub open spec fn run_direction_spec(input: Input) -> int {
    if input.left.held {
        -1
    } else if input.right.held {
        1
    } else {
        0
    }
}

/// Gravity per tick on the player: halved near the peak of a jump whose key
/// is still held.
pub open spec fn player_gravity_spec(config: Config, velocity_y: int, jump_held: bool) -> int {
    if -config.half_grav_threshold < velocity_y < config.half_grav_threshold && jump_held {
        config.player_gravity / 2
    } else {
        config.player_gravity as int
    }
}

/// Vertical velocity after gravity and the variable-jump clamp, before a new
/// jump is considered.
pub open spec fn sustained_velocity_y_spec(config: Config, input: Input, player: Player) -> int {
    let fallen = approach_spec(
        player.movement.velocity.y as int,
        config.player_max_fall_speed as int,
        player_gravity_spec(config, player.movement.velocity.y as int, input.jump.held),
    );
    if player.jump.var_jump_timer > 0 && input.jump.held && player.jump.var_jump_speed < fallen {
        player.jump.var_jump_speed as int
    } else {
        fallen
    }
}

/// The jump timer after the variable-jump rule: it runs down while the key
/// is held and drops to zero when the key is up.
pub open spec fn sustained_timer_spec(input: Input, jump: Jump) -> int {
    if jump.var_jump_timer > 0 {
        if input.jump.held {
            jump.var_jump_timer - 1
        } else {
            0
        }
    } else {
        jump.var_jump_timer as int
    }
}

/// Whether a jump starts this tick: the key went down while grounded.
pub open spec fn jump_starts_spec(input: Input, movement: Movement) -> bool {
    input.jump.just_pressed && movement.on_ground
}

/// The locomotion signal: airborne, else running when a direction is held,
/// else idle.
pub open spec fn locomotion_spec(input: Input, movement: Movement) -> Locomotion {
    if !movement.on_ground {
        Locomotion::Airborne
    } else if input.left.held || input.right.held {
        Locomotion::Running
    } else {
        Locomotion::Idle
    }
}

/// The player after one tick of integration.
pub open spec fn player_movement_spec(config: Config, input: Input, player: Player) -> Player {
    let starts = jump_starts_spec(input, player.movement);
    Player {
        movement: Movement {
            velocity: Vector {
                x: run_velocity_x_spec(config, player.movement, run_direction_spec(input)) as i64,
                y: if starts {
                    config.jump_speed
                } else {
                    sustained_velocity_y_spec(config, input, player) as i64
                },
            },
            velocity_remainder: player.movement.velocity_remainder,
            on_ground: player.movement.on_ground,
        },
        jump: Jump {
            var_jump_timer: if starts {
                config.var_jump_ticks
            } else {
                sustained_timer_spec(input, player.jump) as i64
            },
            var_jump_speed: if starts {
                config.jump_speed
            } else {
                player.jump.var_jump_speed
            },
        },
        facing: if input.left.held {
            Facing::Left
        } else if input.right.held {
            Facing::Right
        } else {
            player.facing
        },
        racket: if input.action.just_released {
            false
        } else if input.action.just_pressed {
            true
        } else {
            player.racket
        },
    }
}

/// The ball's vertical velocity after one tick: gravity acts only in the air.
pub open spec fn ball_velocity_y_spec(config: Config, movement: Movement) -> int {
    if movement.on_ground {
        movement.velocity.y as int
    } else {
        approach_spec(
            movement.velocity.y as int,
            config.ball_max_fall_speed as int,
            config.ball_gravity as int,
        )
    }
}

/// Horizontal velocity after one tick of running in `direction` (-1 left,
/// 1 right, 0 to come to rest).
pub fn run_velocity_x(config: &Config, movement: &Movement, direction: i64) -> (r: i64)
    requires
        config.wf(),
        -1 <= direction <= 1,
    ensures
        r == run_velocity_x_spec(*config, *movement, direction as int),
        movement.velocity.x <= r <= config.max_run * direction || config.max_run * direction <= r
            <= movement.velocity.x,
{
    let accel: i64 = if movement.on_ground {
        config.run_accel
    } else {
        assert(0 <= config.run_accel * config.air_percent <= 0x6400_0000_0000)
            by (nonlinear_arith)
            requires
                0 <= config.run_accel <= 0x100_0000_0000,
                0 <= config.air_percent <= 100,
        ;
        config.run_accel * config.air_percent / 100
    };
    let target: i64 = if direction < 0 {
        -config.max_run
    } else if direction > 0 {
        config.max_run
    } else {
        0
    };
    assert(target == config.max_run * direction) by (nonlinear_arith)
        requires
            -1 <= direction <= 1,
            target == (if direction < 0 {
                -config.max_run
            } else if direction > 0 {
                config.max_run as int
            } else {
                0
            }),
    ;
    approach(movement.velocity.x, target, accel)
}

/// Integrates the player for one tick.
///
/// Gravity pulls the vertical velocity toward the fall cap, at half rate
/// near the peak while the jump key is held. While the jump timer runs and
/// the key is held, the vertical velocity is capped at the jump's upward
/// speed and the timer counts down; with the key up the timer is cleared.
/// The horizontal velocity approaches the run
/// speed in the held direction, or zero. A jump key pressed on the ground
/// starts a jump. The action key extends and retracts the racket.
pub fn player_movement_system(config: &Config, input: &Input, player: Player) -> (r: (
    Player,
    Locomotion,
))
    requires
        config.wf(),
    ensures
        r.0 == player_movement_spec(*config, *input, player),
        r.0.movement.velocity.x == run_velocity_x_spec(
            *config,
            player.movement,
            run_direction_spec(*input),
        ),
        !jump_starts_spec(*input, player.movement) ==> r.0.movement.velocity.y
            == sustained_velocity_y_spec(*config, *input, player) && r.0.jump.var_jump_timer
            == sustained_timer_spec(*input, player.jump),
        r.1 == locomotion_spec(*input, player.movement),
        player.bounded() ==> r.0.bounded(),
{
    let mut movement = player.movement;
    let mut jump = player.jump;
    let mut facing = player.facing;
    let mut racket = player.racket;

    let near_peak = -config.half_grav_threshold < movement.velocity.y && movement.velocity.y
        < config.half_grav_threshold;
    let gravity: i64 = if near_peak && input.jump.held {
        config.player_gravity / 2
    } else {
        config.player_gravity
    };
    movement.velocity.y = approach(movement.velocity.y, config.player_max_fall_speed, gravity);

    if jump.var_jump_timer > 0 {
        if input.jump.held {
            if jump.var_jump_speed < movement.velocity.y {
                movement.velocity.y = jump.var_jump_speed;
            }
            jump.var_jump_timer = jump.var_jump_timer - 1;
        } else {
            jump.var_jump_timer = 0;
        }
    }

    let mut running = false;
    if input.left.held {
        movement.velocity.x = run_velocity_x(config, &movement, -1);
        running = true;
        facing = Facing::Left;
    } else if input.right.held {
        movement.velocity.x = run_velocity_x(config, &movement, 1);
        running = true;
        facing = Facing::Right;
    } else {
        movement.velocity.x = run_velocity_x(config, &movement, 0);
    }

    let locomotion = if !movement.on_ground {
        Locomotion::Airborne
    } else if running {
        Locomotion::Running
    } else {
        Locomotion::Idle
    };

    if input.jump.just_pressed && movement.on_ground {
        movement.velocity.y = config.jump_speed;
        jump.var_jump_timer = config.var_jump_ticks;
        jump.var_jump_speed = config.jump_speed;
    }

    if input.action.just_pressed {
        racket = true;
    }
    if input.action.just_released {
        racket = false;
    }
    proof {
        if player.bounded() {
            lemma_player_movement_bounded(*config, *input, player);
        }
    }
    (Player { movement, jump, facing, racket }, locomotion)
}

/// Integrates the ball for one tick: while airborne its vertical velocity
/// approaches the ball's fall cap; nothing else changes.
pub fn ball_movement_system(config: &Config, movement: Movement) -> (r: Movement)
    requires
        config.wf(),
    ensures
        r.velocity.x == movement.velocity.x,
        r.velocity.y == ball_velocity_y_spec(*config, movement),
        r.velocity_remainder == movement.velocity_remainder,
        r.on_ground == movement.on_ground,
        movement.bounded() ==> r.bounded(),
{
    let mut next = movement;
    if !movement.on_ground {
        next.velocity.y = approach(
            movement.velocity.y,
            config.ball_max_fall_speed,
            config.ball_gravity,
        );
    }
    next
}

/// Integration keeps a bounded player bounded: every velocity it sets lies
/// between the old one and a tuning speed.
pub proof fn lemma_player_movement_bounded(config: Config, input: Input, player: Player)
    requires
        config.wf(),
        player.bounded(),
    ensures
        player_movement_spec(config, input, player).bounded(),
        player_movement_spec(config, input, player).movement.velocity_remainder
            == player.movement.velocity_remainder,
        player_movement_spec(config, input, player).movement.on_ground
            == player.movement.on_ground,
{
    let direction = run_direction_spec(input);
    assert(0 <= config.run_accel * config.air_percent / 100) by (nonlinear_arith)
        requires
            0 <= config.run_accel,
            0 <= config.air_percent,
    ;
    assert(-config.max_run <= config.max_run * direction <= config.max_run) by (nonlinear_arith)
        requires
            -1 <= direction <= 1,
            0 <= config.max_run,
    ;
    assert(0 <= config.player_gravity / 2);
}

/// A jump key pressed on the ground sets the vertical velocity to the jump
/// speed and arms a timer that is not zero. If the key is up on the tick
/// after, that tick leaves the timer at zero, grounded or not.
pub proof fn law_jump_then_release(
    config: Config,
    press: Input,
    release: Input,
    player: Player,
    on_ground_after: bool,
)
    requires
        config.wf(),
        player.movement.on_ground,
        press.jump.just_pressed,
        !release.jump.held,
        !release.jump.just_pressed,
    ensures
        player_movement_spec(config, press, player).movement.velocity.y == config.jump_speed,
        player_movement_spec(config, press, player).jump.var_jump_timer > 0,
        player_movement_spec(config, press, player).jump.var_jump_speed == config.jump_speed,
        player_movement_spec(
            config,
            release,
            Player {
                movement: Movement {
                    on_ground: on_ground_after,
                    ..player_movement_spec(config, press, player).movement
                },
                ..player_movement_spec(config, press, player)
            },
        ).jump.var_jump_timer == 0,
{
}

/// A jump key that is not newly pressed, or pressed in the air, starts no
/// jump: the timer never grows.
pub proof fn law_no_jump_off_ground(config: Config, input: Input, player: Player)
    requires
        config.wf(),
        !player.movement.on_ground || !input.jump.just_pressed,
        player.jump.var_jump_timer >= 0,
    ensures
        0 <= player_movement_spec(config, input, player).jump.var_jump_timer
            <= player.jump.var_jump_timer,
{
}

} // verus!
