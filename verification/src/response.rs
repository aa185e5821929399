//! Collision responses: what each kind of entity makes of a contact that the
//! resolver reported.

use crate::state::{Bounces, CollisionNotification, Config, Kind, Movement, SPEED_LIMIT};
use crate::geometry::Vector;
use vstd::prelude::*;

verus! {

/// The velocity with which the ball leaves a solid that it met at
/// `velocity`: reversed, and scaled by the restitution factor, the magnitude
/// rounded down.
pub open spec fn bounce_spec(config: Config, velocity: int) -> int {
    if velocity >= 0 {
        -((velocity * config.restitution_num) / (config.restitution_den as int))
    } else {
        ((-velocity) * config.restitution_num) / (config.restitution_den as int)
    }
}

/// Whether a Y contact is a landing: the ball has used up its bounces.
pub open spec fn lands_spec(config: Config, bounces: Bounces) -> bool {
    bounces.0 >= config.max_ball_bounces
}

/// The player after a contact: stopped on each axis that was blocked.
pub open spec fn player_response_spec(movement: Movement, event: CollisionNotification) -> Movement {
    Movement {
        velocity: Vector {
            x: if event.collided_x {
                0
            } else {
                movement.velocity.x
            },
            y: if event.collided_y {
                0
            } else {
                movement.velocity.y
            },
        },
        velocity_remainder: movement.velocity_remainder,
        on_ground: movement.on_ground,
    }
}

/// The ball's movement after a contact.
pub open spec fn ball_response_spec(
    config: Config,
    movement: Movement,
    bounces: Bounces,
    event: CollisionNotification,
) -> Movement {
    Movement {
        velocity: Vector {
            x: if event.collided_x {
                bounce_spec(config, movement.velocity.x as int) as i64
            } else {
                movement.velocity.x
            },
            y: if !event.collided_y {
                movement.velocity.y
            } else if lands_spec(config, bounces) {
                0
            } else {
                bounce_spec(config, movement.velocity.y as int) as i64
            },
        },
        velocity_remainder: movement.velocity_remainder,
        on_ground: if event.collided_y && lands_spec(config, bounces) {
            true
        } else {
            movement.on_ground
        },
    }
}

/// The ball's bounce counter after a contact.
pub open spec fn ball_bounces_spec(
    config: Config,
    bounces: Bounces,
    event: CollisionNotification,
) -> Bounces {
    if !event.collided_y {
        bounces
    } else if lands_spec(config, bounces) {
        Bounces(0)
    } else {
        Bounces((bounces.0 + 1) as i8)
    }
}

/// Stops the player on each axis that the notification reports as blocked.
/// Only notifications of the player's kind are routed here.
pub fn player_collision_response_system(movement: Movement, event: &CollisionNotification) -> (r:
    Movement)
    requires
        event.kind == Kind::Player,
    ensures
        r == player_response_spec(movement, *event),
{
    let mut next = movement;
    if event.collided_x {
        next.velocity.x = 0;
    }
    if event.collided_y {
        next.velocity.y = 0;
    }
    next
}

/// Reverses `velocity` and scales it by the restitution factor.
pub fn bounce(config: &Config, velocity: i64) -> (r: i64)
    requires
        config.wf(),
        -SPEED_LIMIT <= velocity <= SPEED_LIMIT,
    ensures
        r == bounce_spec(*config, velocity as int),
        velocity > 0 ==> r < 0,
        velocity < 0 ==> r > 0,
        velocity == 0 ==> r == 0,
{
    let num: i64 = config.restitution_num;
    let den: i64 = config.restitution_den;
    let magnitude: i64 = if velocity >= 0 { velocity } else { -velocity };
    assert(0 <= magnitude * num <= 0x100_0000_0000 * 0x1_0000) by (nonlinear_arith)
        requires
            0 <= magnitude <= 0x100_0000_0000,
            1 <= num <= 0x1_0000,
    ;
    let scaled: i64 = magnitude * num / den;
    proof {
        lemma_bounce_range(*config, velocity as int);
    }
    if velocity >= 0 {
        -scaled
    } else {
        scaled
    }
}

/// Reacts to a contact of the ball. A blocked X axis bounces the horizontal
/// velocity. A blocked Y axis is a landing once the counter has reached the
/// limit: the vertical velocity is zeroed, the ball is grounded and the
/// counter starts over. Before that it is a bounce, which is counted. Only
/// notifications of the ball's kind are routed here.
pub fn ball_collision_response_system(
    config: &Config,
    movement: Movement,
    bounces: Bounces,
    event: &CollisionNotification,
) -> (r: (Movement, Bounces))
    requires
        config.wf(),
        movement.velocity.within(SPEED_LIMIT as int),
        event.kind == Kind::Ball,
    ensures
        r.0 == ball_response_spec(*config, movement, bounces, *event),
        r.1 == ball_bounces_spec(*config, bounces, *event),
        event.collided_x ==> r.0.velocity.x == bounce_spec(*config, movement.velocity.x as int),
        event.collided_y && !lands_spec(*config, bounces) ==> r.0.velocity.y == bounce_spec(
            *config,
            movement.velocity.y as int,
        ) && r.1.0 == bounces.0 + 1,
{
    let mut next = movement;
    let mut count = bounces;
    if event.collided_x {
        next.velocity.x = bounce(config, movement.velocity.x);
    }
    if event.collided_y {
        if bounces.0 >= config.max_ball_bounces {
            next.velocity.y = 0;
            next.on_ground = true;
            count = Bounces(0);
        } else {
            next.velocity.y = bounce(config, movement.velocity.y);
            count = Bounces(bounces.0 + 1);
        }
    }
    (next, count)
}

/// An X contact reverses the horizontal velocity and scales its magnitude by
/// the restitution factor, whatever the bounce counter holds.
pub proof fn law_x_bounce_ignores_counter(
    config: Config,
    movement: Movement,
    first: Bounces,
    second: Bounces,
    event: CollisionNotification,
)
    requires
        config.wf(),
        movement.velocity.within(SPEED_LIMIT as int),
        event.collided_x,
    ensures
        ball_response_spec(config, movement, first, event).velocity.x == bounce_spec(
            config,
            movement.velocity.x as int,
        ),
        ball_response_spec(config, movement, first, event).velocity.x == ball_response_spec(
            config,
            movement,
            second,
            event,
        ).velocity.x,
        movement.velocity.x > 0 ==> ball_response_spec(config, movement, first, event).velocity.x
            < 0,
        movement.velocity.x < 0 ==> ball_response_spec(config, movement, first, event).velocity.x
            > 0,
        crate::math::abs_spec(bounce_spec(config, movement.velocity.x as int))
            == crate::math::abs_spec(movement.velocity.x as int) * config.restitution_num
            / (config.restitution_den as int),
{
    lemma_bounce_range(config, movement.velocity.x as int);
}

/// A bounce of a bounded velocity is representable, keeps at least the
/// incoming magnitude and has the opposite sign.
pub proof fn lemma_bounce_range(config: Config, velocity: int)
    requires
        config.wf(),
        -SPEED_LIMIT <= velocity <= SPEED_LIMIT,
    ensures
        i64::MIN <= bounce_spec(config, velocity) <= i64::MAX,
        velocity >= 0 ==> bounce_spec(config, velocity) <= -velocity,
        velocity <= 0 ==> bounce_spec(config, velocity) >= -velocity,
{
    let num = config.restitution_num as int;
    let den = config.restitution_den as int;
    let magnitude = if velocity >= 0 { velocity } else { -velocity };
    let scaled = (magnitude * num) / den;
    assert(0 <= magnitude * num <= 0x100_0000_0000 * 0x1_0000) by (nonlinear_arith)
        requires
            0 <= magnitude <= 0x100_0000_0000,
            1 <= num <= 0x1_0000,
    ;
    assert(magnitude <= scaled <= magnitude * num && (magnitude == 0 ==> scaled == 0))
        by (nonlinear_arith)
        requires
            scaled == (magnitude * num) / den,
            1 <= den < num,
            0 <= magnitude,
    ;
}

/// With the counter one short of the limit, a Y contact bounces and brings
/// the counter to the limit; the Y contact after that lands: the vertical
/// velocity is zero, the ball is grounded and the counter is back at zero.
pub proof fn law_last_bounce_then_landing(
    config: Config,
    movement: Movement,
    bounces: Bounces,
    first: CollisionNotification,
    later: Movement,
    second: CollisionNotification,
)
    requires
        config.wf(),
        bounces.0 == config.max_ball_bounces - 1,
        first.collided_y,
        second.collided_y,
    ensures
        ball_bounces_spec(config, bounces, first).0 == config.max_ball_bounces,
        ball_response_spec(config, movement, bounces, first).velocity.y == bounce_spec(
            config,
            movement.velocity.y as int,
        ) as i64,
        ball_response_spec(
            config,
            later,
            ball_bounces_spec(config, bounces, first),
            second,
        ).velocity.y == 0,
        ball_response_spec(
            config,
            later,
            ball_bounces_spec(config, bounces, first),
            second,
        ).on_ground,
        ball_bounces_spec(
            config,
            ball_bounces_spec(config, bounces, first),
            second,
        ).0 == 0,
{
}

} // verus!
