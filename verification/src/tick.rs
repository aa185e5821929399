//! The tick scheduler: for each kind the integrator runs first, then the
//! resolver, then the response to what the resolver reported.

use crate::geometry::{Rect, Vector, COORD_LIMIT};
use crate::integrator::{
    ball_movement_system, ball_velocity_y_spec, lemma_player_movement_bounded, locomotion_spec,
    player_movement_spec, player_movement_system, Player,
};
use crate::math::abs_spec;
use crate::resolver::{collision_system, law_carry_below_one_pixel, resolve_spec};
use crate::response::{
    ball_bounces_spec, ball_collision_response_system, ball_response_spec,
    player_collision_response_system, player_response_spec,
};
use crate::state::{Bounces, Config, Entity, Input, Kind, Locomotion, Movement};
use vstd::prelude::*;

verus! {

/// The player entity: where it is, how large, and its state.
#[derive(Clone, Copy, Debug, PartialEq, Eq, Structural)]
pub struct PlayerBody {
    pub entity: Entity,
    pub position: Vector,
    pub size: Vector,
    pub player: Player,
}

/// The ball entity.
#[derive(Clone, Copy, Debug, PartialEq, Eq, Structural)]
pub struct BallBody {
    pub entity: Entity,
    pub position: Vector,
    pub size: Vector,
    pub movement: Movement,
    pub bounces: Bounces,
}

/// Why a tick did not run: a kind that must exist exactly once does not.
#[derive(Clone, Copy, Debug, PartialEq, Eq, Structural)]
pub enum TickError {
    NoPlayer,
    ManyPlayers,
    NoBall,
    ManyBalls,
}

impl TickError {
    /// The diagnostic for each failure, as a sequence of characters.
    pub open spec fn message_spec(self) -> Seq<char> {
        match self {
            TickError::NoPlayer => "the tick needs exactly one player, found none"@,
            TickError::ManyPlayers => "the tick needs exactly one player, found several"@,
            TickError::NoBall => "the tick needs exactly one ball, found none"@,
            TickError::ManyBalls => "the tick needs exactly one ball, found several"@,
        }
    }

    /// A diagnostic that names the demand that failed.
    pub fn message(&self) -> (r: &'static str)
        ensures
            r@ == self.message_spec(),
    {
        match self {
            TickError::NoPlayer => "the tick needs exactly one player, found none",
            TickError::ManyPlayers => "the tick needs exactly one player, found several",
            TickError::NoBall => "the tick needs exactly one ball, found none",
            TickError::ManyBalls => "the tick needs exactly one ball, found several",
        }
    }
}

impl PlayerBody {
    /// The state a tick can start from.
    pub open spec fn bounded(self) -> bool {
        &&& self.player.bounded()
        &&& self.position.within(COORD_LIMIT as int)
    }

    /// Decides `bounded`.
    pub fn is_bounded(&self) -> (r: bool)
        ensures
            r == self.bounded(),
    {
        self.player.is_bounded() && -COORD_LIMIT <= self.position.x && self.position.x
            <= COORD_LIMIT && -COORD_LIMIT <= self.position.y && self.position.y <= COORD_LIMIT
    }
}

impl BallBody {
    /// The state a tick can start from.
    pub open spec fn bounded(self) -> bool {
        &&& self.movement.bounded()
        &&& self.position.within(COORD_LIMIT as int)
    }

    /// Decides `bounded`.
    pub fn is_bounded(&self) -> (r: bool)
        ensures
            r == self.bounded(),
    {
        self.movement.is_bounded() && -COORD_LIMIT <= self.position.x && self.position.x
            <= COORD_LIMIT && -COORD_LIMIT <= self.position.y && self.position.y <= COORD_LIMIT
    }
}

/// The player after a whole tick: integrated, resolved against the solids,
/// and stopped on each axis that was blocked.
pub open spec fn player_tick_spec(
    config: Config,
    input: Input,
    solids: Seq<Rect>,
    body: PlayerBody,
) -> PlayerBody {
    let integrated = player_movement_spec(config, input, body.player);
    let resolved = resolve_spec(
        config,
        solids,
        body.entity,
        Kind::Player,
        integrated.movement,
        body.position,
        body.size,
    );
    PlayerBody {
        entity: body.entity,
        position: resolved.position,
        size: body.size,
        player: Player {
            movement: match resolved.notification {
                Some(event) => player_response_spec(resolved.movement, event),
                None => resolved.movement,
            },
            jump: integrated.jump,
            facing: integrated.facing,
            racket: integrated.racket,
        },
    }
}

/// The ball's movement after integration.
pub open spec fn ball_integrated_spec(config: Config, movement: Movement) -> Movement {
    Movement {
        velocity: Vector {
            x: movement.velocity.x,
            y: ball_velocity_y_spec(config, movement) as i64,
        },
        velocity_remainder: movement.velocity_remainder,
        on_ground: movement.on_ground,
    }
}

/// The ball after a whole tick: integrated, resolved against the solids, and
/// bounced or landed where it was blocked.
pub open spec fn ball_tick_spec(config: Config, solids: Seq<Rect>, body: BallBody) -> BallBody {
    let resolved = resolve_spec(
        config,
        solids,
        body.entity,
        Kind::Ball,
        ball_integrated_spec(config, body.movement),
        body.position,
        body.size,
    );
    match resolved.notification {
        Some(event) => BallBody {
            entity: body.entity,
            position: resolved.position,
            size: body.size,
            movement: ball_response_spec(config, resolved.movement, body.bounces, event),
            bounces: ball_bounces_spec(config, body.bounces, event),
        },
        None => BallBody {
            entity: body.entity,
            position: resolved.position,
            size: body.size,
            movement: resolved.movement,
            bounces: body.bounces,
        },
    }
}

/// Runs the player's part of a tick, in order: integrator, resolver,
/// response. Also returns the locomotion signal of this tick.
pub fn player_tick(config: &Config, input: &Input, solids: &Vec<Rect>, body: PlayerBody) -> (r: (
    PlayerBody,
    Locomotion,
))
    requires
        config.wf(),
        body.bounded(),
    ensures
        r.0 == player_tick_spec(*config, *input, solids@, body),
        r.1 == locomotion_spec(*input, body.player.movement),
        r.0.player.bounded(),
{
    let (integrated, locomotion) = player_movement_system(config, input, body.player);
    let resolved = collision_system(
        config,
        solids,
        body.entity,
        Kind::Player,
        integrated.movement,
        body.position,
        body.size,
    );
    let movement = match resolved.notification {
        Some(event) => player_collision_response_system(resolved.movement, &event),
        None => resolved.movement,
    };
    (
        PlayerBody {
            entity: body.entity,
            position: resolved.position,
            size: body.size,
            player: Player {
                movement,
                jump: integrated.jump,
                facing: integrated.facing,
                racket: integrated.racket,
            },
        },
        locomotion,
    )
}

/// Runs the ball's part of a tick, in order: integrator, resolver, response.
pub fn ball_tick(config: &Config, solids: &Vec<Rect>, body: BallBody) -> (r: BallBody)
    requires
        config.wf(),
        body.bounded(),
    ensures
        r == ball_tick_spec(*config, solids@, body),
{
    let integrated = ball_movement_system(config, body.movement);
    let resolved = collision_system(
        config,
        solids,
        body.entity,
        Kind::Ball,
        integrated,
        body.position,
        body.size,
    );
    match resolved.notification {
        Some(event) => {
            let (movement, bounces) = ball_collision_response_system(
                config,
                resolved.movement,
                body.bounces,
                &event,
            );
            BallBody {
                entity: body.entity,
                position: resolved.position,
                size: body.size,
                movement,
                bounces,
            }
        },
        None => BallBody {
            entity: body.entity,
            position: resolved.position,
            size: body.size,
            movement: resolved.movement,
            bounces: body.bounces,
        },
    }
}

/// Which singleton demand, if any, the entity counts break. The player is
/// looked at first.
pub open spec fn singleton_error_spec(players: nat, balls: nat) -> Option<TickError> {
    if players == 0 {
        Some(TickError::NoPlayer)
    } else if players > 1 {
        Some(TickError::ManyPlayers)
    } else if balls == 0 {
        Some(TickError::NoBall)
    } else if balls > 1 {
        Some(TickError::ManyBalls)
    } else {
        None
    }
}

/// Runs one tick of the simulation. There must be exactly one player and
/// exactly one ball: otherwise nothing is computed and the error names the
/// demand that failed.
pub fn tick(
    config: &Config,
    input: &Input,
    solids: &Vec<Rect>,
    players: &Vec<PlayerBody>,
    balls: &Vec<BallBody>,
) -> (r: Result<(PlayerBody, Locomotion, BallBody), TickError>)
    requires
        config.wf(),
        players.len() == 1 ==> players[0].bounded(),
        balls.len() == 1 ==> balls[0].bounded(),
    ensures
        match singleton_error_spec(players@.len(), balls@.len()) {
            Some(error) => r == Err::<(PlayerBody, Locomotion, BallBody), TickError>(error),
            None => r == Ok::<(PlayerBody, Locomotion, BallBody), TickError>(
                (
                    player_tick_spec(*config, *input, solids@, players[0]),
                    locomotion_spec(*input, players[0].player.movement),
                    ball_tick_spec(*config, solids@, balls[0]),
                ),
            ),
        },
{
    if players.len() == 0 {
        return Err(TickError::NoPlayer);
    }
    if players.len() > 1 {
        return Err(TickError::ManyPlayers);
    }
    if balls.len() == 0 {
        return Err(TickError::NoBall);
    }
    if balls.len() > 1 {
        return Err(TickError::ManyBalls);
    }
    let (player, locomotion) = player_tick(config, input, solids, players[0]);
    let ball = ball_tick(config, solids, balls[0]);
    Ok((player, locomotion, ball))
}

/// After a whole tick of either kind, from any state a tick can start from,
/// the remainder on each axis is below one pixel: at most half of one.
pub proof fn law_remainder_below_one_pixel(
    config: Config,
    input: Input,
    solids: Seq<Rect>,
    player: PlayerBody,
    ball: BallBody,
)
    requires
        config.wf(),
        player.bounded(),
        ball.bounded(),
    ensures
        abs_spec(
            player_tick_spec(config, input, solids, player).player.movement.velocity_remainder.x
                as int,
        ) < config.units_per_pixel,
        abs_spec(
            player_tick_spec(config, input, solids, player).player.movement.velocity_remainder.y
                as int,
        ) < config.units_per_pixel,
        abs_spec(ball_tick_spec(config, solids, ball).movement.velocity_remainder.x as int)
            < config.units_per_pixel,
        abs_spec(ball_tick_spec(config, solids, ball).movement.velocity_remainder.y as int)
            < config.units_per_pixel,
{
    lemma_player_movement_bounded(config, input, player.player);
    let walked = player_movement_spec(config, input, player.player).movement;
    law_carry_below_one_pixel(
        walked.velocity_remainder.x as int,
        walked.velocity.x as int,
        config.units_per_pixel as int,
    );
    law_carry_below_one_pixel(
        walked.velocity_remainder.y as int,
        walked.velocity.y as int,
        config.units_per_pixel as int,
    );
    let thrown = ball_integrated_spec(config, ball.movement);
    law_carry_below_one_pixel(
        thrown.velocity_remainder.x as int,
        thrown.velocity.x as int,
        config.units_per_pixel as int,
    );
    law_carry_below_one_pixel(
        thrown.velocity_remainder.y as int,
        thrown.velocity.y as int,
        config.units_per_pixel as int,
    );
}

/// The response of a kind sees what the resolver reported in the same tick:
/// a player blocked on an axis ends the tick with no velocity on it.
pub proof fn law_blocked_player_is_stopped(
    config: Config,
    input: Input,
    solids: Seq<Rect>,
    body: PlayerBody,
)
    ensures
        ({
            let integrated = player_movement_spec(config, input, body.player);
            let resolved = resolve_spec(
                config,
                solids,
                body.entity,
                Kind::Player,
                integrated.movement,
                body.position,
                body.size,
            );
            let after = player_tick_spec(config, input, solids, body);
            match resolved.notification {
                Some(event) => (event.collided_x ==> after.player.movement.velocity.x == 0) && (
                event.collided_y ==> after.player.movement.velocity.y == 0
                    && after.player.movement.on_ground),
                None => after.player.movement.velocity == integrated.movement.velocity,
            }
        }),
{
}

} // verus!
