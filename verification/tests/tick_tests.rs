use platformer_physics::geometry::{Rect, Vector, COORD_LIMIT};
use platformer_physics::integrator::Player;
use platformer_physics::state::{
    Bounces, Config, Entity, Facing, Input, Jump, Key, Locomotion, Movement,
};
use platformer_physics::tick::{ball_tick, player_tick, tick, BallBody, PlayerBody, TickError};

fn ground() -> Vec<Rect> {
    // Top edge at y = 0.
    vec![Rect::new(0, -8, 400, 16)]
}

fn resting_player() -> PlayerBody {
    PlayerBody {
        entity: Entity(1),
        position: Vector::new(0, 16),
        size: Vector::new(32, 32),
        player: Player {
            movement: Movement { on_ground: true, ..Movement::zeroed() },
            jump: Jump { var_jump_timer: 0, var_jump_speed: 0 },
            facing: Facing::Right,
            racket: false,
        },
    }
}

fn ball_at(y: i64, vy: i64) -> BallBody {
    BallBody {
        entity: Entity(2),
        position: Vector::new(64, y),
        size: Vector::new(16, 16),
        movement: Movement { velocity: Vector::new(0, vy), ..Movement::zeroed() },
        bounces: Bounces(0),
    }
}

fn held() -> Key {
    Key { held: true, just_pressed: false, just_released: false }
}

#[test]
fn player_at_rest_stays_on_the_ground() {
    let config = Config::standard();
    let solids = ground();
    let mut body = resting_player();
    // A quarter pixel is already owed, so this tick asks for a step.
    body.player.movement.velocity_remainder.y = 900;
    let (after, locomotion) = player_tick(&config, &Input::none(), &solids, body);
    assert_eq!(after.position, Vector::new(0, 16));
    assert_eq!(after.player.movement.velocity, Vector::new(0, 0));
    assert_eq!(after.player.movement.velocity_remainder, Vector::new(0, -1800));
    assert!(after.player.movement.on_ground);
    assert_eq!(locomotion, Locomotion::Idle);
    assert_eq!(after.player.jump, body.player.jump);
    assert_eq!(after.entity, Entity(1));
    assert_eq!(after.size, Vector::new(32, 32));
}

#[test]
fn player_at_rest_over_many_ticks() {
    let config = Config::standard();
    let solids = ground();
    let mut body = resting_player();
    // First tick: gravity gives 15 px/s, a quarter pixel, and no step yet,
    // so nothing blocks and the flag is cleared.
    body = player_tick(&config, &Input::none(), &solids, body).0;
    assert_eq!(body.player.movement.velocity, Vector::new(0, 900));
    assert_eq!(body.player.movement.velocity_remainder, Vector::new(0, 900));
    assert!(!body.player.movement.on_ground);
    // Second tick: the step is due, the ground blocks it, the response stops the fall.
    body = player_tick(&config, &Input::none(), &solids, body).0;
    assert_eq!(body.player.movement.velocity, Vector::new(0, 0));
    assert_eq!(body.player.movement.velocity_remainder, Vector::new(0, -900));
    assert!(body.player.movement.on_ground);
    let mut grounded_ticks = 0;
    for _ in 0..600 {
        let before = body;
        body = player_tick(&config, &Input::none(), &solids, body).0;
        assert_eq!(body.position, Vector::new(0, 16));
        assert_eq!(body.player.movement.velocity.x, 0);
        assert!(body.player.movement.velocity_remainder.y.abs() < config.units_per_pixel);
        assert!(body.is_bounded());
        // Grounded exactly on the ticks on which the ground blocked a step,
        // and on those the response has stopped the fall.
        if body.player.movement.on_ground {
            grounded_ticks += 1;
            assert_eq!(body.player.movement.velocity.y, 0);
        } else {
            assert!(body.player.movement.velocity.y > before.player.movement.velocity.y);
        }
    }
    assert!(grounded_ticks >= 100);
    assert!(grounded_ticks < 600);
}

#[test]
fn player_running_into_a_wall_one_unit_away() {
    let config = Config::standard();
    let mut solids = ground();
    // Left edge at x = 90; the player's right edge is at 89.
    solids.push(Rect::new(100, 16, 20, 200));
    let mut body = resting_player();
    body.position.x = 73;
    body.player.movement.velocity.x = 5400;
    body.player.movement.velocity_remainder.x = 1800;
    let input = Input { right: held(), ..Input::none() };
    let (after, locomotion) = player_tick(&config, &input, &solids, body);
    assert_eq!(after.position, Vector::new(74, 16));
    assert_eq!(after.player.movement.velocity.x, 0);
    assert_eq!(after.player.movement.velocity_remainder.x, 0);
    assert_eq!(after.player.movement.velocity.y, 900);
    // The wall blocked X only; no Y step was asked this tick.
    assert!(!after.player.movement.on_ground);
    assert_eq!(locomotion, Locomotion::Running);
    assert_eq!(after.player.facing, Facing::Right);
    // Pressed against the wall: no further translation.
    let (again, _) = player_tick(&config, &input, &solids, after);
    assert_eq!(again.position.x, 74);
}

#[test]
fn player_jump_arc_returns_to_the_ground() {
    let config = Config::standard();
    let solids = ground();
    let press = Input {
        jump: Key { held: true, just_pressed: true, just_released: false },
        ..Input::none()
    };
    let hold = Input { jump: held(), ..Input::none() };
    let mut body = player_tick(&config, &press, &solids, resting_player()).0;
    assert_eq!(body.player.movement.velocity.y, -6300);
    assert_eq!(body.player.jump.var_jump_timer, 12);
    assert_eq!(body.position.y, 18);
    assert!(!body.player.movement.on_ground);
    let mut highest = body.position.y;
    let mut landed = false;
    for _ in 0..300 {
        body = player_tick(&config, &hold, &solids, body).0;
        highest = highest.max(body.position.y);
        assert!(body.position.y >= 16);
        if body.player.movement.on_ground {
            landed = true;
            break;
        }
    }
    assert!(landed);
    assert!(highest > 40);
    assert_eq!(body.position.y, 16);
    assert_eq!(body.player.movement.velocity.y, 0);
}

#[test]
fn ball_bounces_once_then_lands() {
    let config = Config::standard();
    let solids = ground();
    // Resting height, 25 px/s before gravity: 50 px/s when it strikes.
    let struck = ball_tick(&config, &solids, ball_at(8, 1500));
    assert_eq!(struck.position, Vector::new(64, 8));
    assert_eq!(struck.movement.velocity.y, -4500);
    assert_eq!(struck.bounces, Bounces(1));
    assert_eq!(struck.movement.velocity_remainder.y, -600);
    // The blocked pass marks it grounded for this tick.
    assert!(struck.movement.on_ground);
    let rising = ball_tick(&config, &solids, struck);
    assert_eq!(rising.position, Vector::new(64, 9));
    assert_eq!(rising.movement.velocity.y, -4500);
    assert_eq!(rising.movement.velocity_remainder.y, -1500);
    assert!(!rising.movement.on_ground);
    assert_eq!(rising.bounces, Bounces(1));
    let mut ball = rising;
    for _ in 0..600 {
        ball = ball_tick(&config, &solids, ball);
        assert!(ball.position.y >= 8);
        if ball.bounces == Bounces(0) {
            break;
        }
    }
    assert_eq!(ball.bounces, Bounces(0));
    assert!(ball.movement.on_ground);
    assert_eq!(ball.movement.velocity.y, 0);
    assert_eq!(ball.position, Vector::new(64, 8));
    assert_eq!(ball.movement.velocity_remainder.y, -1800);
}

#[test]
fn landed_ball_with_nothing_owed_does_not_move() {
    let config = Config::standard();
    let solids = ground();
    let mut ball = ball_at(8, 0);
    ball.movement.on_ground = true;
    ball.movement.velocity_remainder = Vector::new(1799, -1799);
    let still = ball_tick(&config, &solids, ball);
    assert_eq!(still.position, ball.position);
    assert_eq!(still.movement.velocity, Vector::new(0, 0));
    assert_eq!(still.movement.velocity_remainder, Vector::new(1799, -1799));
    assert_eq!(still.bounces, Bounces(0));
    // No Y step was asked, so no contact was seen and the flag is cleared:
    // gravity acts again from the next tick on.
    assert!(!still.movement.on_ground);
    let next = ball_tick(&config, &solids, still);
    assert_eq!(next.movement.velocity.y, 1500);
}

#[test]
fn landed_ball_owing_half_a_pixel_upward_takes_it() {
    // Half a pixel rounds away from zero, so the step is taken although the
    // ball has no velocity, and the free pass clears the grounded flag.
    let config = Config::standard();
    let solids = ground();
    let mut ball = ball_at(8, 0);
    ball.movement.on_ground = true;
    ball.movement.velocity_remainder.y = -1800;
    let moved = ball_tick(&config, &solids, ball);
    assert_eq!(moved.position, Vector::new(64, 9));
    assert_eq!(moved.movement.velocity_remainder.y, 1800);
    assert_eq!(moved.movement.velocity, Vector::new(0, 0));
    assert!(!moved.movement.on_ground);
}

#[test]
fn ball_in_free_fall_gains_speed_up_to_the_cap() {
    let config = Config::standard();
    let solids: Vec<Rect> = Vec::new();
    let mut ball = ball_at(0, 0);
    let mut last = 0;
    for _ in 0..20 {
        ball = ball_tick(&config, &solids, ball);
        assert!(ball.movement.velocity.y >= last);
        last = ball.movement.velocity.y;
        assert_eq!(ball.bounces, Bounces(0));
    }
    assert_eq!(ball.movement.velocity.y, 14_400);
    assert!(ball.position.y < 0);
    assert_eq!(ball.position.x, 64);
}

#[test]
fn tick_runs_both_kinds() {
    let config = Config::standard();
    let solids = ground();
    let players = vec![resting_player()];
    let balls = vec![ball_at(8, 1500)];
    let input = Input { left: held(), ..Input::none() };
    let (player, locomotion, ball) = tick(&config, &input, &solids, &players, &balls).unwrap();
    assert_eq!((player, locomotion), player_tick(&config, &input, &solids, players[0]));
    assert_eq!(ball, ball_tick(&config, &solids, balls[0]));
    assert_eq!(locomotion, Locomotion::Running);
    assert_eq!(player.player.movement.velocity.x, -1000);
    assert_eq!(player.player.facing, Facing::Left);
    assert_eq!(ball.bounces, Bounces(1));
}

#[test]
fn tick_without_a_player_fails() {
    let config = Config::standard();
    let solids = ground();
    let r = tick(&config, &Input::none(), &solids, &Vec::new(), &vec![ball_at(8, 0)]);
    assert_eq!(r, Err(TickError::NoPlayer));
    let r = tick(&config, &Input::none(), &solids, &Vec::new(), &Vec::new());
    assert_eq!(r, Err(TickError::NoPlayer));
}

#[test]
fn tick_with_two_players_fails() {
    let config = Config::standard();
    let solids = ground();
    let players = vec![resting_player(), resting_player()];
    let r = tick(&config, &Input::none(), &solids, &players, &vec![ball_at(8, 0)]);
    assert_eq!(r, Err(TickError::ManyPlayers));
}

#[test]
fn tick_without_a_ball_fails() {
    let config = Config::standard();
    let solids = ground();
    let r = tick(&config, &Input::none(), &solids, &vec![resting_player()], &Vec::new());
    assert_eq!(r, Err(TickError::NoBall));
}

#[test]
fn tick_with_two_balls_fails() {
    let config = Config::standard();
    let solids = ground();
    let balls = vec![ball_at(8, 0), ball_at(30, 0), ball_at(50, 0)];
    let r = tick(&config, &Input::none(), &solids, &vec![resting_player()], &balls);
    assert_eq!(r, Err(TickError::ManyBalls));
}

#[test]
fn bodies_know_their_bounds() {
    let mut player = resting_player();
    assert!(player.is_bounded());
    player.position.x = COORD_LIMIT;
    assert!(player.is_bounded());
    player.position.x = COORD_LIMIT + 1;
    assert!(!player.is_bounded());
    let mut ball = ball_at(0, 0);
    assert!(ball.is_bounded());
    ball.position.y = -COORD_LIMIT - 1;
    assert!(!ball.is_bounded());
    ball.position.y = 0;
    ball.movement.velocity.x = i64::MAX;
    assert!(!ball.is_bounded());
}

#[test]
fn each_error_names_what_failed() {
    assert_eq!(TickError::NoPlayer.message(), "the tick needs exactly one player, found none");
    assert_eq!(TickError::ManyPlayers.message(), "the tick needs exactly one player, found several");
    assert_eq!(TickError::NoBall.message(), "the tick needs exactly one ball, found none");
    assert_eq!(TickError::ManyBalls.message(), "the tick needs exactly one ball, found several");
}

#[test]
fn player_is_looked_at_before_the_ball() {
    let config = Config::standard();
    let solids = ground();
    let two = vec![resting_player(), resting_player()];
    let r = tick(&config, &Input::none(), &solids, &two, &Vec::new());
    assert_eq!(r, Err(TickError::ManyPlayers));
}
