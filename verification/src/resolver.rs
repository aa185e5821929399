//! The discrete collision resolver: turns a tick's displacement into whole
//! pixel steps and walks them one by one against the solids, X first, then Y.

use crate::geometry::{blocked_at, free_steps, hits_solid, law_free_steps, Rect, Vector, COORD_LIMIT};
use crate::math::{abs_spec, lemma_round_error, round_spec, sign, sign_spec, whole_pixels};
use crate::state::{CollisionNotification, Config, Entity, Kind, Movement, SPEED_LIMIT};
use vstd::prelude::*;

verus! {

/// What a resolver run leaves behind.
#[derive(Clone, Copy, Debug, PartialEq, Eq, Structural)]
pub struct Resolution {
    pub movement: Movement,
    pub position: Vector,
    /// Present exactly when an axis was blocked.
    pub notification: Option<CollisionNotification>,
}

/// Whole pixel steps that an axis attempts this tick: the remainder plus the
/// velocity, rounded to the nearest pixel.
pub open spec fn steps_spec(remainder: int, velocity: int, units_per_pixel: int) -> int {
    round_spec(remainder + velocity, units_per_pixel)
}

/// What the axis carries into the next tick: the displacement that the
/// attempted steps do not account for.
pub open spec fn carry_spec(remainder: int, velocity: int, units_per_pixel: int) -> int {
    remainder + velocity - steps_spec(remainder, velocity, units_per_pixel) * units_per_pixel
}

/// Signed pixels travelled along X. Positive velocity moves toward larger x.
pub open spec fn travel_x_spec(
    config: Config,
    solids: Seq<Rect>,
    movement: Movement,
    position: Vector,
    size: Vector,
) -> int {
    let steps = steps_spec(
        movement.velocity_remainder.x as int,
        movement.velocity.x as int,
        config.units_per_pixel as int,
    );
    sign_spec(steps) * free_steps(
        solids,
        position.x as int,
        position.y as int,
        size,
        sign_spec(steps),
        0,
        abs_spec(steps) as nat,
    )
}

/// Signed velocity-direction pixels travelled along Y, starting where the X
/// pass ended. Positive velocity is a fall and moves toward smaller y.
pub open spec fn travel_y_spec(
    config: Config,
    solids: Seq<Rect>,
    movement: Movement,
    position: Vector,
    size: Vector,
) -> int {
    let steps = steps_spec(
        movement.velocity_remainder.y as int,
        movement.velocity.y as int,
        config.units_per_pixel as int,
    );
    sign_spec(steps) * free_steps(
        solids,
        position.x + travel_x_spec(config, solids, movement, position, size),
        position.y as int,
        size,
        0,
        -sign_spec(steps),
        abs_spec(steps) as nat,
    )
}

/// Whether the X pass was blocked before its last step.
pub open spec fn collided_x_spec(
    config: Config,
    solids: Seq<Rect>,
    movement: Movement,
    position: Vector,
    size: Vector,
) -> bool {
    travel_x_spec(config, solids, movement, position, size) != steps_spec(
        movement.velocity_remainder.x as int,
        movement.velocity.x as int,
        config.units_per_pixel as int,
    )
}

/// Whether the Y pass was blocked before its last step.
pub open spec fn collided_y_spec(
    config: Config,
    solids: Seq<Rect>,
    movement: Movement,
    position: Vector,
    size: Vector,
) -> bool {
    travel_y_spec(config, solids, movement, position, size) != steps_spec(
        movement.velocity_remainder.y as int,
        movement.velocity.y as int,
        config.units_per_pixel as int,
    )
}

/// The whole outcome of a resolver run.
pub open spec fn resolve_spec(
    config: Config,
    solids: Seq<Rect>,
    entity: Entity,
    kind: Kind,
    movement: Movement,
    position: Vector,
    size: Vector,
) -> Resolution {
    let collided_x = collided_x_spec(config, solids, movement, position, size);
    let collided_y = collided_y_spec(config, solids, movement, position, size);
    Resolution {
        movement: Movement {
            velocity: movement.velocity,
            velocity_remainder: Vector {
                x: carry_spec(
                    movement.velocity_remainder.x as int,
                    movement.velocity.x as int,
                    config.units_per_pixel as int,
                ) as i64,
                y: carry_spec(
                    movement.velocity_remainder.y as int,
                    movement.velocity.y as int,
                    config.units_per_pixel as int,
                ) as i64,
            },
            on_ground: collided_y,
        },
        position: Vector {
            x: (position.x + travel_x_spec(config, solids, movement, position, size)) as i64,
            y: (position.y - travel_y_spec(config, solids, movement, position, size)) as i64,
        },
        notification: if collided_x || collided_y {
            Some(CollisionNotification { entity, kind, collided_x, collided_y })
        } else {
            None
        },
    }
}

/// Walks up to `count` unit steps from `start` in direction `(dx, dy)`,
/// testing each next position against every solid before committing it, and
/// stops at the first blocked step.
pub fn walk(solids: &Vec<Rect>, start: Vector, size: Vector, dx: i64, dy: i64, count: i64) -> (r: (
    Vector,
    bool,
))
    requires
        -1 <= dx <= 1,
        -1 <= dy <= 1,
        0 <= count <= 4 * SPEED_LIMIT,
        start.within(COORD_LIMIT + 4 * SPEED_LIMIT),
    ensures
        r.0.x == start.x + dx * free_steps(
            solids@,
            start.x as int,
            start.y as int,
            size,
            dx as int,
            dy as int,
            count as nat,
        ),
        r.0.y == start.y + dy * free_steps(
            solids@,
            start.x as int,
            start.y as int,
            size,
            dx as int,
            dy as int,
            count as nat,
        ),
        r.1 == (free_steps(
            solids@,
            start.x as int,
            start.y as int,
            size,
            dx as int,
            dy as int,
            count as nat,
        ) < count),
{
    let ghost total = free_steps(
        solids@,
        start.x as int,
        start.y as int,
        size,
        dx as int,
        dy as int,
        count as nat,
    );
    let ghost mut taken: int = 0;
    let mut position = start;
    let mut left: i64 = count;
    let mut collided = false;
    assert(dx * 0 == 0 && dy * 0 == 0);
    while left != 0 && !collided
        invariant
            -1 <= dx <= 1,
            -1 <= dy <= 1,
            0 <= left <= count <= 4 * SPEED_LIMIT,
            start.within(COORD_LIMIT + 4 * SPEED_LIMIT),
            0 <= taken <= count,
            -taken <= dx * taken <= taken,
            -taken <= dy * taken <= taken,
            position.x == start.x + dx * taken,
            position.y == start.y + dy * taken,
            total == free_steps(
                solids@,
                start.x as int,
                start.y as int,
                size,
                dx as int,
                dy as int,
                count as nat,
            ),
            collided ==> taken == total && total < count,
            !collided ==> taken + left == count && taken + free_steps(
                solids@,
                position.x as int,
                position.y as int,
                size,
                dx as int,
                dy as int,
                left as nat,
            ) == total,
        decreases left + (if collided { 0int } else { 1int }),
    {
        let next = Vector { x: position.x + dx, y: position.y + dy };
        if hits_solid(solids, next, size) {
            collided = true;
        } else {
            proof {
                assert(dx * (taken + 1) == dx * taken + dx) by (nonlinear_arith);
                assert(dy * (taken + 1) == dy * taken + dy) by (nonlinear_arith);
                taken = taken + 1;
            }
            position = next;
            left = left - 1;
        }
    }
    (position, collided)
}

/// Resolves one tick of movement for the single entity of `kind`.
///
/// The velocity is added to the remainder. On each axis the nearest whole
/// number of pixels is taken out of the remainder and walked step by step;
/// the walk stops at the first step that would overlap a solid. After the Y
/// pass `on_ground` says whether that pass was blocked this tick, by a floor
/// or a ceiling alike; a pass that attempts no step is not blocked, so it
/// clears the flag. A notification is returned exactly when an axis was
/// blocked.
pub fn collision_system(
    config: &Config,
    solids: &Vec<Rect>,
    entity: Entity,
    kind: Kind,
    movement: Movement,
    position: Vector,
    size: Vector,
) -> (r: Resolution)
    requires
        config.wf(),
        movement.bounded(),
        position.within(COORD_LIMIT as int),
    ensures
        r == resolve_spec(*config, solids@, entity, kind, movement, position, size),
        r.movement.on_ground == collided_y_spec(*config, solids@, movement, position, size),
        r.movement.velocity_remainder.x == carry_spec(
            movement.velocity_remainder.x as int,
            movement.velocity.x as int,
            config.units_per_pixel as int,
        ),
        r.movement.velocity_remainder.y == carry_spec(
            movement.velocity_remainder.y as int,
            movement.velocity.y as int,
            config.units_per_pixel as int,
        ),
        2 * abs_spec(r.movement.velocity_remainder.x as int) <= config.units_per_pixel,
        2 * abs_spec(r.movement.velocity_remainder.y as int) <= config.units_per_pixel,
        abs_spec(r.movement.velocity_remainder.x as int) < config.units_per_pixel,
        abs_spec(r.movement.velocity_remainder.y as int) < config.units_per_pixel,
        r.position.x == position.x + travel_x_spec(*config, solids@, movement, position, size),
        r.position.y == position.y - travel_y_spec(*config, solids@, movement, position, size),
        abs_spec(r.position.x - position.x) <= 2 * SPEED_LIMIT,
        abs_spec(r.position.y - position.y) <= 2 * SPEED_LIMIT,
{
    let unit: i64 = config.units_per_pixel;
    let total_x: i64 = movement.velocity_remainder.x + movement.velocity.x;
    let total_y: i64 = movement.velocity_remainder.y + movement.velocity.y;
    proof {
        lemma_round_error(total_x as int, unit as int);
        lemma_round_error(total_y as int, unit as int);
    }
    let move_x: i64 = whole_pixels(total_x, unit);
    let move_y: i64 = whole_pixels(total_y, unit);
    assert(-2 * SPEED_LIMIT * unit <= move_x * unit <= 2 * SPEED_LIMIT * unit) by (nonlinear_arith)
        requires
            -2 * SPEED_LIMIT <= move_x <= 2 * SPEED_LIMIT,
            1 <= unit,
    ;
    assert(-2 * SPEED_LIMIT * unit <= move_y * unit <= 2 * SPEED_LIMIT * unit) by (nonlinear_arith)
        requires
            -2 * SPEED_LIMIT <= move_y <= 2 * SPEED_LIMIT,
            1 <= unit,
    ;
    assert(2 * SPEED_LIMIT * unit <= 2 * SPEED_LIMIT * SPEED_LIMIT) by (nonlinear_arith)
        requires
            1 <= unit <= SPEED_LIMIT,
    ;
    let carry_x: i64 = total_x - move_x * unit;
    let carry_y: i64 = total_y - move_y * unit;

    let sign_x: i64 = sign(move_x);
    let count_x: i64 = if move_x < 0 { -move_x } else { move_x };
    let (after_x, collided_x) = walk(solids, position, size, sign_x, 0, count_x);
    assert(0 * free_steps(
        solids@,
        position.x as int,
        position.y as int,
        size,
        sign_x as int,
        0,
        count_x as nat,
    ) == 0);
    assert(after_x.y == position.y);

    let sign_y: i64 = sign(move_y);
    let count_y: i64 = if move_y < 0 { -move_y } else { move_y };
    let ghost run_x = free_steps(
        solids@,
        position.x as int,
        position.y as int,
        size,
        sign_x as int,
        0,
        count_x as nat,
    );
    proof {
        law_free_steps(
            solids@,
            position.x as int,
            position.y as int,
            size,
            sign_x as int,
            0,
            count_x as nat,
        );
        assert(-run_x <= sign_x * run_x <= run_x) by (nonlinear_arith)
            requires
                -1 <= sign_x <= 1,
                run_x >= 0,
        ;
    }
    let (after_y, collided_y) = walk(solids, after_x, size, 0, -sign_y, count_y);
    let ghost run_y = free_steps(
        solids@,
        after_x.x as int,
        after_x.y as int,
        size,
        0,
        -sign_y as int,
        count_y as nat,
    );
    proof {
        assert(0 * run_y == 0);
        assert(after_y.x == after_x.x);
        assert((-sign_y) * run_y == -(sign_y * run_y)) by (nonlinear_arith);
        assert(sign_x * run_x != move_x <==> run_x < count_x) by (nonlinear_arith)
            requires
                sign_x == sign_spec(move_x as int),
                count_x == abs_spec(move_x as int),
                0 <= run_x <= count_x,
        ;
        law_free_steps(
            solids@,
            after_x.x as int,
            after_x.y as int,
            size,
            0,
            -sign_y as int,
            count_y as nat,
        );
        assert(sign_y * run_y != move_y <==> run_y < count_y) by (nonlinear_arith)
            requires
                sign_y == sign_spec(move_y as int),
                count_y == abs_spec(move_y as int),
                0 <= run_y <= count_y,
        ;
    }
    let on_ground = collided_y;
    let notification = if collided_x || collided_y {
        Some(CollisionNotification { entity, kind, collided_x, collided_y })
    } else {
        None
    };
    Resolution {
        movement: Movement {
            velocity: movement.velocity,
            velocity_remainder: Vector { x: carry_x, y: carry_y },
            on_ground,
        },
        position: after_y,
        notification,
    }
}

/// An X pass whose first step is blocked moves nothing and reports the
/// contact.
pub proof fn law_blocked_x_stays(
    config: Config,
    solids: Seq<Rect>,
    movement: Movement,
    position: Vector,
    size: Vector,
)
    requires
        steps_spec(
            movement.velocity_remainder.x as int,
            movement.velocity.x as int,
            config.units_per_pixel as int,
        ) != 0,
        blocked_at(
            solids,
            position.x + sign_spec(
                steps_spec(
                    movement.velocity_remainder.x as int,
                    movement.velocity.x as int,
                    config.units_per_pixel as int,
                ),
            ),
            position.y as int,
            size,
        ),
    ensures
        travel_x_spec(config, solids, movement, position, size) == 0,
        collided_x_spec(config, solids, movement, position, size),
{
    let steps = steps_spec(
        movement.velocity_remainder.x as int,
        movement.velocity.x as int,
        config.units_per_pixel as int,
    );
    assert(sign_spec(steps) * 0 == 0);
}

/// A Y pass whose first step is blocked moves nothing and reports the
/// contact, which is also the grounded flag of that tick.
pub proof fn law_blocked_y_stays(
    config: Config,
    solids: Seq<Rect>,
    movement: Movement,
    position: Vector,
    size: Vector,
)
    requires
        steps_spec(
            movement.velocity_remainder.y as int,
            movement.velocity.y as int,
            config.units_per_pixel as int,
        ) != 0,
        blocked_at(
            solids,
            position.x + travel_x_spec(config, solids, movement, position, size),
            position.y - sign_spec(
                steps_spec(
                    movement.velocity_remainder.y as int,
                    movement.velocity.y as int,
                    config.units_per_pixel as int,
                ),
            ),
            size,
        ),
    ensures
        travel_y_spec(config, solids, movement, position, size) == 0,
        collided_y_spec(config, solids, movement, position, size),
{
    let steps = steps_spec(
        movement.velocity_remainder.y as int,
        movement.velocity.y as int,
        config.units_per_pixel as int,
    );
    assert(sign_spec(steps) * 0 == 0);
}

/// A Y pass that attempts no step is not blocked: the entity does not move
/// along Y and leaves the tick ungrounded, whatever the flag was before.
pub proof fn law_no_y_step_is_not_grounded(
    config: Config,
    solids: Seq<Rect>,
    entity: Entity,
    kind: Kind,
    movement: Movement,
    position: Vector,
    size: Vector,
)
    requires
        steps_spec(
            movement.velocity_remainder.y as int,
            movement.velocity.y as int,
            config.units_per_pixel as int,
        ) == 0,
    ensures
        travel_y_spec(config, solids, movement, position, size) == 0,
        !collided_y_spec(config, solids, movement, position, size),
        !resolve_spec(config, solids, entity, kind, movement, position, size).movement.on_ground,
{
}

/// Whatever the remainder and velocity were, what an axis carries over is
/// less than a pixel: at most half of one.
pub proof fn law_carry_below_one_pixel(remainder: int, velocity: int, units_per_pixel: int)
    requires
        units_per_pixel >= 1,
    ensures
        2 * abs_spec(carry_spec(remainder, velocity, units_per_pixel)) <= units_per_pixel,
        abs_spec(carry_spec(remainder, velocity, units_per_pixel)) < units_per_pixel,
{
    lemma_round_error(remainder + velocity, units_per_pixel);
}

/// An axis never travels further than the steps it attempts, nor against
/// them.
pub proof fn law_travel_within_steps(
    config: Config,
    solids: Seq<Rect>,
    movement: Movement,
    position: Vector,
    size: Vector,
)
    ensures
        abs_spec(travel_x_spec(config, solids, movement, position, size)) <= abs_spec(
            steps_spec(
                movement.velocity_remainder.x as int,
                movement.velocity.x as int,
                config.units_per_pixel as int,
            ),
        ),
        abs_spec(travel_y_spec(config, solids, movement, position, size)) <= abs_spec(
            steps_spec(
                movement.velocity_remainder.y as int,
                movement.velocity.y as int,
                config.units_per_pixel as int,
            ),
        ),
{
    let steps_x = steps_spec(
        movement.velocity_remainder.x as int,
        movement.velocity.x as int,
        config.units_per_pixel as int,
    );
    let steps_y = steps_spec(
        movement.velocity_remainder.y as int,
        movement.velocity.y as int,
        config.units_per_pixel as int,
    );
    let run_x = free_steps(
        solids,
        position.x as int,
        position.y as int,
        size,
        sign_spec(steps_x),
        0,
        abs_spec(steps_x) as nat,
    );
    law_free_steps(
        solids,
        position.x as int,
        position.y as int,
        size,
        sign_spec(steps_x),
        0,
        abs_spec(steps_x) as nat,
    );
    let after_x = position.x + travel_x_spec(config, solids, movement, position, size);
    let run_y = free_steps(
        solids,
        after_x,
        position.y as int,
        size,
        0,
        -sign_spec(steps_y),
        abs_spec(steps_y) as nat,
    );
    law_free_steps(
        solids,
        after_x,
        position.y as int,
        size,
        0,
        -sign_spec(steps_y),
        abs_spec(steps_y) as nat,
    );
    assert(abs_spec(sign_spec(steps_x) * run_x) == run_x || sign_spec(steps_x) * run_x == 0)
        by (nonlinear_arith)
        requires
            -1 <= sign_spec(steps_x) <= 1,
            run_x >= 0,
    ;
    assert(abs_spec(sign_spec(steps_y) * run_y) == run_y || sign_spec(steps_y) * run_y == 0)
        by (nonlinear_arith)
        requires
            -1 <= sign_spec(steps_y) <= 1,
            run_y >= 0,
    ;
}

/// The resolver never moves an entity into a solid: one that starts clear
/// of every solid is still clear after the X pass and after the Y pass,
/// however fast it moves and however thin the solids are.
pub proof fn law_stays_clear(
    config: Config,
    solids: Seq<Rect>,
    movement: Movement,
    position: Vector,
    size: Vector,
)
    requires
        !blocked_at(solids, position.x as int, position.y as int, size),
    ensures
        !blocked_at(
            solids,
            position.x + travel_x_spec(config, solids, movement, position, size),
            position.y as int,
            size,
        ),
        !blocked_at(
            solids,
            position.x + travel_x_spec(config, solids, movement, position, size),
            position.y - travel_y_spec(config, solids, movement, position, size),
            size,
        ),
{
    let steps_x = steps_spec(
        movement.velocity_remainder.x as int,
        movement.velocity.x as int,
        config.units_per_pixel as int,
    );
    let steps_y = steps_spec(
        movement.velocity_remainder.y as int,
        movement.velocity.y as int,
        config.units_per_pixel as int,
    );
    let x = position.x as int;
    let y = position.y as int;
    let dx = sign_spec(steps_x);
    let run_x = free_steps(solids, x, y, size, dx, 0, abs_spec(steps_x) as nat) as int;
    law_free_steps(solids, x, y, size, dx, 0, abs_spec(steps_x) as nat);
    assert(run_x * dx == dx * run_x) by (nonlinear_arith);
    assert(run_x * 0 == 0);
    if run_x >= 1 {
        assert(!blocked_at(solids, x + run_x * dx, y + run_x * 0, size));
    } else {
        assert(dx * run_x == 0);
    }
    let after_x = x + dx * run_x;
    assert(!blocked_at(solids, after_x, y, size));
    let dy = -sign_spec(steps_y);
    let run_y = free_steps(solids, after_x, y, size, 0, dy, abs_spec(steps_y) as nat) as int;
    law_free_steps(solids, after_x, y, size, 0, dy, abs_spec(steps_y) as nat);
    assert(run_y * dy == -(sign_spec(steps_y) * run_y)) by (nonlinear_arith)
        requires
            dy == -sign_spec(steps_y),
    ;
    assert(run_y * 0 == 0);
    if run_y >= 1 {
        assert(!blocked_at(solids, after_x + run_y * 0, y + run_y * dy, size));
    } else {
        assert(sign_spec(steps_y) * run_y == 0);
    }
}

} // verus!
