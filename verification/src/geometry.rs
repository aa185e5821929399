//! Integer vectors, axis-aligned rectangles and the overlap test against the
//! static solids.

use vstd::prelude::*;

verus! {

/// A pair of integers: a position in pixels, an extent in pixels, or a
/// velocity or remainder in fixed-point units.
#[derive(Clone, Copy, Debug, PartialEq, Eq, Structural)]
pub struct Vector {
    pub x: i64,
    pub y: i64,
}

/// An axis-aligned rectangle given by its centre and its full extent.
#[derive(Clone, Copy, Debug, PartialEq, Eq, Structural)]
pub struct Rect {
    pub x: i64,
    pub y: i64,
    pub width: i64,
    pub height: i64,
}

/// Largest magnitude of a coordinate or extent of a moving entity.
pub const COORD_LIMIT: i64 = 0x1000_0000_0000_0000;

/// Whether a rectangle centred at `(ax, ay)` with extent `(aw, ah)` shares
/// area with one centred at `(bx, by)` with extent `(bw, bh)`. Touching edges
/// share none. Stated on doubled coordinates so that odd extents stay exact.
pub open spec fn overlap_spec(
    ax: int,
    ay: int,
    aw: int,
    ah: int,
    bx: int,
    by: int,
    bw: int,
    bh: int,
) -> bool {
    &&& 2 * ax - aw < 2 * bx + bw
    &&& 2 * ax + aw > 2 * bx - bw
    &&& 2 * ay - ah < 2 * by + bh
    &&& 2 * ay + ah > 2 * by - bh
}

/// Whether a body of extent `size` centred at `(x, y)` overlaps any solid.
pub open spec fn blocked_at(solids: Seq<Rect>, x: int, y: int, size: Vector) -> bool {
    exists|i: int|
        0 <= i < solids.len() && #[trigger] solids[i].overlaps_body(x, y, size)
}

impl Vector {
    /// Both components within `limit` in magnitude.
    pub open spec fn within(self, limit: int) -> bool {
        &&& -limit <= self.x <= limit
        &&& -limit <= self.y <= limit
    }

    pub fn new(x: i64, y: i64) -> (r: Vector)
        ensures
            r.x == x,
            r.y == y,
    {
        Vector { x, y }
    }
}

impl Rect {
    /// Whether this solid overlaps a body of extent `size` centred at `(x, y)`.
    pub open spec fn overlaps_body(self, x: int, y: int, size: Vector) -> bool {
        overlap_spec(
            self.x as int,
            self.y as int,
            self.width as int,
            self.height as int,
            x,
            y,
            size.x as int,
            size.y as int,
        )
    }

    pub fn new(x: i64, y: i64, width: i64, height: i64) -> (r: Rect)
        ensures
            r.x == x,
            r.y == y,
            r.width == width,
            r.height == height,
    {
        Rect { x, y, width, height }
    }

    /// Tests this rectangle against a body of extent `size` centred at
    /// `centre`: true exactly when the two share area.
    pub fn overlaps(&self, centre: Vector, size: Vector) -> (hit: bool)
        ensures
            hit == self.overlaps_body(centre.x as int, centre.y as int, size),
    {
        let ax: i128 = 2 * (self.x as i128);
        let ay: i128 = 2 * (self.y as i128);
        let aw: i128 = self.width as i128;
        let ah: i128 = self.height as i128;
        let bx: i128 = 2 * (centre.x as i128);
        let by: i128 = 2 * (centre.y as i128);
        let bw: i128 = size.x as i128;
        let bh: i128 = size.y as i128;
        ax - aw < bx + bw && ax + aw > bx - bw && ay - ah < by + bh && ay + ah > by - bh
    }
}

/// Overlap does not depend on which rectangle is named first.
pub proof fn law_overlap_symmetric(a: Rect, b: Rect)
    ensures
        a.overlaps_body(b.x as int, b.y as int, Vector { x: b.width, y: b.height })
            == b.overlaps_body(a.x as int, a.y as int, Vector { x: a.width, y: a.height }),
{
}

/// Tests a body against the full solid set: true exactly when some solid
/// overlaps it.
pub fn hits_solid(solids: &Vec<Rect>, centre: Vector, size: Vector) -> (hit: bool)
    ensures
        hit == blocked_at(solids@, centre.x as int, centre.y as int, size),
{
    let mut i: usize = 0;
    while i < solids.len()
        invariant
            i <= solids.len(),
            forall|j: int|
                0 <= j < i ==> !(#[trigger] solids@[j]).overlaps_body(
                    centre.x as int,
                    centre.y as int,
                    size,
                ),
        decreases solids.len() - i,
    {
        if solids[i].overlaps(centre, size) {
            return true;
        }
        i += 1;
    }
    false
}

/// The number of unit steps, `limit` at most, that a body can take from
/// `(x, y)` in direction `(dx, dy)` before the next step would overlap a
/// solid. The starting position itself is not tested.
pub open spec fn free_steps(
    solids: Seq<Rect>,
    x: int,
    y: int,
    size: Vector,
    dx: int,
    dy: int,
    limit: nat,
) -> nat
    decreases limit,
{
    if limit == 0 || blocked_at(solids, x + dx, y + dy, size) {
        0
    } else {
        1 + free_steps(solids, x + dx, y + dy, size, dx, dy, (limit - 1) as nat)
    }
}

/// What `free_steps` counts: every position up to the count is free of
/// solids, and when the count stops short of `limit` the position after it
/// is blocked.
pub proof fn law_free_steps(
    solids: Seq<Rect>,
    x: int,
    y: int,
    size: Vector,
    dx: int,
    dy: int,
    limit: nat,
)
    ensures
        free_steps(solids, x, y, size, dx, dy, limit) <= limit,
        forall|j: int|
            1 <= j <= free_steps(solids, x, y, size, dx, dy, limit) ==> !#[trigger] blocked_at(
                solids,
                x + j * dx,
                y + j * dy,
                size,
            ),
        free_steps(solids, x, y, size, dx, dy, limit) < limit ==> blocked_at(
            solids,
            x + (free_steps(solids, x, y, size, dx, dy, limit) + 1) * dx,
            y + (free_steps(solids, x, y, size, dx, dy, limit) + 1) * dy,
            size,
        ),
    decreases limit,
{
    if limit == 0 || blocked_at(solids, x + dx, y + dy, size) {
        assert(1 * dx == dx && 1 * dy == dy);
    } else {
        let rest = free_steps(solids, x + dx, y + dy, size, dx, dy, (limit - 1) as nat);
        law_free_steps(solids, x + dx, y + dy, size, dx, dy, (limit - 1) as nat);
        assert forall|j: int| 1 <= j <= rest + 1 implies !#[trigger] blocked_at(
            solids,
            x + j * dx,
            y + j * dy,
            size,
        ) by {
            assert(x + j * dx == (x + dx) + (j - 1) * dx) by (nonlinear_arith);
            assert(y + j * dy == (y + dy) + (j - 1) * dy) by (nonlinear_arith);
            if j == 1 {
                assert(x + j * dx == x + dx);
                assert(y + j * dy == y + dy);
            } else {
                assert(!blocked_at(solids, (x + dx) + (j - 1) * dx, (y + dy) + (j - 1) * dy, size));
            }
        }
        if rest + 1 < limit {
            assert(x + (rest + 1 + 1) * dx == (x + dx) + (rest + 1) * dx) by (nonlinear_arith);
            assert(y + (rest + 1 + 1) * dy == (y + dy) + (rest + 1) * dy) by (nonlinear_arith);
        }
    }
}

/// A body whose first unit step is blocked takes no step at all.
pub proof fn law_blocked_first_step(
    solids: Seq<Rect>,
    x: int,
    y: int,
    size: Vector,
    dx: int,
    dy: int,
    limit: nat,
)
    requires
        blocked_at(solids, x + dx, y + dy, size),
    ensures
        free_steps(solids, x, y, size, dx, dy, limit) == 0,
{
}

} // verus!
