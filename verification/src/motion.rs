use vstd::prelude::*;
use crate::collision::{collides, colliding, covers, touches_solid};
use crate::forces::{COLLISION_STEP, POSITION_LIMIT, SIZE, VELOCITY_LIMIT};
use crate::math::{cell_of, Bounds, FVec2, B2, SCALE, V2};
use crate::tilemap::Tilemap;

verus! {

/// The box that the actor fills when its top left corner is at `position`.
pub open spec fn actor_box(position: V2) -> B2 {
    B2::square(position, SIZE as int)
}

/// Whether the actor cannot be at `position`: its box would leave the map or
/// reach into a solid tile.
pub open spec fn blocked(map: &Tilemap, position: V2) -> bool {
    colliding(map, actor_box(position))
}

/// The part of the remaining displacement that one step takes: at most one
/// collision step, toward the remaining displacement.
pub open spec fn step_of(energy: int) -> int {
    if energy > COLLISION_STEP {
        COLLISION_STEP as int
    } else if energy < -COLLISION_STEP {
        -COLLISION_STEP
    } else {
        energy
    }
}

/// The absolute value.
pub open spec fn magnitude(v: int) -> int {
    if v >= 0 {
        v
    } else {
        -v
    }
}

/// The state of a stepped move: where the actor is, how fast it goes, and
/// the displacement that is still to be made.
pub struct Sweep {
    pub position: V2,
    pub velocity: V2,
    pub energy: V2,
}

impl Sweep {
    /// The state at the start of a move: the whole velocity is to be made
    /// good as displacement.
    pub open spec fn start(position: V2, velocity: V2) -> Sweep {
        Sweep { position, velocity, energy: velocity }
    }

    /// Whether no displacement remains.
    pub open spec fn done(self) -> bool {
        self.energy.x == 0 && self.energy.y == 0
    }

    /// The displacement that remains, both axes together.
    pub open spec fn remaining(self) -> int {
        magnitude(self.energy.x) + magnitude(self.energy.y)
    }

    /// One step along the x axis. A step that would end blocked is not made:
    /// the actor stays, and loses its horizontal velocity and what remained
    /// of its horizontal displacement.
    pub open spec fn step_x(self, map: &Tilemap) -> Sweep {
        let d = step_of(self.energy.x);
        let moved = V2 { x: self.position.x + d, y: self.position.y };
        if blocked(map, moved) {
            Sweep {
                position: self.position,
                velocity: V2 { x: 0, y: self.velocity.y },
                energy: V2 { x: 0, y: self.energy.y },
            }
        } else {
            Sweep {
                position: moved,
                velocity: self.velocity,
                energy: V2 { x: self.energy.x - d, y: self.energy.y },
            }
        }
    }

    /// One step along the y axis, in the same way.
    pub open spec fn step_y(self, map: &Tilemap) -> Sweep {
        let d = step_of(self.energy.y);
        let moved = V2 { x: self.position.x, y: self.position.y + d };
        if blocked(map, moved) {
            Sweep {
                position: self.position,
                velocity: V2 { x: self.velocity.x, y: 0 },
                energy: V2 { x: self.energy.x, y: 0 },
            }
        } else {
            Sweep {
                position: moved,
                velocity: self.velocity,
                energy: V2 { x: self.energy.x, y: self.energy.y - d },
            }
        }
    }

    /// The whole move: a step along x, then one along y, until no
    /// displacement remains.
    pub open spec fn run(self, map: &Tilemap) -> Sweep
        decreases self.remaining(),
    {
        if self.done() {
            self
        } else {
            self.step_x(map).step_y(map).run(map)
        }
    }

    /// Whether `q` lies in the rectangle that the move could cross: between
    /// the position and the position displaced by all that remains.
    pub open spec fn spans(self, q: V2) -> bool {
        &&& magnitude(q.x - self.position.x) <= magnitude(self.energy.x)
        &&& magnitude(q.y - self.position.y) <= magnitude(self.energy.y)
        &&& (self.energy.x >= 0 ==> q.x >= self.position.x)
        &&& (self.energy.x <= 0 ==> q.x <= self.position.x)
        &&& (self.energy.y >= 0 ==> q.y >= self.position.y)
        &&& (self.energy.y <= 0 ==> q.y <= self.position.y)
    }

    /// A round of steps uses up displacement.
    pub proof fn lemma_round(self, map: &Tilemap)
        requires
            !self.done(),
        ensures
            self.step_x(map).step_y(map).remaining() < self.remaining(),
    {
    }

    /// A move ends with no displacement left. On each axis the actor keeps
    /// its velocity or, where it was stopped, has none.
    pub proof fn lemma_run_settles(self, map: &Tilemap)
        ensures
            self.run(map).done(),
            self.run(map).velocity.x == self.velocity.x || self.run(map).velocity.x == 0,
            self.run(map).velocity.y == self.velocity.y || self.run(map).velocity.y == 0,
        decreases self.remaining(),
    {
        if !self.done() {
            self.step_x(map).step_y(map).lemma_run_settles(map);
        }
    }

    /// On each axis a move makes the whole displacement that remained, or
    /// it was stopped and the actor has no velocity left on that axis.
    pub proof fn lemma_run_whole_or_stopped(self, map: &Tilemap)
        ensures
            self.run(map).position.x == self.position.x + self.energy.x || self.run(
                map,
            ).velocity.x == 0,
            self.run(map).position.y == self.position.y + self.energy.y || self.run(
                map,
            ).velocity.y == 0,
        decreases self.remaining(),
    {
        if !self.done() {
            let next = self.step_x(map).step_y(map);
            next.lemma_run_whole_or_stopped(map);
            next.lemma_run_settles(map);
        }
    }

    /// A move ends within the rectangle that it could cross: on each axis
    /// the actor goes no further than its velocity, and never backward.
    pub proof fn lemma_run_reach(self, map: &Tilemap)
        ensures
            self.spans(self.run(map).position),
        decreases self.remaining(),
    {
        if !self.done() {
            let next = self.step_x(map).step_y(map);
            next.lemma_run_reach(map);
        }
    }

    /// A move keeps the position within its bound.
    pub proof fn lemma_run_within(self, map: &Tilemap)
        requires
            map.wf(),
            self.position.within(POSITION_LIMIT as int),
        ensures
            self.run(map).position.within(POSITION_LIMIT as int),
        decreases self.remaining(),
    {
        if !self.done() {
            let dx = step_of(self.energy.x);
            let moved_x = V2 { x: self.position.x + dx, y: self.position.y };
            if !blocked(map, moved_x) {
                lemma_free_within_map(map, moved_x);
            }
            let after_x = self.step_x(map);
            let dy = step_of(after_x.energy.y);
            let moved_y = V2 { x: after_x.position.x, y: after_x.position.y + dy };
            if !blocked(map, moved_y) {
                lemma_free_within_map(map, moved_y);
            }
            after_x.step_y(map).lemma_run_within(map);
        }
    }

    /// A move that starts where the actor can be ends where the actor can
    /// be: inside the map and clear of every solid tile.
    pub proof fn lemma_run_stays_free(self, map: &Tilemap)
        requires
            !blocked(map, self.position),
        ensures
            !blocked(map, self.run(map).position),
        decreases self.remaining(),
    {
        if !self.done() {
            self.step_x(map).step_y(map).lemma_run_stays_free(map);
        }
    }

    /// Where nothing is in the way, the actor is displaced by exactly its
    /// velocity and keeps it.
    pub proof fn lemma_run_unobstructed(self, map: &Tilemap)
        requires
            forall|q: V2| self.spans(q) ==> !blocked(map, q),
        ensures
            self.run(map).position == self.position.plus(self.energy),
            self.run(map).velocity == self.velocity,
        decreases self.remaining(),
    {
        if !self.done() {
            let dx = step_of(self.energy.x);
            let moved_x = V2 { x: self.position.x + dx, y: self.position.y };
            assert(self.spans(moved_x));
            let after_x = self.step_x(map);
            let dy = step_of(self.energy.y);
            let moved_y = V2 { x: after_x.position.x, y: after_x.position.y + dy };
            assert(self.spans(moved_y));
            let next = after_x.step_y(map);
            assert forall|q: V2| next.spans(q) implies !blocked(map, q) by {
                assert(self.spans(q));
            }
            next.lemma_run_unobstructed(map);
        }
    }

    /// A fall that is stopped ends on the ground. If the actor starts where
    /// it can be, moves straight down and ends the move without vertical
    /// velocity, then it has not moved sideways and is blocked one collision
    /// step below where it ends: something solid, or the edge of the map,
    /// lies right under it.
    pub proof fn lemma_run_stopped_fall(self, map: &Tilemap)
        requires
            map.wf(),
            !blocked(map, self.position),
            self.energy.x == 0,
            self.energy.y >= 0,
            self.velocity.y > 0,
        ensures
            self.run(map).position.x == self.position.x,
            self.run(map).velocity.y == 0 ==> blocked(
                map,
                V2 { x: self.run(map).position.x, y: self.run(map).position.y + COLLISION_STEP },
            ),
        decreases self.remaining(),
    {
        if !self.done() {
            let after_x = self.step_x(map);
            assert(after_x.position == self.position);
            let dy = step_of(after_x.energy.y);
            let moved = V2 { x: after_x.position.x, y: after_x.position.y + dy };
            let next = after_x.step_y(map);
            assert(self.run(map) == next.run(map));
            assert(self.energy.y > 0);
            assert(0 < dy <= COLLISION_STEP);
            if blocked(map, moved) {
                lemma_blocked_below(map, self.position, dy);
                assert(next.done());
                assert(next.run(map) == next);
                assert(next.position == self.position);
            } else {
                assert(next.position == moved);
                assert(next.energy.y == self.energy.y - dy);
                next.lemma_run_stopped_fall(map);
            }
        } else {
            assert(self.run(map) == self);
        }
    }

    /// The actor does not pass through a wall that is one tile thick. If the
    /// whole column `c` of the map is solid, an actor that starts free and
    /// left of the column ends left of it, and one that starts right of it
    /// ends right of it, whatever its velocity.
    pub proof fn lemma_no_tunneling_x(self, map: &Tilemap, c: int)
        requires
            map.wf(),
            0 <= c < map.spec_width(),
            forall|y: int| 0 <= y < map.spec_height() ==> (#[trigger] map.tile_at(c, y)).is_solid(),
            !blocked(map, self.position),
        ensures
            self.position.x + SIZE < c * SCALE ==> self.run(map).position.x + SIZE < c * SCALE,
            self.position.x >= (c + 1) * SCALE ==> self.run(map).position.x >= (c + 1) * SCALE,
        decreases self.remaining(),
    {
        if !self.done() {
            let dx = step_of(self.energy.x);
            let moved = V2 { x: self.position.x + dx, y: self.position.y };
            if !blocked(map, moved) {
                lemma_free_clear_of_column(map, moved, c);
            }
            let next = self.step_x(map).step_y(map);
            next.lemma_no_tunneling_x(map, c);
        }
    }

    /// The same for a wall that does not span the map: it is enough that
    /// column `c` is solid in every row that the box of the actor can reach
    /// in this move, which are the rows from the one that holds `lo` to the
    /// one that holds `hi`, where the box stays between `lo` and `hi` from
    /// the start of the move to the position displaced by all that remains.
    pub proof fn lemma_no_tunneling_x_within(self, map: &Tilemap, c: int, lo: int, hi: int)
        requires
            map.wf(),
            0 <= c < map.spec_width(),
            forall|y: int|
                0 <= y < map.spec_height() && cell_of(lo) <= y <= cell_of(hi) ==> (
                #[trigger] map.tile_at(c, y)).is_solid(),
            lo <= self.position.y,
            self.position.y + SIZE <= hi,
            lo <= self.position.y + self.energy.y,
            self.position.y + self.energy.y + SIZE <= hi,
            !blocked(map, self.position),
        ensures
            self.position.x + SIZE < c * SCALE ==> self.run(map).position.x + SIZE < c * SCALE,
            self.position.x >= (c + 1) * SCALE ==> self.run(map).position.x >= (c + 1) * SCALE,
        decreases self.remaining(),
    {
        if !self.done() {
            let dx = step_of(self.energy.x);
            let moved = V2 { x: self.position.x + dx, y: self.position.y };
            if !blocked(map, moved) {
                lemma_free_clear_of_column_within(map, moved, c, lo, hi);
            }
            let next = self.step_x(map).step_y(map);
            next.lemma_no_tunneling_x_within(map, c, lo, hi);
        }
    }

    /// The same for a floor or a ceiling that does not span the map: it is
    /// enough that row `r` is solid in every column that the box of the
    /// actor can reach in this move.
    pub proof fn lemma_no_tunneling_y_within(self, map: &Tilemap, r: int, lo: int, hi: int)
        requires
            map.wf(),
            0 <= r < map.spec_height(),
            forall|x: int|
                0 <= x < map.spec_width() && cell_of(lo) <= x <= cell_of(hi) ==> (
                #[trigger] map.tile_at(x, r)).is_solid(),
            lo <= self.position.x,
            self.position.x + SIZE <= hi,
            lo <= self.position.x + self.energy.x,
            self.position.x + self.energy.x + SIZE <= hi,
            !blocked(map, self.position),
        ensures
            self.position.y + SIZE < r * SCALE ==> self.run(map).position.y + SIZE < r * SCALE,
            self.position.y >= (r + 1) * SCALE ==> self.run(map).position.y >= (r + 1) * SCALE,
        decreases self.remaining(),
    {
        if !self.done() {
            let after_x = self.step_x(map);
            let dy = step_of(after_x.energy.y);
            let moved = V2 { x: after_x.position.x, y: after_x.position.y + dy };
            if !blocked(map, moved) {
                lemma_free_clear_of_row_within(map, moved, r, lo, hi);
            }
            let next = after_x.step_y(map);
            next.lemma_no_tunneling_y_within(map, r, lo, hi);
        }
    }

    /// The actor does not pass through a floor or a ceiling that is one tile
    /// thick. If the whole row `r` of the map is solid, an actor that starts
    /// free and above the row ends above it, and one that starts below it
    /// ends below it, whatever its velocity.
    pub proof fn lemma_no_tunneling_y(self, map: &Tilemap, r: int)
        requires
            map.wf(),
            0 <= r < map.spec_height(),
            forall|x: int| 0 <= x < map.spec_width() ==> (#[trigger] map.tile_at(x, r)).is_solid(),
            !blocked(map, self.position),
        ensures
            self.position.y + SIZE < r * SCALE ==> self.run(map).position.y + SIZE < r * SCALE,
            self.position.y >= (r + 1) * SCALE ==> self.run(map).position.y >= (r + 1) * SCALE,
        decreases self.remaining(),
    {
        if !self.done() {
            let after_x = self.step_x(map);
            let dy = step_of(after_x.energy.y);
            let moved = V2 { x: after_x.position.x, y: after_x.position.y + dy };
            if !blocked(map, moved) {
                lemma_free_clear_of_row(map, moved, r);
            }
            let next = after_x.step_y(map);
            next.lemma_no_tunneling_y(map, r);
        }
    }
}

/// What blocks a step downward blocks the full collision step downward:
/// where the actor can be but cannot be `d` units lower, for a `d` of at
/// most one collision step, it cannot be one collision step lower either.
pub proof fn lemma_blocked_below(map: &Tilemap, position: V2, d: int)
    requires
        map.wf(),
        !blocked(map, position),
        0 < d <= COLLISION_STEP,
        blocked(map, V2 { x: position.x, y: position.y + d }),
    ensures
        blocked(map, V2 { x: position.x, y: position.y + COLLISION_STEP }),
{
    lemma_free_within_map(map, position);
    let here = actor_box(position);
    let near = actor_box(V2 { x: position.x, y: position.y + d });
    let far = actor_box(V2 { x: position.x, y: position.y + COLLISION_STEP });
    if map.spec_contains_bounds(far) {
        assert(map.spec_contains_bounds(near));
        let (x, y) = choose|x: int, y: int|
            map.has_cell(x, y) && covers(near, x, y) && (#[trigger] map.tile_at(x, y)).is_solid();
        assert(!covers(here, x, y)) by {
            if covers(here, x, y) {
                assert(touches_solid(map, here));
            }
        }
        assert(cell_of(near.min.y) >= cell_of(here.min.y));
        assert(cell_of(far.min.y) <= cell_of(here.max.y));
        assert(cell_of(near.max.y) <= cell_of(far.max.y));
        assert(covers(far, x, y));
        assert(touches_solid(map, far));
    }
}

/// Where the actor can be, it lies within the map, and so within the bound
/// on positions.
pub proof fn lemma_free_within_map(map: &Tilemap, position: V2)
    requires
        map.wf(),
        !blocked(map, position),
    ensures
        0 <= position.x,
        0 <= position.y,
        position.x + SIZE < map.spec_width() * SCALE,
        position.y + SIZE < map.spec_height() * SCALE,
        position.within(POSITION_LIMIT as int),
{
    map.lemma_wf();
}

/// Where the actor can be, its box is clear of a column that is solid from
/// top to bottom: it lies to the left or to the right of it.
pub proof fn lemma_free_clear_of_column(map: &Tilemap, position: V2, c: int)
    requires
        map.wf(),
        0 <= c < map.spec_width(),
        forall|y: int| 0 <= y < map.spec_height() ==> (#[trigger] map.tile_at(c, y)).is_solid(),
        !blocked(map, position),
    ensures
        position.x + SIZE < c * SCALE || position.x >= (c + 1) * SCALE,
{
    lemma_free_within_map(map, position);
    let b = actor_box(position);
    let y = cell_of(b.min.y);
    if !(position.x + SIZE < c * SCALE || position.x >= (c + 1) * SCALE) {
        assert(cell_of(b.min.x) <= c <= cell_of(b.max.x));
        assert(cell_of(b.min.y) <= y <= cell_of(b.max.y));
        assert(0 <= y < map.spec_height());
        assert(map.has_cell(c, y) && covers(b, c, y) && map.tile_at(c, y).is_solid());
        assert(touches_solid(map, b));
    }
}

/// Where the actor can be with its box between the heights `lo` and `hi`,
/// the box is clear of a column that is solid in the rows from the one that
/// holds `lo` to the one that holds `hi`.
pub proof fn lemma_free_clear_of_column_within(
    map: &Tilemap,
    position: V2,
    c: int,
    lo: int,
    hi: int,
)
    requires
        map.wf(),
        0 <= c < map.spec_width(),
        forall|y: int|
            0 <= y < map.spec_height() && cell_of(lo) <= y <= cell_of(hi) ==> (
            #[trigger] map.tile_at(c, y)).is_solid(),
        lo <= position.y,
        position.y + SIZE <= hi,
        !blocked(map, position),
    ensures
        position.x + SIZE < c * SCALE || position.x >= (c + 1) * SCALE,
{
    lemma_free_within_map(map, position);
    let b = actor_box(position);
    let y = cell_of(b.min.y);
    if !(position.x + SIZE < c * SCALE || position.x >= (c + 1) * SCALE) {
        assert(cell_of(b.min.x) <= c <= cell_of(b.max.x));
        assert(cell_of(b.min.y) <= y <= cell_of(b.max.y));
        assert(0 <= y < map.spec_height());
        assert(cell_of(lo) <= y <= cell_of(hi));
        assert(map.has_cell(c, y) && covers(b, c, y) && map.tile_at(c, y).is_solid());
        assert(touches_solid(map, b));
    }
}

/// Where the actor can be with its box between `lo` and `hi` from left to
/// right, the box is clear of a row that is solid in the columns from the
/// one that holds `lo` to the one that holds `hi`.
pub proof fn lemma_free_clear_of_row_within(map: &Tilemap, position: V2, r: int, lo: int, hi: int)
    requires
        map.wf(),
        0 <= r < map.spec_height(),
        forall|x: int|
            0 <= x < map.spec_width() && cell_of(lo) <= x <= cell_of(hi) ==> (
            #[trigger] map.tile_at(x, r)).is_solid(),
        lo <= position.x,
        position.x + SIZE <= hi,
        !blocked(map, position),
    ensures
        position.y + SIZE < r * SCALE || position.y >= (r + 1) * SCALE,
{
    lemma_free_within_map(map, position);
    let b = actor_box(position);
    let x = cell_of(b.min.x);
    if !(position.y + SIZE < r * SCALE || position.y >= (r + 1) * SCALE) {
        assert(cell_of(b.min.y) <= r <= cell_of(b.max.y));
        assert(cell_of(b.min.x) <= x <= cell_of(b.max.x));
        assert(0 <= x < map.spec_width());
        assert(cell_of(lo) <= x <= cell_of(hi));
        assert(map.has_cell(x, r) && covers(b, x, r) && map.tile_at(x, r).is_solid());
        assert(touches_solid(map, b));
    }
}

/// Where the actor can be, its box is clear of a row that is solid from
/// left to right: it lies above or below it.
pub proof fn lemma_free_clear_of_row(map: &Tilemap, position: V2, r: int)
    requires
        map.wf(),
        0 <= r < map.spec_height(),
        forall|x: int| 0 <= x < map.spec_width() ==> (#[trigger] map.tile_at(x, r)).is_solid(),
        !blocked(map, position),
    ensures
        position.y + SIZE < r * SCALE || position.y >= (r + 1) * SCALE,
{
    lemma_free_within_map(map, position);
    let b = actor_box(position);
    let x = cell_of(b.min.x);
    if !(position.y + SIZE < r * SCALE || position.y >= (r + 1) * SCALE) {
        assert(cell_of(b.min.y) <= r <= cell_of(b.max.y));
        assert(cell_of(b.min.x) <= x <= cell_of(b.max.x));
        assert(0 <= x < map.spec_width());
        assert(map.has_cell(x, r) && covers(b, x, r) && map.tile_at(x, r).is_solid());
        assert(touches_solid(map, b));
    }
}

/// The box that the actor fills at a position.
pub fn bounds_at(position: FVec2) -> (bounds: Bounds)
    requires
        position@.within(POSITION_LIMIT + COLLISION_STEP),
    ensures
        bounds@ == actor_box(position@),
{
    Bounds::new(position, FVec2 { x: position.x + SIZE, y: position.y + SIZE })
}

/// Whether the actor cannot be at a position.
pub fn blocked_at(map: &Tilemap, position: FVec2) -> (res: bool)
    requires
        map.wf(),
        position@.within(POSITION_LIMIT + COLLISION_STEP),
    ensures
        res == blocked(map, position@),
{
    collides(map, bounds_at(position))
}

fn step(energy: i64) -> (d: i64)
    ensures
        d == step_of(energy as int),
{
    if energy > COLLISION_STEP {
        COLLISION_STEP
    } else if energy < -COLLISION_STEP {
        -COLLISION_STEP
    } else {
        energy
    }
}

/// Moves the actor by its velocity in small steps, one axis at a time, and
/// stops it on the axis on which a step would end blocked. Returns the
/// position and the velocity after the move.
pub fn move_until_collision(map: &Tilemap, position: FVec2, velocity: FVec2) -> (res: (
    FVec2,
    FVec2,
))
    requires
        map.wf(),
        position@.within(POSITION_LIMIT as int),
        velocity@.within(VELOCITY_LIMIT as int),
    ensures
        res.0@ == Sweep::start(position@, velocity@).run(map).position,
        res.1@ == Sweep::start(position@, velocity@).run(map).velocity,
        res.0@.within(POSITION_LIMIT as int),
        res.1@.within(VELOCITY_LIMIT as int),
{
    let mut pos = position;
    let mut vel = velocity;
    let mut energy = velocity;
    let ghost goal = Sweep::start(position@, velocity@).run(map);
    while energy.x != 0 || energy.y != 0
        invariant
            map.wf(),
            pos@.within(POSITION_LIMIT as int),
            vel@.within(VELOCITY_LIMIT as int),
            energy@.within(VELOCITY_LIMIT as int),
            (Sweep { position: pos@, velocity: vel@, energy: energy@ }).run(map) == goal,
        decreases magnitude(energy.x as int) + magnitude(energy.y as int),
    {
        let ghost before = Sweep { position: pos@, velocity: vel@, energy: energy@ };
        let dx = step(energy.x);
        let moved = FVec2 { x: pos.x + dx, y: pos.y };
        if blocked_at(map, moved) {
            energy.x = 0;
            vel.x = 0;
        } else {
            proof {
                lemma_free_within_map(map, moved@);
            }
            pos = moved;
            energy.x = energy.x - dx;
        }
        assert((Sweep { position: pos@, velocity: vel@, energy: energy@ }) == before.step_x(map));
        let dy = step(energy.y);
        let moved = FVec2 { x: pos.x, y: pos.y + dy };
        if blocked_at(map, moved) {
            energy.y = 0;
            vel.y = 0;
        } else {
            proof {
                lemma_free_within_map(map, moved@);
            }
            pos = moved;
            energy.y = energy.y - dy;
        }
        assert((Sweep { position: pos@, velocity: vel@, energy: energy@ }) == before.step_x(
            map,
        ).step_y(map));
    }
    (pos, vel)
}

} // verus!
