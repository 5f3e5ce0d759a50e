use vstd::prelude::*;
use crate::math::{cell_of, Bounds, Direction, B2, SCALE};
use crate::tilemap::{Tile, Tilemap};

verus! {

/// What the actor touches on one of its sides.
#[derive(Debug, Copy, Clone, PartialEq, Eq, Structural)]
pub enum CollisionType {
    /// Something solid that is no wall, such as a spike.
    Solid,
    /// A wall tile, or the edge of the world.
    Wall,
}

/// Result of probing a box against the map.
#[derive(Debug, Copy, Clone, PartialEq, Eq, Structural)]
pub struct Probe {
    /// What the box touches, if anything.
    pub face: Option<CollisionType>,
    /// Whether the box touches a tile that kills in the probed heading.
    pub lethal: bool,
}

/// Whether the box reaches into the cell `(x, y)`. A box reaches into every
/// cell from the one that holds its least corner to the one that holds its
/// greatest corner.
pub open spec fn covers(bounds: B2, x: int, y: int) -> bool {
    &&& cell_of(bounds.min.x as int) <= x <= cell_of(bounds.max.x as int)
    &&& cell_of(bounds.min.y as int) <= y <= cell_of(bounds.max.y as int)
}

/// Whether the box reaches into a solid tile of the map.
pub open spec fn touches_solid(map: &Tilemap, bounds: B2) -> bool {
    exists|x: int, y: int|
        map.has_cell(x, y) && covers(bounds, x, y) && (#[trigger] map.tile_at(x, y)).is_solid()
}

/// Whether the box reaches into a tile of the map that kills in `heading`.
pub open spec fn touches_lethal(map: &Tilemap, bounds: B2, heading: Direction) -> bool {
    exists|x: int, y: int|
        map.has_cell(x, y) && covers(bounds, x, y) && (#[trigger] map.tile_at(x, y)).kills(heading)
}

/// A box collides when it leaves the map or reaches into a solid tile.
pub open spec fn colliding(map: &Tilemap, bounds: B2) -> bool {
    !map.spec_contains_bounds(bounds) || touches_solid(map, bounds)
}

/// First column (or row) of the map that a box starting at `lo` reaches.
pub open spec fn first_cell(lo: int, n: int) -> int {
    if cell_of(lo) <= 0 {
        0
    } else if cell_of(lo) >= n {
        n
    } else {
        cell_of(lo)
    }
}

/// One past the last column (or row) of the map that a box ending at `hi`
/// reaches.
pub open spec fn end_cell(hi: int, n: int) -> int {
    if cell_of(hi) < 0 {
        0
    } else if cell_of(hi) >= n {
        n
    } else {
        cell_of(hi) + 1
    }
}

/// How a tile is classified when the actor touches it.
pub open spec fn classify(tile: Tile) -> CollisionType {
    if tile.is_wall() {
        CollisionType::Wall
    } else {
        CollisionType::Solid
    }
}

/// The probe after one more tile has been looked at. Air changes nothing,
/// a solid tile replaces the classification, and nothing is looked at any
/// more once a lethal tile has been found.
pub open spec fn visit(tile: Tile, heading: Direction, st: Probe) -> Probe {
    if st.lethal {
        st
    } else if tile.is_solid() {
        Probe { face: Some(classify(tile)), lethal: tile.kills(heading) }
    } else {
        st
    }
}

/// The probe after the cells `x0 <= x < x1` of row `y`, from left to right.
pub open spec fn scan_row(map: &Tilemap, y: int, x0: int, x1: int, heading: Direction, st: Probe)
    -> Probe
    decreases x1 - x0,
{
    if x0 >= x1 {
        st
    } else {
        scan_row(map, y, x0 + 1, x1, heading, visit(map.tile_at(x0, y), heading, st))
    }
}

/// The probe after the rows `y0 <= y < y1`, from the top down.
pub open spec fn scan_rows(
    map: &Tilemap,
    y0: int,
    y1: int,
    x0: int,
    x1: int,
    heading: Direction,
    st: Probe,
) -> Probe
    decreases y1 - y0,
{
    if y0 >= y1 {
        st
    } else {
        scan_rows(map, y0 + 1, y1, x0, x1, heading, scan_row(map, y0, x0, x1, heading, st))
    }
}

/// What probing a box in a heading finds. A box that leaves the map touches
/// a wall. The tiles that the box reaches into are then looked at in reading
/// order up to the first one that kills in the heading, and the last solid
/// tile looked at decides the classification.
#[verifier::opaque]
pub open spec fn probe_spec(map: &Tilemap, bounds: B2, heading: Direction) -> Probe {
    let start = Probe {
        face: if map.spec_contains_bounds(bounds) {
            None
        } else {
            Some(CollisionType::Wall)
        },
        lethal: false,
    };
    scan_rows(
        map,
        first_cell(bounds.min.y as int, map.spec_height()),
        end_cell(bounds.max.y as int, map.spec_height()),
        first_cell(bounds.min.x as int, map.spec_width()),
        end_cell(bounds.max.x as int, map.spec_width()),
        heading,
        start,
    )
}

/// The cells between `first_cell` and `end_cell` are the cells of the map
/// that the interval reaches.
pub proof fn lemma_cell_range(lo: int, hi: int, n: int, c: int)
    requires
        n > 0,
    ensures
        0 <= first_cell(lo, n) <= n,
        0 <= end_cell(hi, n) <= n,
        first_cell(lo, n) <= c < end_cell(hi, n) <==> 0 <= c < n && cell_of(lo) <= c <= cell_of(hi),
{
}

proof fn lemma_scan_row_lethal(map: &Tilemap, y: int, x0: int, x1: int, heading: Direction, st: Probe)
    requires
        st.lethal,
    ensures
        scan_row(map, y, x0, x1, heading, st) == st,
    decreases x1 - x0,
{
    if x0 < x1 {
        lemma_scan_row_lethal(map, y, x0 + 1, x1, heading, st);
    }
}

proof fn lemma_scan_rows_lethal(
    map: &Tilemap,
    y0: int,
    y1: int,
    x0: int,
    x1: int,
    heading: Direction,
    st: Probe,
)
    requires
        st.lethal,
    ensures
        scan_rows(map, y0, y1, x0, x1, heading, st) == st,
    decreases y1 - y0,
{
    if y0 < y1 {
        lemma_scan_row_lethal(map, y0, x0, x1, heading, st);
        lemma_scan_rows_lethal(map, y0 + 1, y1, x0, x1, heading, st);
    }
}

spec fn row_has_solid(map: &Tilemap, y: int, x0: int, x1: int) -> bool {
    exists|x: int| x0 <= x < x1 && (#[trigger] map.tile_at(x, y)).is_solid()
}

spec fn row_has_lethal(map: &Tilemap, y: int, x0: int, x1: int, heading: Direction) -> bool {
    exists|x: int| x0 <= x < x1 && (#[trigger] map.tile_at(x, y)).kills(heading)
}

spec fn rows_have_solid(map: &Tilemap, y0: int, y1: int, x0: int, x1: int) -> bool {
    exists|x: int, y: int|
        x0 <= x < x1 && y0 <= y < y1 && (#[trigger] map.tile_at(x, y)).is_solid()
}

spec fn rows_have_lethal(map: &Tilemap, y0: int, y1: int, x0: int, x1: int, heading: Direction)
    -> bool {
    exists|x: int, y: int|
        x0 <= x < x1 && y0 <= y < y1 && (#[trigger] map.tile_at(x, y)).kills(heading)
}

proof fn lemma_scan_row(map: &Tilemap, y: int, x0: int, x1: int, heading: Direction, st: Probe)
    requires
        st.lethal ==> st.face is Some,
    ensures
        ({
            let r = scan_row(map, y, x0, x1, heading, st);
            &&& r.lethal == (st.lethal || row_has_lethal(map, y, x0, x1, heading))
            &&& r.face is Some == (st.face is Some || row_has_solid(map, y, x0, x1))
            &&& r.lethal ==> r.face is Some
        }),
    decreases x1 - x0,
{
    if x0 < x1 {
        let tile = map.tile_at(x0, y);
        let next = visit(tile, heading, st);
        tile.lemma_classes(heading);
        lemma_scan_row(map, y, x0 + 1, x1, heading, next);
        let r = scan_row(map, y, x0, x1, heading, st);
        if row_has_lethal(map, y, x0 + 1, x1, heading) {
            let x = choose|x: int| x0 + 1 <= x < x1 && (#[trigger] map.tile_at(x, y)).kills(heading);
            map.tile_at(x, y).lemma_classes(heading);
            assert(row_has_lethal(map, y, x0, x1, heading));
            assert(row_has_solid(map, y, x0, x1));
        }
        if row_has_solid(map, y, x0 + 1, x1) {
            let x = choose|x: int| x0 + 1 <= x < x1 && (#[trigger] map.tile_at(x, y)).is_solid();
            assert(row_has_solid(map, y, x0, x1));
        }
        if tile.is_solid() {
            assert(row_has_solid(map, y, x0, x1));
        }
        if tile.kills(heading) {
            assert(row_has_lethal(map, y, x0, x1, heading));
        }
        if row_has_lethal(map, y, x0, x1, heading) {
            let x = choose|x: int| x0 <= x < x1 && (#[trigger] map.tile_at(x, y)).kills(heading);
            if x != x0 {
                assert(row_has_lethal(map, y, x0 + 1, x1, heading));
            }
        }
        if row_has_solid(map, y, x0, x1) {
            let x = choose|x: int| x0 <= x < x1 && (#[trigger] map.tile_at(x, y)).is_solid();
            if x != x0 {
                assert(row_has_solid(map, y, x0 + 1, x1));
            }
        }
    }
}

proof fn lemma_scan_rows(
    map: &Tilemap,
    y0: int,
    y1: int,
    x0: int,
    x1: int,
    heading: Direction,
    st: Probe,
)
    requires
        st.lethal ==> st.face is Some,
    ensures
        ({
            let r = scan_rows(map, y0, y1, x0, x1, heading, st);
            &&& r.lethal == (st.lethal || rows_have_lethal(map, y0, y1, x0, x1, heading))
            &&& r.face is Some == (st.face is Some || rows_have_solid(map, y0, y1, x0, x1))
            &&& r.lethal ==> r.face is Some
        }),
    decreases y1 - y0,
{
    if y0 < y1 {
        let next = scan_row(map, y0, x0, x1, heading, st);
        lemma_scan_row(map, y0, x0, x1, heading, st);
        lemma_scan_rows(map, y0 + 1, y1, x0, x1, heading, next);
        if row_has_lethal(map, y0, x0, x1, heading) {
            let x = choose|x: int| x0 <= x < x1 && (#[trigger] map.tile_at(x, y0)).kills(heading);
            assert(rows_have_lethal(map, y0, y1, x0, x1, heading));
        }
        if row_has_solid(map, y0, x0, x1) {
            let x = choose|x: int| x0 <= x < x1 && (#[trigger] map.tile_at(x, y0)).is_solid();
            assert(rows_have_solid(map, y0, y1, x0, x1));
        }
        if rows_have_lethal(map, y0 + 1, y1, x0, x1, heading) {
            let (x, y) = choose|x: int, y: int|
                x0 <= x < x1 && y0 + 1 <= y < y1 && (#[trigger] map.tile_at(x, y)).kills(heading);
            assert(rows_have_lethal(map, y0, y1, x0, x1, heading));
        }
        if rows_have_solid(map, y0 + 1, y1, x0, x1) {
            let (x, y) = choose|x: int, y: int|
                x0 <= x < x1 && y0 + 1 <= y < y1 && (#[trigger] map.tile_at(x, y)).is_solid();
            assert(rows_have_solid(map, y0, y1, x0, x1));
        }
        if rows_have_lethal(map, y0, y1, x0, x1, heading) {
            let (x, y) = choose|x: int, y: int|
                x0 <= x < x1 && y0 <= y < y1 && (#[trigger] map.tile_at(x, y)).kills(heading);
            if y == y0 {
                assert(row_has_lethal(map, y0, x0, x1, heading));
            } else {
                assert(rows_have_lethal(map, y0 + 1, y1, x0, x1, heading));
            }
        }
        if rows_have_solid(map, y0, y1, x0, x1) {
            let (x, y) = choose|x: int, y: int|
                x0 <= x < x1 && y0 <= y < y1 && (#[trigger] map.tile_at(x, y)).is_solid();
            if y == y0 {
                assert(row_has_solid(map, y0, x0, x1));
            } else {
                assert(rows_have_solid(map, y0 + 1, y1, x0, x1));
            }
        }
    }
}

/// A probe reports contact exactly when its box collides, and death exactly
/// when the box reaches into a tile that kills in the heading. Nothing is
/// lethal without contact.
pub proof fn lemma_probe(map: &Tilemap, bounds: B2, heading: Direction)
    requires
        map.wf(),
    ensures
        probe_spec(map, bounds, heading).face is Some <==> colliding(map, bounds),
        probe_spec(map, bounds, heading).lethal <==> touches_lethal(map, bounds, heading),
        probe_spec(map, bounds, heading).lethal ==> probe_spec(map, bounds, heading).face is Some,
{
    reveal(probe_spec);
    map.lemma_wf();
    let w = map.spec_width();
    let h = map.spec_height();
    let y0 = first_cell(bounds.min.y as int, h);
    let y1 = end_cell(bounds.max.y as int, h);
    let x0 = first_cell(bounds.min.x as int, w);
    let x1 = end_cell(bounds.max.x as int, w);
    let start = Probe {
        face: if map.spec_contains_bounds(bounds) {
            None
        } else {
            Some(CollisionType::Wall)
        },
        lethal: false,
    };
    lemma_scan_rows(map, y0, y1, x0, x1, heading, start);
    assert forall|x: int, y: int|
        (x0 <= x < x1 && y0 <= y < y1) <==> (map.has_cell(x, y) && covers(bounds, x, y)) by {
        lemma_cell_range(bounds.min.x as int, bounds.max.x as int, w, x);
        lemma_cell_range(bounds.min.y as int, bounds.max.y as int, h, y);
    }
    if rows_have_solid(map, y0, y1, x0, x1) {
        let (x, y) = choose|x: int, y: int|
            x0 <= x < x1 && y0 <= y < y1 && (#[trigger] map.tile_at(x, y)).is_solid();
        assert(map.has_cell(x, y) && covers(bounds, x, y));
        assert(touches_solid(map, bounds));
    }
    if touches_solid(map, bounds) {
        let (x, y) = choose|x: int, y: int|
            map.has_cell(x, y) && covers(bounds, x, y) && (#[trigger] map.tile_at(x, y)).is_solid();
        assert(x0 <= x < x1 && y0 <= y < y1);
        assert(rows_have_solid(map, y0, y1, x0, x1));
    }
    if rows_have_lethal(map, y0, y1, x0, x1, heading) {
        let (x, y) = choose|x: int, y: int|
            x0 <= x < x1 && y0 <= y < y1 && (#[trigger] map.tile_at(x, y)).kills(heading);
        assert(map.has_cell(x, y) && covers(bounds, x, y));
        assert(touches_lethal(map, bounds, heading));
    }
    if touches_lethal(map, bounds, heading) {
        let (x, y) = choose|x: int, y: int|
            map.has_cell(x, y) && covers(bounds, x, y) && (#[trigger] map.tile_at(x, y)).kills(
                heading,
            );
        assert(x0 <= x < x1 && y0 <= y < y1);
        assert(rows_have_lethal(map, y0, y1, x0, x1, heading));
    }
}

/// The columns (or rows) of a map of `n` columns that the interval from `lo`
/// to `hi` reaches, as a half-open range.
fn cell_range(lo: i64, hi: i64, n: i32) -> (r: (i32, i32))
    requires
        n > 0,
    ensures
        r.0 == first_cell(lo as int, n as int),
        r.1 == end_cell(hi as int, n as int),
        0 <= r.0 <= n,
        0 <= r.1 <= n,
{
    let first: i32 = if lo < SCALE {
        0
    } else {
        let q: i64 = lo / SCALE;
        if q >= n as i64 {
            n
        } else {
            q as i32
        }
    };
    let end: i32 = if hi <= -SCALE {
        0
    } else if hi < 0 {
        1
    } else {
        let q: i64 = hi / SCALE;
        if q >= n as i64 {
            n
        } else {
            (q + 1) as i32
        }
    };
    (first, end)
}

/// Probes a box against the map in a heading.
pub fn probe(map: &Tilemap, bounds: Bounds, heading: Direction) -> (res: Probe)
    requires
        map.wf(),
    ensures
        res == probe_spec(map, bounds@, heading),
        res.face is Some <==> colliding(map, bounds@),
        res.lethal <==> touches_lethal(map, bounds@, heading),
{
    proof {
        reveal(probe_spec);
        lemma_probe(map, bounds@, heading);
        map.lemma_wf();
    }
    let (x0, x1) = cell_range(bounds.min.x, bounds.max.x, map.width());
    let (y0, y1) = cell_range(bounds.min.y, bounds.max.y, map.height());
    let mut st = Probe {
        face: if map.contains_bounds(bounds) {
            None
        } else {
            Some(CollisionType::Wall)
        },
        lethal: false,
    };
    let ghost goal = probe_spec(map, bounds@, heading);
    let mut y: i32 = y0;
    while y < y1 && !st.lethal
        invariant
            map.wf(),
            0 <= x0 <= map.spec_width(),
            0 <= x1 <= map.spec_width(),
            0 <= y0 <= y,
            y1 <= map.spec_height(),
            scan_rows(map, y as int, y1 as int, x0 as int, x1 as int, heading, st) == goal,
        decreases y1 - y,
    {
        let ghost row_goal = scan_row(map, y as int, x0 as int, x1 as int, heading, st);
        let mut x: i32 = x0;
        while x < x1 && !st.lethal
            invariant
                map.wf(),
                0 <= x0 <= x,
                x1 <= map.spec_width(),
                0 <= y < y1 <= map.spec_height(),
                scan_row(map, y as int, x as int, x1 as int, heading, st) == row_goal,
            decreases x1 - x,
        {
            proof {
                map.lemma_cell_index(x as int, y as int);
            }
            let tile = map.get_tile(x, y);
            if tile.is_solid() {
                st = Probe { face: Some(if tile.is_wall() {
                    CollisionType::Wall
                } else {
                    CollisionType::Solid
                }), lethal: tile.kills(heading) };
            }
            x += 1;
        }
        proof {
            if st.lethal {
                lemma_scan_row_lethal(map, y as int, x as int, x1 as int, heading, st);
            }
            assert(st == row_goal);
        }
        y += 1;
    }
    proof {
        if st.lethal {
            lemma_scan_rows_lethal(map, y as int, y1 as int, x0 as int, x1 as int, heading, st);
        }
    }
    st
}

/// Whether a box leaves the map or reaches into a solid tile. The move asks
/// this of the map in the same way in which the probes of the four sides
/// ask what they touch; the heading makes no difference to the answer.
pub fn collides(map: &Tilemap, bounds: Bounds) -> (res: bool)
    requires
        map.wf(),
    ensures
        res == colliding(map, bounds@),
{
    probe(map, bounds, Direction::Down).face.is_some()
}

} // verus!
