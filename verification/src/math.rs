use vstd::prelude::*;

verus! {

/// Number of fixed-point units in one world unit (one tile edge).
pub const SCALE: i64 = 1_000_000;

/// Largest magnitude that [`scale`] accepts: its product with a factor of at
/// most [`SCALE`] still fits the machine word.
pub const SCALABLE_LIMIT: i64 = 9_000_000_000_000;

/// Integer quotient rounded toward zero, for a positive divisor.
pub open spec fn trunc_div(a: int, b: int) -> int {
    if a >= 0 {
        a / b
    } else {
        -((-a) / b)
    }
}

/// The fixed-point product `v * factor`, rounded toward zero.
#[verifier::opaque]
pub open spec fn scaled(v: int, factor: int) -> int {
    trunc_div(v * factor, SCALE as int)
}

/// Index of the tile column (or row) that holds the coordinate `v`.
/// Coordinates left of the origin round toward zero.
pub open spec fn cell_of(v: int) -> int {
    trunc_div(v, SCALE as int)
}

/// A factor between zero and one never grows a value nor flips its sign.
pub proof fn lemma_scaled_bounds(v: int, factor: int)
    requires
        0 <= factor <= SCALE,
    ensures
        v >= 0 ==> 0 <= scaled(v, factor) <= v,
        v <= 0 ==> v <= scaled(v, factor) <= 0,
        factor == SCALE ==> scaled(v, factor) == v,
        factor == 0 ==> scaled(v, factor) == 0,
{
    reveal(scaled);
    let s = SCALE as int;
    if v >= 0 {
        assert(0 <= v * factor <= v * s) by (nonlinear_arith)
            requires
                v >= 0,
                0 <= factor <= s,
        ;
        assert((v * s) / s == v) by (nonlinear_arith)
            requires
                s > 0,
        ;
        assert(0 <= (v * factor) / s <= (v * s) / s) by (nonlinear_arith)
            requires
                0 <= v * factor <= v * s,
                s > 0,
        ;
        if factor == s {
            assert(v * factor == v * s);
        }
        if factor == 0 {
            assert(v * factor == 0) by (nonlinear_arith)
                requires
                    factor == 0,
            ;
        }
    } else {
        let w = -v;
        assert(v * factor == -(w * factor)) by (nonlinear_arith)
            requires
                w == -v,
        ;
        assert(0 <= w * factor <= w * s) by (nonlinear_arith)
            requires
                w >= 0,
                0 <= factor <= s,
        ;
        assert((w * s) / s == w) by (nonlinear_arith)
            requires
                s > 0,
        ;
        assert(0 <= (w * factor) / s <= (w * s) / s) by (nonlinear_arith)
            requires
                0 <= w * factor <= w * s,
                s > 0,
        ;
        if factor == s {
            assert(w * factor == w * s);
        }
        if factor == 0 {
            assert(w * factor == 0) by (nonlinear_arith)
                requires
                    factor == 0,
            ;
        }
    }
}

/// Scaling by a factor of at most `cap` leaves at most the `cap` part of
/// the magnitude.
pub proof fn lemma_scaled_fraction(v: int, factor: int, cap: int)
    requires
        0 <= factor <= cap <= SCALE,
    ensures
        v >= 0 ==> scaled(v, factor) * SCALE <= v * cap,
        v <= 0 ==> scaled(v, factor) * SCALE >= v * cap,
{
    reveal(scaled);
    let s = SCALE as int;
    if v >= 0 {
        assert(0 <= v * factor <= v * cap) by (nonlinear_arith)
            requires
                v >= 0,
                0 <= factor <= cap,
        ;
        assert(((v * factor) / s) * s <= v * factor) by (nonlinear_arith)
            requires
                s > 0,
                v * factor >= 0,
        ;
    } else {
        let w = -v;
        assert(v * factor == -(w * factor)) by (nonlinear_arith)
            requires
                w == -v,
        ;
        assert(v * cap == -(w * cap)) by (nonlinear_arith)
            requires
                w == -v,
        ;
        assert(0 <= w * factor <= w * cap) by (nonlinear_arith)
            requires
                w >= 0,
                0 <= factor <= cap,
        ;
        assert(((w * factor) / s) * s <= w * factor) by (nonlinear_arith)
            requires
                s > 0,
                w * factor >= 0,
        ;
    }
}

/// Multiplies a fixed-point value by a fixed-point factor between zero and
/// one, rounding toward zero.
pub fn scale(v: i64, factor: i64) -> (r: i64)
    requires
        -SCALABLE_LIMIT <= v <= SCALABLE_LIMIT,
        0 <= factor <= SCALE,
    ensures
        r == scaled(v as int, factor as int),
        v >= 0 ==> 0 <= r <= v,
        v <= 0 ==> v <= r <= 0,
{
    proof {
        reveal(scaled);
        lemma_scaled_bounds(v as int, factor as int);
        assert(-9_000_000_000_000_000_000 <= v * factor <= 9_000_000_000_000_000_000)
            by (nonlinear_arith)
            requires
                -9_000_000_000_000 <= v <= 9_000_000_000_000,
                0 <= factor <= 1_000_000,
        ;
    }
    (v * factor) / SCALE
}

/// A counter one tick closer to zero, where it stays.
pub open spec fn tick_down(t: int) -> int {
    if t > 0 {
        t - 1
    } else {
        0
    }
}

/// Moves a counter one tick closer to zero, where it stays.
pub fn count_down(t: i32) -> (r: i32)
    ensures
        r == tick_down(t as int),
{
    if t > 0 {
        t - 1
    } else {
        0
    }
}

/// A point or a displacement of the plane in fixed-point units. The x axis
/// grows to the right and the y axis grows downward.
#[derive(Debug, Copy, Clone, PartialEq, Eq, Structural)]
pub struct FVec2 {
    pub x: i64,
    pub y: i64,
}

/// A vector of the plane with unbounded integer components: what an
/// [`FVec2`] stands for.
pub struct V2 {
    pub x: int,
    pub y: int,
}

impl V2 {
    /// The null vector.
    pub open spec fn zero() -> V2 {
        V2 { x: 0, y: 0 }
    }

    /// The sum of two vectors.
    pub open spec fn plus(self, other: V2) -> V2 {
        V2 { x: self.x + other.x, y: self.y + other.y }
    }

    /// Whether both components lie within `limit` of zero.
    pub open spec fn within(self, limit: int) -> bool {
        -limit <= self.x <= limit && -limit <= self.y <= limit
    }
}

impl View for FVec2 {
    type V = V2;

    open spec fn view(&self) -> V2 {
        V2 { x: self.x as int, y: self.y as int }
    }
}

impl FVec2 {
    pub fn new(x: i64, y: i64) -> (v: FVec2)
        ensures
            v == (FVec2 { x, y }),
    {
        FVec2 { x, y }
    }

    /// The null vector.
    pub open spec fn spec_zero() -> FVec2 {
        FVec2 { x: 0, y: 0 }
    }

    #[verifier::when_used_as_spec(spec_zero)]
    pub fn zero() -> (v: FVec2)
        ensures
            v == FVec2::spec_zero(),
    {
        FVec2 { x: 0, y: 0 }
    }

    /// The vector whose components are whole world units.
    pub fn from_tiles(x: i32, y: i32) -> (v: FVec2)
        ensures
            v.x == x * SCALE,
            v.y == y * SCALE,
    {
        FVec2 { x: (x as i64) * SCALE, y: (y as i64) * SCALE }
    }
}

/// An axis-aligned box given by its corner of least and of greatest
/// coordinates.
#[derive(Debug, Copy, Clone, PartialEq, Eq, Structural)]
pub struct Bounds {
    pub min: FVec2,
    pub max: FVec2,
}

/// A box of the plane with unbounded integer corners: what a [`Bounds`]
/// stands for.
pub struct B2 {
    pub min: V2,
    pub max: V2,
}

impl B2 {
    /// The square box of a given edge length whose least corner is `min`.
    pub open spec fn square(min: V2, size: int) -> B2 {
        B2 { min, max: V2 { x: min.x + size, y: min.y + size } }
    }
}

impl View for Bounds {
    type V = B2;

    open spec fn view(&self) -> B2 {
        B2 { min: self.min@, max: self.max@ }
    }
}

impl Bounds {
    pub fn new(min: FVec2, max: FVec2) -> (b: Bounds)
        ensures
            b == (Bounds { min, max }),
    {
        Bounds { min, max }
    }


    /// Two boxes overlap when their interiors meet on both axes.
    pub open spec fn spec_overlaps(&self, other: &Bounds) -> bool {
        self.min.x < other.max.x && self.max.x > other.min.x && self.min.y < other.max.y
            && self.max.y > other.min.y
    }

    #[verifier::when_used_as_spec(spec_overlaps)]
    pub fn overlaps(&self, other: &Bounds) -> (res: bool)
        ensures
            res == self.spec_overlaps(other),
    {
        self.min.x < other.max.x && self.max.x > other.min.x && self.min.y < other.max.y
            && self.max.y > other.min.y
    }
}

/// A color by its red, green, blue and opacity, each in fixed point from
/// zero to one.
#[derive(Debug, Copy, Clone, PartialEq, Eq, Structural)]
pub struct Color {
    pub r: i64,
    pub g: i64,
    pub b: i64,
    pub a: i64,
}

impl Color {
    pub fn new(r: i64, g: i64, b: i64, a: i64) -> (color: Color)
        ensures
            color == (Color { r, g, b, a }),
    {
        Color { r, g, b, a }
    }

    /// The opaque color of the given red, green and blue.
    pub open spec fn spec_new_solid(r: i64, g: i64, b: i64) -> Color {
        Color { r, g, b, a: SCALE }
    }

    #[verifier::when_used_as_spec(spec_new_solid)]
    pub fn new_solid(r: i64, g: i64, b: i64) -> (color: Color)
        ensures
            color == Color::spec_new_solid(r, g, b),
    {
        Color { r, g, b, a: SCALE }
    }
}

/// One of the four cardinal directions.
#[derive(Debug, Copy, Clone, PartialEq, Eq, Structural)]
pub enum Direction {
    Left,
    Right,
    Up,
    Down,
}

impl Direction {
    /// All directions in the order Left, Right, Up, Down.
    pub const ALL: [Direction; 4] = [
        Direction::Left,
        Direction::Right,
        Direction::Up,
        Direction::Down,
    ];

    /// Position of the direction in the order Left, Right, Up, Down.
    pub open spec fn spec_index(self) -> int {
        match self {
            Direction::Left => 0,
            Direction::Right => 1,
            Direction::Up => 2,
            Direction::Down => 3,
        }
    }

    /// All directions, each at its own index.
    pub open spec fn spec_all() -> Seq<Direction> {
        seq![Direction::Left, Direction::Right, Direction::Up, Direction::Down]
    }

    /// All directions in the order Left, Right, Up, Down.
    pub fn all() -> (res: [Direction; 4])
        ensures
            res@ == Direction::spec_all(),
            forall|d: Direction| res@[#[trigger] d.spec_index()] == d,
    {
        let res = Direction::ALL;
        assert(res@ =~= Direction::spec_all());
        assert forall|d: Direction| res@[#[trigger] d.spec_index()] == d by {
            match d {
                Direction::Left => {},
                Direction::Right => {},
                Direction::Up => {},
                Direction::Down => {},
            }
        }
        res
    }

    pub fn index(self) -> (i: usize)
        ensures
            i == self.spec_index(),
            i < 4,
    {
        match self {
            Direction::Left => 0,
            Direction::Right => 1,
            Direction::Up => 2,
            Direction::Down => 3,
        }
    }

    /// The unit vector of the direction; up is toward smaller y.
    pub open spec fn spec_as_vec(self) -> FVec2 {
        match self {
            Direction::Left => FVec2 { x: (-SCALE) as i64, y: 0 },
            Direction::Right => FVec2 { x: SCALE, y: 0 },
            Direction::Up => FVec2 { x: 0, y: (-SCALE) as i64 },
            Direction::Down => FVec2 { x: 0, y: SCALE },
        }
    }

    #[verifier::when_used_as_spec(spec_as_vec)]
    pub fn as_vec(self) -> (v: FVec2)
        ensures
            v == self.spec_as_vec(),
    {
        match self {
            Direction::Left => FVec2 { x: -SCALE, y: 0 },
            Direction::Right => FVec2 { x: SCALE, y: 0 },
            Direction::Up => FVec2 { x: 0, y: -SCALE },
            Direction::Down => FVec2 { x: 0, y: SCALE },
        }
    }

    /// The opposite direction.
    pub open spec fn spec_inverse(self) -> Direction {
        match self {
            Direction::Left => Direction::Right,
            Direction::Right => Direction::Left,
            Direction::Up => Direction::Down,
            Direction::Down => Direction::Up,
        }
    }

    #[verifier::when_used_as_spec(spec_inverse)]
    pub fn inverse(self) -> (res: Direction)
        ensures
            res == self.spec_inverse(),
    {
        match self {
            Direction::Left => Direction::Right,
            Direction::Right => Direction::Left,
            Direction::Up => Direction::Down,
            Direction::Down => Direction::Up,
        }
    }

    /// Turning around twice gives the direction back, and the unit vector of
    /// the opposite direction is the negated unit vector.
    pub proof fn lemma_inverse(self)
        ensures
            self.inverse().inverse() == self,
            self.inverse() != self,
            self.inverse().as_vec().x == -self.as_vec().x,
            self.inverse().as_vec().y == -self.as_vec().y,
    {
    }
}

} // verus!
