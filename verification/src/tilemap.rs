use vstd::prelude::*;
use crate::math::{Bounds, Direction, FVec2, B2, SCALE, V2};

verus! {

/// The kinds of tile a map is made of.
#[derive(Debug, Copy, Clone, PartialEq, Eq, Structural)]
pub enum Tile {
    Air,
    Solid,
    SpikesLeft,
    SpikesRight,
    SpikesUp,
    SpikesDown,
    SpawnPoint,
    GoalLeft,
    GoalRight,
    GoalUp,
    GoalDown,
    SpikeAllSides,
}

impl Tile {
    /// Whether the tile blocks movement.
    pub open spec fn spec_is_solid(&self) -> bool {
        match self {
            Tile::Solid => true,
            Tile::SpikesLeft => true,
            Tile::SpikesRight => true,
            Tile::SpikesUp => true,
            Tile::SpikesDown => true,
            Tile::SpikeAllSides => true,
            _ => false,
        }
    }

    #[verifier::when_used_as_spec(spec_is_solid)]
    pub fn is_solid(&self) -> (res: bool)
        ensures
            res == self.spec_is_solid(),
    {
        match self {
            Tile::Air => false,
            Tile::Solid => true,
            Tile::SpikesLeft => true,
            Tile::SpikesRight => true,
            Tile::SpikesUp => true,
            Tile::SpikesDown => true,
            Tile::SpawnPoint => false,
            Tile::GoalLeft => false,
            Tile::GoalRight => false,
            Tile::GoalUp => false,
            Tile::GoalDown => false,
            Tile::SpikeAllSides => true,
        }
    }

    /// Whether the tile is a wall: solid, and harmless to touch.
    pub open spec fn spec_is_wall(&self) -> bool {
        *self == Tile::Solid
    }

    #[verifier::when_used_as_spec(spec_is_wall)]
    pub fn is_wall(&self) -> (res: bool)
        ensures
            res == self.spec_is_wall(),
    {
        match self {
            Tile::Solid => true,
            _ => false,
        }
    }

    /// Whether the tile is a hazard.
    pub open spec fn spec_is_spike(&self) -> bool {
        match self {
            Tile::SpikesLeft => true,
            Tile::SpikesRight => true,
            Tile::SpikesUp => true,
            Tile::SpikesDown => true,
            Tile::SpikeAllSides => true,
            _ => false,
        }
    }

    #[verifier::when_used_as_spec(spec_is_spike)]
    pub fn is_spike(&self) -> (res: bool)
        ensures
            res == self.spec_is_spike(),
    {
        match self {
            Tile::SpikesLeft => true,
            Tile::SpikesRight => true,
            Tile::SpikesUp => true,
            Tile::SpikesDown => true,
            Tile::SpikeAllSides => true,
            _ => false,
        }
    }

    /// The direction a spike or a goal faces; none for the other tiles and
    /// for the spike that faces all sides.
    pub open spec fn spec_direction(&self) -> Option<Direction> {
        match self {
            Tile::SpikesLeft => Some(Direction::Left),
            Tile::SpikesRight => Some(Direction::Right),
            Tile::SpikesUp => Some(Direction::Up),
            Tile::SpikesDown => Some(Direction::Down),
            Tile::GoalLeft => Some(Direction::Left),
            Tile::GoalRight => Some(Direction::Right),
            Tile::GoalUp => Some(Direction::Up),
            Tile::GoalDown => Some(Direction::Down),
            _ => None,
        }
    }

    #[verifier::when_used_as_spec(spec_direction)]
    pub fn direction(&self) -> (res: Option<Direction>)
        ensures
            res == self.spec_direction(),
    {
        match self {
            Tile::Air => None,
            Tile::Solid => None,
            Tile::SpikesLeft => Some(Direction::Left),
            Tile::SpikesRight => Some(Direction::Right),
            Tile::SpikesUp => Some(Direction::Up),
            Tile::SpikesDown => Some(Direction::Down),
            Tile::SpawnPoint => None,
            Tile::GoalLeft => Some(Direction::Left),
            Tile::GoalRight => Some(Direction::Right),
            Tile::GoalUp => Some(Direction::Up),
            Tile::GoalDown => Some(Direction::Down),
            Tile::SpikeAllSides => None,
        }
    }

    /// Whether touching the tile while moving in `heading` is deadly: the
    /// tile is a spike that faces all sides, or one that faces against the
    /// heading.
    pub open spec fn spec_kills(&self, heading: Direction) -> bool {
        self.spec_is_spike() && match self.spec_direction() {
            Some(facing) => heading == facing.spec_inverse(),
            None => true,
        }
    }

    #[verifier::when_used_as_spec(spec_kills)]
    pub fn kills(&self, heading: Direction) -> (res: bool)
        ensures
            res == self.spec_kills(heading),
    {
        if self.is_spike() {
            match self.direction() {
                Some(facing) => heading == facing.inverse(),
                None => true,
            }
        } else {
            false
        }
    }

    /// The tile that a byte of a map file stands for, if the byte is in use.
    pub open spec fn spec_from_integer(value: u8) -> Option<Tile> {
        if value == 0 {
            Some(Tile::Air)
        } else if value == 1 {
            Some(Tile::Solid)
        } else if value == 2 {
            Some(Tile::SpikesLeft)
        } else if value == 3 {
            Some(Tile::SpikesRight)
        } else if value == 4 {
            Some(Tile::SpikesUp)
        } else if value == 5 {
            Some(Tile::SpikesDown)
        } else if value == 6 {
            Some(Tile::SpawnPoint)
        } else if value == 7 {
            Some(Tile::GoalLeft)
        } else if value == 8 {
            Some(Tile::GoalRight)
        } else if value == 9 {
            Some(Tile::GoalUp)
        } else if value == 10 {
            Some(Tile::GoalDown)
        } else if value == 11 {
            Some(Tile::SpikeAllSides)
        } else {
            None
        }
    }

    #[verifier::when_used_as_spec(spec_from_integer)]
    pub fn from_integer(value: u8) -> (res: Option<Tile>)
        ensures
            res == Tile::spec_from_integer(value),
    {
        match value {
            0 => Some(Tile::Air),
            1 => Some(Tile::Solid),
            2 => Some(Tile::SpikesLeft),
            3 => Some(Tile::SpikesRight),
            4 => Some(Tile::SpikesUp),
            5 => Some(Tile::SpikesDown),
            6 => Some(Tile::SpawnPoint),
            7 => Some(Tile::GoalLeft),
            8 => Some(Tile::GoalRight),
            9 => Some(Tile::GoalUp),
            10 => Some(Tile::GoalDown),
            11 => Some(Tile::SpikeAllSides),
            _ => None,
        }
    }

    /// The byte that stands for the tile in a map file.
    pub fn into_integer(self) -> (value: u8)
        ensures
            Tile::spec_from_integer(value) == Some(self),
    {
        match self {
            Tile::Air => 0,
            Tile::Solid => 1,
            Tile::SpikesLeft => 2,
            Tile::SpikesRight => 3,
            Tile::SpikesUp => 4,
            Tile::SpikesDown => 5,
            Tile::SpawnPoint => 6,
            Tile::GoalLeft => 7,
            Tile::GoalRight => 8,
            Tile::GoalUp => 9,
            Tile::GoalDown => 10,
            Tile::SpikeAllSides => 11,
        }
    }

    /// Every wall is solid, every spike is solid and no wall, and a spike
    /// that faces a side kills in exactly the heading against its face.
    pub proof fn lemma_classes(self, heading: Direction)
        ensures
            self.is_wall() ==> self.is_solid(),
            self.is_spike() <==> self.is_solid() && !self.is_wall(),
            self.kills(heading) ==> self.is_solid(),
            self == Tile::SpikeAllSides ==> self.kills(heading),
            self.is_spike() && self.direction() is Some ==> (self.kills(heading) <==> heading
                == self.direction().unwrap().inverse()),
    {
    }
}

/// A rectangular grid of tiles, stored row by row.
#[derive(Debug)]
pub struct Tilemap {
    width: i32,
    height: i32,
    tiles: Vec<Tile>,
}

impl View for Tilemap {
    type V = Seq<Tile>;

    /// The tiles row by row, from the top row down.
    closed spec fn view(&self) -> Seq<Tile> {
        self.tiles@
    }
}

impl Tilemap {
    /// Number of columns.
    pub closed spec fn spec_width(&self) -> int {
        self.width as int
    }

    /// Number of rows.
    pub closed spec fn spec_height(&self) -> int {
        self.height as int
    }

    /// A map has at least one row and one column and holds one tile per
    /// cell.
    pub closed spec fn wf(&self) -> bool {
        &&& self.width > 0
        &&& self.height > 0
        &&& self.width * self.height <= i32::MAX
        &&& self.tiles@.len() == self.width * self.height
    }

    /// Whether the row-major index of the cell `(x, y)` lies in the map.
    /// Every cell with `0 <= x < width` and `0 <= y < height` does.
    pub open spec fn has_index(&self, x: int, y: int) -> bool {
        0 <= self.spec_width() * y + x < self.spec_width() * self.spec_height()
    }

    /// Whether `(x, y)` is a cell of the map.
    pub open spec fn has_cell(&self, x: int, y: int) -> bool {
        0 <= x < self.spec_width() && 0 <= y < self.spec_height()
    }

    /// The tile at column `x` of row `y`.
    pub open spec fn tile_at(&self, x: int, y: int) -> Tile {
        self@[self.spec_width() * y + x]
    }

    /// Whether a box lies within the map.
    pub open spec fn spec_contains_bounds(&self, bounds: B2) -> bool {
        &&& bounds.min.x >= 0
        &&& bounds.min.y >= 0
        &&& bounds.max.x < self.spec_width() * SCALE
        &&& bounds.max.y < self.spec_height() * SCALE
    }

    /// Whether a spawn point lies at the row-major index `i` and none lies
    /// before it.
    pub open spec fn first_spawn_at(&self, i: int) -> bool {
        &&& 0 <= i < self@.len()
        &&& self@[i] == Tile::SpawnPoint
        &&& forall|j: int| 0 <= j < i ==> self@[j] != Tile::SpawnPoint
    }

    /// The first spawn point in reading order, as the position of its top
    /// left corner; none if the map has no spawn point.
    pub open spec fn spawn_point(&self) -> Option<V2> {
        if exists|i: int| self.first_spawn_at(i) {
            let i = choose|i: int| self.first_spawn_at(i);
            Some(V2 { x: (i % self.spec_width()) * SCALE, y: (i / self.spec_width()) * SCALE })
        } else {
            None
        }
    }

    /// At most one index holds the first spawn point.
    pub proof fn lemma_first_spawn_unique(&self, i: int, j: int)
        requires
            self.first_spawn_at(i),
            self.first_spawn_at(j),
        ensures
            i == j,
    {
    }

    /// The spawn point lies on a cell of the map.
    pub proof fn lemma_spawn_point_in_map(&self)
        requires
            self.wf(),
        ensures
            self.spawn_point() matches Some(p) ==> 0 <= p.x < self.spec_width() * SCALE && 0 <= p.y
                < self.spec_height() * SCALE,
    {
        if exists|i: int| self.first_spawn_at(i) {
            let i = choose|i: int| self.first_spawn_at(i);
            let w = self.spec_width();
            let h = self.spec_height();
            assert(0 <= i % w < w);
            assert(0 <= i / w < h) by (nonlinear_arith)
                requires
                    0 <= i < w * h,
                    w > 0,
            ;
        }
    }

    /// The dimensions are positive, their product fits, and there is one
    /// tile per cell.
    pub proof fn lemma_wf(&self)
        requires
            self.wf(),
        ensures
            0 < self.spec_width() <= i32::MAX,
            0 < self.spec_height() <= i32::MAX,
            self@.len() == self.spec_width() * self.spec_height(),
            self@.len() <= i32::MAX,
    {
    }

    /// Every cell of the map has an index in the map, and distinct cells
    /// have distinct indices.
    pub proof fn lemma_cell_index(&self, x: int, y: int)
        requires
            self.wf(),
            self.has_cell(x, y),
        ensures
            self.has_index(x, y),
            (self.spec_width() * y + x) % self.spec_width() == x,
            (self.spec_width() * y + x) / self.spec_width() == y,
    {
        let w = self.spec_width();
        let h = self.spec_height();
        assert(0 <= w * y + x < w * h) by (nonlinear_arith)
            requires
                0 <= x < w,
                0 <= y < h,
        ;
        vstd::arithmetic::div_mod::lemma_fundamental_div_mod_converse(w * y + x, w, y, x);
    }

    /// A map of the given size, all air.
    pub fn new(width: i32, height: i32) -> (map: Tilemap)
        requires
            width > 0,
            height > 0,
            width * height <= i32::MAX,
        ensures
            map.wf(),
            map.spec_width() == width,
            map.spec_height() == height,
            map@.len() == width * height,
            forall|i: int| 0 <= i < map@.len() ==> map@[i] == Tile::Air,
    {
        assert(0 < width * height) by (nonlinear_arith)
            requires
                width > 0,
                height > 0,
        ;
        let n: usize = (width * height) as usize;
        Tilemap { width, height, tiles: vec![Tile::Air; n] }
    }

    /// The tile at column `x` of row `y`.
    pub fn get_tile(&self, x: i32, y: i32) -> (tile: Tile)
        requires
            self.wf(),
            self.has_index(x as int, y as int),
        ensures
            tile == self.tile_at(x as int, y as int),
    {
        let index: i64 = self.linear_index(x, y);
        self.tiles[index as usize]
    }

    /// Replaces the tile at column `x` of row `y`.
    pub fn set_tile(&mut self, x: i32, y: i32, tile: Tile)
        requires
            old(self).wf(),
            old(self).has_index(x as int, y as int),
        ensures
            final(self).wf(),
            final(self).spec_width() == old(self).spec_width(),
            final(self).spec_height() == old(self).spec_height(),
            final(self)@ == old(self)@.update(old(self).spec_width() * y + x, tile),
    {
        let index: i64 = self.linear_index(x, y);
        self.tiles[index as usize] = tile;
    }

    fn linear_index(&self, x: i32, y: i32) -> (index: i64)
        requires
            self.wf(),
            self.has_index(x as int, y as int),
        ensures
            index == self.spec_width() * y + x,
            0 <= index < self@.len(),
    {
        assert(-0x4000_0000_0000_0000 <= self.width * y <= 0x4000_0000_0000_0000)
            by (nonlinear_arith)
            requires
                0 < self.width <= 0x7fff_ffff,
                -0x8000_0000 <= y <= 0x7fff_ffff,
        ;
        (self.width as i64) * (y as i64) + (x as i64)
    }

    /// The first spawn point in reading order, as the position of its top
    /// left corner.
    pub fn get_spawn_point(&self) -> (res: Option<FVec2>)
        requires
            self.wf(),
        ensures
            match res {
                Some(p) => self.spawn_point() == Some(p@),
                None => self.spawn_point() is None,
            },
            res is None <==> forall|i: int| 0 <= i < self@.len() ==> self@[i] != Tile::SpawnPoint,
    {
        let n = self.tiles.len();
        let mut i: usize = 0;
        while i < n
            invariant
                self.wf(),
                n == self@.len(),
                i <= n,
                forall|j: int| 0 <= j < i ==> self@[j] != Tile::SpawnPoint,
            decreases n - i,
        {
            if self.tiles[i] == Tile::SpawnPoint {
                let x: i64 = (i as i64) % (self.width as i64);
                let y: i64 = (i as i64) / (self.width as i64);
                proof {
                    let w = self.spec_width();
                    assert(self.first_spawn_at(i as int));
                    assert(0 <= (i as int) % w < w);
                    assert(0 <= (i as int) / w <= i) by (nonlinear_arith)
                        requires
                            i >= 0,
                            w > 0,
                    ;
                    assert(x == (i as int) % w);
                    assert(y == (i as int) / w);
                    let k = choose|k: int| self.first_spawn_at(k);
                    self.lemma_first_spawn_unique(k, i as int);
                }
                return Some(FVec2 { x: x * SCALE, y: y * SCALE });
            }
            i += 1;
        }
        proof {
            if exists|k: int| self.first_spawn_at(k) {
                let k = choose|k: int| self.first_spawn_at(k);
                assert(self@[k] == Tile::SpawnPoint);
            }
        }
        None
    }

    /// Number of columns.
    pub fn width(&self) -> (w: i32)
        ensures
            w == self.spec_width(),
    {
        self.width
    }

    /// Number of rows.
    pub fn height(&self) -> (h: i32)
        ensures
            h == self.spec_height(),
    {
        self.height
    }

    /// Whether a box lies within the map.
    pub fn contains_bounds(&self, bounds: Bounds) -> (res: bool)
        requires
            self.wf(),
        ensures
            res == self.spec_contains_bounds(bounds@),
    {
        bounds.min.x >= 0 && bounds.min.y >= 0 && bounds.max.x < (self.width as i64) * SCALE
            && bounds.max.y < (self.height as i64) * SCALE
    }
}

/// Why the bytes of a map file were not accepted.
#[derive(Debug, Copy, Clone, PartialEq, Eq, Structural)]
pub enum TilemapLoadError {
    /// The bytes end before the header or the tiles do.
    UnexpectedEof,
    /// The bytes do not start with the letters CMTM.
    InvalidMagic,
    /// A dimension is not positive, or the map has more tiles than fit.
    InvalidSize,
}

/// The signed 32-bit number whose little-endian bytes stand at `at`.
pub open spec fn le_i32(bytes: Seq<u8>, at: int) -> int {
    let unsigned = bytes[at] + 0x100 * bytes[at + 1] + 0x1_0000 * bytes[at + 2] + 0x100_0000
        * bytes[at + 3];
    if unsigned >= 0x8000_0000 {
        unsigned - 0x1_0000_0000
    } else {
        unsigned
    }
}

/// The tile that a byte of a map file stands for; air for a byte that is
/// not in use.
pub open spec fn tile_of_byte(value: u8) -> Tile {
    match Tile::spec_from_integer(value) {
        Some(tile) => tile,
        None => Tile::Air,
    }
}

/// Length of the header of a map file: the magic, the width, the height.
pub const HEADER_LEN: usize = 12;

/// Whether the bytes start with the letters CMTM.
pub open spec fn has_magic(bytes: Seq<u8>) -> bool {
    bytes[0] == 67 && bytes[1] == 77 && bytes[2] == 84 && bytes[3] == 77
}

/// What is wrong with the bytes of a map file, if anything. The checks are
/// made in reading order, and bytes after the last tile are ignored.
pub open spec fn load_error(bytes: Seq<u8>) -> Option<TilemapLoadError> {
    if bytes.len() < 4 {
        Some(TilemapLoadError::UnexpectedEof)
    } else if !has_magic(bytes) {
        Some(TilemapLoadError::InvalidMagic)
    } else if bytes.len() < HEADER_LEN {
        Some(TilemapLoadError::UnexpectedEof)
    } else if le_i32(bytes, 4) <= 0 || le_i32(bytes, 8) <= 0 || le_i32(bytes, 4) * le_i32(bytes, 8)
        > i32::MAX {
        Some(TilemapLoadError::InvalidSize)
    } else if bytes.len() < HEADER_LEN + le_i32(bytes, 4) * le_i32(bytes, 8) {
        Some(TilemapLoadError::UnexpectedEof)
    } else {
        None
    }
}

fn read_i32(bytes: &[u8], at: usize) -> (value: i64)
    requires
        at + 4 <= bytes@.len(),
    ensures
        value == le_i32(bytes@, at as int),
        i32::MIN <= value <= i32::MAX,
{
    let unsigned: i64 = (bytes[at] as i64) + 0x100 * (bytes[at + 1] as i64) + 0x1_0000 * (bytes[at
        + 2] as i64) + 0x100_0000 * (bytes[at + 3] as i64);
    if unsigned >= 0x8000_0000 {
        unsigned - 0x1_0000_0000
    } else {
        unsigned
    }
}

impl Tilemap {
    /// Reads a map from the bytes of a map file: the letters CMTM, the
    /// width and the height as little-endian 32-bit numbers, then one byte
    /// per tile, row by row.
    pub fn from_bytes(bytes: &[u8]) -> (res: Result<Tilemap, TilemapLoadError>)
        ensures
            match res {
                Ok(map) => {
                    &&& load_error(bytes@) is None
                    &&& map.wf()
                    &&& map.spec_width() == le_i32(bytes@, 4)
                    &&& map.spec_height() == le_i32(bytes@, 8)
                    &&& forall|i: int|
                        0 <= i < map@.len() ==> map@[i] == tile_of_byte(
                            #[trigger] bytes@[HEADER_LEN + i],
                        )
                },
                Err(error) => load_error(bytes@) == Some(error),
            },
    {
        if bytes.len() < 4 {
            return Err(TilemapLoadError::UnexpectedEof);
        }
        if !(bytes[0] == 67 && bytes[1] == 77 && bytes[2] == 84 && bytes[3] == 77) {
            return Err(TilemapLoadError::InvalidMagic);
        }
        if bytes.len() < HEADER_LEN {
            return Err(TilemapLoadError::UnexpectedEof);
        }
        let width = read_i32(bytes, 4);
        let height = read_i32(bytes, 8);
        if width <= 0 || height <= 0 {
            return Err(TilemapLoadError::InvalidSize);
        }
        assert(0 < width * height <= 0x4000_0000_0000_0000) by (nonlinear_arith)
            requires
                0 < width <= 0x7fff_ffff,
                0 < height <= 0x7fff_ffff,
        ;
        let count: i64 = width * height;
        if count > i32::MAX as i64 {
            return Err(TilemapLoadError::InvalidSize);
        }
        if bytes.len() - HEADER_LEN < count as usize {
            return Err(TilemapLoadError::UnexpectedEof);
        }
        let n = count as usize;
        let len = bytes.len();
        let mut tiles: Vec<Tile> = Vec::with_capacity(n);
        let mut i: usize = 0;
        while i < n
            invariant
                i <= n,
                len == bytes@.len(),
                HEADER_LEN + n <= len,
                tiles@.len() == i,
                forall|j: int|
                    0 <= j < i ==> tiles@[j] == tile_of_byte(#[trigger] bytes@[HEADER_LEN + j]),
            decreases n - i,
        {
            let tile = match Tile::from_integer(bytes[HEADER_LEN + i]) {
                Some(tile) => tile,
                None => Tile::Air,
            };
            tiles.push(tile);
            i += 1;
        }
        Ok(Tilemap { width: width as i32, height: height as i32, tiles })
    }
}

impl Default for Tilemap {
    /// The map of a blank level: 48 columns by 27 rows of air.
    fn default() -> (map: Tilemap)
        ensures
            map.wf(),
            map.spec_width() == 48,
            map.spec_height() == 27,
            forall|i: int| 0 <= i < map@.len() ==> map@[i] == Tile::Air,
    {
        Tilemap::new(48, 27)
    }
}

} // verus!
