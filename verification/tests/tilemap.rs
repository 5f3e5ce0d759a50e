use complementary::level::{Level, LevelLoadError};
use complementary::math::{Bounds, Direction, FVec2, SCALE};
use complementary::tilemap::{Tile, Tilemap, TilemapLoadError};

fn all_tiles() -> [Tile; 12] {
    [
        Tile::Air,
        Tile::Solid,
        Tile::SpikesLeft,
        Tile::SpikesRight,
        Tile::SpikesUp,
        Tile::SpikesDown,
        Tile::SpawnPoint,
        Tile::GoalLeft,
        Tile::GoalRight,
        Tile::GoalUp,
        Tile::GoalDown,
        Tile::SpikeAllSides,
    ]
}

fn map_file(width: i32, height: i32, tiles: &[u8]) -> Vec<u8> {
    let mut bytes = Vec::new();
    bytes.extend_from_slice(b"CMTM");
    bytes.extend_from_slice(&width.to_le_bytes());
    bytes.extend_from_slice(&height.to_le_bytes());
    bytes.extend_from_slice(tiles);
    bytes
}

#[test]
fn tile_classes() {
    let solid = [false, true, true, true, true, true, false, false, false, false, false, true];
    let wall = [false, true, false, false, false, false, false, false, false, false, false, false];
    let spike = [false, false, true, true, true, true, false, false, false, false, false, true];
    for (i, tile) in all_tiles().iter().enumerate() {
        assert_eq!(tile.is_solid(), solid[i]);
        assert_eq!(tile.is_wall(), wall[i]);
        assert_eq!(tile.is_spike(), spike[i]);
    }
}

#[test]
fn tile_directions() {
    assert_eq!(Tile::Air.direction(), None);
    assert_eq!(Tile::Solid.direction(), None);
    assert_eq!(Tile::SpikesLeft.direction(), Some(Direction::Left));
    assert_eq!(Tile::SpikesRight.direction(), Some(Direction::Right));
    assert_eq!(Tile::SpikesUp.direction(), Some(Direction::Up));
    assert_eq!(Tile::SpikesDown.direction(), Some(Direction::Down));
    assert_eq!(Tile::SpawnPoint.direction(), None);
    assert_eq!(Tile::GoalLeft.direction(), Some(Direction::Left));
    assert_eq!(Tile::GoalRight.direction(), Some(Direction::Right));
    assert_eq!(Tile::GoalUp.direction(), Some(Direction::Up));
    assert_eq!(Tile::GoalDown.direction(), Some(Direction::Down));
    assert_eq!(Tile::SpikeAllSides.direction(), None);
}

#[test]
fn spikes_kill_against_their_face_only() {
    assert!(Tile::SpikesUp.kills(Direction::Down));
    assert!(!Tile::SpikesUp.kills(Direction::Up));
    assert!(!Tile::SpikesUp.kills(Direction::Left));
    assert!(!Tile::SpikesUp.kills(Direction::Right));
    assert!(Tile::SpikesDown.kills(Direction::Up));
    assert!(Tile::SpikesLeft.kills(Direction::Right));
    assert!(Tile::SpikesRight.kills(Direction::Left));
    for heading in Direction::all() {
        assert!(Tile::SpikeAllSides.kills(heading));
        assert!(!Tile::Solid.kills(heading));
        assert!(!Tile::Air.kills(heading));
        assert!(!Tile::GoalUp.kills(heading));
    }
}

#[test]
fn tile_bytes_round_trip() {
    for (i, tile) in all_tiles().iter().enumerate() {
        assert_eq!(tile.into_integer(), i as u8);
        assert_eq!(Tile::from_integer(i as u8), Some(*tile));
    }
    assert_eq!(Tile::from_integer(12), None);
    assert_eq!(Tile::from_integer(255), None);
}

#[test]
fn new_map_is_all_air() {
    let map = Tilemap::new(4, 3);
    assert_eq!(map.width(), 4);
    assert_eq!(map.height(), 3);
    for y in 0..3 {
        for x in 0..4 {
            assert_eq!(map.get_tile(x, y), Tile::Air);
        }
    }
    assert_eq!(map.get_spawn_point(), None);
}

#[test]
fn default_map_is_48_by_27() {
    let map = Tilemap::default();
    assert_eq!(map.width(), 48);
    assert_eq!(map.height(), 27);
    assert_eq!(map.get_tile(47, 26), Tile::Air);
    let level = Level::default();
    assert_eq!(level.tilemap.width(), 48);
    assert_eq!(level.tilemap.height(), 27);
}

#[test]
fn set_tile_changes_one_cell() {
    let mut map = Tilemap::new(4, 3);
    map.set_tile(2, 1, Tile::Solid);
    for y in 0..3 {
        for x in 0..4 {
            let expected = if (x, y) == (2, 1) { Tile::Solid } else { Tile::Air };
            assert_eq!(map.get_tile(x, y), expected);
        }
    }
    map.set_tile(2, 1, Tile::SpikesUp);
    assert_eq!(map.get_tile(2, 1), Tile::SpikesUp);
    assert_eq!(map.width(), 4);
    assert_eq!(map.height(), 3);
}

#[test]
fn spawn_point_is_the_first_in_reading_order() {
    let mut map = Tilemap::new(5, 4);
    map.set_tile(3, 2, Tile::SpawnPoint);
    assert_eq!(map.get_spawn_point(), Some(FVec2::new(3 * SCALE, 2 * SCALE)));
    map.set_tile(4, 1, Tile::SpawnPoint);
    assert_eq!(map.get_spawn_point(), Some(FVec2::new(4 * SCALE, 1 * SCALE)));
    map.set_tile(0, 3, Tile::SpawnPoint);
    assert_eq!(map.get_spawn_point(), Some(FVec2::new(4 * SCALE, 1 * SCALE)));
    map.set_tile(0, 0, Tile::SpawnPoint);
    assert_eq!(map.get_spawn_point(), Some(FVec2::new(0, 0)));
}

#[test]
fn contains_bounds_needs_the_whole_box_inside() {
    let map = Tilemap::new(4, 3);
    let inside = Bounds::new(FVec2::new(0, 0), FVec2::new(4 * SCALE - 1, 3 * SCALE - 1));
    assert!(map.contains_bounds(inside));
    assert!(!map.contains_bounds(Bounds::new(FVec2::new(-1, 0), FVec2::new(10, 10))));
    assert!(!map.contains_bounds(Bounds::new(FVec2::new(0, -1), FVec2::new(10, 10))));
    assert!(!map.contains_bounds(Bounds::new(FVec2::new(0, 0), FVec2::new(4 * SCALE, 10))));
    assert!(!map.contains_bounds(Bounds::new(FVec2::new(0, 0), FVec2::new(10, 3 * SCALE))));
}

#[test]
fn map_file_is_read_row_by_row() {
    let bytes = map_file(3, 2, &[0, 1, 2, 6, 11, 200]);
    let map = Tilemap::from_bytes(&bytes).unwrap();
    assert_eq!(map.width(), 3);
    assert_eq!(map.height(), 2);
    assert_eq!(map.get_tile(0, 0), Tile::Air);
    assert_eq!(map.get_tile(1, 0), Tile::Solid);
    assert_eq!(map.get_tile(2, 0), Tile::SpikesLeft);
    assert_eq!(map.get_tile(0, 1), Tile::SpawnPoint);
    assert_eq!(map.get_tile(1, 1), Tile::SpikeAllSides);
    // A byte that stands for no tile is read as air.
    assert_eq!(map.get_tile(2, 1), Tile::Air);
    assert_eq!(map.get_spawn_point(), Some(FVec2::new(0, SCALE)));
}

#[test]
fn map_file_may_have_trailing_bytes() {
    let bytes = map_file(1, 1, &[1, 9, 9, 9]);
    let map = Tilemap::from_bytes(&bytes).unwrap();
    assert_eq!(map.width(), 1);
    assert_eq!(map.height(), 1);
    assert_eq!(map.get_tile(0, 0), Tile::Solid);
}

#[test]
fn map_file_with_a_wrong_magic_is_refused() {
    let mut bytes = map_file(1, 1, &[1]);
    bytes[3] = b'X';
    assert_eq!(Tilemap::from_bytes(&bytes).err(), Some(TilemapLoadError::InvalidMagic));
    assert_eq!(Tilemap::from_bytes(b"CMTX").err(), Some(TilemapLoadError::InvalidMagic));
    assert_eq!(
        Level::from_bytes(&bytes).err(),
        Some(LevelLoadError::Tilemap(TilemapLoadError::InvalidMagic))
    );
}

#[test]
fn map_file_that_ends_early_is_refused() {
    assert_eq!(Tilemap::from_bytes(b"").err(), Some(TilemapLoadError::UnexpectedEof));
    assert_eq!(Tilemap::from_bytes(b"CMT").err(), Some(TilemapLoadError::UnexpectedEof));
    assert_eq!(Tilemap::from_bytes(b"CMTM").err(), Some(TilemapLoadError::UnexpectedEof));
    let bytes = map_file(2, 2, &[0, 0, 0]);
    assert_eq!(Tilemap::from_bytes(&bytes).err(), Some(TilemapLoadError::UnexpectedEof));
    assert_eq!(Tilemap::from_bytes(&bytes[..11]).err(), Some(TilemapLoadError::UnexpectedEof));
}

#[test]
fn map_file_with_a_bad_size_is_refused() {
    assert_eq!(
        Tilemap::from_bytes(&map_file(0, 3, &[])).err(),
        Some(TilemapLoadError::InvalidSize)
    );
    assert_eq!(
        Tilemap::from_bytes(&map_file(3, -1, &[0, 0, 0])).err(),
        Some(TilemapLoadError::InvalidSize)
    );
    assert_eq!(
        Tilemap::from_bytes(&map_file(-2, -2, &[0, 0, 0, 0])).err(),
        Some(TilemapLoadError::InvalidSize)
    );
    assert_eq!(
        Tilemap::from_bytes(&map_file(65_536, 32_768, &[0])).err(),
        Some(TilemapLoadError::InvalidSize)
    );
}

#[test]
fn level_is_read_from_its_map_file() {
    let level = Level::from_bytes(&map_file(2, 1, &[1, 6])).unwrap();
    assert_eq!(level.tilemap.width(), 2);
    assert_eq!(level.tilemap.height(), 1);
    assert_eq!(level.tilemap.get_tile(0, 0), Tile::Solid);
    assert_eq!(level.tilemap.get_tile(1, 0), Tile::SpawnPoint);
}
