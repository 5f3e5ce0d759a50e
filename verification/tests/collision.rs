use complementary::collision::{collides, probe, CollisionType, Probe};
use complementary::math::{Bounds, Direction, FVec2, SCALE};
use complementary::motion::{blocked_at, bounds_at, move_until_collision};
use complementary::tilemap::{Tile, Tilemap};

fn boxed(x: i64, y: i64) -> Bounds {
    bounds_at(FVec2::new(x, y))
}

fn map_with(width: i32, height: i32, tiles: &[(i32, i32, Tile)]) -> Tilemap {
    let mut map = Tilemap::new(width, height);
    for (x, y, tile) in tiles {
        map.set_tile(*x, *y, *tile);
    }
    map
}

#[test]
fn actor_box_is_eight_tenths_of_a_tile() {
    let bounds = boxed(3 * SCALE, 4 * SCALE);
    assert_eq!(bounds.min, FVec2::new(3_000_000, 4_000_000));
    assert_eq!(bounds.max, FVec2::new(3_800_000, 4_800_000));
}

#[test]
fn open_space_does_not_collide() {
    let map = Tilemap::new(10, 10);
    assert!(!collides(&map, boxed(3 * SCALE, 4 * SCALE)));
    assert!(!collides(&map, boxed(0, 0)));
    assert!(!collides(&map, boxed(9_199_999, 9_199_999)));
}

#[test]
fn leaving_the_map_collides() {
    let map = Tilemap::new(10, 10);
    assert!(collides(&map, boxed(-1, 0)));
    assert!(collides(&map, boxed(0, -1)));
    assert!(collides(&map, boxed(9_200_000, 0)));
    assert!(collides(&map, boxed(0, 9_200_000)));
    assert!(collides(&map, boxed(-50 * SCALE, -50 * SCALE)));
    assert!(collides(&map, boxed(500 * SCALE, 3 * SCALE)));
}

#[test]
fn reaching_into_a_solid_tile_collides() {
    let map = map_with(10, 10, &[(5, 5, Tile::Solid)]);
    // The box reaches into every cell from its least to its greatest corner.
    assert!(collides(&map, boxed(5 * SCALE, 5 * SCALE)));
    assert!(collides(&map, boxed(4_200_000, 4_200_000)));
    assert!(!collides(&map, boxed(4_199_999, 4_200_000)));
    assert!(!collides(&map, boxed(4_200_000, 4_199_999)));
    assert!(collides(&map, boxed(5_999_999, 5_999_999)));
    assert!(!collides(&map, boxed(6_000_000, 5_500_000)));
    assert!(!collides(&map, boxed(5_500_000, 6_000_000)));
}

#[test]
fn only_solid_tiles_collide() {
    for tile in [Tile::Air, Tile::SpawnPoint, Tile::GoalLeft, Tile::GoalRight, Tile::GoalUp, Tile::GoalDown] {
        let map = map_with(10, 10, &[(5, 5, tile)]);
        assert!(!collides(&map, boxed(5 * SCALE, 5 * SCALE)));
    }
    for tile in [
        Tile::Solid,
        Tile::SpikesLeft,
        Tile::SpikesRight,
        Tile::SpikesUp,
        Tile::SpikesDown,
        Tile::SpikeAllSides,
    ] {
        let map = map_with(10, 10, &[(5, 5, tile)]);
        assert!(collides(&map, boxed(5 * SCALE, 5 * SCALE)));
        assert!(blocked_at(&map, FVec2::new(5 * SCALE, 5 * SCALE)));
    }
}

#[test]
fn probe_of_open_space_finds_nothing() {
    let map = Tilemap::new(10, 10);
    for heading in Direction::all() {
        assert_eq!(
            probe(&map, boxed(3 * SCALE, 4 * SCALE), heading),
            Probe { face: None, lethal: false }
        );
    }
}

#[test]
fn probe_classifies_walls_and_spikes() {
    let map = map_with(10, 10, &[(5, 5, Tile::Solid), (7, 7, Tile::SpikesLeft)]);
    assert_eq!(
        probe(&map, boxed(4_500_000, 4_500_000), Direction::Right),
        Probe { face: Some(CollisionType::Wall), lethal: false }
    );
    assert_eq!(
        probe(&map, boxed(6_500_000, 6_500_000), Direction::Left),
        Probe { face: Some(CollisionType::Solid), lethal: false }
    );
    assert_eq!(
        probe(&map, boxed(6_500_000, 6_500_000), Direction::Right),
        Probe { face: Some(CollisionType::Solid), lethal: true }
    );
}

#[test]
fn probe_outside_the_map_finds_a_wall() {
    let map = Tilemap::new(10, 10);
    assert_eq!(
        probe(&map, boxed(-2_500, 3 * SCALE), Direction::Left),
        Probe { face: Some(CollisionType::Wall), lethal: false }
    );
    assert_eq!(
        probe(&map, boxed(3 * SCALE, 9_200_000), Direction::Down),
        Probe { face: Some(CollisionType::Wall), lethal: false }
    );
    assert_eq!(
        probe(&map, boxed(-70 * SCALE, -70 * SCALE), Direction::Up),
        Probe { face: Some(CollisionType::Wall), lethal: false }
    );
}

#[test]
fn probe_at_the_edge_still_sees_the_tiles_inside() {
    let map = map_with(10, 10, &[(0, 3, Tile::SpikeAllSides)]);
    assert_eq!(
        probe(&map, boxed(-2_500, 3 * SCALE), Direction::Left),
        Probe { face: Some(CollisionType::Solid), lethal: true }
    );
}

#[test]
fn spikes_up_kill_the_probe_downward_only() {
    // The actor stands just above a tile of spikes that point up.
    let map = map_with(10, 10, &[(5, 6, Tile::SpikesUp)]);
    let x = 5_000_000;
    let y = 5_199_500;
    assert!(!collides(&map, boxed(x, y)));
    let down = probe(&map, boxed(x, y + 2_500), Direction::Down);
    assert_eq!(down, Probe { face: Some(CollisionType::Solid), lethal: true });
    // The same box probed in the other headings touches the spikes and lives.
    for heading in [Direction::Up, Direction::Left, Direction::Right] {
        let other = probe(&map, boxed(x, y + 2_500), heading);
        assert_eq!(other, Probe { face: Some(CollisionType::Solid), lethal: false });
    }
}

#[test]
fn spikes_on_all_sides_kill_every_probe() {
    let map = map_with(10, 10, &[(5, 6, Tile::SpikeAllSides)]);
    for heading in Direction::all() {
        let found = probe(&map, boxed(5_000_000, 5_202_000), heading);
        assert_eq!(found, Probe { face: Some(CollisionType::Solid), lethal: true });
    }
}

#[test]
fn the_last_solid_tile_in_reading_order_decides_the_class() {
    let spike_last = map_with(10, 10, &[(5, 5, Tile::Solid), (6, 5, Tile::SpikesUp)]);
    assert_eq!(
        probe(&spike_last, boxed(5_500_000, 5_100_000), Direction::Left).face,
        Some(CollisionType::Solid)
    );
    let wall_last = map_with(10, 10, &[(5, 5, Tile::SpikesUp), (6, 5, Tile::Solid)]);
    assert_eq!(
        probe(&wall_last, boxed(5_500_000, 5_100_000), Direction::Left).face,
        Some(CollisionType::Wall)
    );
    // Nothing is looked at after a tile that kills.
    assert_eq!(
        probe(&wall_last, boxed(5_500_000, 5_100_000), Direction::Down),
        Probe { face: Some(CollisionType::Solid), lethal: true }
    );
}

#[test]
fn unobstructed_move_makes_the_whole_displacement() {
    let map = Tilemap::new(64, 64);
    // 28000 units are eleven steps of 2500 and a rest of 500.
    let (position, velocity) =
        move_until_collision(&map, FVec2::new(30 * SCALE, 30 * SCALE), FVec2::new(28_000, 0));
    assert_eq!(position, FVec2::new(30_028_000, 30_000_000));
    assert_eq!(velocity, FVec2::new(28_000, 0));
    let (position, velocity) = move_until_collision(
        &map,
        FVec2::new(30 * SCALE, 30 * SCALE),
        FVec2::new(-1_234_567, 7_654_321),
    );
    assert_eq!(position, FVec2::new(28_765_433, 37_654_321));
    assert_eq!(velocity, FVec2::new(-1_234_567, 7_654_321));
}

#[test]
fn move_without_velocity_stays() {
    let map = Tilemap::new(64, 64);
    let (position, velocity) =
        move_until_collision(&map, FVec2::new(30 * SCALE, 30 * SCALE), FVec2::zero());
    assert_eq!(position, FVec2::new(30 * SCALE, 30 * SCALE));
    assert_eq!(velocity, FVec2::zero());
}

#[test]
fn move_stops_at_the_last_whole_step_before_a_wall() {
    let mut map = Tilemap::new(64, 64);
    for y in 0..64 {
        map.set_tile(31, y, Tile::Solid);
    }
    // The right edge of the box is 26000 units from the wall: ten steps fit,
    // the eleventh would reach into the wall and is not made.
    let (position, velocity) =
        move_until_collision(&map, FVec2::new(30_174_000, 5 * SCALE), FVec2::new(28_000, 10_000));
    assert_eq!(position, FVec2::new(30_199_000, 5_010_000));
    assert_eq!(velocity, FVec2::new(0, 10_000));
}

#[test]
fn move_that_starts_blocked_goes_nowhere() {
    let map = Tilemap::default();
    // Row 30 lies below the 27 rows of the map.
    let (position, velocity) =
        move_until_collision(&map, FVec2::new(30 * SCALE, 30 * SCALE), FVec2::new(28_000, 24_750));
    assert_eq!(position, FVec2::new(30 * SCALE, 30 * SCALE));
    assert_eq!(velocity, FVec2::zero());
}

#[test]
fn no_velocity_carries_the_actor_through_a_thin_wall() {
    let mut map = Tilemap::new(64, 8);
    for y in 0..8 {
        map.set_tile(20, y, Tile::Solid);
    }
    for speed in [3_000, 250_000, 1_000_000, 5_000_000, 40 * SCALE, 20_000_000_000] {
        let (position, velocity) =
            move_until_collision(&map, FVec2::new(10 * SCALE, 3 * SCALE), FVec2::new(speed, 0));
        assert!(position.x + 800_000 < 20 * SCALE);
        assert!(position.x >= 10 * SCALE);
        if speed > 9_200_000 {
            assert_eq!(position.x, 19_197_500);
            assert_eq!(velocity.x, 0);
        }
        let (position, velocity) =
            move_until_collision(&map, FVec2::new(30 * SCALE, 3 * SCALE), FVec2::new(-speed, 0));
        assert!(position.x >= 21 * SCALE);
        if speed > 9_000_000 {
            assert_eq!(position.x, 21 * SCALE);
            assert_eq!(velocity.x, 0);
        }
    }
}

#[test]
fn no_velocity_carries_the_actor_through_a_thin_floor() {
    let mut map = Tilemap::new(8, 64);
    for x in 0..8 {
        map.set_tile(x, 20, Tile::Solid);
    }
    let (position, velocity) =
        move_until_collision(&map, FVec2::new(3 * SCALE, 10 * SCALE), FVec2::new(0, 45 * SCALE));
    assert_eq!(position, FVec2::new(3 * SCALE, 19_197_500));
    assert_eq!(velocity, FVec2::zero());
    let (position, velocity) =
        move_until_collision(&map, FVec2::new(3 * SCALE, 30 * SCALE), FVec2::new(0, -45 * SCALE));
    assert_eq!(position, FVec2::new(3 * SCALE, 21 * SCALE));
    assert_eq!(velocity, FVec2::zero());
}

#[test]
fn a_blocked_axis_does_not_stop_the_other() {
    let mut map = Tilemap::new(64, 64);
    for x in 0..64 {
        map.set_tile(x, 20, Tile::Solid);
    }
    let (position, velocity) = move_until_collision(
        &map,
        FVec2::new(3 * SCALE, 19 * SCALE),
        FVec2::new(2 * SCALE, 2 * SCALE),
    );
    assert_eq!(position, FVec2::new(5 * SCALE, 19_197_500));
    assert_eq!(velocity, FVec2::new(2 * SCALE, 0));
}
