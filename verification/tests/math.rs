use complementary::forces::{
    decay_factor, ease_factor, jump_hold_force_of, walk_force_of, COLLISION_STEP, DRAG_X, DRAG_Y,
    GRAVITY, MOVE_SPEED,
};
use complementary::math::{count_down, scale, Bounds, Direction, FVec2, SCALE};

#[test]
fn scale_rounds_toward_zero() {
    assert_eq!(scale(40_000, DRAG_X), 28_000);
    assert_eq!(scale(27_500, DRAG_Y), 24_750);
    assert_eq!(scale(1, 700_000), 0);
    assert_eq!(scale(-1, 700_000), 0);
    assert_eq!(scale(3, 500_000), 1);
    assert_eq!(scale(-3, 500_000), -1);
    assert_eq!(scale(-52_250, 270_000), -14_107);
    assert_eq!(scale(52_250, 270_000), 14_107);
    assert_eq!(scale(123_456, SCALE), 123_456);
    assert_eq!(scale(-123_456, 0), 0);
}

#[test]
fn scale_at_the_limit_of_its_domain() {
    assert_eq!(scale(9_000_000_000_000, SCALE), 9_000_000_000_000);
    assert_eq!(scale(-9_000_000_000_000, 900_000), -8_100_000_000_000);
}

#[test]
fn decay_is_ten_elevenths_per_step_rounded_down() {
    assert_eq!(decay_factor(0), 1_000_000);
    assert_eq!(decay_factor(1), 909_090);
    assert_eq!(decay_factor(2), 826_445);
    assert_eq!(decay_factor(3), 751_313);
    assert_eq!(decay_factor(40), 22_090);
    assert_eq!(decay_factor(41), 20_081);
}

#[test]
fn jump_hold_force_decays() {
    assert_eq!(jump_hold_force_of(1), -90_909);
    assert_eq!(jump_hold_force_of(2), -82_644);
    assert_eq!(jump_hold_force_of(3), -75_131);
    assert_eq!(jump_hold_force_of(4), -68_301);
    assert_eq!(jump_hold_force_of(40), -2_209);
}

#[test]
fn ease_is_a_quarter_sine() {
    assert_eq!(ease_factor(0), 0);
    assert_eq!(ease_factor(-3), 0);
    assert_eq!(ease_factor(1), 65_403);
    assert_eq!(ease_factor(8), 500_000);
    assert_eq!(ease_factor(12), 707_107);
    assert_eq!(ease_factor(16), 866_025);
    assert_eq!(ease_factor(23), 997_859);
    assert_eq!(ease_factor(24), 1_000_000);
    assert_eq!(ease_factor(25), 1_000_000);
    for t in 0..24 {
        assert!(ease_factor(t) < ease_factor(t + 1));
        let exact = (std::f64::consts::PI / 2.0 * (t as f64) / 24.0).sin() * 1e6;
        assert!((ease_factor(t) as f64 - exact).abs() <= 0.5);
    }
}

#[test]
fn walk_force_is_the_move_speed_in_the_direction_of_the_controls() {
    assert_eq!(walk_force_of(1), 40_000);
    assert_eq!(walk_force_of(0), 0);
    assert_eq!(walk_force_of(-1), -40_000);
    assert_eq!(MOVE_SPEED, 40_000);
    assert_eq!(GRAVITY, 27_500);
    assert_eq!(COLLISION_STEP, 2_500);
}

#[test]
fn directions() {
    assert_eq!(Direction::Left.as_vec(), FVec2::new(-SCALE, 0));
    assert_eq!(Direction::Right.as_vec(), FVec2::new(SCALE, 0));
    assert_eq!(Direction::Up.as_vec(), FVec2::new(0, -SCALE));
    assert_eq!(Direction::Down.as_vec(), FVec2::new(0, SCALE));
    assert_eq!(Direction::Left.inverse(), Direction::Right);
    assert_eq!(Direction::Right.inverse(), Direction::Left);
    assert_eq!(Direction::Up.inverse(), Direction::Down);
    assert_eq!(Direction::Down.inverse(), Direction::Up);
    let all = Direction::all();
    assert_eq!(all, [Direction::Left, Direction::Right, Direction::Up, Direction::Down]);
    assert_eq!(Direction::ALL, all);
    for direction in all {
        assert_eq!(all[direction.index()], direction);
    }
}

#[test]
fn vectors_and_boxes() {
    assert_eq!(FVec2::zero(), FVec2::new(0, 0));
    assert_eq!(FVec2::from_tiles(30, -2), FVec2::new(30_000_000, -2_000_000));
    let a = Bounds::new(FVec2::new(0, 0), FVec2::new(10, 10));
    let b = Bounds::new(FVec2::new(5, 5), FVec2::new(15, 15));
    let c = Bounds::new(FVec2::new(10, 0), FVec2::new(20, 10));
    assert_eq!(a.min, FVec2::new(0, 0));
    assert_eq!(a.max, FVec2::new(10, 10));
    assert!(a.overlaps(&b));
    assert!(b.overlaps(&a));
    assert!(!a.overlaps(&c));
    assert!(b.overlaps(&c));
}

#[test]
fn counters_run_down_to_zero_and_stay() {
    assert_eq!(count_down(6), 5);
    assert_eq!(count_down(1), 0);
    assert_eq!(count_down(0), 0);
    assert_eq!(count_down(-4), 0);
    assert_eq!(count_down(i32::MAX), i32::MAX - 1);
    assert_eq!(count_down(i32::MIN), 0);
}
