use complementary::ability::Ability;
use complementary::game::{plan_frame, FramePlan, Game, MAX_TICKS_PER_FRAME, TICK_DURATION};
use complementary::input::{ButtonType, Input};
use complementary::level::Level;
use complementary::math::{FVec2, SCALE};
use complementary::tilemap::{Tile, Tilemap};
use complementary::world::WorldType;

fn level_with_spawn() -> Level {
    let mut tilemap = Tilemap::new(20, 20);
    for x in 0..20 {
        tilemap.set_tile(x, 10, Tile::Solid);
    }
    tilemap.set_tile(3, 4, Tile::SpawnPoint);
    tilemap.set_tile(8, 9, Tile::SpikeAllSides);
    Level { tilemap }
}

#[test]
fn frame_plan_runs_one_tick_per_tick_duration() {
    assert_eq!(TICK_DURATION, 10_000_000);
    assert_eq!(MAX_TICKS_PER_FRAME, 5);
    assert_eq!(plan_frame(0), FramePlan { ticks: 0, lagging: false, skipped: 0, lag: 0 });
    assert_eq!(
        plan_frame(9_999_999),
        FramePlan { ticks: 0, lagging: false, skipped: 0, lag: 9_999_999 }
    );
    assert_eq!(plan_frame(10_000_000), FramePlan { ticks: 1, lagging: false, skipped: 0, lag: 0 });
    assert_eq!(
        plan_frame(16_666_667),
        FramePlan { ticks: 1, lagging: false, skipped: 0, lag: 6_666_667 }
    );
    assert_eq!(
        plan_frame(59_000_000),
        FramePlan { ticks: 5, lagging: false, skipped: 0, lag: 9_000_000 }
    );
}

#[test]
fn frame_plan_drops_the_lag_it_cannot_catch_up_with() {
    assert_eq!(
        plan_frame(60_000_001),
        FramePlan { ticks: 6, lagging: true, skipped: 0, lag: 1 }
    );
    assert_eq!(
        plan_frame(1_234_567_890),
        FramePlan { ticks: 6, lagging: true, skipped: 117, lag: 4_567_890 }
    );
    let plan = plan_frame(u64::MAX);
    assert_eq!(plan.ticks, 6);
    assert!(plan.lagging);
    assert_eq!(plan.skipped, u64::MAX / 10_000_000 - 6);
    assert_eq!(plan.lag, u64::MAX % 10_000_000);
}

#[test]
fn new_game_puts_the_actor_on_the_spawn_point() {
    let game = Game::new(level_with_spawn());
    assert_eq!(game.world_type(), WorldType::Light);
    assert_eq!(game.player().position(), FVec2::new(3 * SCALE, 4 * SCALE));
    assert_eq!(game.level().tilemap.width(), 20);
    let blank = Game::new(Level::default());
    assert_eq!(blank.player().position(), FVec2::new(30 * SCALE, 30 * SCALE));
}

#[test]
fn switch_button_toggles_the_world_on_its_first_frame() {
    let mut game = Game::new(level_with_spawn());
    let mut input = Input::new();
    input.set_button_pressed(ButtonType::Switch);
    input.tick();
    game.tick(&input);
    assert_eq!(game.world_type(), WorldType::Dark);
    // Held on: no further switch.
    input.tick();
    game.tick(&input);
    assert_eq!(game.world_type(), WorldType::Dark);
    input.set_button_released(ButtonType::Switch);
    input.set_button_pressed(ButtonType::SwitchAndAbility);
    input.tick();
    game.tick(&input);
    assert_eq!(game.world_type(), WorldType::Light);
    input.tick();
    game.tick(&input);
    assert_eq!(game.world_type(), WorldType::Light);
}

#[test]
fn the_tick_runs_in_the_world_that_was_switched_to() {
    let mut game = Game::new(level_with_spawn());
    game.player_mut().set_ability(WorldType::Dark, Ability::Dash);
    let mut input = Input::new();
    input.set_button_pressed(ButtonType::SwitchAndAbility);
    input.tick();
    game.tick(&input);
    assert_eq!(game.world_type(), WorldType::Dark);
    assert_eq!(game.player().dash_state().dash_ticks(), 23);
}

#[test]
fn game_tick_moves_the_actor() {
    let mut game = Game::new(level_with_spawn());
    let mut input = Input::new();
    input.set_button_pressed(ButtonType::Right);
    input.tick();
    game.tick(&input);
    assert_eq!(game.player().velocity(), FVec2::new(28_000, 24_750));
    assert_eq!(game.player().position(), FVec2::new(3_028_000, 4_024_750));
}

#[test]
fn a_dead_actor_is_put_back_to_the_spawn_point() {
    let mut game = Game::new(level_with_spawn());
    // Next to the spikes at (8, 9).
    game.player_mut().set_position(FVec2::new(7_199_000, 9_199_000));
    game.player_mut().set_ability(WorldType::Light, Ability::Dash);
    let mut input = Input::new();
    input.set_button_pressed(ButtonType::Ability);
    input.tick();
    game.tick(&input);
    assert!(!game.player().dead());
    assert_eq!(game.player().position(), FVec2::new(3 * SCALE, 4 * SCALE));
    assert_eq!(game.player().velocity(), FVec2::zero());
    assert_eq!(game.player().dash_state().dash_ticks(), 0);
    assert!(game.player().dash_state().useable());
    assert_eq!(game.player().active_ability(WorldType::Light), Ability::Dash);
}

#[test]
fn a_dead_actor_stays_where_it_is_without_a_spawn_point() {
    let mut tilemap = Tilemap::new(20, 20);
    tilemap.set_tile(8, 9, Tile::SpikeAllSides);
    let mut game = Game::new(Level { tilemap });
    game.player_mut().set_position(FVec2::new(7_199_000, 9_000_000));
    game.tick(&Input::new());
    assert!(!game.player().dead());
    assert_eq!(game.player().velocity(), FVec2::zero());
    assert_eq!(game.player().position().x, 7_199_000);
}

#[test]
fn load_level_replaces_the_level_and_resets_the_actor() {
    let mut game = Game::new(Level::default());
    game.player_mut().set_ability(WorldType::Light, Ability::Dash);
    let mut input = Input::new();
    input.set_button_pressed(ButtonType::Ability);
    input.tick();
    game.tick(&input);
    assert!(game.player().dash_state().is_dashing());
    game.load_level(level_with_spawn());
    assert_eq!(game.level().tilemap.width(), 20);
    assert_eq!(game.player().position(), FVec2::new(3 * SCALE, 4 * SCALE));
    assert_eq!(game.player().velocity(), FVec2::zero());
    assert!(!game.player().dash_state().is_dashing());
    assert!(game.player().dash_state().dash_ready());
    assert_eq!(game.player().active_ability(WorldType::Light), Ability::Dash);
    // A level without a spawn point leaves the actor where it stands.
    game.load_level(Level::default());
    assert_eq!(game.level().tilemap.width(), 48);
    assert_eq!(game.player().position(), FVec2::new(3 * SCALE, 4 * SCALE));
    game.player_mut().set_position(FVec2::new(SCALE, SCALE));
    game.spawn_player();
    assert_eq!(game.player().position(), FVec2::new(SCALE, SCALE));
    game.load_level(level_with_spawn());
    game.player_mut().set_position(FVec2::new(SCALE, SCALE));
    game.spawn_player();
    assert_eq!(game.player().position(), FVec2::new(3 * SCALE, 4 * SCALE));
}
