use complementary::ability::Ability;
use complementary::math::Color;
use complementary::world::WorldType;

#[test]
fn ability_names() {
    assert_eq!(Ability::NoAbility.name(), "None");
    assert_eq!(Ability::DoubleJump.name(), "Double Jump");
    assert_eq!(Ability::Glider.name(), "Glider");
    assert_eq!(Ability::Dash.name(), "Dash");
    assert_eq!(Ability::WallJump.name(), "Wall Jump");
}

#[test]
fn ability_cycle_visits_all_and_returns() {
    assert_eq!(Ability::NoAbility.cycle(), Ability::DoubleJump);
    assert_eq!(Ability::DoubleJump.cycle(), Ability::Glider);
    assert_eq!(Ability::Glider.cycle(), Ability::Dash);
    assert_eq!(Ability::Dash.cycle(), Ability::WallJump);
    assert_eq!(Ability::WallJump.cycle(), Ability::NoAbility);
    let mut ability = Ability::Glider;
    for _ in 0..5 {
        ability = ability.cycle();
    }
    assert_eq!(ability, Ability::Glider);
}

#[test]
fn default_ability_is_none() {
    assert_eq!(Ability::default(), Ability::NoAbility);
}

#[test]
fn world_inverse_is_an_involution() {
    for world in [WorldType::Light, WorldType::Dark] {
        assert_ne!(world.inverse(), world);
        assert_eq!(world.inverse().inverse(), world);
    }
}

#[test]
fn ability_colors() {
    assert_eq!(Ability::NoAbility.color(), Color::new(500_000, 500_000, 500_000, 1_000_000));
    assert_eq!(Ability::DoubleJump.color(), Color::new_solid(750_000, 0, 750_000));
    assert_eq!(Ability::Glider.color(), Color::new_solid(250_000, 1_000_000, 250_000));
    assert_eq!(Ability::Dash.color(), Color::new_solid(1_000_000, 650_000, 0));
    assert_eq!(Ability::WallJump.color(), Color::new_solid(0, 350_000, 1_000_000));
    assert_eq!(Color::new_solid(1, 2, 3), Color { r: 1, g: 2, b: 3, a: 1_000_000 });
}
