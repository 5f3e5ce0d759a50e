use vstd::prelude::*;
use crate::math::Color;
use crate::world::WorldType;

verus! {

/// The movement abilities. At most one is active at a time.
#[derive(Debug, Copy, Clone, PartialEq, Eq, Structural)]
pub enum Ability {
    /// No ability at all.
    NoAbility,
    DoubleJump,
    Glider,
    Dash,
    WallJump,
}

/// One ability per world: the first for the light world, the second for the
/// dark world.
pub type AbilityPair = (Ability, Ability);

/// The ability of the pair that is active in a world.
pub open spec fn active_in(abilities: AbilityPair, world_type: WorldType) -> Ability {
    if world_type == WorldType::Light {
        abilities.0
    } else {
        abilities.1
    }
}

/// The pair with the ability of one world replaced.
pub open spec fn with_ability(abilities: AbilityPair, world_type: WorldType, ability: Ability)
    -> AbilityPair {
    if world_type == WorldType::Light {
        (ability, abilities.1)
    } else {
        (abilities.0, ability)
    }
}

impl Ability {
    /// The name shown to the player.
    pub open spec fn spec_name(self) -> Seq<char> {
        match self {
            Ability::NoAbility => "None"@,
            Ability::DoubleJump => "Double Jump"@,
            Ability::Glider => "Glider"@,
            Ability::Dash => "Dash"@,
            Ability::WallJump => "Wall Jump"@,
        }
    }

    /// The name shown to the player.
    pub fn name(self) -> (res: &'static str)
        ensures
            res@ == self.spec_name(),
    {
        match self {
            Ability::NoAbility => "None",
            Ability::DoubleJump => "Double Jump",
            Ability::Glider => "Glider",
            Ability::Dash => "Dash",
            Ability::WallJump => "Wall Jump",
        }
    }

    /// The color that tells the ability: gray for none, purple for the
    /// double jump, green for the glider, orange for the dash and blue for
    /// the wall jump.
    pub open spec fn spec_color(self) -> Color {
        match self {
            Ability::NoAbility => Color::new_solid(500_000, 500_000, 500_000),
            Ability::DoubleJump => Color::new_solid(750_000, 0, 750_000),
            Ability::Glider => Color::new_solid(250_000, 1_000_000, 250_000),
            Ability::Dash => Color::new_solid(1_000_000, 650_000, 0),
            Ability::WallJump => Color::new_solid(0, 350_000, 1_000_000),
        }
    }

    /// The color in which the actor is shown while the ability is active.
    #[verifier::when_used_as_spec(spec_color)]
    pub fn color(self) -> (res: Color)
        ensures
            res == self.spec_color(),
    {
        match self {
            Ability::NoAbility => Color::new_solid(500_000, 500_000, 500_000),
            Ability::DoubleJump => Color::new_solid(750_000, 0, 750_000),
            Ability::Glider => Color::new_solid(250_000, 1_000_000, 250_000),
            Ability::Dash => Color::new_solid(1_000_000, 650_000, 0),
            Ability::WallJump => Color::new_solid(0, 350_000, 1_000_000),
        }
    }

    /// The ability that follows in the cycle NoAbility, DoubleJump, Glider, Dash,
    /// WallJump and back to NoAbility.
    pub open spec fn spec_cycle(self) -> Ability {
        match self {
            Ability::NoAbility => Ability::DoubleJump,
            Ability::DoubleJump => Ability::Glider,
            Ability::Glider => Ability::Dash,
            Ability::Dash => Ability::WallJump,
            Ability::WallJump => Ability::NoAbility,
        }
    }

    #[verifier::when_used_as_spec(spec_cycle)]
    pub fn cycle(self) -> (res: Ability)
        ensures
            res == self.spec_cycle(),
    {
        match self {
            Ability::NoAbility => Ability::DoubleJump,
            Ability::DoubleJump => Ability::Glider,
            Ability::Glider => Ability::Dash,
            Ability::Dash => Ability::WallJump,
            Ability::WallJump => Ability::NoAbility,
        }
    }

    /// Cycling visits every ability and is back at the start after five
    /// steps, and no sooner.
    pub proof fn lemma_cycle_period(self)
        ensures
            self.cycle() != self,
            self.cycle().cycle() != self,
            self.cycle().cycle().cycle() != self,
            self.cycle().cycle().cycle().cycle() != self,
            self.cycle().cycle().cycle().cycle().cycle() == self,
    {
    }

    /// The color tells the ability: no two abilities share one.
    pub proof fn lemma_color_injective(self, other: Ability)
        ensures
            self.color() == other.color() ==> self == other,
            self.color().a == crate::math::SCALE,
    {
    }
}

impl Default for Ability {
    fn default() -> (res: Ability)
        ensures
            res == Ability::NoAbility,
    {
        Ability::NoAbility
    }
}

} // verus!
