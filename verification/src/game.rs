use vstd::prelude::*;
use crate::input::{ButtonType, Input};
use crate::level::Level;
use crate::model::{Controls, PlayerModel};
use crate::player::Player;
use crate::tilemap::Tilemap;
use crate::world::WorldType;

verus! {

/// What a tick of the actor reads from its surroundings.
pub struct TickState<'a> {
    pub input: &'a Input,
    pub level: &'a Level,
    pub world_type: WorldType,
}

/// Length of a tick in nanoseconds: the simulation runs at 100 ticks per
/// second.
pub const TICK_DURATION: u64 = 10_000_000;

/// Number of ticks of one frame after which the frame stops catching up:
/// the tick that exceeds this number is the last of the frame, and the
/// whole ticks still due are dropped. A frame thus runs at most one tick
/// more than this number.
pub const MAX_TICKS_PER_FRAME: u32 = 5;

/// What a frame does with the time that has piled up.
#[derive(Debug, Copy, Clone, PartialEq, Eq, Structural)]
pub struct FramePlan {
    /// Number of ticks to run in this frame.
    pub ticks: u32,
    /// Whether the simulation could not keep up, so that ticks are dropped.
    pub lagging: bool,
    /// Number of ticks that are dropped.
    pub skipped: u64,
    /// Time in nanoseconds that is carried over to the next frame.
    pub lag: u64,
}

/// The plan of a frame that starts with `lag` nanoseconds piled up: one
/// tick for every whole tick duration, but no more than
/// [`MAX_TICKS_PER_FRAME`] and one; the whole ticks beyond that are dropped,
/// and the rest of less than one tick is carried over.
pub open spec fn frame_plan(lag: u64) -> FramePlan {
    let due = lag / TICK_DURATION;
    let ticks = if due > MAX_TICKS_PER_FRAME {
        (MAX_TICKS_PER_FRAME + 1) as u64
    } else {
        due
    };
    FramePlan {
        ticks: ticks as u32,
        lagging: due > MAX_TICKS_PER_FRAME,
        skipped: (due - ticks) as u64,
        lag: lag % TICK_DURATION,
    }
}

/// Plans a frame that starts with `lag` nanoseconds piled up.
pub fn plan_frame(lag: u64) -> (plan: FramePlan)
    ensures
        plan == frame_plan(lag),
        plan.ticks <= MAX_TICKS_PER_FRAME + 1,
        plan.lag < TICK_DURATION,
        plan.ticks * TICK_DURATION + plan.skipped * TICK_DURATION + plan.lag == lag,
{
    let due: u64 = lag / TICK_DURATION;
    let lagging = due > MAX_TICKS_PER_FRAME as u64;
    let ticks: u64 = if lagging {
        (MAX_TICKS_PER_FRAME + 1) as u64
    } else {
        due
    };
    FramePlan { ticks: ticks as u32, lagging, skipped: due - ticks, lag: lag % TICK_DURATION }
}

/// Whether a snapshot of the buttons asks for the other world: the press of
/// one of the two switch buttons began this tick.
pub open spec fn switches_world(input: &Input) -> bool {
    input.button(ButtonType::Switch) == Some(1i32) || input.button(ButtonType::SwitchAndAbility)
        == Some(1i32)
}

/// An actor that has died is put back to the spawn point of the map, or
/// where it stands if the map has none; a living one is left alone.
pub open spec fn respawned(player: PlayerModel, map: &Tilemap) -> PlayerModel {
    if player.dead {
        player.reset(
            match map.spawn_point() {
                Some(position) => position,
                None => player.position,
            },
        )
    } else {
        player
    }
}

/// The actor as it enters a level: reset at the spawn point of the map, or
/// where it stands if the map has none.
pub open spec fn entered(player: PlayerModel, map: &Tilemap) -> PlayerModel {
    player.reset(
        match map.spawn_point() {
            Some(position) => position,
            None => player.position,
        },
    )
}

/// The actor moved to the spawn point of a map, if the map has one.
pub open spec fn placed(player: PlayerModel, map: &Tilemap) -> PlayerModel {
    match map.spawn_point() {
        Some(position) => PlayerModel { position, ..player },
        None => player,
    }
}

/// The simulation: the actor, the level that it moves in, and the world
/// that is shown.
#[derive(Debug)]
pub struct Game {
    player: Player,
    level: Level,
    world_type: WorldType,
}

impl Game {
    /// The state of the actor.
    pub closed spec fn actor(&self) -> PlayerModel {
        self.player@
    }

    /// The level.
    pub closed spec fn spec_level(&self) -> Level {
        self.level
    }

    /// The world that is shown.
    pub closed spec fn world(&self) -> WorldType {
        self.world_type
    }

    /// The actor and the level are sound.
    pub open spec fn wf(&self) -> bool {
        self.actor().wf() && self.spec_level().wf()
    }

    /// A game in the light world, its actor at the spawn point of the level.
    pub fn new(level: Level) -> (game: Game)
        requires
            level.wf(),
        ensures
            game.wf(),
            game.spec_level() == level,
            game.world() == WorldType::Light,
            game.actor() == entered(PlayerModel::initial(), &level.tilemap),
            game.actor() == placed(PlayerModel::initial(), &level.tilemap),
    {
        let mut game = Game { player: Player::new(), world_type: WorldType::Light, level };
        game.spawn_player();
        game
    }

    /// Advances the game by one tick: the world is switched if the buttons
    /// ask for it, the actor makes its tick in the world that is then shown,
    /// and an actor that died in it is put back to the spawn point.
    pub fn tick(&mut self, input: &Input)
        requires
            old(self).wf(),
        ensures
            final(self).wf(),
            final(self).spec_level() == old(self).spec_level(),
            final(self).world() == if switches_world(input) {
                old(self).world().inverse()
            } else {
                old(self).world()
            },
            final(self).actor() == respawned(
                old(self).actor().tick(
                    Controls::of(input),
                    final(self).world(),
                    &old(self).spec_level().tilemap,
                ),
                &old(self).spec_level().tilemap,
            ),
            !final(self).actor().dead,
    {
        if input.get_button(ButtonType::Switch).pressed_first_frame() || input.get_button(
            ButtonType::SwitchAndAbility,
        ).pressed_first_frame() {
            self.world_type = self.world_type.inverse();
        }
        let state = TickState { input, level: &self.level, world_type: self.world_type };
        self.player.tick(&state);
        if self.player.dead() {
            proof {
                self.level.tilemap.lemma_spawn_point_in_map();
                self.level.tilemap.lemma_wf();
            }
            let position = match self.level.tilemap.get_spawn_point() {
                Some(position) => position,
                None => self.player.position(),
            };
            self.player.reset(position);
        }
    }

    /// Replaces the level and resets the actor at its spawn point.
    pub fn load_level(&mut self, level: Level)
        requires
            old(self).wf(),
            level.wf(),
        ensures
            final(self).wf(),
            final(self).spec_level() == level,
            final(self).world() == old(self).world(),
            final(self).actor() == entered(old(self).actor(), &level.tilemap),
    {
        self.level = level;
        proof {
            self.level.tilemap.lemma_spawn_point_in_map();
            self.level.tilemap.lemma_wf();
        }
        let position = match self.level.tilemap.get_spawn_point() {
            Some(position) => position,
            None => self.player.position(),
        };
        self.player.reset(position);
    }

    /// Moves the actor to the spawn point of the level, if it has one.
    pub fn spawn_player(&mut self)
        requires
            old(self).wf(),
        ensures
            final(self).wf(),
            final(self).spec_level() == old(self).spec_level(),
            final(self).world() == old(self).world(),
            final(self).actor() == placed(old(self).actor(), &old(self).spec_level().tilemap),
    {
        proof {
            self.level.tilemap.lemma_spawn_point_in_map();
            self.level.tilemap.lemma_wf();
        }
        match self.level.tilemap.get_spawn_point() {
            Some(position) => {
                self.player.set_position(position);
            },
            None => {},
        }
    }

    /// The actor.
    pub fn player(&self) -> (player: &Player)
        ensures
            player@ == self.actor(),
    {
        &self.player
    }

    /// The actor, for changes from outside a tick.
    pub fn player_mut(&mut self) -> (player: &mut Player)
        ensures
            player@ == old(self).actor(),
            final(self).actor() == final(player)@,
            final(self).spec_level() == old(self).spec_level(),
            final(self).world() == old(self).world(),
    {
        &mut self.player
    }

    /// The level.
    pub fn level(&self) -> (level: &Level)
        ensures
            *level == self.spec_level(),
    {
        &self.level
    }

    /// The world that is shown.
    pub fn world_type(&self) -> (world_type: WorldType)
        ensures
            world_type == self.world(),
    {
        self.world_type
    }
}

} // verus!
