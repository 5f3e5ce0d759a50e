use vstd::prelude::*;
use crate::forces::{ease, ease_factor, lemma_ease};
use crate::math::{lemma_scaled_bounds, scale, scaled, Direction, FVec2, V2};

verus! {

/// Number of ticks that a dash lasts.
pub const MAX_DASH_TICKS: i32 = 24;

/// Number of ticks after the end of a dash before the next one may start.
pub const MAX_COOLDOWN: i32 = 24;

/// Speed of a dash at its start.
pub const DASH_FORCE: i64 = 350_000;

/// The state of the dash as plain numbers.
pub struct DashModel {
    /// Ticks of the running dash that remain; zero when none runs.
    pub dash_ticks: int,
    /// Ticks until the next dash may start.
    pub cooldown: int,
    /// Whether the ground, or a wall jump, has been touched since the last
    /// dash.
    pub useable: bool,
    /// The side that a dash goes to.
    pub direction: Direction,
}

impl DashModel {
    /// The state at spawn: armed, idle, facing right.
    pub open spec fn initial() -> DashModel {
        DashModel { dash_ticks: 0, cooldown: 0, useable: true, direction: Direction::Right }
    }

    /// The counters are within their ranges, the cooldown outlasts a
    /// running dash by [`MAX_COOLDOWN`] ticks, and the dash goes left or
    /// right.
    pub open spec fn wf(self) -> bool {
        &&& 0 <= self.dash_ticks <= MAX_DASH_TICKS
        &&& 0 <= self.cooldown <= MAX_DASH_TICKS + MAX_COOLDOWN
        &&& (self.dash_ticks > 0 ==> self.cooldown == self.dash_ticks + MAX_COOLDOWN)
        &&& (self.direction == Direction::Left || self.direction == Direction::Right)
    }

    /// A dash may start when none runs, the cooldown is over and the dash
    /// has been re-armed.
    pub open spec fn dash_ready(self) -> bool {
        self.dash_ticks <= 0 && self.cooldown <= 0 && self.useable
    }

    /// Whether a dash runs.
    pub open spec fn is_dashing(self) -> bool {
        self.dash_ticks > 0
    }

    /// Both counters one tick closer to zero.
    pub open spec fn decayed(self) -> DashModel {
        DashModel {
            dash_ticks: if self.dash_ticks > 0 {
                self.dash_ticks - 1
            } else {
                0
            },
            cooldown: if self.cooldown > 0 {
                self.cooldown - 1
            } else {
                0
            },
            ..self
        }
    }

    /// The state with the dash re-armed.
    pub open spec fn rearmed(self) -> DashModel {
        DashModel { useable: true, ..self }
    }

    /// The state with the dash turned to a side.
    pub open spec fn facing(self, direction: Direction) -> DashModel {
        DashModel { direction, ..self }
    }

    /// The state right after a dash has started.
    pub open spec fn started(self) -> DashModel {
        DashModel {
            dash_ticks: MAX_DASH_TICKS as int,
            cooldown: MAX_DASH_TICKS + MAX_COOLDOWN,
            useable: false,
            ..self
        }
    }

    /// The velocity that a running dash imposes: horizontal, toward the side
    /// of the dash, easing out from [`DASH_FORCE`] to zero.
    pub open spec fn velocity(self) -> V2 {
        let speed = scaled(DASH_FORCE as int, ease(self.dash_ticks));
        V2 {
            x: if self.direction == Direction::Left {
                -speed
            } else {
                speed
            },
            y: 0,
        }
    }

    /// A dash never exceeds its initial speed.
    pub proof fn lemma_velocity_bounds(self)
        ensures
            -DASH_FORCE <= self.velocity().x <= DASH_FORCE,
            self.velocity().y == 0,
    {
        lemma_ease(self.dash_ticks);
        lemma_scaled_bounds(DASH_FORCE as int, ease(self.dash_ticks));
    }
}

/// The state of the dash.
#[derive(Debug, Copy, Clone)]
pub struct DashState {
    dash_ticks: i32,
    cooldown: i32,
    useable: bool,
    direction: Direction,
}

impl View for DashState {
    type V = DashModel;

    closed spec fn view(&self) -> DashModel {
        DashModel {
            dash_ticks: self.dash_ticks as int,
            cooldown: self.cooldown as int,
            useable: self.useable,
            direction: self.direction,
        }
    }
}

impl DashState {
    /// Whether a dash may start.
    pub fn dash_ready(&self) -> (res: bool)
        ensures
            res == self@.dash_ready(),
    {
        self.dash_ticks <= 0 && self.cooldown <= 0 && self.useable
    }

    /// Whether a dash runs.
    pub fn is_dashing(&self) -> (res: bool)
        ensures
            res == self@.is_dashing(),
    {
        self.dash_ticks > 0
    }

    /// Ticks of the running dash that remain.
    pub fn dash_ticks(&self) -> (res: i32)
        ensures
            res == self@.dash_ticks,
    {
        self.dash_ticks
    }

    /// Ticks until the next dash may start.
    pub fn cooldown(&self) -> (res: i32)
        ensures
            res == self@.cooldown,
    {
        self.cooldown
    }

    /// Whether the dash is armed.
    pub fn useable(&self) -> (res: bool)
        ensures
            res == self@.useable,
    {
        self.useable
    }

    /// The side that a dash goes to.
    pub fn direction(&self) -> (res: Direction)
        ensures
            res == self@.direction,
    {
        self.direction
    }

    /// Moves both counters one tick closer to zero.
    pub fn decrease_counters(&mut self)
        ensures
            final(self)@ == old(self)@.decayed(),
            old(self)@.wf() ==> final(self)@.wf(),
    {
        if self.dash_ticks > 0 {
            self.dash_ticks = self.dash_ticks - 1;
        } else {
            self.dash_ticks = 0;
        }
        if self.cooldown > 0 {
            self.cooldown = self.cooldown - 1;
        } else {
            self.cooldown = 0;
        }
    }

    /// Re-arms the dash.
    pub fn rearm(&mut self)
        ensures
            final(self)@ == old(self)@.rearmed(),
    {
        self.useable = true;
    }

    /// Turns the dash to a side.
    pub fn face(&mut self, direction: Direction)
        ensures
            final(self)@ == old(self)@.facing(direction),
    {
        self.direction = direction;
    }

    /// Starts a dash.
    pub fn start(&mut self)
        ensures
            final(self)@ == old(self)@.started(),
    {
        self.dash_ticks = MAX_DASH_TICKS;
        self.useable = false;
        self.cooldown = MAX_DASH_TICKS + MAX_COOLDOWN;
    }

    /// The velocity that the running dash imposes.
    pub fn velocity(&self) -> (v: FVec2)
        ensures
            v@ == self@.velocity(),
            -DASH_FORCE <= v.x <= DASH_FORCE,
            v.y == 0,
    {
        let speed = scale(DASH_FORCE, ease_factor(self.dash_ticks));
        match self.direction {
            Direction::Left => FVec2 { x: -speed, y: 0 },
            _ => FVec2 { x: speed, y: 0 },
        }
    }
}

impl Default for DashState {
    /// The state at spawn: armed, idle, facing right.
    fn default() -> (s: DashState)
        ensures
            s@ == DashModel::initial(),
            s@.wf(),
    {
        DashState { direction: Direction::Right, dash_ticks: 0, cooldown: 0, useable: true }
    }
}

} // verus!
