use vstd::prelude::*;
use crate::forces::{decay, decay_factor, lemma_decay_bounds};
use crate::math::{
    count_down, lemma_scaled_bounds, scale, scaled, tick_down, Direction, FVec2, V2,
};

verus! {

/// Horizontal part of the impulse of a wall jump, away from the wall.
pub const INITIAL_FORCE_X: i64 = 500_000;

/// Vertical part of the impulse of a wall jump.
pub const INITIAL_FORCE_Y: i64 = -400_000;

/// Magnitude of the push that follows a wall jump, before decay.
pub const CONTINUOUS_FORCE_MAGNITUDE: i64 = 100_000;

/// Horizontal part of a push of magnitude [`CONTINUOUS_FORCE_MAGNITUDE`] along
/// the impulse.
pub const CONTINUOUS_FORCE_X: i64 = 78_087;

/// Vertical part of a push of magnitude [`CONTINUOUS_FORCE_MAGNITUDE`] along
/// the impulse.
pub const CONTINUOUS_FORCE_Y: i64 = -62_470;

/// Number of ticks that the push after a wall jump lasts.
pub const MAX_WALL_JUMP_TICKS: i32 = 40;

/// Factor on the vertical drag while sticking to a wall.
pub const WALL_STICK_Y_DRAG: i64 = 300_000;

/// Number of ticks after any jump before a wall jump may start.
pub const MAX_COOLDOWN: i32 = 10;

/// Number of ticks for which a wall contact is remembered.
pub const MAX_COLLISION_BUFFER_TICKS: i32 = 5;

/// Number of ticks for which steering into a wall is remembered.
pub const MAX_INPUT_BUFFER_TICKS: i32 = 7;

/// Number of ticks after a wall jump for which the actor cannot steer back
/// toward the wall.
pub const MOVE_COOLDOWN: i32 = 15;

/// The state of the wall jump as plain numbers.
pub struct WallJumpModel {
    /// Ticks of the push after a wall jump that remain.
    pub wall_jump_ticks: int,
    /// Ticks until a wall jump may start.
    pub cooldown: int,
    /// The side that the last wall jump went to.
    pub direction: Option<Direction>,
    /// Ticks for which steering to the left is suppressed.
    pub move_left_cooldown: int,
    /// Ticks for which steering to the right is suppressed.
    pub move_right_cooldown: int,
    /// Ticks since a wall on the left was touched, counted down.
    pub left_wall_collision_buffer: int,
    /// Ticks since a wall on the right was touched, counted down.
    pub right_wall_collision_buffer: int,
    /// Ticks since the actor steered into a wall on the left, counted down.
    pub left_wall_input_buffer: int,
    /// Ticks since the actor steered into a wall on the right, counted down.
    pub right_wall_input_buffer: int,
}

impl WallJumpModel {
    /// The state at spawn: everything at rest.
    pub open spec fn initial() -> WallJumpModel {
        WallJumpModel {
            wall_jump_ticks: 0,
            cooldown: 0,
            direction: None,
            move_left_cooldown: 0,
            move_right_cooldown: 0,
            left_wall_collision_buffer: 0,
            right_wall_collision_buffer: 0,
            left_wall_input_buffer: 0,
            right_wall_input_buffer: 0,
        }
    }

    /// The counters are within their ranges, a wall jump, if there was one,
    /// went left or right, and a push that runs comes from a wall jump.
    pub open spec fn wf(self) -> bool {
        &&& 0 <= self.wall_jump_ticks <= MAX_WALL_JUMP_TICKS
        &&& 0 <= self.cooldown <= MAX_COOLDOWN
        &&& 0 <= self.move_left_cooldown <= MOVE_COOLDOWN
        &&& 0 <= self.move_right_cooldown <= MOVE_COOLDOWN
        &&& 0 <= self.left_wall_collision_buffer <= MAX_COLLISION_BUFFER_TICKS
        &&& 0 <= self.right_wall_collision_buffer <= MAX_COLLISION_BUFFER_TICKS
        &&& 0 <= self.left_wall_input_buffer <= MAX_INPUT_BUFFER_TICKS
        &&& 0 <= self.right_wall_input_buffer <= MAX_INPUT_BUFFER_TICKS
        &&& (self.direction is None || self.direction == Some(Direction::Left) || self.direction
            == Some(Direction::Right))
        &&& (self.wall_jump_ticks > 0 ==> self.direction is Some)
    }

    /// A wall jump may start when no push is running, the cooldown is over
    /// and the actor has lately steered into a wall.
    pub open spec fn wall_jump_ready(self) -> bool {
        self.wall_jump_ticks <= 0 && self.cooldown <= 0 && (self.left_wall_input_buffer > 0
            || self.right_wall_input_buffer > 0)
    }

    /// Whether the push after a wall jump is running.
    pub open spec fn wall_jump_active(self) -> bool {
        self.wall_jump_ticks > 0
    }

    /// All counters one tick closer to zero.
    pub open spec fn decayed(self) -> WallJumpModel {
        WallJumpModel {
            wall_jump_ticks: tick_down(self.wall_jump_ticks),
            cooldown: tick_down(self.cooldown),
            direction: self.direction,
            move_left_cooldown: tick_down(self.move_left_cooldown),
            move_right_cooldown: tick_down(self.move_right_cooldown),
            left_wall_collision_buffer: tick_down(self.left_wall_collision_buffer),
            right_wall_collision_buffer: tick_down(self.right_wall_collision_buffer),
            left_wall_input_buffer: tick_down(self.left_wall_input_buffer),
            right_wall_input_buffer: tick_down(self.right_wall_input_buffer),
        }
    }

    /// The four buffers cleared.
    pub open spec fn buffers_reset(self) -> WallJumpModel {
        WallJumpModel {
            left_wall_collision_buffer: 0,
            right_wall_collision_buffer: 0,
            left_wall_input_buffer: 0,
            right_wall_input_buffer: 0,
            ..self
        }
    }

    /// The state after this tick's wall contacts: a contact fills the
    /// collision buffer of its side.
    pub open spec fn touched(self, left: bool, right: bool) -> WallJumpModel {
        WallJumpModel {
            left_wall_collision_buffer: if left {
                MAX_COLLISION_BUFFER_TICKS as int
            } else {
                self.left_wall_collision_buffer
            },
            right_wall_collision_buffer: if right {
                MAX_COLLISION_BUFFER_TICKS as int
            } else {
                self.right_wall_collision_buffer
            },
            ..self
        }
    }

    /// The state after this tick's steering: steering toward a wall that was
    /// lately touched fills the input buffer of that side.
    pub open spec fn steered(self, horizontal: int) -> WallJumpModel {
        if self.left_wall_collision_buffer > 0 && horizontal < 0 {
            WallJumpModel { left_wall_input_buffer: MAX_INPUT_BUFFER_TICKS as int, ..self }
        } else if self.right_wall_collision_buffer > 0 && horizontal > 0 {
            WallJumpModel { right_wall_input_buffer: MAX_INPUT_BUFFER_TICKS as int, ..self }
        } else {
            self
        }
    }

    /// The state after a jump from the ground or in the air: wall jumps are
    /// on cooldown.
    pub open spec fn cooled(self) -> WallJumpModel {
        WallJumpModel { cooldown: MAX_COOLDOWN as int, ..self }
    }

    /// The side that a wall jump would go to: away from the wall that the
    /// actor steered into, the left one first.
    pub open spec fn escape_direction(self) -> Direction {
        if self.left_wall_input_buffer > 0 {
            Direction::Right
        } else {
            Direction::Left
        }
    }

    /// The state right after a wall jump has fired: the push runs, the
    /// buffers are cleared, wall jumps are on cooldown, and steering back
    /// toward the wall is suppressed.
    pub open spec fn fired(self) -> WallJumpModel {
        let direction = self.escape_direction();
        WallJumpModel {
            wall_jump_ticks: MAX_WALL_JUMP_TICKS as int,
            cooldown: MAX_COOLDOWN as int,
            direction: Some(direction),
            move_left_cooldown: if direction == Direction::Right {
                MOVE_COOLDOWN as int
            } else {
                self.move_left_cooldown
            },
            move_right_cooldown: if direction == Direction::Right {
                self.move_right_cooldown
            } else {
                MOVE_COOLDOWN as int
            },
            left_wall_collision_buffer: 0,
            right_wall_collision_buffer: 0,
            left_wall_input_buffer: 0,
            right_wall_input_buffer: 0,
        }
    }

    /// The side of the last wall jump; right when there was none.
    pub open spec fn heading(self) -> Direction {
        match self.direction {
            Some(direction) => direction,
            None => Direction::Right,
        }
    }

    /// The impulse of a wall jump: up and away from the wall.
    pub open spec fn initial_force(self) -> V2 {
        V2 {
            x: if self.heading() == Direction::Left {
                -INITIAL_FORCE_X
            } else {
                INITIAL_FORCE_X as int
            },
            y: INITIAL_FORCE_Y as int,
        }
    }

    /// The push of this tick along the impulse. It decays by the factor
    /// 10/11 with every tick of the push that has passed.
    pub open spec fn push_force(self) -> V2 {
        let factor = decay((MAX_WALL_JUMP_TICKS + 1 - self.wall_jump_ticks) as nat);
        let x = scaled(CONTINUOUS_FORCE_X as int, factor);
        V2 {
            x: if self.heading() == Direction::Left {
                -x
            } else {
                x
            },
            y: scaled(CONTINUOUS_FORCE_Y as int, factor),
        }
    }

    /// The push is never stronger than its undecayed magnitude.
    pub proof fn lemma_push_bounds(self)
        requires
            self.wf(),
        ensures
            -CONTINUOUS_FORCE_X <= self.push_force().x <= CONTINUOUS_FORCE_X,
            CONTINUOUS_FORCE_Y <= self.push_force().y <= 0,
    {
        let k = (MAX_WALL_JUMP_TICKS + 1 - self.wall_jump_ticks) as nat;
        lemma_decay_bounds(k);
        lemma_scaled_bounds(CONTINUOUS_FORCE_X as int, decay(k));
        lemma_scaled_bounds(CONTINUOUS_FORCE_Y as int, decay(k));
    }

    /// The undecayed push has the magnitude [`CONTINUOUS_FORCE_MAGNITUDE`] and
    /// lies along the impulse, both to within one unit.
    pub proof fn lemma_push_direction()
        ensures
            (CONTINUOUS_FORCE_MAGNITUDE - 1) * (CONTINUOUS_FORCE_MAGNITUDE - 1) <= CONTINUOUS_FORCE_X
                * CONTINUOUS_FORCE_X + CONTINUOUS_FORCE_Y * CONTINUOUS_FORCE_Y <= (
            CONTINUOUS_FORCE_MAGNITUDE + 1) * (CONTINUOUS_FORCE_MAGNITUDE + 1),
            ({
                let cross = CONTINUOUS_FORCE_X * INITIAL_FORCE_Y - CONTINUOUS_FORCE_Y
                    * INITIAL_FORCE_X;
                cross * cross <= INITIAL_FORCE_X * INITIAL_FORCE_X + INITIAL_FORCE_Y
                    * INITIAL_FORCE_Y
            }),
            CONTINUOUS_FORCE_X * INITIAL_FORCE_X + CONTINUOUS_FORCE_Y * INITIAL_FORCE_Y > 0,
    {
        assert(78_087 * 78_087 + 62_470 * 62_470 == 10_000_080_469int);
        assert(99_999 * 99_999 == 9_999_800_001int);
        assert(100_001 * 100_001 == 10_000_200_001int);
        assert(78_087 * (-400_000) - (-62_470) * 500_000 == 200_000int);
        assert(200_000 * 200_000 == 40_000_000_000int);
        assert(500_000 * 500_000 + (-400_000) * (-400_000) == 410_000_000_000int);
    }
}

/// The state of the wall jump.
#[derive(Debug, Copy, Clone)]
pub struct WallJumpState {
    wall_jump_ticks: i32,
    cooldown: i32,
    direction: Option<Direction>,
    move_left_cooldown: i32,
    move_right_cooldown: i32,
    left_wall_collision_buffer: i32,
    right_wall_collision_buffer: i32,
    left_wall_input_buffer: i32,
    right_wall_input_buffer: i32,
}

impl View for WallJumpState {
    type V = WallJumpModel;

    closed spec fn view(&self) -> WallJumpModel {
        WallJumpModel {
            wall_jump_ticks: self.wall_jump_ticks as int,
            cooldown: self.cooldown as int,
            direction: self.direction,
            move_left_cooldown: self.move_left_cooldown as int,
            move_right_cooldown: self.move_right_cooldown as int,
            left_wall_collision_buffer: self.left_wall_collision_buffer as int,
            right_wall_collision_buffer: self.right_wall_collision_buffer as int,
            left_wall_input_buffer: self.left_wall_input_buffer as int,
            right_wall_input_buffer: self.right_wall_input_buffer as int,
        }
    }
}

impl WallJumpState {
    /// Whether a wall jump may start.
    pub fn wall_jump_ready(&self) -> (res: bool)
        ensures
            res == self@.wall_jump_ready(),
    {
        self.wall_jump_ticks <= 0 && self.cooldown <= 0 && (self.left_wall_input_buffer > 0
            || self.right_wall_input_buffer > 0)
    }

    /// Whether the push after a wall jump is running.
    pub fn wall_jump_active(&self) -> (res: bool)
        ensures
            res == self@.wall_jump_active(),
    {
        self.wall_jump_ticks > 0
    }

    /// Ticks for which steering to the left is suppressed.
    pub fn move_left_cooldown(&self) -> (res: i32)
        ensures
            res == self@.move_left_cooldown,
    {
        self.move_left_cooldown
    }

    /// Ticks for which steering to the right is suppressed.
    pub fn move_right_cooldown(&self) -> (res: i32)
        ensures
            res == self@.move_right_cooldown,
    {
        self.move_right_cooldown
    }

    /// Ticks of the push after a wall jump that remain.
    pub fn wall_jump_ticks(&self) -> (res: i32)
        ensures
            res == self@.wall_jump_ticks,
    {
        self.wall_jump_ticks
    }

    /// Ticks until a wall jump may start.
    pub fn cooldown(&self) -> (res: i32)
        ensures
            res == self@.cooldown,
    {
        self.cooldown
    }

    /// The side that the last wall jump went to.
    pub fn direction(&self) -> (res: Option<Direction>)
        ensures
            res == self@.direction,
    {
        self.direction
    }

    /// The side of the last wall jump; right when there was none.
    pub fn heading(&self) -> (res: Direction)
        ensures
            res == self@.heading(),
    {
        match self.direction {
            Some(direction) => direction,
            None => Direction::Right,
        }
    }

    /// Moves all counters one tick closer to zero.
    pub fn decrease_counters(&mut self)
        ensures
            final(self)@ == old(self)@.decayed(),
            old(self)@.wf() ==> final(self)@.wf(),
    {
        self.wall_jump_ticks = count_down(self.wall_jump_ticks);
        self.cooldown = count_down(self.cooldown);
        self.move_left_cooldown = count_down(self.move_left_cooldown);
        self.move_right_cooldown = count_down(self.move_right_cooldown);
        self.left_wall_collision_buffer = count_down(self.left_wall_collision_buffer);
        self.right_wall_collision_buffer = count_down(self.right_wall_collision_buffer);
        self.left_wall_input_buffer = count_down(self.left_wall_input_buffer);
        self.right_wall_input_buffer = count_down(self.right_wall_input_buffer);
    }

    /// Clears the four buffers.
    pub fn reset_buffers(&mut self)
        ensures
            final(self)@ == old(self)@.buffers_reset(),
    {
        self.left_wall_collision_buffer = 0;
        self.right_wall_collision_buffer = 0;
        self.left_wall_input_buffer = 0;
        self.right_wall_input_buffer = 0;
    }

    /// Records this tick's wall contacts.
    pub fn touch(&mut self, left: bool, right: bool)
        ensures
            final(self)@ == old(self)@.touched(left, right),
    {
        if left {
            self.left_wall_collision_buffer = MAX_COLLISION_BUFFER_TICKS;
        }
        if right {
            self.right_wall_collision_buffer = MAX_COLLISION_BUFFER_TICKS;
        }
    }

    /// Records this tick's steering.
    pub fn steer(&mut self, horizontal: i32)
        ensures
            final(self)@ == old(self)@.steered(horizontal as int),
    {
        if self.left_wall_collision_buffer > 0 && horizontal < 0 {
            self.left_wall_input_buffer = MAX_INPUT_BUFFER_TICKS;
        } else if self.right_wall_collision_buffer > 0 && horizontal > 0 {
            self.right_wall_input_buffer = MAX_INPUT_BUFFER_TICKS;
        }
    }

    /// Puts wall jumps on cooldown.
    pub fn cool(&mut self)
        ensures
            final(self)@ == old(self)@.cooled(),
    {
        self.cooldown = MAX_COOLDOWN;
    }

    /// Fires a wall jump.
    pub fn fire(&mut self)
        ensures
            final(self)@ == old(self)@.fired(),
    {
        let direction = if self.left_wall_input_buffer > 0 {
            Direction::Right
        } else {
            Direction::Left
        };
        self.direction = Some(direction);
        self.cooldown = MAX_COOLDOWN;
        self.wall_jump_ticks = MAX_WALL_JUMP_TICKS;
        self.reset_buffers();
        match direction {
            Direction::Right => {
                self.move_left_cooldown = MOVE_COOLDOWN;
            },
            _ => {
                self.move_right_cooldown = MOVE_COOLDOWN;
            },
        }
    }

    /// The impulse of the wall jump that was last made. A wall jump goes
    /// left or right, never up or down.
    pub fn initial_force_with_direction(&self) -> (force: FVec2)
        requires
            self@.heading() == Direction::Left || self@.heading() == Direction::Right,
        ensures
            force@ == self@.initial_force(),
    {
        match self.heading() {
            Direction::Left => FVec2 { x: -INITIAL_FORCE_X, y: INITIAL_FORCE_Y },
            _ => FVec2 { x: INITIAL_FORCE_X, y: INITIAL_FORCE_Y },
        }
    }

    /// The push of this tick.
    pub fn push_force(&self) -> (force: FVec2)
        requires
            self@.wf(),
        ensures
            force@ == self@.push_force(),
            -CONTINUOUS_FORCE_X <= force.x <= CONTINUOUS_FORCE_X,
            CONTINUOUS_FORCE_Y <= force.y <= 0,
    {
        let factor = decay_factor((MAX_WALL_JUMP_TICKS + 1 - self.wall_jump_ticks) as u32);
        let x = scale(CONTINUOUS_FORCE_X, factor);
        let y = scale(CONTINUOUS_FORCE_Y, factor);
        match self.heading() {
            Direction::Left => FVec2 { x: -x, y },
            _ => FVec2 { x, y },
        }
    }
}

impl Default for WallJumpState {
    /// The state at spawn: everything at rest.
    fn default() -> (s: WallJumpState)
        ensures
            s@ == WallJumpModel::initial(),
            s@.wf(),
    {
        WallJumpState {
            wall_jump_ticks: 0,
            cooldown: 0,
            direction: None,
            move_left_cooldown: 0,
            move_right_cooldown: 0,
            left_wall_collision_buffer: 0,
            right_wall_collision_buffer: 0,
            left_wall_input_buffer: 0,
            right_wall_input_buffer: 0,
        }
    }
}

} // verus!
