use vstd::prelude::*;
use crate::ability::{with_ability, Ability, AbilityPair};
use crate::collision::{probe, CollisionType};
use crate::dash::{DashModel, DashState};
use crate::forces::{
    jump_hold_force_of, walk_force_of, BASE_VELOCITY_LIMIT, COLLISION_STEP, DRAG_X, DRAG_Y,
    FORCE_LIMIT, GRAVITY, GRAVITY_GLIDER, INITIAL_JUMP_FORCE, MAX_COYOTE_TIME,
    MAX_JUMP_BUFFER_TICKS, MAX_JUMP_TICKS, POSITION_LIMIT,
};
use crate::game::TickState;
use crate::input::ButtonType;
use crate::level::Level;
use crate::math::{
    count_down, lemma_scaled_fraction, scale, scaled, Bounds, Direction, FVec2, SCALE, V2,
};
use crate::model::{probe_at, Contacts, Controls, PlayerModel};
use crate::motion::{actor_box, blocked, blocked_at, bounds_at, move_until_collision};
use crate::tilemap::Tilemap;
use crate::wall_jump::{WallJumpState, WALL_STICK_Y_DRAG};
use crate::world::WorldType;

verus! {

/// The actor that the player controls.
#[derive(Debug)]
pub struct Player {
    dead: bool,
    position: FVec2,
    velocity: FVec2,
    acceleration: FVec2,
    abilities: AbilityPair,
    /// Velocity imposed from outside, such as that of a platform.
    base_velocity: FVec2,
    /// Runs down from the tick in which the jump button was pressed.
    jump_buffer_ticks: i32,
    /// Full while the actor stands on the ground, and runs down once it has
    /// left it.
    ground_coyote_time: i32,
    /// Runs down after a jump for as long as the jump button is held.
    jump_ticks: i32,
    /// Whether the double jump is armed.
    can_jump_in_air: bool,
    dash_state: DashState,
    wall_jump_state: WallJumpState,
}

impl View for Player {
    type V = PlayerModel;

    closed spec fn view(&self) -> PlayerModel {
        PlayerModel {
            dead: self.dead,
            position: self.position@,
            velocity: self.velocity@,
            acceleration: self.acceleration@,
            abilities: self.abilities,
            base_velocity: self.base_velocity@,
            jump_buffer_ticks: self.jump_buffer_ticks as int,
            ground_coyote_time: self.ground_coyote_time as int,
            jump_ticks: self.jump_ticks as int,
            can_jump_in_air: self.can_jump_in_air,
            dash: self.dash_state@,
            wall_jump: self.wall_jump_state@,
        }
    }
}

impl Player {
    /// The actor at spawn.
    pub fn new() -> (player: Player)
        ensures
            player@ == PlayerModel::initial(),
            player@.wf(),
    {
        Player {
            position: FVec2 { x: 30 * SCALE, y: 30 * SCALE },
            velocity: FVec2::zero(),
            acceleration: FVec2::zero(),
            abilities: (Ability::NoAbility, Ability::NoAbility),
            base_velocity: FVec2::zero(),
            dead: false,
            jump_ticks: 0,
            jump_buffer_ticks: 0,
            ground_coyote_time: 0,
            dash_state: DashState::default(),
            wall_jump_state: WallJumpState::default(),
            can_jump_in_air: false,
        }
    }

    /// Adds a force to those that the next tick integrates.
    pub fn add_force(&mut self, force: FVec2)
        requires
            old(self)@.wf(),
            old(self)@.acceleration.plus(force@).within(FORCE_LIMIT as int),
        ensures
            final(self)@ == old(self)@.forced(force@),
            final(self)@.wf(),
    {
        self.acceleration = FVec2 {
            x: self.acceleration.x + force.x,
            y: self.acceleration.y + force.y,
        };
    }

    /// Imposes a velocity from outside on the next tick.
    pub fn set_base_velocity(&mut self, velocity: FVec2)
        requires
            old(self)@.wf(),
            velocity@.within(BASE_VELOCITY_LIMIT as int),
        ensures
            final(self)@ == (PlayerModel { base_velocity: velocity@, ..old(self)@ }),
            final(self)@.wf(),
    {
        self.base_velocity = velocity;
    }

    /// Whether the actor is where it cannot be: outside the map or in a
    /// solid tile.
    pub fn is_colliding(&self, tilemap: &Tilemap) -> (res: bool)
        requires
            self@.wf(),
            tilemap.wf(),
        ensures
            res == blocked(tilemap, self@.position),
    {
        blocked_at(tilemap, self.position)
    }

    /// The bounding box of the actor.
    pub fn get_bounds(&self) -> (bounds: Bounds)
        requires
            self@.wf(),
        ensures
            bounds@ == actor_box(self@.position),
    {
        bounds_at(self.position)
    }

    /// Kills the actor.
    pub fn kill(&mut self)
        ensures
            final(self)@ == (PlayerModel { dead: true, ..old(self)@ }),
    {
        self.dead = true;
    }

    /// Puts the actor at a position, alive and at rest, with the dash and
    /// the wall jump as at spawn.
    pub fn reset(&mut self, position: FVec2)
        requires
            old(self)@.wf(),
            position@.within(POSITION_LIMIT as int),
        ensures
            final(self)@ == old(self)@.reset(position@),
            final(self)@.wf(),
    {
        self.position = position;
        self.dead = false;
        self.velocity = FVec2::zero();
        self.acceleration = FVec2::zero();
        self.reset_dash();
        self.wall_jump_state = WallJumpState::default();
    }

    /// Top left corner of the bounding box.
    pub fn position(&self) -> (res: FVec2)
        ensures
            res@ == self@.position,
    {
        self.position
    }

    /// Moves the actor.
    pub fn set_position(&mut self, position: FVec2)
        requires
            old(self)@.wf(),
            position@.within(POSITION_LIMIT as int),
        ensures
            final(self)@ == (PlayerModel { position: position@, ..old(self)@ }),
            final(self)@.wf(),
    {
        self.position = position;
    }

    /// Displacement per tick.
    pub fn velocity(&self) -> (res: FVec2)
        ensures
            res@ == self@.velocity,
    {
        self.velocity
    }

    /// Forces accumulated for the next tick.
    pub fn acceleration(&self) -> (res: FVec2)
        ensures
            res@ == self@.acceleration,
    {
        self.acceleration
    }

    /// Whether the actor has died since the last reset.
    pub fn dead(&self) -> (res: bool)
        ensures
            res == self@.dead,
    {
        self.dead
    }

    /// Whether the controls act on the actor.
    pub fn allowed_to_move(&self) -> (res: bool)
        ensures
            res,
    {
        true
    }

    /// Whether the actor counts as standing on the ground, coyote time
    /// included.
    pub fn grounded(&self) -> (res: bool)
        ensures
            res == self@.grounded(),
    {
        self.ground_coyote_time > 0
    }

    /// The ability that is active in a world.
    pub fn active_ability(&self, world_type: WorldType) -> (res: Ability)
        ensures
            res == self@.active_ability(world_type),
    {
        if world_type == WorldType::Light {
            self.abilities.0
        } else {
            self.abilities.1
        }
    }

    /// Replaces the ability of a world.
    pub fn set_ability(&mut self, world_type: WorldType, ability: Ability)
        ensures
            final(self)@ == (PlayerModel {
                abilities: with_ability(old(self)@.abilities, world_type, ability),
                ..old(self)@
            }),
    {
        if world_type == WorldType::Light {
            self.abilities.0 = ability;
        } else {
            self.abilities.1 = ability;
        }
    }

    /// Ticks for which a jump request is still remembered.
    pub fn jump_buffer_ticks(&self) -> (res: i32)
        ensures
            res == self@.jump_buffer_ticks,
    {
        self.jump_buffer_ticks
    }

    /// Ticks for which the actor still counts as grounded.
    pub fn ground_coyote_time(&self) -> (res: i32)
        ensures
            res == self@.ground_coyote_time,
    {
        self.ground_coyote_time
    }

    /// Ticks for which a held jump still pushes.
    pub fn jump_ticks(&self) -> (res: i32)
        ensures
            res == self@.jump_ticks,
    {
        self.jump_ticks
    }

    /// Whether the double jump is armed.
    pub fn can_jump_in_air(&self) -> (res: bool)
        ensures
            res == self@.can_jump_in_air,
    {
        self.can_jump_in_air
    }

    /// The state of the dash.
    pub fn dash_state(&self) -> (res: DashState)
        ensures
            res@ == self@.dash,
    {
        self.dash_state
    }

    /// The state of the wall jump.
    pub fn wall_jump_state(&self) -> (res: WallJumpState)
        ensures
            res@ == self@.wall_jump,
    {
        self.wall_jump_state
    }

    /// Advances the actor by one tick: the controls and gravity push, the
    /// contacts of the four sides take effect, a remembered jump request is
    /// served if it can be, the timers run down, the active ability acts,
    /// the velocity is integrated, and the actor moves until it collides.
    #[verifier::rlimit(40)]
    pub fn tick(&mut self, state: &TickState)
        requires
            old(self)@.wf(),
            state.level.wf(),
        ensures
            final(self)@ == old(self)@.tick(
                Controls::of(state.input),
                state.world_type,
                &state.level.tilemap,
            ),
            final(self)@.wf(),
    {
        let (left_wall, right_wall) = self.prepare(state);
        self.launch(state, left_wall, right_wall);
        self.move_until_collision(&state.level.tilemap);
        self.acceleration = FVec2::zero();
        self.base_velocity = FVec2::zero();
    }

    /// The first half of the preparation of a tick: forces of the controls
    /// and of gravity, contacts, buffers. Returns whether a wall is touched
    /// on the left and on the right.
    #[verifier::rlimit(40)]
    fn sense(&mut self, state: &TickState) -> (walls: (bool, bool))
        requires
            old(self)@.wf(),
            state.level.wf(),
        ensures
            ({
                let controls = Controls::of(state.input);
                let contacts = Contacts::at(&state.level.tilemap, old(self)@.position);
                &&& final(self)@ == old(self)@.pushed(controls, state.world_type).landed(
                    contacts,
                ).buffered(controls)
                &&& walls.0 == contacts.left_wall
                &&& walls.1 == contacts.right_wall
            }),
            final(self)@.bounded(SCALE as int),
    {
        let ghost controls = Controls::of(state.input);
        let ghost contacts = Contacts::at(&state.level.tilemap, self@.position);
        let horizontal = state.input.horizontal();
        if self.allowed_to_move() {
            let mut right_force = walk_force_of(horizontal);
            if (right_force > 0 && self.wall_jump_state.move_right_cooldown() > 0) || (right_force
                < 0 && self.wall_jump_state.move_left_cooldown() > 0) {
                // No steering back toward the wall right after a wall jump.
                right_force = 0;
            }
            self.accumulate(FVec2 { x: right_force, y: 0 }, Ghost(0));
        }
        self.apply_gravity(state, Ghost(SCALE / 2));
        assert(self@ == old(self)@.pushed(controls, state.world_type));

        let faces = self.handle_directional_collision(state.level);
        assert(faces@[Direction::Down.spec_index()] == probe_at(
            &state.level.tilemap,
            old(self)@.position,
            Direction::Down,
        ).face);
        assert(faces@[Direction::Left.spec_index()] == probe_at(
            &state.level.tilemap,
            old(self)@.position,
            Direction::Left,
        ).face);
        assert(faces@[Direction::Right.spec_index()] == probe_at(
            &state.level.tilemap,
            old(self)@.position,
            Direction::Right,
        ).face);
        if faces[Direction::Down.index()].is_some() {
            self.ground_coyote_time = MAX_COYOTE_TIME;
            self.dash_state.rearm();
            self.can_jump_in_air = true;
        }
        let left_wall_collision = match faces[Direction::Left.index()] {
            Some(CollisionType::Wall) => true,
            _ => false,
        };
        let right_wall_collision = match faces[Direction::Right.index()] {
            Some(CollisionType::Wall) => true,
            _ => false,
        };
        self.wall_jump_state.touch(left_wall_collision, right_wall_collision);
        assert(self@ == old(self)@.pushed(controls, state.world_type).landed(contacts));

        if state.input.get_button(ButtonType::Jump).pressed_first_frame()
            && self.allowed_to_move() {
            self.jump_buffer_ticks = MAX_JUMP_BUFFER_TICKS;
        }
        if self.allowed_to_move() {
            // A direction held a little late still counts for a wall jump.
            self.wall_jump_state.steer(horizontal);
        }
        (left_wall_collision, right_wall_collision)
    }

    /// Runs the timers down that the jump request has been checked against:
    /// the jump buffer, the coyote time and the counters of the wall jump.
    fn run_down_timers(&mut self)
        requires
            old(self)@.bounded(3 * SCALE / 2),
        ensures
            final(self)@ == old(self)@.run_down(),
            final(self)@.bounded(3 * SCALE / 2),
    {
        self.jump_buffer_ticks = count_down(self.jump_buffer_ticks);
        self.ground_coyote_time = count_down(self.ground_coyote_time);
        self.wall_jump_state.decrease_counters();
    }

    /// Accumulates the push of a wall jump that is under way.
    fn push_off_wall(&mut self)
        requires
            old(self)@.bounded(3 * SCALE / 2),
        ensures
            final(self)@ == old(self)@.wall_pushed(),
            final(self)@.bounded(2 * SCALE),
    {
        if self.wall_jump_state.wall_jump_active() {
            let force = self.wall_jump_state.push_force();
            self.accumulate(force, Ghost(3 * SCALE / 2));
            // A dash that follows goes where the wall jump went.
            self.dash_state.face(self.wall_jump_state.heading());
        }
    }

    /// Ends the jump when its button is released, and accumulates the force
    /// of a jump that is held.
    fn hold_jump(&mut self, jump_pressed: bool)
        requires
            old(self)@.bounded(2 * SCALE),
        ensures
            final(self)@ == old(self)@.held(
                Controls {
                    horizontal: 0,
                    jump_pressed,
                    jump_first_frame: false,
                    ability_pressed: false,
                    ability_first_frame: false,
                },
            ),
            final(self)@.bounded(5 * SCALE / 2),
    {
        if !jump_pressed && self.allowed_to_move() {
            // Releasing the button ends the jump.
            self.jump_ticks = 0;
        }
        if self.jump_ticks > 0 {
            // Holding the button keeps pushing, less with every tick.
            let force = jump_hold_force_of((MAX_JUMP_TICKS + 1 - self.jump_ticks) as u32);
            self.accumulate(FVec2 { x: 0, y: force }, Ghost(2 * SCALE as int));
            self.jump_ticks = self.jump_ticks - 1;
        }
    }

    /// Turns the dash to the side that the controls point to.
    fn aim(&mut self, horizontal: i32)
        ensures
            final(self)@ == old(self)@.aimed(
                Controls {
                    horizontal: horizontal as int,
                    jump_pressed: false,
                    jump_first_frame: false,
                    ability_pressed: false,
                    ability_first_frame: false,
                },
            ),
    {
        if horizontal > 0 {
            self.dash_state.face(Direction::Right);
        } else if horizontal < 0 {
            self.dash_state.face(Direction::Left);
        }
    }

    /// The preparation of a tick: everything up to the choice of the drag.
    #[verifier::rlimit(40)]
    fn prepare(&mut self, state: &TickState) -> (walls: (bool, bool))
        requires
            old(self)@.wf(),
            state.level.wf(),
        ensures
            ({
                let controls = Controls::of(state.input);
                let contacts = Contacts::at(&state.level.tilemap, old(self)@.position);
                &&& final(self)@ == old(self)@.prepared(controls, state.world_type, contacts)
                &&& walls.0 == contacts.left_wall
                &&& walls.1 == contacts.right_wall
            }),
            final(self)@.bounded(3 * SCALE),
    {
        let walls = self.sense(state);
        self.react(state);
        self.arm(state);
        walls
    }

    /// Serves a remembered jump request, runs the timers down, and runs the
    /// wall jump and the held jump on.
    #[verifier::rlimit(40)]
    fn react(&mut self, state: &TickState)
        requires
            old(self)@.bounded(SCALE as int),
        ensures
            final(self)@ == old(self)@.jumped(state.world_type).run_down().wall_pushed().held(
                Controls::of(state.input),
            ),
            final(self)@.bounded(5 * SCALE / 2),
    {
        let ghost controls = Controls::of(state.input);
        if self.jump_buffer_ticks > 0 {
            self.start_jumping(state, Ghost(SCALE as int));
        }
        assert(self@ == old(self)@.jumped(state.world_type));
        self.run_down_timers();
        self.push_off_wall();
        let ghost pushed = self@;
        self.hold_jump(state.input.get_button(ButtonType::Jump).pressed());
        assert(self@ == pushed.held(controls));
    }

    /// Turns the dash to the side of the controls and starts it if it is
    /// asked for.
    fn arm(&mut self, state: &TickState)
        requires
            old(self)@.bounded(5 * SCALE / 2),
        ensures
            final(self)@ == old(self)@.aimed(Controls::of(state.input)).triggered(
                Controls::of(state.input),
                state.world_type,
            ),
            final(self)@.bounded(5 * SCALE / 2),
    {
        let ghost controls = Controls::of(state.input);
        self.aim(state.input.horizontal());
        assert(self@ == old(self)@.aimed(controls));
        match self.active_ability(state.world_type) {
            Ability::Dash => {
                self.tick_dash_active(state);
            },
            _ => {},
        }
    }

    /// The second half of a tick before the move: drag, dash and
    /// integration of the velocity.
    #[verifier::rlimit(40)]
    fn launch(&mut self, state: &TickState, left_wall: bool, right_wall: bool)
        requires
            old(self)@.bounded(3 * SCALE),
        ensures
            ({
                let controls = Controls::of(state.input);
                let contacts = Contacts {
                    ground: false,
                    left_wall,
                    right_wall,
                    lethal: false,
                };
                final(self)@ == old(self)@.dashed().integrated(
                    old(self)@.drag(controls, state.world_type, contacts),
                )
            }),
            final(self)@.bounded(3 * SCALE),
    {
        let mut drag = FVec2 { x: DRAG_X, y: DRAG_Y };
        match self.active_ability(state.world_type) {
            Ability::WallJump => {
                self.handle_wall_sticking(
                    &mut drag,
                    state.input.horizontal(),
                    left_wall,
                    right_wall,
                );
            },
            _ => {},
        }
        self.dash_state.decrease_counters();
        if self.dash_state.is_dashing() {
            // The ease lets the dash fade out.
            self.velocity = self.dash_state.velocity();
        }
        proof {
            lemma_scaled_fraction(
                self.velocity.x + self.acceleration.x,
                drag.x as int,
                DRAG_Y as int,
            );
            lemma_scaled_fraction(
                self.velocity.y + self.acceleration.y,
                drag.y as int,
                DRAG_Y as int,
            );
        }
        let vx = scale(self.velocity.x + self.acceleration.x, drag.x);
        let vy = scale(self.velocity.y + self.acceleration.y, drag.y);
        let bx = scale(self.base_velocity.x, SCALE - drag.x);
        let by = scale(self.base_velocity.y, SCALE - drag.y);
        self.velocity = FVec2 { x: vx + bx, y: vy + by };
    }

    fn reset_dash(&mut self)
        ensures
            final(self)@ == (PlayerModel { dash: DashModel::initial(), ..old(self)@ }),
    {
        self.dash_state = DashState::default();
    }

    /// Accumulates a force of at most half a world unit per axis.
    fn accumulate(&mut self, force: FVec2, Ghost(slack): Ghost<int>)
        requires
            0 <= slack <= 3 * SCALE,
            old(self)@.bounded(slack),
            force@.within(SCALE / 2),
        ensures
            final(self)@ == old(self)@.forced(force@),
            final(self)@.bounded(slack + SCALE / 2),
    {
        self.acceleration = FVec2 {
            x: self.acceleration.x + force.x,
            y: self.acceleration.y + force.y,
        };
    }

    fn apply_gravity(&mut self, state: &TickState, Ghost(slack): Ghost<int>)
        requires
            0 <= slack <= 3 * SCALE,
            old(self)@.bounded(slack),
        ensures
            final(self)@ == old(self)@.forced(
                V2 { x: 0, y: old(self)@.gravity(Controls::of(state.input), state.world_type) },
            ),
            final(self)@.bounded(slack + SCALE / 2),
    {
        let gliding = self.active_ability(state.world_type) == Ability::Glider
            && state.input.ability_button_pressed() && self.velocity.y > 0
            && self.allowed_to_move();
        let gravity = if gliding {
            GRAVITY_GLIDER
        } else {
            GRAVITY
        };
        self.accumulate(FVec2 { x: 0, y: gravity }, Ghost(slack));
    }

    /// Probes the four sides of the actor, one collision step away each.
    /// Returns what each side touches, by the index of its direction, and
    /// kills the actor where a probe finds a tile that is deadly in its
    /// direction.
    fn handle_directional_collision(&mut self, level: &Level) -> (faces: [Option<
        CollisionType,
    >; 4])
        requires
            old(self)@.position.within(POSITION_LIMIT as int),
            level.wf(),
        ensures
            forall|d: Direction|
                faces@[#[trigger] d.spec_index()] == probe_at(
                    &level.tilemap,
                    old(self)@.position,
                    d,
                ).face,
            final(self)@ == (PlayerModel {
                dead: old(self)@.dead || Contacts::at(&level.tilemap, old(self)@.position).lethal,
                ..old(self)@
            }),
    {
        let left = probe(
            &level.tilemap,
            bounds_at(FVec2 { x: self.position.x - COLLISION_STEP, y: self.position.y }),
            Direction::Left,
        );
        let right = probe(
            &level.tilemap,
            bounds_at(FVec2 { x: self.position.x + COLLISION_STEP, y: self.position.y }),
            Direction::Right,
        );
        let up = probe(
            &level.tilemap,
            bounds_at(FVec2 { x: self.position.x, y: self.position.y - COLLISION_STEP }),
            Direction::Up,
        );
        let down = probe(
            &level.tilemap,
            bounds_at(FVec2 { x: self.position.x, y: self.position.y + COLLISION_STEP }),
            Direction::Down,
        );
        if left.lethal || right.lethal || up.lethal || down.lethal {
            self.kill();
        }
        let faces = [left.face, right.face, up.face, down.face];
        assert forall|d: Direction|
            faces@[#[trigger] d.spec_index()] == probe_at(
                &level.tilemap,
                old(self)@.position,
                d,
            ).face by {
            match d {
                Direction::Left => {},
                Direction::Right => {},
                Direction::Up => {},
                Direction::Down => {},
            }
        }
        faces
    }

    /// Serves a remembered jump request, if it can be served.
    fn start_jumping(&mut self, state: &TickState, Ghost(slack): Ghost<int>)
        requires
            0 <= slack <= 3 * SCALE,
            old(self)@.bounded(slack),
            old(self)@.jump_buffer_ticks > 0,
        ensures
            final(self)@ == old(self)@.jumped(state.world_type),
            final(self)@.bounded(slack + SCALE / 2),
    {
        if (self.grounded() || self.active_ability(state.world_type) == Ability::DoubleJump
            && self.can_jump_in_air) && !self.dash_state.is_dashing() {
            self.jump_buffer_ticks = 0;
            self.accumulate(FVec2 { x: 0, y: INITIAL_JUMP_FORCE }, Ghost(slack));
            self.jump_ticks = MAX_JUMP_TICKS;
            self.velocity.y = 0;
            self.wall_jump_state.cool();
            if !self.grounded() {
                self.can_jump_in_air = false;
            }
            self.ground_coyote_time = 0;
        } else if self.active_ability(state.world_type) == Ability::WallJump
            && self.wall_jump_state.wall_jump_ready() {
            self.wall_jump_state.fire();
            let force = self.wall_jump_state.initial_force_with_direction();
            self.accumulate(force, Ghost(slack));
            self.jump_buffer_ticks = 0;
            self.reset_dash();
        }
    }

    /// Starts a dash if the press of an ability button began this tick and
    /// the dash is ready.
    fn tick_dash_active(&mut self, state: &TickState)
        requires
            old(self)@.active_ability(state.world_type) == Ability::Dash,
        ensures
            final(self)@ == old(self)@.triggered(Controls::of(state.input), state.world_type),
    {
        if state.input.ability_button_pressed_first_frame() && self.allowed_to_move()
            && self.dash_state.dash_ready() {
            self.dash_state.start();
        }
    }

    /// Slows the vertical motion of an actor that sticks to a wall: one that
    /// steers into a wall that it touches.
    fn handle_wall_sticking(&self, drag: &mut FVec2, horizontal: i32, left: bool, right: bool)
        requires
            old(drag).y == DRAG_Y,
        ensures
            final(drag).x == old(drag).x,
            final(drag).y == if (left && horizontal < 0) || (right && horizontal > 0) {
                scaled(DRAG_Y as int, WALL_STICK_Y_DRAG as int)
            } else {
                DRAG_Y as int
            },
            0 <= final(drag).y <= DRAG_Y,
    {
        if (left && horizontal < 0) || (right && horizontal > 0) {
            drag.y = scale(drag.y, WALL_STICK_Y_DRAG);
        }
    }

    /// Moves the actor by its velocity in small steps, and stops it on the
    /// axis on which a step would end in a collision.
    fn move_until_collision(&mut self, tilemap: &Tilemap)
        requires
            old(self)@.bounded(3 * SCALE),
            tilemap.wf(),
        ensures
            final(self)@ == old(self)@.moved(tilemap),
            final(self)@.bounded(3 * SCALE),
    {
        let (position, velocity) = move_until_collision(tilemap, self.position, self.velocity);
        self.position = position;
        self.velocity = velocity;
    }
}

} // verus!
