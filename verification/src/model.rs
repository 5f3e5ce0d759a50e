use vstd::prelude::*;
use crate::ability::{active_in, Ability, AbilityPair};
use crate::collision::{probe_spec, CollisionType, Probe};
use crate::dash::DashModel;
use crate::forces::{
    jump_hold_force, walk_force, BASE_VELOCITY_LIMIT, COLLISION_STEP, DRAG_X, DRAG_Y, FORCE_LIMIT,
    GRAVITY, GRAVITY_GLIDER, INITIAL_JUMP_FORCE, MAX_COYOTE_TIME, MAX_JUMP_BUFFER_TICKS,
    MAX_JUMP_TICKS, POSITION_LIMIT, VELOCITY_LIMIT,
};
use crate::input::{ButtonType, Input};
use crate::math::{scaled, tick_down, Direction, B2, SCALE, V2};
use crate::motion::{actor_box, Sweep};
use crate::tilemap::Tilemap;
use crate::wall_jump::{WallJumpModel, WALL_STICK_Y_DRAG};
use crate::world::WorldType;

verus! {

/// What a tick reads from the controls.
pub struct Controls {
    /// -1 while only left is held, 1 while only right is held, else 0.
    pub horizontal: int,
    /// Whether the jump button is held.
    pub jump_pressed: bool,
    /// Whether the press of the jump button began this tick.
    pub jump_first_frame: bool,
    /// Whether an ability button is held.
    pub ability_pressed: bool,
    /// Whether the press of an ability button began this tick.
    pub ability_first_frame: bool,
}

impl Controls {
    /// The controls as a snapshot of the buttons gives them.
    pub open spec fn of(input: &Input) -> Controls {
        Controls {
            horizontal: input.spec_horizontal(),
            jump_pressed: input.button(ButtonType::Jump) is Some,
            jump_first_frame: input.button(ButtonType::Jump) == Some(1i32),
            ability_pressed: input.spec_ability_button_pressed(),
            ability_first_frame: input.spec_ability_button_pressed_first_frame(),
        }
    }

    /// Nothing held.
    pub open spec fn idle() -> Controls {
        Controls {
            horizontal: 0,
            jump_pressed: false,
            jump_first_frame: false,
            ability_pressed: false,
            ability_first_frame: false,
        }
    }

    /// The deflection is digital, and a press that began this tick is held.
    pub open spec fn wf(self) -> bool {
        &&& -1 <= self.horizontal <= 1
        &&& (self.jump_first_frame ==> self.jump_pressed)
        &&& (self.ability_first_frame ==> self.ability_pressed)
    }
}

/// What the actor touches at the start of a tick, one collision step away
/// on each side.
pub struct Contacts {
    /// Whether something solid, or the edge of the world, lies below.
    pub ground: bool,
    /// Whether a wall, or the edge of the world, lies to the left.
    pub left_wall: bool,
    /// Whether a wall, or the edge of the world, lies to the right.
    pub right_wall: bool,
    /// Whether one of the four probes found a tile that kills.
    pub lethal: bool,
}

/// The displacement of the probe in a direction: one collision step.
pub open spec fn probe_offset(direction: Direction) -> V2 {
    match direction {
        Direction::Left => V2 { x: -COLLISION_STEP, y: 0 },
        Direction::Right => V2 { x: COLLISION_STEP as int, y: 0 },
        Direction::Up => V2 { x: 0, y: -COLLISION_STEP },
        Direction::Down => V2 { x: 0, y: COLLISION_STEP as int },
    }
}

/// The box of the actor displaced by one collision step in a direction.
pub open spec fn probe_box(position: V2, direction: Direction) -> B2 {
    actor_box(position.plus(probe_offset(direction)))
}

/// What the probe of one side finds.
pub open spec fn probe_at(map: &Tilemap, position: V2, direction: Direction) -> Probe {
    probe_spec(map, probe_box(position, direction), direction)
}

impl Contacts {
    /// The contacts of an actor at a position of a map.
    pub open spec fn at(map: &Tilemap, position: V2) -> Contacts {
        Contacts {
            ground: probe_at(map, position, Direction::Down).face is Some,
            left_wall: probe_at(map, position, Direction::Left).face == Some(CollisionType::Wall),
            right_wall: probe_at(map, position, Direction::Right).face == Some(
                CollisionType::Wall,
            ),
            lethal: probe_at(map, position, Direction::Left).lethal || probe_at(
                map,
                position,
                Direction::Right,
            ).lethal || probe_at(map, position, Direction::Up).lethal || probe_at(
                map,
                position,
                Direction::Down,
            ).lethal,
        }
    }

    /// Nothing touched.
    pub open spec fn none() -> Contacts {
        Contacts { ground: false, left_wall: false, right_wall: false, lethal: false }
    }
}

/// The state of the actor as plain numbers.
pub struct PlayerModel {
    /// Whether the actor has touched something deadly since the last reset.
    pub dead: bool,
    /// Top left corner of the bounding box.
    pub position: V2,
    /// Displacement per tick.
    pub velocity: V2,
    /// Forces accumulated for the next integration.
    pub acceleration: V2,
    /// The ability of each world.
    pub abilities: AbilityPair,
    /// Velocity imposed from outside, for the next integration.
    pub base_velocity: V2,
    /// Ticks for which a jump request is still remembered.
    pub jump_buffer_ticks: int,
    /// Ticks for which the actor still counts as grounded.
    pub ground_coyote_time: int,
    /// Ticks for which a held jump still pushes.
    pub jump_ticks: int,
    /// Whether the double jump is armed.
    pub can_jump_in_air: bool,
    /// The dash.
    pub dash: DashModel,
    /// The wall jump.
    pub wall_jump: WallJumpModel,
}

impl PlayerModel {
    /// The actor at spawn.
    pub open spec fn initial() -> PlayerModel {
        PlayerModel {
            dead: false,
            position: V2 { x: 30 * SCALE, y: 30 * SCALE },
            velocity: V2::zero(),
            acceleration: V2::zero(),
            abilities: (Ability::NoAbility, Ability::NoAbility),
            base_velocity: V2::zero(),
            jump_buffer_ticks: 0,
            ground_coyote_time: 0,
            jump_ticks: 0,
            can_jump_in_air: false,
            dash: DashModel::initial(),
            wall_jump: WallJumpModel::initial(),
        }
    }

    /// Every counter is within its range and every vector within its bound;
    /// the accumulated force may exceed its bound by `slack`.
    pub open spec fn bounded(self, slack: int) -> bool {
        &&& self.position.within(POSITION_LIMIT as int)
        &&& self.velocity.within(VELOCITY_LIMIT as int)
        &&& self.acceleration.within(FORCE_LIMIT + slack)
        &&& self.base_velocity.within(BASE_VELOCITY_LIMIT as int)
        &&& 0 <= self.jump_buffer_ticks <= MAX_JUMP_BUFFER_TICKS
        &&& 0 <= self.ground_coyote_time <= MAX_COYOTE_TIME
        &&& 0 <= self.jump_ticks <= MAX_JUMP_TICKS
        &&& self.dash.wf()
        &&& self.wall_jump.wf()
    }

    /// The invariant of the actor between two ticks.
    pub open spec fn wf(self) -> bool {
        self.bounded(0)
    }

    /// The ability that is active in a world.
    pub open spec fn active_ability(self, world_type: WorldType) -> Ability {
        active_in(self.abilities, world_type)
    }

    /// Whether the actor counts as standing on the ground: it does for a few
    /// ticks after it has left it.
    pub open spec fn grounded(self) -> bool {
        self.ground_coyote_time > 0
    }

    /// The actor with a force added to the accumulated forces.
    pub open spec fn forced(self, force: V2) -> PlayerModel {
        PlayerModel { acceleration: self.acceleration.plus(force), ..self }
    }

    /// The actor at a new position, alive, at rest, with the dash and the
    /// wall jump as at spawn.
    pub open spec fn reset(self, position: V2) -> PlayerModel {
        PlayerModel {
            position,
            dead: false,
            velocity: V2::zero(),
            acceleration: V2::zero(),
            dash: DashModel::initial(),
            wall_jump: WallJumpModel::initial(),
            ..self
        }
    }

    /// The horizontal force that the controls obtain. Steering to a side
    /// has no effect while that side is locked after a wall jump.
    pub open spec fn steering_force(self, horizontal: int) -> int {
        let force = walk_force(horizontal);
        if (force > 0 && self.wall_jump.move_right_cooldown > 0) || (force < 0
            && self.wall_jump.move_left_cooldown > 0) {
            0
        } else {
            force
        }
    }

    /// Whether the actor glides: the glider is active, its button is held
    /// and the actor falls.
    pub open spec fn gliding(self, controls: Controls, world_type: WorldType) -> bool {
        self.active_ability(world_type) == Ability::Glider && controls.ability_pressed
            && self.velocity.y > 0
    }

    /// The downward force of this tick.
    pub open spec fn gravity(self, controls: Controls, world_type: WorldType) -> int {
        if self.gliding(controls, world_type) {
            GRAVITY_GLIDER as int
        } else {
            GRAVITY as int
        }
    }

    /// First step of a tick: the force of the controls and gravity are
    /// accumulated.
    pub open spec fn pushed(self, controls: Controls, world_type: WorldType) -> PlayerModel {
        self.forced(V2 { x: self.steering_force(controls.horizontal), y: 0 }).forced(
            V2 { x: 0, y: self.gravity(controls, world_type) },
        )
    }

    /// Second step: the contacts take effect. A deadly contact kills. Ground
    /// contact refills the coyote time and re-arms the dash and the double
    /// jump. Wall contact fills the collision buffer of its side.
    pub open spec fn landed(self, contacts: Contacts) -> PlayerModel {
        PlayerModel {
            dead: self.dead || contacts.lethal,
            ground_coyote_time: if contacts.ground {
                MAX_COYOTE_TIME as int
            } else {
                self.ground_coyote_time
            },
            can_jump_in_air: self.can_jump_in_air || contacts.ground,
            dash: if contacts.ground {
                self.dash.rearmed()
            } else {
                self.dash
            },
            wall_jump: self.wall_jump.touched(contacts.left_wall, contacts.right_wall),
            ..self
        }
    }

    /// Third step: the controls are buffered. A fresh press of the jump
    /// button fills the jump buffer, and steering toward a wall that was
    /// lately touched fills the input buffer of that side.
    pub open spec fn buffered(self, controls: Controls) -> PlayerModel {
        PlayerModel {
            jump_buffer_ticks: if controls.jump_first_frame {
                MAX_JUMP_BUFFER_TICKS as int
            } else {
                self.jump_buffer_ticks
            },
            wall_jump: self.wall_jump.steered(controls.horizontal),
            ..self
        }
    }

    /// Whether a jump from the ground or in the air may start: the actor
    /// counts as grounded, or its double jump is active and armed; and no
    /// dash runs.
    pub open spec fn regular_jump_ready(self, world_type: WorldType) -> bool {
        (self.grounded() || (self.active_ability(world_type) == Ability::DoubleJump
            && self.can_jump_in_air)) && !self.dash.is_dashing()
    }

    /// Whether a wall jump may start.
    pub open spec fn wall_jump_ready(self, world_type: WorldType) -> bool {
        self.active_ability(world_type) == Ability::WallJump && self.wall_jump.wall_jump_ready()
    }

    /// Whether a remembered jump request is served by a jump from the ground
    /// or in the air.
    pub open spec fn fires_regular_jump(self, world_type: WorldType) -> bool {
        self.jump_buffer_ticks > 0 && self.regular_jump_ready(world_type)
    }

    /// Whether a remembered jump request is served by a wall jump: only
    /// where no jump from the ground or in the air can serve it.
    pub open spec fn fires_wall_jump(self, world_type: WorldType) -> bool {
        self.jump_buffer_ticks > 0 && !self.regular_jump_ready(world_type) && self.wall_jump_ready(
            world_type,
        )
    }

    /// The actor right after a jump from the ground or in the air: the
    /// request is used up, the impulse is accumulated, the fall is stopped,
    /// the hold timer runs, wall jumps are on cooldown, the coyote time is
    /// over, and a jump in the air has disarmed the double jump.
    pub open spec fn regular_jumped(self) -> PlayerModel {
        PlayerModel {
            jump_buffer_ticks: 0,
            acceleration: self.acceleration.plus(V2 { x: 0, y: INITIAL_JUMP_FORCE as int }),
            jump_ticks: MAX_JUMP_TICKS as int,
            velocity: V2 { x: self.velocity.x, y: 0 },
            wall_jump: self.wall_jump.cooled(),
            can_jump_in_air: self.grounded() && self.can_jump_in_air,
            ground_coyote_time: 0,
            ..self
        }
    }

    /// The actor right after a wall jump: the request is used up, the
    /// impulse away from the wall is accumulated, and the dash is as at
    /// spawn.
    pub open spec fn wall_jumped(self) -> PlayerModel {
        let wall_jump = self.wall_jump.fired();
        PlayerModel {
            jump_buffer_ticks: 0,
            acceleration: self.acceleration.plus(wall_jump.initial_force()),
            wall_jump,
            dash: DashModel::initial(),
            ..self
        }
    }

    /// Fourth step: a remembered jump request is served if it can be.
    pub open spec fn jumped(self, world_type: WorldType) -> PlayerModel {
        if self.fires_regular_jump(world_type) {
            self.regular_jumped()
        } else if self.fires_wall_jump(world_type) {
            self.wall_jumped()
        } else {
            self
        }
    }

    /// Fifth step: the timers run down by one tick, now that the jump request
    /// has been looked at: the jump buffer, the coyote time and the counters
    /// of the wall jump.
    pub open spec fn run_down(self) -> PlayerModel {
        PlayerModel {
            jump_buffer_ticks: tick_down(self.jump_buffer_ticks),
            ground_coyote_time: tick_down(self.ground_coyote_time),
            wall_jump: self.wall_jump.decayed(),
            ..self
        }
    }

    /// Sixth step: a running push of a wall jump is accumulated and turns
    /// the dash to its side.
    pub open spec fn wall_pushed(self) -> PlayerModel {
        if self.wall_jump.wall_jump_active() {
            PlayerModel {
                acceleration: self.acceleration.plus(self.wall_jump.push_force()),
                dash: self.dash.facing(self.wall_jump.heading()),
                ..self
            }
        } else {
            self
        }
    }

    /// Seventh step: releasing the jump button ends the hold; a running hold
    /// accumulates its decaying force and runs down by one tick.
    pub open spec fn held(self, controls: Controls) -> PlayerModel {
        let jump_ticks = if controls.jump_pressed {
            self.jump_ticks
        } else {
            0
        };
        if jump_ticks > 0 {
            PlayerModel {
                acceleration: self.acceleration.plus(
                    V2 { x: 0, y: jump_hold_force((MAX_JUMP_TICKS + 1 - jump_ticks) as nat) },
                ),
                jump_ticks: jump_ticks - 1,
                ..self
            }
        } else {
            PlayerModel { jump_ticks, ..self }
        }
    }

    /// Eighth step: steering turns the dash.
    pub open spec fn aimed(self, controls: Controls) -> PlayerModel {
        if controls.horizontal > 0 {
            PlayerModel { dash: self.dash.facing(Direction::Right), ..self }
        } else if controls.horizontal < 0 {
            PlayerModel { dash: self.dash.facing(Direction::Left), ..self }
        } else {
            self
        }
    }

    /// Whether a dash starts: the dash is active and ready, and the press of
    /// an ability button began this tick.
    pub open spec fn starts_dash(self, controls: Controls, world_type: WorldType) -> bool {
        self.active_ability(world_type) == Ability::Dash && controls.ability_first_frame
            && self.dash.dash_ready()
    }

    /// Ninth step: a dash may start.
    pub open spec fn triggered(self, controls: Controls, world_type: WorldType) -> PlayerModel {
        if self.starts_dash(controls, world_type) {
            PlayerModel { dash: self.dash.started(), ..self }
        } else {
            self
        }
    }

    /// Whether the actor sticks to a wall: the wall jump is active and the
    /// actor steers into a wall that it touches.
    pub open spec fn wall_sticking(
        self,
        controls: Controls,
        world_type: WorldType,
        contacts: Contacts,
    ) -> bool {
        self.active_ability(world_type) == Ability::WallJump && ((contacts.left_wall
            && controls.horizontal < 0) || (contacts.right_wall && controls.horizontal > 0))
    }

    /// The drag of this tick: the fraction of its velocity that the actor
    /// keeps on each axis. Sticking to a wall slows the vertical motion
    /// much more.
    pub open spec fn drag(self, controls: Controls, world_type: WorldType, contacts: Contacts)
        -> V2 {
        V2 {
            x: DRAG_X as int,
            y: if self.wall_sticking(controls, world_type, contacts) {
                scaled(DRAG_Y as int, WALL_STICK_Y_DRAG as int)
            } else {
                DRAG_Y as int
            },
        }
    }

    /// Tenth step: the counters of the dash run down by one tick, and a
    /// running dash replaces the velocity.
    pub open spec fn dashed(self) -> PlayerModel {
        let dash = self.dash.decayed();
        if dash.is_dashing() {
            PlayerModel { dash, velocity: dash.velocity(), ..self }
        } else {
            PlayerModel { dash, ..self }
        }
    }

    /// Eleventh step: the accumulated forces are added to the velocity, drag
    /// takes its share, and the imposed velocity is blended in by the share
    /// that drag took.
    pub open spec fn integrated(self, drag: V2) -> PlayerModel {
        PlayerModel {
            velocity: V2 {
                x: scaled(self.velocity.x + self.acceleration.x, drag.x) + scaled(
                    self.base_velocity.x,
                    SCALE - drag.x,
                ),
                y: scaled(self.velocity.y + self.acceleration.y, drag.y) + scaled(
                    self.base_velocity.y,
                    SCALE - drag.y,
                ),
            },
            ..self
        }
    }

    /// Twelfth step: the stepped move.
    pub open spec fn moved(self, map: &Tilemap) -> PlayerModel {
        let end = Sweep::start(self.position, self.velocity).run(map);
        PlayerModel { position: end.position, velocity: end.velocity, ..self }
    }

    /// Last step: what was accumulated for this tick is forgotten.
    pub open spec fn cleared(self) -> PlayerModel {
        PlayerModel { acceleration: V2::zero(), base_velocity: V2::zero(), ..self }
    }

    /// The actor before the drag of a tick is determined: after the first
    /// nine steps.
    pub open spec fn prepared(self, controls: Controls, world_type: WorldType, contacts: Contacts)
        -> PlayerModel {
        self.pushed(controls, world_type).landed(contacts).buffered(controls).jumped(
            world_type,
        ).run_down().wall_pushed().held(controls).aimed(controls).triggered(controls, world_type)
    }

    /// The actor before the stepped move of a tick.
    pub open spec fn launched(self, controls: Controls, world_type: WorldType, contacts: Contacts)
        -> PlayerModel {
        let ready = self.prepared(controls, world_type, contacts);
        ready.dashed().integrated(ready.drag(controls, world_type, contacts))
    }

    /// One tick of the simulation.
    pub open spec fn tick(self, controls: Controls, world_type: WorldType, map: &Tilemap)
        -> PlayerModel {
        self.launched(controls, world_type, Contacts::at(map, self.position)).moved(map).cleared()
    }
}

} // verus!
