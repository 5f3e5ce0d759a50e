use vstd::prelude::*;
use crate::ability::Ability;
use crate::collision::lemma_probe;
use crate::forces::{
    decay, jump_hold_force, lemma_decay_bounds, lemma_walk_force_digital, CONTINUOUS_JUMP_FORCE,
    COLLISION_STEP, MAX_JUMP_TICKS, SIZE,
};
use crate::laws::{lemma_coyote_step, lemma_tick_sound, lemma_tick_stays_free};
use crate::math::{lemma_scaled_bounds, scaled, Direction, SCALE, V2};
use crate::model::{probe_box, probe_offset, Contacts, Controls, PlayerModel};
use crate::motion::{blocked, lemma_free_within_map, Sweep};
use crate::tilemap::Tilemap;
use crate::world::WorldType;

verus! {

/// Bound on the upward velocity of an actor that only jumps.
pub const RISE_LIMIT: i64 = 700_000;

/// The least downward velocity after a tick that starts without upward
/// velocity: gravity less drag.
pub const FALL_STEP: i64 = 24_750;

/// Number of ticks within which gravity stops any rise within
/// [`RISE_LIMIT`] once no jump is held any more.
pub const TURN_TICKS: i64 = 29;

/// The controls of an actor that does nothing but hold the jump button, or
/// not even that.
pub open spec fn jump_held(pressed: bool) -> Controls {
    Controls { jump_pressed: pressed, ..Controls::idle() }
}

/// The controls of an actor that does nothing but press the jump button in
/// this tick.
pub open spec fn jump_pressed_now() -> Controls {
    Controls { jump_pressed: true, jump_first_frame: true, ..Controls::idle() }
}

/// Whether row `r` of the map is a floor: solid from left to right.
pub open spec fn floor_at(map: &Tilemap, r: int) -> bool {
    &&& 0 <= r < map.spec_height()
    &&& forall|x: int| 0 <= x < map.spec_width() ==> (#[trigger] map.tile_at(x, r)).is_solid()
}

/// Whether something solid, or the edge of the map, lies one collision
/// step below a position.
pub open spec fn ground_below(map: &Tilemap, position: V2) -> bool {
    Contacts::at(map, position).ground
}

/// Bound on the number of ticks that a fall from the height `y` to the
/// floor in row `r` takes.
pub open spec fn fall_time(y: int, r: int) -> int {
    (r * SCALE - SIZE - y) / (FALL_STEP as int) + 1
}

impl PlayerModel {
    /// Whether the actor is above the floor in row `r` with nothing but a
    /// jump under way: no ability, no horizontal velocity, no force or
    /// velocity from outside, no jump request, no dash and no wall jump.
    pub open spec fn only_jumping(self, world_type: WorldType, map: &Tilemap, r: int) -> bool {
        &&& self.wf()
        &&& self.active_ability(world_type) == Ability::NoAbility
        &&& self.velocity.x == 0
        &&& self.velocity.y >= -RISE_LIMIT
        &&& self.acceleration == V2::zero()
        &&& self.base_velocity == V2::zero()
        &&& self.jump_buffer_ticks == 0
        &&& self.dash.dash_ticks == 0
        &&& self.wall_jump.wall_jump_ticks == 0
        &&& !blocked(map, self.position)
        &&& self.position.y + SIZE < r * SCALE
    }

    /// Whether the next tick ends the fall: the actor does not rise, no jump
    /// is held any more, and the ground is right below.
    pub open spec fn about_to_land(self, map: &Tilemap) -> bool {
        self.jump_ticks == 0 && self.velocity.y >= 0 && ground_below(map, self.position)
    }

    /// Bound on the number of ticks until the actor is about to land on the
    /// floor in row `r` or on something above it: what is left of the held
    /// jump, then the ticks that gravity needs to stop the rise, then the
    /// fall.
    pub open spec fn landing_bound(self, r: int) -> int {
        if self.jump_ticks > 0 {
            self.jump_ticks + TURN_TICKS + fall_time(0, r)
        } else if self.velocity.y < 0 {
            (FALL_STEP - 2 - self.velocity.y) / (FALL_STEP - 1) + fall_time(0, r)
        } else {
            fall_time(self.position.y, r)
        }
    }

    /// Whether the actor lands within the next `n` ticks, in which it does
    /// nothing but hold the jump button where `held` says so: one of these
    /// ticks ends with the actor grounded and without vertical velocity.
    pub open spec fn lands_within(
        self,
        held: Seq<bool>,
        world_type: WorldType,
        map: &Tilemap,
        n: nat,
    ) -> bool
        decreases n,
    {
        n > 0 && held.len() > 0 && {
            let next = self.tick(jump_held(held[0]), world_type, map);
            (next.grounded() && next.velocity.y == 0) || next.lands_within(
                held.drop_first(),
                world_type,
                map,
                (n - 1) as nat,
            )
        }
    }
}

/// The ground below is what the probe downward finds: the actor is blocked
/// one collision step below its position.
pub proof fn lemma_ground_below(map: &Tilemap, position: V2)
    requires
        map.wf(),
    ensures
        ground_below(map, position) <==> blocked(
            map,
            V2 { x: position.x, y: position.y + COLLISION_STEP },
        ),
{
    lemma_probe(map, probe_box(position, Direction::Down), Direction::Down);
    assert(position.plus(probe_offset(Direction::Down)) == V2 {
        x: position.x,
        y: position.y + COLLISION_STEP,
    });
}

/// The velocity with which an actor that only jumps ends the integration of
/// a tick: none sideways, and downward its old velocity plus gravity and
/// what the held jump still gives, less drag.
proof fn lemma_only_jumping_launch(
    s: PlayerModel,
    pressed: bool,
    world_type: WorldType,
    map: &Tilemap,
    r: int,
)
    requires
        s.only_jumping(world_type, map, r),
    ensures
        ({
            let launched = s.launched(
                jump_held(pressed),
                world_type,
                Contacts::at(map, s.position),
            );
            &&& launched.position == s.position
            &&& launched.velocity.x == 0
            &&& launched.velocity.y >= -RISE_LIMIT
            &&& launched.jump_ticks == (if pressed && s.jump_ticks > 0 {
                s.jump_ticks - 1
            } else {
                0
            })
            &&& s.jump_ticks == 0 && s.velocity.y >= 0 ==> launched.velocity.y >= FALL_STEP
            &&& s.jump_ticks == 0 && s.velocity.y < 0 ==> launched.velocity.y >= 0
                || launched.velocity.y >= s.velocity.y + FALL_STEP
            &&& launched.jump_buffer_ticks == 0
            &&& launched.dash.dash_ticks == 0
            &&& launched.wall_jump.wall_jump_ticks == 0
        }),
{
    let controls = jump_held(pressed);
    let contacts = Contacts::at(map, s.position);
    lemma_walk_force_digital(0);
    let sensed = s.sensed(controls, world_type, contacts);
    assert(sensed.jump_buffer_ticks == 0);
    assert(sensed.jumped(world_type) == sensed);
    assert(sensed.acceleration == V2 { x: 0, y: 27_500 });
    let timed = sensed.run_down();
    assert(!timed.wall_jump.wall_jump_active());
    assert(timed.wall_pushed() == timed);
    let held = timed.held(controls);
    let ticks = if pressed {
        s.jump_ticks
    } else {
        0
    };
    let hold = if ticks > 0 {
        jump_hold_force((MAX_JUMP_TICKS + 1 - ticks) as nat)
    } else {
        0
    };
    if ticks > 0 {
        let k = (MAX_JUMP_TICKS + 1 - ticks) as nat;
        lemma_decay_bounds(k);
        lemma_scaled_bounds(CONTINUOUS_JUMP_FORCE as int, decay(k));
    }
    assert(-100_000 <= hold <= 0);
    assert(held.acceleration == V2 { x: 0, y: 27_500 + hold });
    let ready = s.prepared(controls, world_type, contacts);
    assert(ready == held);
    assert(!ready.wall_sticking(controls, world_type, contacts));
    assert(ready.drag(controls, world_type, contacts) == V2 { x: 700_000, y: 900_000 });
    assert(!ready.dash.decayed().is_dashing());
    let launched = s.launched(controls, world_type, contacts);
    lemma_scaled_bounds(0, 700_000);
    lemma_scaled_bounds(0, 300_000);
    lemma_scaled_bounds(0, 100_000);
    let w = s.velocity.y + 27_500 + hold;
    assert(launched.velocity.x == 0);
    assert(launched.velocity.y == scaled(w, 900_000));
    lemma_nine_tenths(w);
}

/// Nine tenths of a value, rounded toward zero.
proof fn lemma_nine_tenths(w: int)
    ensures
        w >= 0 ==> scaled(w, 900_000) >= 0 && 10 * scaled(w, 900_000) > 9 * w - 10,
        w <= 0 ==> scaled(w, 900_000) <= 0 && 10 * scaled(w, 900_000) >= 9 * w,
{
    reveal(scaled);
    if w >= 0 {
        let q = (w * 900_000) / 1_000_000;
        assert(q * 1_000_000 <= w * 900_000 < q * 1_000_000 + 1_000_000);
    } else {
        let q = ((-w) * 900_000) / 1_000_000;
        assert((-w * 900_000) == (-w) * 900_000);
        assert(q * 1_000_000 <= (-w) * 900_000);
    }
}

/// A move straight down from a position right above the ground goes
/// nowhere and leaves no vertical velocity.
proof fn lemma_run_on_ground(position: V2, velocity: V2, map: &Tilemap)
    requires
        map.wf(),
        !blocked(map, position),
        blocked(map, V2 { x: position.x, y: position.y + COLLISION_STEP }),
        velocity.x == 0,
        velocity.y > COLLISION_STEP,
    ensures
        Sweep::start(position, velocity).run(map).position == position,
        Sweep::start(position, velocity).run(map).velocity == V2::zero(),
{
    let start = Sweep::start(position, velocity);
    let after_x = start.step_x(map);
    assert(after_x == start);
    let next = after_x.step_y(map);
    assert(next.done());
    assert(start.run(map) == next.run(map));
    assert(next.run(map) == next);
}

/// One tick of an actor that only jumps. The actor still only jumps after
/// it. If it was about to land, it has landed: it is grounded, has no
/// velocity and has not moved. If it was not, it is about to land now, or
/// the bound on the ticks until then has gone down.
proof fn lemma_only_jumping_tick(
    s: PlayerModel,
    pressed: bool,
    world_type: WorldType,
    map: &Tilemap,
    r: int,
)
    requires
        map.wf(),
        floor_at(map, r),
        s.only_jumping(world_type, map, r),
    ensures
        ({
            let t = s.tick(jump_held(pressed), world_type, map);
            &&& t.only_jumping(world_type, map, r)
            &&& s.landing_bound(r) >= 0
            &&& s.about_to_land(map) ==> t.grounded() && t.velocity == V2::zero() && t.position
                == s.position
            &&& !s.about_to_land(map) ==> t.about_to_land(map) || t.landing_bound(r)
                < s.landing_bound(r)
        }),
{
    let controls = jump_held(pressed);
    let contacts = Contacts::at(map, s.position);
    let t = s.tick(controls, world_type, map);
    lemma_only_jumping_launch(s, pressed, world_type, map, r);
    let launched = s.launched(controls, world_type, contacts);
    let sweep = Sweep::start(launched.position, launched.velocity);
    lemma_tick_sound(s, controls, world_type, map);
    lemma_tick_stays_free(s, controls, world_type, map);
    sweep.lemma_run_settles(map);
    sweep.lemma_run_whole_or_stopped(map);
    sweep.lemma_no_tunneling_y(map, r);
    lemma_free_within_map(map, s.position);
    lemma_free_within_map(map, t.position);
    lemma_ground_below(map, s.position);
    lemma_ground_below(map, t.position);
    lemma_coyote_step(s, controls, world_type, map);
    assert(t.velocity.x == 0);
    assert(t.jump_ticks == launched.jump_ticks);
    let fall = FALL_STEP as int;
    let top = fall_time(0, r);
    assert(1 <= fall_time(t.position.y, r) <= top);
    assert(1 <= fall_time(s.position.y, r) <= top);
    if s.jump_ticks == 0 && s.velocity.y >= 0 {
        assert(launched.velocity.y >= fall);
        if ground_below(map, s.position) {
            lemma_run_on_ground(launched.position, launched.velocity, map);
        } else {
            sweep.lemma_run_stopped_fall(map);
            if t.velocity.y != 0 {
                assert(t.position.y == s.position.y + launched.velocity.y);
                assert(fall_time(t.position.y, r) < fall_time(s.position.y, r));
            }
        }
    } else if s.jump_ticks == 0 {
        if t.velocity.y < 0 {
            assert(t.velocity.y >= s.velocity.y + fall);
            assert((fall - 2 - t.velocity.y) / (fall - 1) < (fall - 2 - s.velocity.y) / (fall - 1));
        } else {
            assert((fall - 2 - s.velocity.y) / (fall - 1) >= 1);
        }
    } else {
        if t.jump_ticks == 0 && t.velocity.y < 0 {
            assert((fall - 2 - t.velocity.y) / (fall - 1) <= TURN_TICKS);
        }
    }
}

/// The induction behind [`lemma_lands`]: an actor that is about to land
/// lands in the next tick, and any other within two ticks more than its
/// bound.
proof fn lemma_lands_from(
    s: PlayerModel,
    held: Seq<bool>,
    world_type: WorldType,
    map: &Tilemap,
    r: int,
    n: nat,
)
    requires
        map.wf(),
        floor_at(map, r),
        s.only_jumping(world_type, map, r),
        held.len() >= n,
        n >= 1,
        s.about_to_land(map) || n >= s.landing_bound(r) + 2,
    ensures
        s.lands_within(held, world_type, map, n),
    decreases n,
{
    lemma_only_jumping_tick(s, held[0], world_type, map, r);
    let t = s.tick(jump_held(held[0]), world_type, map);
    if !s.about_to_land(map) {
        lemma_only_jumping_tick(t, false, world_type, map, r);
        lemma_lands_from(t, held.drop_first(), world_type, map, r, (n - 1) as nat);
    }
}

/// An actor that only jumps comes down again. Above a floor, with no
/// ability and nothing but a jump under way, and with nothing done in the
/// following ticks but holding the jump button or letting it go, the actor
/// ends one of those ticks grounded and without vertical velocity: on the
/// floor, or on something above it. The tick comes within what is left of
/// the held jump, the ticks that gravity needs to stop the rise, and the
/// time of the fall.
pub proof fn lemma_lands(
    s: PlayerModel,
    held: Seq<bool>,
    world_type: WorldType,
    map: &Tilemap,
    r: int,
    n: nat,
)
    requires
        map.wf(),
        floor_at(map, r),
        s.only_jumping(world_type, map, r),
        held.len() >= n,
        n >= s.landing_bound(r) + 2,
    ensures
        s.lands_within(held, world_type, map, n),
        s.landing_bound(r) <= MAX_JUMP_TICKS + TURN_TICKS + fall_time(0, r),
{
    lemma_only_jumping_tick(s, false, world_type, map, r);
    lemma_free_within_map(map, s.position);
    lemma_lands_from(s, held, world_type, map, r, n);
}

/// The round trip of a jump. An actor that rests on the ground above a
/// floor, with no ability and nothing under way, and presses the jump
/// button, jumps in that tick: the hold timer starts and the actor does not
/// move down. With nothing done afterwards but holding the button or
/// letting it go, it ends one of the following ticks grounded and without
/// vertical velocity, within the ticks of the held jump, the ticks that
/// gravity needs to stop the rise, and the time of the fall from the top of
/// the map.
pub proof fn lemma_jump_round_trip(
    p: PlayerModel,
    held: Seq<bool>,
    world_type: WorldType,
    map: &Tilemap,
    r: int,
    n: nat,
)
    requires
        map.wf(),
        floor_at(map, r),
        p.only_jumping(world_type, map, r),
        ground_below(map, p.position),
        held.len() >= n,
        n >= MAX_JUMP_TICKS + TURN_TICKS + fall_time(0, r) + 2,
    ensures
        ({
            let t = p.tick(jump_pressed_now(), world_type, map);
            &&& t.jump_ticks == MAX_JUMP_TICKS - 1
            &&& t.jump_buffer_ticks == 0
            &&& t.ground_coyote_time == 0
            &&& t.velocity.y <= 0
            &&& t.position.y <= p.position.y
            &&& t.lands_within(held, world_type, map, n)
        }),
{
    let controls = jump_pressed_now();
    let contacts = Contacts::at(map, p.position);
    let t = p.tick(controls, world_type, map);
    lemma_walk_force_digital(0);
    let sensed = p.sensed(controls, world_type, contacts);
    assert(sensed.fires_regular_jump(world_type));
    let jumped = sensed.jumped(world_type);
    assert(jumped == sensed.regular_jumped());
    let timed = jumped.run_down();
    assert(timed.wall_pushed() == timed);
    let k = 1nat;
    lemma_decay_bounds(k);
    lemma_scaled_bounds(CONTINUOUS_JUMP_FORCE as int, decay(k));
    let hold = jump_hold_force(k);
    let ready = p.prepared(controls, world_type, contacts);
    assert(ready.acceleration == V2 { x: 0, y: 27_500 - 300_000 + hold });
    assert(ready.velocity == V2::zero());
    assert(ready.jump_ticks == MAX_JUMP_TICKS - 1);
    assert(!ready.dash.decayed().is_dashing());
    let launched = p.launched(controls, world_type, contacts);
    lemma_scaled_bounds(0, 700_000);
    lemma_scaled_bounds(0, 300_000);
    lemma_scaled_bounds(0, 100_000);
    let w = 27_500 - 300_000 + hold;
    assert(launched.velocity.x == 0);
    assert(launched.velocity.y == scaled(w, 900_000));
    lemma_nine_tenths(w);
    let sweep = Sweep::start(launched.position, launched.velocity);
    lemma_tick_sound(p, controls, world_type, map);
    lemma_tick_stays_free(p, controls, world_type, map);
    sweep.lemma_run_settles(map);
    sweep.lemma_run_reach(map);
    sweep.lemma_no_tunneling_y(map, r);
    assert(t.only_jumping(world_type, map, r));
    lemma_lands(t, held, world_type, map, r, n);
}

} // verus!
