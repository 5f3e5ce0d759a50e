use vstd::prelude::*;
use crate::ability::Ability;
use crate::dash::{DashModel, MAX_DASH_TICKS};
use crate::forces::{
    decay, lemma_decay_bounds, lemma_walk_force_digital, CONTINUOUS_JUMP_FORCE, DRAG_X, DRAG_Y,
    GRAVITY, INITIAL_JUMP_FORCE, MAX_COYOTE_TIME, MAX_JUMP_BUFFER_TICKS, MAX_JUMP_TICKS,
    MOVE_SPEED,
};
use crate::math::{
    lemma_scaled_bounds, lemma_scaled_fraction, scaled, tick_down, Direction, SCALE, V2,
};
use crate::model::{Contacts, Controls, PlayerModel};
use crate::motion::{blocked, Sweep};
use crate::tilemap::Tilemap;
use crate::wall_jump::{
    WallJumpModel, MAX_COLLISION_BUFFER_TICKS, MAX_INPUT_BUFFER_TICKS, MAX_WALL_JUMP_TICKS,
    MOVE_COOLDOWN, WALL_STICK_Y_DRAG,
};
use crate::world::WorldType;

verus! {

/// The greatest downward velocity from which a tick of free fall still
/// speeds the actor up: just below the velocity at which drag and gravity
/// balance.
pub const FREE_FALL_LIMIT: i64 = 247_490;

impl PlayerModel {
    /// The actor at the point of a tick at which a remembered jump request
    /// is looked at: after the forces, the contacts and the buffers.
    pub open spec fn sensed(self, controls: Controls, world_type: WorldType, contacts: Contacts)
        -> PlayerModel {
        self.pushed(controls, world_type).landed(contacts).buffered(controls)
    }

    /// Whether a tick serves a jump request, by a jump from the ground or in
    /// the air or by a wall jump.
    pub open spec fn serves_jump(self, controls: Controls, world_type: WorldType, map: &Tilemap)
        -> bool {
        let sensed = self.sensed(controls, world_type, Contacts::at(map, self.position));
        sensed.fires_regular_jump(world_type) || sensed.fires_wall_jump(world_type)
    }

    /// The actor after a sequence of ticks in one world on one map, one
    /// entry of `controls` for each tick.
    pub open spec fn ticks(self, controls: Seq<Controls>, world_type: WorldType, map: &Tilemap)
        -> PlayerModel
        decreases controls.len(),
    {
        if controls.len() == 0 {
            self
        } else {
            self.ticks(controls.drop_last(), world_type, map).tick(
                controls.last(),
                world_type,
                map,
            )
        }
    }

    /// Whether nothing but gravity and drag will act on the actor while the
    /// controls are idle: no force or velocity from outside, no remembered
    /// jump request, no push of a wall jump and no dash beyond this tick.
    pub open spec fn coasting(self) -> bool {
        &&& self.acceleration == V2::zero()
        &&& self.base_velocity == V2::zero()
        &&& self.jump_buffer_ticks <= 0
        &&& self.wall_jump.wall_jump_ticks <= 1
        &&& self.dash.dash_ticks <= 1
    }
}

/// Gravity: with the controls idle and nothing else under way, a tick
/// speeds a falling actor up until it is stopped. Before the move the
/// downward velocity is the old one plus gravity, less drag, and greater
/// than the old one; after the move it is that velocity, or zero where the
/// move was stopped.
pub proof fn lemma_free_fall(p: PlayerModel, world_type: WorldType, map: &Tilemap)
    requires
        p.wf(),
        p.coasting(),
        0 <= p.velocity.y <= FREE_FALL_LIMIT,
    ensures
        ({
            let contacts = Contacts::at(map, p.position);
            let before_move = p.launched(Controls::idle(), world_type, contacts);
            let after = p.tick(Controls::idle(), world_type, map);
            &&& before_move.velocity.y == scaled(p.velocity.y + GRAVITY, DRAG_Y as int)
            &&& before_move.velocity.y > p.velocity.y
            &&& (after.velocity.y == before_move.velocity.y || after.velocity.y == 0)
        }),
{
    let controls = Controls::idle();
    let contacts = Contacts::at(map, p.position);
    let ready = p.prepared(controls, world_type, contacts);
    let sensed = p.sensed(controls, world_type, contacts);
    assert(sensed.jump_buffer_ticks == 0);
    assert(sensed.jumped(world_type) == sensed);
    assert(ready.velocity == p.velocity);
    assert(ready.acceleration == V2 { x: p.steering_force(0), y: GRAVITY as int });
    assert(ready.base_velocity == V2::zero());
    assert(!ready.wall_sticking(controls, world_type, contacts));
    assert(ready.drag(controls, world_type, contacts).y == DRAG_Y);
    assert(!ready.dash.decayed().is_dashing());
    let before_move = p.launched(controls, world_type, contacts);
    assert(scaled(0, SCALE - DRAG_Y) == 0) by {
        reveal(scaled);
    }
    assert(before_move.velocity.y == scaled(p.velocity.y + GRAVITY, DRAG_Y as int));
    assert(scaled(p.velocity.y + GRAVITY, DRAG_Y as int) > p.velocity.y) by {
        reveal(scaled);
    }
    Sweep::start(before_move.position, before_move.velocity).lemma_run_settles(map);
}

/// Free fall goes on: after a tick with the controls idle, an actor that
/// had nothing of its own under way has nothing under way again, does not
/// rise, and is at most one unit faster than the greatest velocity from
/// which it still speeds up.
pub proof fn lemma_free_fall_persists(p: PlayerModel, world_type: WorldType, map: &Tilemap)
    requires
        p.wf(),
        map.wf(),
        p.coasting(),
        0 <= p.velocity.y <= FREE_FALL_LIMIT,
    ensures
        p.tick(Controls::idle(), world_type, map).wf(),
        p.tick(Controls::idle(), world_type, map).coasting(),
        p.tick(Controls::idle(), world_type, map).velocity.y >= 0,
        p.tick(Controls::idle(), world_type, map).velocity.y <= FREE_FALL_LIMIT + 1,
{
    lemma_free_fall(p, world_type, map);
    lemma_tick_sound(p, Controls::idle(), world_type, map);
    assert(scaled(p.velocity.y + GRAVITY, DRAG_Y as int) <= FREE_FALL_LIMIT + 1) by {
        reveal(scaled);
    }
}

impl PlayerModel {
    /// The actor after `n` ticks in which the controls are idle.
    pub open spec fn left_alone(self, n: nat, world_type: WorldType, map: &Tilemap) -> PlayerModel
        decreases n,
    {
        if n == 0 {
            self
        } else {
            self.left_alone((n - 1) as nat, world_type, map).tick(
                Controls::idle(),
                world_type,
                map,
            )
        }
    }

    /// Whether the actor, left alone, starts none of its first `n` ticks
    /// above the velocity from which a fall still speeds up.
    pub open spec fn keeps_speeding_up(self, n: nat, world_type: WorldType, map: &Tilemap) -> bool
        decreases n,
    {
        n == 0 || (self.keeps_speeding_up((n - 1) as nat, world_type, map) && self.left_alone(
            (n - 1) as nat,
            world_type,
            map,
        ).velocity.y <= FREE_FALL_LIMIT)
    }
}

/// The actor of [`lemma_free_fall_run`] at the start of tick `n`: sound,
/// coasting and not rising.
proof fn lemma_free_fall_state(p: PlayerModel, n: nat, world_type: WorldType, map: &Tilemap)
    requires
        p.wf(),
        map.wf(),
        p.coasting(),
        0 <= p.velocity.y,
        p.keeps_speeding_up(n, world_type, map),
    ensures
        p.left_alone(n, world_type, map).wf(),
        p.left_alone(n, world_type, map).coasting(),
        p.left_alone(n, world_type, map).velocity.y >= 0,
    decreases n,
{
    if n > 0 {
        lemma_free_fall_state(p, (n - 1) as nat, world_type, map);
        lemma_free_fall_persists(p.left_alone((n - 1) as nat, world_type, map), world_type, map);
    }
}

/// Gravity, tick after tick: an actor that starts with nothing of its own
/// under way and is left alone speeds up downward in every tick, until a
/// tick stops it or it has reached the velocity at which drag and gravity
/// balance.
pub proof fn lemma_free_fall_run(p: PlayerModel, n: nat, world_type: WorldType, map: &Tilemap)
    requires
        p.wf(),
        map.wf(),
        p.coasting(),
        0 <= p.velocity.y,
        p.keeps_speeding_up(n + 1, world_type, map),
    ensures
        p.left_alone(n + 1, world_type, map).velocity.y > p.left_alone(
            n,
            world_type,
            map,
        ).velocity.y || p.left_alone(n + 1, world_type, map).velocity.y == 0,
{
    lemma_free_fall_state(p, n, world_type, map);
    lemma_free_fall(p.left_alone(n, world_type, map), world_type, map);
}

/// Forces add up: the order in which they are accumulated does not matter,
/// and two forces count as their sum.
pub proof fn lemma_forces_commute(p: PlayerModel, a: V2, b: V2)
    ensures
        p.forced(a).forced(b) == p.forced(b).forced(a),
        p.forced(a).forced(b) == p.forced(a.plus(b)),
        p.forced(V2::zero()) == p,
{
}

/// Resetting twice to the same position gives the same actor as resetting
/// once, and the actor that a reset gives is alive, at rest and sound.
pub proof fn lemma_reset_idempotent(p: PlayerModel, position: V2)
    ensures
        p.reset(position).reset(position) == p.reset(position),
        !p.reset(position).dead,
        p.reset(position).position == position,
        p.reset(position).velocity == V2::zero(),
        p.reset(position).acceleration == V2::zero(),
        p.reset(position).dash == DashModel::initial(),
        p.reset(position).wall_jump == WallJumpModel::initial(),
{
}

/// The actor dies in a tick exactly when one of the four probes of that
/// tick finds a deadly tile; whatever it does, jumping included, an actor
/// that touches no hazard stays alive.
pub proof fn lemma_death(
    p: PlayerModel,
    controls: Controls,
    world_type: WorldType,
    map: &Tilemap,
)
    ensures
        p.tick(controls, world_type, map).dead == (p.dead || Contacts::at(map, p.position).lethal),
{
}

/// What a tick does to the jump buffer. A request that is served is used
/// up. One that is not served is kept and loses one tick, after it has been
/// looked at: a fresh press leaves one tick less than the full buffer.
pub proof fn lemma_jump_buffer_step(
    p: PlayerModel,
    controls: Controls,
    world_type: WorldType,
    map: &Tilemap,
)
    ensures
        p.tick(controls, world_type, map).jump_buffer_ticks == if p.serves_jump(
            controls,
            world_type,
            map,
        ) {
            0
        } else if controls.jump_first_frame {
            MAX_JUMP_BUFFER_TICKS - 1
        } else {
            tick_down(p.jump_buffer_ticks)
        },
{
}

/// A jump that is served is served once: the tick that serves it leaves
/// nothing in the buffer, so that the next tick serves nothing unless the
/// button is pressed anew.
pub proof fn lemma_jump_served_once(
    p: PlayerModel,
    controls: Controls,
    next: Controls,
    world_type: WorldType,
    map: &Tilemap,
)
    requires
        p.serves_jump(controls, world_type, map),
        !next.jump_first_frame,
    ensures
        p.tick(controls, world_type, map).jump_buffer_ticks == 0,
        !p.tick(controls, world_type, map).serves_jump(next, world_type, map),
{
}

/// A jump from the ground is served in the tick in which a request, fresh
/// or remembered, meets an actor that counts as grounded: one that has
/// ground contact or coyote time left. No dash must run. The tick starts
/// the hold timer, uses the request up and ends the coyote time.
pub proof fn lemma_jump_on_landing(
    p: PlayerModel,
    controls: Controls,
    world_type: WorldType,
    map: &Tilemap,
)
    requires
        controls.jump_first_frame || p.jump_buffer_ticks >= 1,
        Contacts::at(map, p.position).ground || p.ground_coyote_time >= 1,
        !p.dash.is_dashing(),
    ensures
        p.sensed(controls, world_type, Contacts::at(map, p.position)).fires_regular_jump(
            world_type,
        ),
        p.serves_jump(controls, world_type, map),
        p.tick(controls, world_type, map).jump_buffer_ticks == 0,
        p.tick(controls, world_type, map).ground_coyote_time == 0,
        p.tick(controls, world_type, map).jump_ticks == if controls.jump_pressed {
            MAX_JUMP_TICKS - 1
        } else {
            0
        },
{
}

/// What a tick does to the coyote time. Ground contact refills it. A jump
/// from the ground or in the air ends it; otherwise it loses one tick,
/// after the jump request has been looked at.
pub proof fn lemma_coyote_step(
    p: PlayerModel,
    controls: Controls,
    world_type: WorldType,
    map: &Tilemap,
)
    ensures
        ({
            let contacts = Contacts::at(map, p.position);
            let sensed = p.sensed(controls, world_type, contacts);
            &&& sensed.grounded() <==> contacts.ground || p.ground_coyote_time > 0
            &&& p.tick(controls, world_type, map).ground_coyote_time == if sensed.fires_regular_jump(
                world_type,
            ) {
                0
            } else if contacts.ground {
                MAX_COYOTE_TIME - 1
            } else {
                tick_down(p.ground_coyote_time)
            }
        }),
{
}

/// Coyote time: an actor counts as grounded in the tick of its last ground
/// contact and in the four ticks that follow it. If the first of
/// `controls.len()` ticks has ground contact, the others have none, and no
/// jump from the ground or in the air is made in any of them, then after
/// them the coyote time that is left is five less their number: where that
/// is more than zero, the next tick still serves a jump request as if the
/// actor stood on the ground, and where it is zero, the next tick does so
/// only on new ground contact.
pub proof fn lemma_coyote_time(
    p: PlayerModel,
    controls: Seq<Controls>,
    next: Controls,
    world_type: WorldType,
    map: &Tilemap,
)
    requires
        1 <= controls.len() <= MAX_COYOTE_TIME,
        Contacts::at(map, p.position).ground,
        forall|i: int|
            1 <= i < controls.len() ==> !Contacts::at(
                map,
                (#[trigger] p.ticks(controls.take(i), world_type, map)).position,
            ).ground,
        forall|i: int|
            0 <= i < controls.len() ==> !({
                let before = #[trigger] p.ticks(controls.take(i), world_type, map);
                before.sensed(
                    controls[i],
                    world_type,
                    Contacts::at(map, before.position),
                ).fires_regular_jump(world_type)
            }),
    ensures
        ({
            let q = p.ticks(controls, world_type, map);
            let sensed = q.sensed(next, world_type, Contacts::at(map, q.position));
            &&& q.ground_coyote_time == MAX_COYOTE_TIME - controls.len()
            &&& controls.len() < MAX_COYOTE_TIME ==> sensed.grounded()
            &&& controls.len() < MAX_COYOTE_TIME && next.jump_first_frame && !q.dash.is_dashing()
                ==> sensed.fires_regular_jump(world_type)
            &&& controls.len() == MAX_COYOTE_TIME && !Contacts::at(map, q.position).ground
                ==> !sensed.grounded()
        }),
{
    lemma_coyote_after(p, controls, world_type, map, controls.len() as int);
    assert(controls.take(controls.len() as int) =~= controls);
    let q = p.ticks(controls, world_type, map);
    lemma_coyote_step(q, next, world_type, map);
}

/// After the first `n` of the ticks of [`lemma_coyote_time`] the coyote
/// time that is left is five less `n`.
proof fn lemma_coyote_after(
    p: PlayerModel,
    controls: Seq<Controls>,
    world_type: WorldType,
    map: &Tilemap,
    n: int,
)
    requires
        1 <= n <= controls.len() <= MAX_COYOTE_TIME,
        Contacts::at(map, p.position).ground,
        forall|i: int|
            1 <= i < controls.len() ==> !Contacts::at(
                map,
                (#[trigger] p.ticks(controls.take(i), world_type, map)).position,
            ).ground,
        forall|i: int|
            0 <= i < controls.len() ==> !({
                let before = #[trigger] p.ticks(controls.take(i), world_type, map);
                before.sensed(
                    controls[i],
                    world_type,
                    Contacts::at(map, before.position),
                ).fires_regular_jump(world_type)
            }),
    ensures
        p.ticks(controls.take(n), world_type, map).ground_coyote_time == MAX_COYOTE_TIME - n,
    decreases n,
{
    let prefix = controls.take(n);
    assert(prefix.drop_last() =~= controls.take(n - 1));
    assert(prefix.last() == controls[n - 1]);
    let before = p.ticks(controls.take(n - 1), world_type, map);
    if n == 1 {
        assert(controls.take(0).len() == 0);
        assert(before == p);
    } else {
        lemma_coyote_after(p, controls, world_type, map, n - 1);
    }
    lemma_coyote_step(before, controls[n - 1], world_type, map);
}

/// The jump buffer: a press of the jump button is remembered through the
/// five ticks that follow it. If the button is pressed in the first of
/// `controls.len()` ticks, at most four further ticks pass in which no jump
/// is served and the button is not pressed anew, and the actor then has
/// ground contact while no dash runs, the tick of the contact serves the
/// jump: a press up to five ticks before the tick of the landing, or in
/// that tick, is served by it.
pub proof fn lemma_jump_buffered(
    p: PlayerModel,
    controls: Seq<Controls>,
    landing: Controls,
    world_type: WorldType,
    map: &Tilemap,
)
    requires
        1 <= controls.len() <= MAX_JUMP_BUFFER_TICKS - 1,
        controls[0].jump_first_frame,
        forall|i: int| 1 <= i < controls.len() ==> !(#[trigger] controls[i]).jump_first_frame,
        forall|i: int|
            0 <= i < controls.len() ==> !(#[trigger] p.ticks(
                controls.take(i),
                world_type,
                map,
            )).serves_jump(controls[i], world_type, map),
        Contacts::at(map, p.ticks(controls, world_type, map).position).ground,
        !p.ticks(controls, world_type, map).dash.is_dashing(),
    ensures
        p.ticks(controls, world_type, map).jump_buffer_ticks == MAX_JUMP_BUFFER_TICKS
            - controls.len(),
        p.ticks(controls, world_type, map).serves_jump(landing, world_type, map),
        p.ticks(controls, world_type, map).tick(landing, world_type, map).jump_buffer_ticks == 0,
{
    lemma_buffer_after(p, controls, world_type, map, controls.len() as int);
    assert(controls.take(controls.len() as int) =~= controls);
    let q = p.ticks(controls, world_type, map);
    lemma_jump_on_landing(q, landing, world_type, map);
}

/// After the first `n` of the ticks of [`lemma_jump_buffered`] the actor
/// remembers the press with `n` ticks less than the full buffer.
proof fn lemma_buffer_after(
    p: PlayerModel,
    controls: Seq<Controls>,
    world_type: WorldType,
    map: &Tilemap,
    n: int,
)
    requires
        1 <= n <= controls.len() <= MAX_JUMP_BUFFER_TICKS - 1,
        controls[0].jump_first_frame,
        forall|i: int| 1 <= i < controls.len() ==> !(#[trigger] controls[i]).jump_first_frame,
        forall|i: int|
            0 <= i < controls.len() ==> !(#[trigger] p.ticks(
                controls.take(i),
                world_type,
                map,
            )).serves_jump(controls[i], world_type, map),
    ensures
        p.ticks(controls.take(n), world_type, map).jump_buffer_ticks == MAX_JUMP_BUFFER_TICKS - n,
    decreases n,
{
    let prefix = controls.take(n);
    assert(prefix.drop_last() =~= controls.take(n - 1));
    assert(prefix.last() == controls[n - 1]);
    let before = p.ticks(controls.take(n - 1), world_type, map);
    if n == 1 {
        assert(controls.take(0).len() == 0);
        assert(before == p);
    } else {
        lemma_buffer_after(p, controls, world_type, map, n - 1);
    }
    assert(!before.serves_jump(controls[n - 1], world_type, map));
    lemma_jump_buffer_step(before, controls[n - 1], world_type, map);
}

/// The first eight steps of a tick keep every counter within its range and
/// add less than three world units per tick to the accumulated forces.
proof fn lemma_prepared_bounded(
    p: PlayerModel,
    controls: Controls,
    world_type: WorldType,
    contacts: Contacts,
)
    requires
        p.wf(),
        controls.wf(),
    ensures
        p.prepared(controls, world_type, contacts).bounded(3 * SCALE),
{
    lemma_walk_force_digital(controls.horizontal);
    let sensed = p.sensed(controls, world_type, contacts);
    assert(sensed.bounded(SCALE as int));
    let jumped = sensed.jumped(world_type);
    assert(jumped.bounded(3 * SCALE / 2));
    let pushed = jumped.run_down().wall_pushed();
    jumped.run_down().wall_jump.lemma_push_bounds();
    assert(pushed.bounded(2 * SCALE));
    let held = pushed.held(controls);
    if controls.jump_pressed && pushed.jump_ticks > 0 {
        let k = (MAX_JUMP_TICKS + 1 - pushed.jump_ticks) as nat;
        lemma_decay_bounds(k);
        lemma_scaled_bounds(CONTINUOUS_JUMP_FORCE as int, decay(k));
    }
    assert(held.bounded(5 * SCALE / 2));
}

/// Drag, dash and integration keep the velocity within its bound.
proof fn lemma_launched_bounded(
    p: PlayerModel,
    controls: Controls,
    world_type: WorldType,
    contacts: Contacts,
)
    requires
        p.wf(),
        controls.wf(),
    ensures
        p.launched(controls, world_type, contacts).bounded(3 * SCALE),
{
    lemma_prepared_bounded(p, controls, world_type, contacts);
    let ready = p.prepared(controls, world_type, contacts);
    let drag = ready.drag(controls, world_type, contacts);
    lemma_scaled_bounds(DRAG_Y as int, WALL_STICK_Y_DRAG as int);
    let dashed = ready.dashed();
    ready.dash.decayed().lemma_velocity_bounds();
    let v = dashed.velocity.plus(dashed.acceleration);
    lemma_scaled_fraction(v.x, drag.x, DRAG_Y as int);
    lemma_scaled_fraction(v.y, drag.y, DRAG_Y as int);
    lemma_scaled_bounds(v.x, drag.x);
    lemma_scaled_bounds(v.y, drag.y);
    lemma_scaled_bounds(dashed.base_velocity.x, SCALE - drag.x);
    lemma_scaled_bounds(dashed.base_velocity.y, SCALE - drag.y);
}

/// Soundness is an invariant of the simulation: a tick of a sound actor on
/// a sound map gives a sound actor. In particular no counter ever leaves
/// its range, and none is negative.
pub proof fn lemma_tick_sound(
    p: PlayerModel,
    controls: Controls,
    world_type: WorldType,
    map: &Tilemap,
)
    requires
        p.wf(),
        controls.wf(),
        map.wf(),
    ensures
        p.tick(controls, world_type, map).wf(),
        p.tick(controls, world_type, map).acceleration == V2::zero(),
        p.tick(controls, world_type, map).base_velocity == V2::zero(),
        p.tick(controls, world_type, map).abilities == p.abilities,
{
    let contacts = Contacts::at(map, p.position);
    lemma_launched_bounded(p, controls, world_type, contacts);
    let launched = p.launched(controls, world_type, contacts);
    let sweep = Sweep::start(launched.position, launched.velocity);
    sweep.lemma_run_settles(map);
    sweep.lemma_run_within(map);
}

/// An actor never ends a tick inside a solid tile or outside the map, if
/// it did not start the tick there.
pub proof fn lemma_tick_stays_free(
    p: PlayerModel,
    controls: Controls,
    world_type: WorldType,
    map: &Tilemap,
)
    requires
        !blocked(map, p.position),
    ensures
        !blocked(map, p.tick(controls, world_type, map).position),
{
    let launched = p.launched(controls, world_type, Contacts::at(map, p.position));
    assert(launched.position == p.position);
    Sweep::start(launched.position, launched.velocity).lemma_run_stays_free(map);
}

/// A tick displaces the actor by no more than the velocity with which it
/// ends the integration, on either axis, and never backward. On each axis
/// the displacement is the whole of that velocity, or the actor was stopped
/// and has no velocity left on that axis.
pub proof fn lemma_tick_reach(
    p: PlayerModel,
    controls: Controls,
    world_type: WorldType,
    map: &Tilemap,
)
    ensures
        ({
            let launched = p.launched(controls, world_type, Contacts::at(map, p.position));
            let q = p.tick(controls, world_type, map);
            &&& Sweep::start(p.position, launched.velocity).spans(q.position)
            &&& (q.velocity.x == launched.velocity.x || q.velocity.x == 0)
            &&& (q.velocity.y == launched.velocity.y || q.velocity.y == 0)
            &&& (q.position.x == p.position.x + launched.velocity.x || q.velocity.x == 0)
            &&& (q.position.y == p.position.y + launched.velocity.y || q.velocity.y == 0)
        }),
{
    let launched = p.launched(controls, world_type, Contacts::at(map, p.position));
    assert(launched.position == p.position);
    Sweep::start(launched.position, launched.velocity).lemma_run_reach(map);
    Sweep::start(launched.position, launched.velocity).lemma_run_settles(map);
    Sweep::start(launched.position, launched.velocity).lemma_run_whole_or_stopped(map);
}

/// Walking off from rest on any map: an actor at rest with nothing under
/// way, whose controls point to the right and that is not locked after a
/// wall jump, is displaced to the right by 28000 units in its tick, or by
/// less where the move was stopped, and then it has no horizontal velocity
/// left; it is never displaced to the left.
pub proof fn lemma_walk_displacement(p: PlayerModel, world_type: WorldType, map: &Tilemap)
    requires
        p.wf(),
        p.coasting(),
        p.velocity == V2::zero(),
        p.wall_jump.move_right_cooldown == 0,
    ensures
        ({
            let controls = Controls { horizontal: 1, ..Controls::idle() };
            let q = p.tick(controls, world_type, map);
            &&& 0 <= q.position.x - p.position.x <= 28_000
            &&& (q.position.x - p.position.x == 28_000 && q.velocity.x == 28_000) || q.velocity.x
                == 0
        }),
{
    let controls = Controls { horizontal: 1, ..Controls::idle() };
    lemma_walk_from_rest(p, world_type, Contacts::at(map, p.position));
    lemma_tick_reach(p, controls, world_type, map);
}

/// Where nothing is in the way, a tick displaces the actor by exactly the
/// velocity with which it ends the integration, and the actor keeps that
/// velocity.
pub proof fn lemma_tick_unobstructed(
    p: PlayerModel,
    controls: Controls,
    world_type: WorldType,
    map: &Tilemap,
)
    requires
        ({
            let launched = p.launched(controls, world_type, Contacts::at(map, p.position));
            forall|q: V2| Sweep::start(p.position, launched.velocity).spans(q) ==> !blocked(map, q)
        }),
    ensures
        ({
            let launched = p.launched(controls, world_type, Contacts::at(map, p.position));
            let q = p.tick(controls, world_type, map);
            &&& q.position == p.position.plus(launched.velocity)
            &&& q.velocity == launched.velocity
        }),
{
    let launched = p.launched(controls, world_type, Contacts::at(map, p.position));
    assert(launched.position == p.position);
    Sweep::start(launched.position, launched.velocity).lemma_run_unobstructed(map);
}

/// Walking off from rest: an actor at rest with nothing under way, whose
/// controls point to the right and that is not locked after a wall jump,
/// ends the integration of the tick with the walk force less the
/// horizontal drag to the right, 28000 units per tick, and with gravity
/// less the vertical drag downward: 24750 units per tick, or 7425 where it
/// sticks to a wall on its right.
pub proof fn lemma_walk_from_rest(p: PlayerModel, world_type: WorldType, contacts: Contacts)
    requires
        p.wf(),
        p.coasting(),
        p.velocity == V2::zero(),
        p.wall_jump.move_right_cooldown == 0,
    ensures
        ({
            let controls = Controls { horizontal: 1, ..Controls::idle() };
            let sticking = p.active_ability(world_type) == Ability::WallJump
                && contacts.right_wall;
            p.launched(controls, world_type, contacts).velocity == V2 {
                x: 28_000,
                y: if sticking {
                    7_425
                } else {
                    24_750
                },
            }
        }),
{
    let controls = Controls { horizontal: 1, ..Controls::idle() };
    lemma_walk_force_digital(1);
    let sensed = p.sensed(controls, world_type, contacts);
    assert(sensed.jump_buffer_ticks == 0);
    assert(sensed.jumped(world_type) == sensed);
    let ready = p.prepared(controls, world_type, contacts);
    assert(ready.velocity == V2::zero());
    assert(ready.acceleration == V2 { x: MOVE_SPEED as int, y: GRAVITY as int });
    assert(ready.base_velocity == V2::zero());
    assert(!ready.dash.decayed().is_dashing());
    lemma_wall_stick_drag(ready, controls, world_type, contacts);
    assert(scaled(40_000, 700_000) == 28_000) by {
        reveal(scaled);
        assert(40_000 * 700_000 == 28_000_000_000int);
    }
    assert(scaled(27_500, 900_000) == 24_750) by {
        reveal(scaled);
        assert(27_500 * 900_000 == 24_750_000_000int);
    }
    assert(scaled(27_500, 270_000) == 7_425) by {
        reveal(scaled);
        assert(27_500 * 270_000 == 7_425_000_000int);
    }
    lemma_scaled_bounds(0, SCALE - DRAG_X);
    lemma_scaled_bounds(0, SCALE - DRAG_Y);
    lemma_scaled_bounds(0, SCALE - 270_000);
}

/// No counter grows in a tick unless its own trigger refills it: each one
/// is at its full value less one tick, or one tick closer to zero, or zero.
pub proof fn lemma_counters_run_down(
    p: PlayerModel,
    controls: Controls,
    world_type: WorldType,
    map: &Tilemap,
)
    requires
        p.wf(),
    ensures
        ({
            let q = p.tick(controls, world_type, map);
            let contacts = Contacts::at(map, p.position);
            &&& (q.ground_coyote_time == tick_down(p.ground_coyote_time) || q.ground_coyote_time
                == 0 || (contacts.ground && q.ground_coyote_time == MAX_COYOTE_TIME - 1))
            &&& (q.jump_buffer_ticks == tick_down(p.jump_buffer_ticks) || q.jump_buffer_ticks == 0
                || (controls.jump_first_frame && q.jump_buffer_ticks == MAX_JUMP_BUFFER_TICKS - 1))
            &&& (q.jump_ticks == tick_down(p.jump_ticks) || q.jump_ticks == 0 || (p.serves_jump(
                controls,
                world_type,
                map,
            ) && q.jump_ticks == MAX_JUMP_TICKS - 1))
            &&& (q.wall_jump.left_wall_collision_buffer == tick_down(
                p.wall_jump.left_wall_collision_buffer,
            ) || q.wall_jump.left_wall_collision_buffer == 0 || (contacts.left_wall
                && q.wall_jump.left_wall_collision_buffer == MAX_COLLISION_BUFFER_TICKS - 1))
            &&& (q.wall_jump.right_wall_collision_buffer == tick_down(
                p.wall_jump.right_wall_collision_buffer,
            ) || q.wall_jump.right_wall_collision_buffer == 0 || (contacts.right_wall
                && q.wall_jump.right_wall_collision_buffer == MAX_COLLISION_BUFFER_TICKS - 1))
            &&& (q.wall_jump.left_wall_input_buffer == tick_down(p.wall_jump.left_wall_input_buffer)
                || q.wall_jump.left_wall_input_buffer == 0 || (controls.horizontal < 0
                && q.wall_jump.left_wall_input_buffer == MAX_INPUT_BUFFER_TICKS - 1))
            &&& (q.wall_jump.right_wall_input_buffer == tick_down(
                p.wall_jump.right_wall_input_buffer,
            ) || q.wall_jump.right_wall_input_buffer == 0 || (controls.horizontal > 0
                && q.wall_jump.right_wall_input_buffer == MAX_INPUT_BUFFER_TICKS - 1))
            &&& (q.wall_jump.move_left_cooldown == tick_down(p.wall_jump.move_left_cooldown)
                || q.wall_jump.move_left_cooldown == MOVE_COOLDOWN - 1)
            &&& (q.wall_jump.move_right_cooldown == tick_down(p.wall_jump.move_right_cooldown)
                || q.wall_jump.move_right_cooldown == MOVE_COOLDOWN - 1)
        }),
{
}

/// The dash does not restart while it runs or cools down. From the tick in
/// which the ability button is looked at: where the dash is not ready, the
/// button changes nothing.
pub proof fn lemma_dash_not_ready(p: PlayerModel, controls: Controls, world_type: WorldType)
    requires
        !p.dash.dash_ready(),
    ensures
        p.triggered(controls, world_type) == p,
{
}

/// The dash does not restart while it runs or cools down. Over a whole
/// tick: where a dash is running or cooling down at the start of the tick,
/// its two counters run down by one tick whatever the ability buttons do,
/// unless a wall jump of this tick resets the dash, which no actor whose
/// active ability is the dash can make.
pub proof fn lemma_dash_locked(
    p: PlayerModel,
    controls: Controls,
    world_type: WorldType,
    map: &Tilemap,
)
    requires
        p.dash.dash_ticks > 0 || p.dash.cooldown > 0,
    ensures
        ({
            let sensed = p.sensed(controls, world_type, Contacts::at(map, p.position));
            let q = p.tick(controls, world_type, map);
            &&& !sensed.fires_wall_jump(world_type) ==> q.dash.dash_ticks == tick_down(
                p.dash.dash_ticks,
            ) && q.dash.cooldown == tick_down(p.dash.cooldown)
            &&& p.active_ability(world_type) == Ability::Dash ==> !sensed.fires_wall_jump(
                world_type,
            )
        }),
{
}

/// A dash starts exactly when the dash is the active ability, the press of
/// an ability button begins, and the dash is ready at that point of the
/// tick; it then runs for the full number of ticks, this one included.
pub proof fn lemma_dash_starts(
    p: PlayerModel,
    controls: Controls,
    world_type: WorldType,
    map: &Tilemap,
)
    requires
        p.active_ability(world_type) == Ability::Dash,
        controls.ability_first_frame,
        p.dash.dash_ticks <= 0,
        p.dash.cooldown <= 0,
        p.dash.useable || Contacts::at(map, p.position).ground,
    ensures
        p.tick(controls, world_type, map).dash.dash_ticks == MAX_DASH_TICKS - 1,
        p.tick(controls, world_type, map).dash.cooldown == MAX_DASH_TICKS + crate::dash::MAX_COOLDOWN - 1,
        !p.tick(controls, world_type, map).dash.useable,
{
}

/// Sticking to a wall: an actor whose wall jump is active and who steers
/// into a wall that it touches keeps 27 hundredths of its vertical velocity
/// per tick in place of 90, whether it falls, rises or has no vertical
/// velocity at all.
pub proof fn lemma_wall_stick_drag(
    p: PlayerModel,
    controls: Controls,
    world_type: WorldType,
    contacts: Contacts,
)
    ensures
        p.drag(controls, world_type, contacts).x == DRAG_X,
        p.wall_sticking(controls, world_type, contacts) ==> p.drag(
            controls,
            world_type,
            contacts,
        ).y == 270_000,
        !p.wall_sticking(controls, world_type, contacts) ==> p.drag(
            controls,
            world_type,
            contacts,
        ).y == 900_000,
        p.wall_sticking(controls, world_type, contacts) <==> p.active_ability(world_type)
            == Ability::WallJump && ((contacts.left_wall && controls.horizontal < 0) || (
        contacts.right_wall && controls.horizontal > 0)),
{
    assert(scaled(DRAG_Y as int, WALL_STICK_Y_DRAG as int) == 270_000) by {
        reveal(scaled);
    }
}

/// The double jump is re-armed by the ground alone: it is armed after a
/// tick only if it was armed before or the actor has ground contact, and a
/// jump in the air disarms it.
pub proof fn lemma_double_jump_rearm(
    p: PlayerModel,
    controls: Controls,
    world_type: WorldType,
    map: &Tilemap,
)
    ensures
        ({
            let contacts = Contacts::at(map, p.position);
            let sensed = p.sensed(controls, world_type, contacts);
            let q = p.tick(controls, world_type, map);
            &&& q.can_jump_in_air ==> p.can_jump_in_air || contacts.ground
            &&& contacts.ground ==> q.can_jump_in_air
            &&& sensed.fires_regular_jump(world_type) && !sensed.grounded() ==> !q.can_jump_in_air
        }),
{
}

/// A wall jump on request: an actor whose wall jump is active and at rest,
/// that cannot jump from the ground or in the air, that steers into a wall
/// on its left which it touches, and that has a jump request remembered,
/// jumps off to the right. The push runs, steering back to the left is
/// locked, the request is used up and the dash is as at spawn.
pub proof fn lemma_wall_jump_on_request(
    p: PlayerModel,
    controls: Controls,
    world_type: WorldType,
    map: &Tilemap,
)
    requires
        p.wf(),
        p.active_ability(world_type) == Ability::WallJump,
        p.wall_jump.wall_jump_ticks == 0,
        p.wall_jump.cooldown == 0,
        controls.horizontal < 0,
        Contacts::at(map, p.position).left_wall,
        !Contacts::at(map, p.position).ground,
        p.ground_coyote_time == 0,
        controls.jump_first_frame || p.jump_buffer_ticks >= 1,
    ensures
        ({
            let q = p.tick(controls, world_type, map);
            &&& p.sensed(controls, world_type, Contacts::at(map, p.position)).fires_wall_jump(
                world_type,
            )
            &&& q.wall_jump.direction == Some(Direction::Right)
            &&& q.wall_jump.wall_jump_ticks == MAX_WALL_JUMP_TICKS - 1
            &&& q.wall_jump.move_left_cooldown == MOVE_COOLDOWN - 1
            &&& q.wall_jump.cooldown == crate::wall_jump::MAX_COOLDOWN - 1
            &&& q.jump_buffer_ticks == 0
            &&& q.dash.dash_ticks == 0
            &&& q.dash.cooldown == 0
            &&& q.dash.useable
        }),
{
}

/// What a jump from the ground or in the air does. For an actor that counts
/// as grounded, with a jump request and no dash running, the jump step uses
/// the request up, ends the coyote time, starts the hold timer, stops the
/// vertical velocity, accumulates the impulse and puts wall jumps on
/// cooldown. It leaves the rest of the wall jump, the dash and the double
/// jump as they were, whatever the active ability: the wall jump is not
/// made.
pub proof fn lemma_regular_jump_effect(p: PlayerModel, world_type: WorldType)
    requires
        p.jump_buffer_ticks > 0,
        p.grounded(),
        !p.dash.is_dashing(),
    ensures
        p.jumped(world_type) == (PlayerModel {
            jump_buffer_ticks: 0,
            ground_coyote_time: 0,
            jump_ticks: MAX_JUMP_TICKS as int,
            velocity: V2 { x: p.velocity.x, y: 0 },
            acceleration: V2 { x: p.acceleration.x, y: p.acceleration.y + INITIAL_JUMP_FORCE },
            wall_jump: WallJumpModel { cooldown: crate::wall_jump::MAX_COOLDOWN as int, ..p.wall_jump },
            ..p
        }),
        !p.jumped(world_type).fires_regular_jump(world_type),
        !p.jumped(world_type).fires_wall_jump(world_type),
{
}

/// A jump request that cannot be served is kept: where neither a jump from
/// the ground or in the air nor a wall jump can be made, the jump step
/// changes nothing, and the request stays for the ticks that follow.
pub proof fn lemma_jump_request_kept(p: PlayerModel, world_type: WorldType)
    requires
        !p.regular_jump_ready(world_type),
        !p.wall_jump_ready(world_type),
    ensures
        p.jumped(world_type) == p,
{
}

/// A wall jump is made only where no jump from the ground or in the air
/// can be made, and a jump from the ground or in the air only while no dash
/// runs.
pub proof fn lemma_jump_priority(p: PlayerModel, world_type: WorldType)
    ensures
        !(p.fires_regular_jump(world_type) && p.fires_wall_jump(world_type)),
        p.fires_regular_jump(world_type) ==> !p.dash.is_dashing(),
        p.fires_regular_jump(world_type) ==> p.jumped(world_type) == p.regular_jumped(),
        p.fires_wall_jump(world_type) ==> p.jumped(world_type) == p.wall_jumped(),
        p.fires_wall_jump(world_type) ==> p.jumped(world_type).dash == DashModel::initial(),
{
}

} // verus!
