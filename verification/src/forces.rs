use vstd::prelude::*;
use crate::math::{scale, scaled, SCALE};

verus! {

/// Edge length of the actor's square bounding box.
pub const SIZE: i64 = 800_000;

/// Horizontal force of a full deflection of the controls.
pub const MOVE_SPEED: i64 = 40_000;

/// Exponent that shapes the response to the controls.
pub const MOVE_SPEED_EXPONENT: u32 = 5;

/// Downward force of gravity per tick.
pub const GRAVITY: i64 = 27_500;

/// Downward force per tick while gliding.
pub const GRAVITY_GLIDER: i64 = 5_000;

/// Factor that the horizontal velocity keeps per tick.
pub const DRAG_X: i64 = 700_000;

/// Factor that the vertical velocity keeps per tick.
pub const DRAG_Y: i64 = 900_000;

/// Upward impulse of a jump.
pub const INITIAL_JUMP_FORCE: i64 = -300_000;

/// Upward force of the first tick of a held jump, before decay.
pub const CONTINUOUS_JUMP_FORCE: i64 = -100_000;

/// Number of ticks for which holding the jump button keeps pushing.
pub const MAX_JUMP_TICKS: i32 = 40;

/// Number of ticks in which a jump request is looked at: the tick of the
/// press and the five ticks that follow it.
pub const MAX_JUMP_BUFFER_TICKS: i32 = 6;

/// Number of ticks in which the actor counts as grounded where a jump
/// request is looked at: the tick of the ground contact and the four ticks
/// that follow it.
pub const MAX_COYOTE_TIME: i32 = 5;

/// Length of one step of the stepped move, and reach of a directional probe.
pub const COLLISION_STEP: i64 = 2_500;

/// Largest force that may be accumulated between two ticks, per axis.
pub const FORCE_LIMIT: i64 = 1_000_000_000;

/// Largest velocity that may be imposed from outside, per axis.
pub const BASE_VELOCITY_LIMIT: i64 = 1_000_000_000;

/// Bound that the velocity never leaves, per axis.
pub const VELOCITY_LIMIT: i64 = 20_000_000_000;

/// Bound that a position never leaves, per axis: every map lies within it.
pub const POSITION_LIMIT: i64 = 2_147_483_648_000_000;

/// `(10 / 11)^k` in fixed point, rounded down at every step.
pub open spec fn decay(k: nat) -> int
    decreases k,
{
    if k == 0 {
        SCALE as int
    } else {
        decay((k - 1) as nat) * 10 / 11
    }
}

/// The decay factor lies between zero and one and never grows.
pub proof fn lemma_decay_bounds(k: nat)
    ensures
        0 <= decay(k) <= SCALE,
        k > 0 ==> decay(k) <= decay((k - 1) as nat),
        k > 0 ==> decay(k) < SCALE,
    decreases k,
{
    if k > 0 {
        lemma_decay_bounds((k - 1) as nat);
    }
}

/// Computes [`decay`].
pub fn decay_factor(k: u32) -> (r: i64)
    ensures
        r == decay(k as nat),
        0 <= r <= SCALE,
{
    let mut r: i64 = SCALE;
    let mut i: u32 = 0;
    while i < k
        invariant
            i <= k,
            r == decay(i as nat),
            0 <= r <= SCALE,
        decreases k - i,
    {
        proof {
            lemma_decay_bounds((i + 1) as nat);
        }
        r = r * 10 / 11;
        i += 1;
    }
    r
}

/// Force of a held jump in its `k`-th tick, `k` counted from one.
pub open spec fn jump_hold_force(k: nat) -> int {
    scaled(CONTINUOUS_JUMP_FORCE as int, decay(k))
}

/// The quarter-sine ease `sin(pi / 2 * t / 24)` of the dash in fixed point,
/// rounded to the nearest unit: zero when no dash tick remains and one when
/// all 24 remain. It equals `cos(pi / 2 * (1 - t / 24))`.
pub open spec fn ease(t: int) -> int {
    if t <= 0 {
        0
    } else if t == 1 {
        65_403
    } else if t == 2 {
        130_526
    } else if t == 3 {
        195_090
    } else if t == 4 {
        258_819
    } else if t == 5 {
        321_439
    } else if t == 6 {
        382_683
    } else if t == 7 {
        442_289
    } else if t == 8 {
        500_000
    } else if t == 9 {
        555_570
    } else if t == 10 {
        608_761
    } else if t == 11 {
        659_346
    } else if t == 12 {
        707_107
    } else if t == 13 {
        751_840
    } else if t == 14 {
        793_353
    } else if t == 15 {
        831_470
    } else if t == 16 {
        866_025
    } else if t == 17 {
        896_873
    } else if t == 18 {
        923_880
    } else if t == 19 {
        946_930
    } else if t == 20 {
        965_926
    } else if t == 21 {
        980_785
    } else if t == 22 {
        991_445
    } else if t == 23 {
        997_859
    } else {
        SCALE as int
    }
}

/// The ease lies between zero and one and grows with the ticks that remain.
pub proof fn lemma_ease(t: int)
    ensures
        0 <= ease(t) <= SCALE,
        ease(t) <= ease(t + 1),
        0 <= t < 24 ==> ease(t) < ease(t + 1),
        ease(0) == 0,
        ease(24) == SCALE,
{
}

/// Looks up [`ease`].
pub fn ease_factor(t: i32) -> (r: i64)
    ensures
        r == ease(t as int),
        0 <= r <= SCALE,
{
    if t <= 0 {
        0
    } else if t >= 24 {
        SCALE
    } else {
        let table: [i64; 24] = [
            0,
            65_403,
            130_526,
            195_090,
            258_819,
            321_439,
            382_683,
            442_289,
            500_000,
            555_570,
            608_761,
            659_346,
            707_107,
            751_840,
            793_353,
            831_470,
            866_025,
            896_873,
            923_880,
            946_930,
            965_926,
            980_785,
            991_445,
            997_859,
        ];
        table[t as usize]
    }
}

/// The fifth power.
pub open spec fn pow5(a: int) -> int {
    a * a * a * a * a
}

/// Horizontal force that the controls ask for: the move speed times the
/// fifth power of the deflection, in the direction of the deflection.
#[verifier::opaque]
pub open spec fn walk_force(horizontal: int) -> int {
    if horizontal > 0 {
        pow5(horizontal) * MOVE_SPEED
    } else if horizontal < 0 {
        -(pow5(-horizontal) * MOVE_SPEED)
    } else {
        0
    }
}

/// For digital controls the walk force is the deflection times the move
/// speed.
pub proof fn lemma_walk_force_digital(horizontal: int)
    requires
        -1 <= horizontal <= 1,
    ensures
        walk_force(horizontal) == horizontal * MOVE_SPEED,
{
    reveal(walk_force);
    assert(pow5(1) == 1);
}

/// Computes [`walk_force`] for digital controls.
pub fn walk_force_of(horizontal: i32) -> (f: i64)
    requires
        -1 <= horizontal <= 1,
    ensures
        f == walk_force(horizontal as int),
        f == horizontal * MOVE_SPEED,
{
    proof {
        lemma_walk_force_digital(horizontal as int);
    }
    (horizontal as i64) * MOVE_SPEED
}

/// Computes [`jump_hold_force`].
pub fn jump_hold_force_of(k: u32) -> (f: i64)
    ensures
        f == jump_hold_force(k as nat),
        CONTINUOUS_JUMP_FORCE <= f <= 0,
{
    let d = decay_factor(k);
    scale(CONTINUOUS_JUMP_FORCE, d)
}

} // verus!
