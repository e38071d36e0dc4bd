//! The state of one stone and the moves of its animation: a stone is settled
//! when it has no cycles left, and in transit while it has some.

use crate::params::{hue, hue_of, palette, saturation_luminance, Parameters};
use crate::still::{Transform, QUARTER_TURN};
use crate::units::{
    bounded, clamp, lemma_magnitude_of_product, magnitude, scaled_quotient, toward_zero, HALF,
    POSITION_LIMIT, UNIT,
};
use vstd::prelude::*;

verus! {

/// No offset changes by more than this in one tick.
pub const OFFSET_SPEED_LIMIT: i64 = 200_000;

/// No rotation changes by more than this in one tick.
pub const TURN_SPEED_LIMIT: i64 = 100_000;

/// A stone is lost once the square of its distance from its place, in square
/// parts, is above this many times the height: one and a half square wholes.
pub const LOST_FACTOR: u64 = 1_500_000_000_000;

/// Parts of a second in one cycle: a hundred cycles go by in a second.
pub const CYCLE_TIME: u64 = 10_000;

/// The least number of ticks that a stone is given to reach a target.
pub const LEAST_DURATION: u32 = 50;

/// Every duration is below this number of ticks.
pub const DURATION_END: u32 = 300;

/// The state of one stone. Offsets are in parts of a cell's size, the
/// rotation in parts of a radian, the colour in parts of a whole, the time
/// in parts of a second.
#[derive(Clone, Copy, Debug, PartialEq, Eq, Structural)]
pub struct StoneState {
    pub offset_x: i64,
    pub offset_y: i64,
    pub rotation: i64,
    pub hue: u64,
    pub saturation: u32,
    pub luminance: u32,
    pub velocity_x: i64,
    pub velocity_y: i64,
    pub rot_velocity: i64,
    pub cycles_remaining: u32,
    pub last_update_time: u64,
}

/// Where a stone is to go, and in how many ticks.
#[derive(Clone, Copy, Debug, PartialEq, Eq, Structural)]
pub struct Target {
    pub x: i64,
    pub y: i64,
    pub rotation: i64,
    pub duration: u32,
}

impl Target {
    /// The offsets lie in `[-HALF, HALF)`, the rotation within a quarter turn
    /// each way, the duration in `[LEAST_DURATION, DURATION_END)`.
    pub open spec fn in_range(self) -> bool {
        &&& -HALF <= self.x < HALF
        &&& -HALF <= self.y < HALF
        &&& -QUARTER_TURN <= self.rotation < QUARTER_TURN
        &&& LEAST_DURATION <= self.duration < DURATION_END
    }
}

/// The stone as it is made: at its place, black, still and settled.
pub open spec fn fresh_stone() -> StoneState {
    StoneState {
        offset_x: 0,
        offset_y: 0,
        rotation: 0,
        hue: 0,
        saturation: 0,
        luminance: 0,
        velocity_x: 0,
        velocity_y: 0,
        rot_velocity: 0,
        cycles_remaining: 0,
        last_update_time: 0,
    }
}

/// A position after one tick at velocity `velocity`, held inside
/// `[-POSITION_LIMIT, POSITION_LIMIT]`.
pub open spec fn moved(position: int, velocity: int) -> int {
    bounded(position + velocity, POSITION_LIMIT as int)
}

/// The cycles that are left of `cycles` after `elapsed` went by: never below
/// zero.
pub open spec fn cycles_after(cycles: int, elapsed: int) -> int {
    if cycles > elapsed {
        cycles - elapsed
    } else {
        0
    }
}

/// The stone after one tick in transit during which `elapsed` cycles went by.
pub open spec fn stepped(s: StoneState, elapsed: int) -> StoneState {
    StoneState {
        offset_x: moved(s.offset_x as int, s.velocity_x as int) as i64,
        offset_y: moved(s.offset_y as int, s.velocity_y as int) as i64,
        rotation: moved(s.rotation as int, s.rot_velocity as int) as i64,
        cycles_remaining: cycles_after(s.cycles_remaining as int, elapsed) as u32,
        ..s
    }
}

/// The velocity that takes `current` to `target` in `duration` ticks,
/// multiplied by `factor` parts of `UNIT` and held inside `[-limit, limit]`.
pub open spec fn velocity_toward(
    target: int,
    current: int,
    duration: int,
    factor: int,
    limit: int,
) -> int
    recommends
        duration > 0,
{
    bounded(toward_zero((target - current) * factor, duration * UNIT), limit)
}

/// The stone after it was given `target`: where it is, with the velocities
/// that lead to the target and the target's duration as its cycles.
pub open spec fn retargeted(s: StoneState, target: Target, factor: int, now: u64) -> StoneState {
    StoneState {
        velocity_x: velocity_toward(
            target.x as int,
            s.offset_x as int,
            target.duration as int,
            factor,
            OFFSET_SPEED_LIMIT as int,
        ) as i64,
        velocity_y: velocity_toward(
            target.y as int,
            s.offset_y as int,
            target.duration as int,
            factor,
            OFFSET_SPEED_LIMIT as int,
        ) as i64,
        rot_velocity: velocity_toward(
            target.rotation as int,
            s.rotation as int,
            target.duration as int,
            factor,
            TURN_SPEED_LIMIT as int,
        ) as i64,
        cycles_remaining: target.duration,
        last_update_time: now,
        ..s
    }
}

/// The stone brought to a halt where it is.
pub open spec fn frozen(s: StoneState, now: u64) -> StoneState {
    StoneState {
        velocity_x: 0,
        velocity_y: 0,
        rot_velocity: 0,
        cycles_remaining: 0,
        last_update_time: now,
        ..s
    }
}

/// The stone back at its place and still, with `cycles` to wait.
pub open spec fn rearmed(s: StoneState, cycles: u32) -> StoneState {
    StoneState {
        offset_x: 0,
        offset_y: 0,
        rotation: 0,
        velocity_x: 0,
        velocity_y: 0,
        rot_velocity: 0,
        cycles_remaining: cycles,
        ..s
    }
}

/// The stone with the colour of row `row` of `rows`.
pub open spec fn recoloured(s: StoneState, row: int, rows: int, params: Parameters) -> StoneState {
    StoneState {
        hue: hue_of(params.hue_start as int, params.hue_range as int, row, rows) as u64,
        saturation: palette(params.contrast_mode, params.dark_mode).0,
        luminance: palette(params.contrast_mode, params.dark_mode).1,
        ..s
    }
}

/// The cycles that went by between `last` and `now`: a hundred to a second,
/// none where the clock went back, and no more than a `u32` holds.
pub open spec fn elapsed_cycles(now: u64, last: u64) -> int {
    if now < last {
        0
    } else if (now - last) / (CYCLE_TIME as int) > u32::MAX {
        u32::MAX as int
    } else {
        (now - last) / (CYCLE_TIME as int)
    }
}

/// One tick by the clock of a stone in transit: it moves by its velocities,
/// loses the cycles that went by since it was last updated, and notes the
/// time.
pub open spec fn clock_stepped(s: StoneState, now: u64) -> StoneState {
    StoneState {
        last_update_time: now,
        ..stepped(s, elapsed_cycles(now, s.last_update_time))
    }
}

/// The settled stone after its turn: halted where it rests and the draw
/// `toss` is above `motion`, or where it is lost; else on its way to
/// `target`.
pub open spec fn settled_turn(
    s: StoneState,
    params: Parameters,
    height: u32,
    toss: i64,
    target: Target,
    now: u64,
) -> StoneState {
    if (s.at_rest() && toss > params.motion) || s.lost(height) {
        frozen(s, now)
    } else {
        retargeted(s, target, params.velocity_factor as int, now)
    }
}

impl StoneState {
    /// No cycles are left: the stone is due for a new target.
    pub open spec fn settled(self) -> bool {
        self.cycles_remaining == 0
    }

    /// The stone has no velocity: it moves neither across nor down, and
    /// does not turn.
    pub open spec fn at_rest(self) -> bool {
        self.velocity_x == 0 && self.velocity_y == 0 && self.rot_velocity == 0
    }

    /// The stone has gone too far from its place for a window `height` high.
    pub open spec fn lost(self, height: u32) -> bool {
        self.offset_x * self.offset_x + self.offset_y * self.offset_y > height * LOST_FACTOR
    }

    /// What a renderer reads of the stone.
    pub open spec fn shown(self) -> Transform {
        Transform {
            offset_x: self.offset_x,
            offset_y: self.offset_y,
            rotation: self.rotation,
            hue: self.hue,
            saturation: self.saturation,
            luminance: self.luminance,
        }
    }

    /// A stone as it is made.
    pub fn new() -> (s: StoneState)
        ensures
            s == fresh_stone(),
    {
        StoneState {
            offset_x: 0,
            offset_y: 0,
            rotation: 0,
            hue: 0,
            saturation: 0,
            luminance: 0,
            velocity_x: 0,
            velocity_y: 0,
            rot_velocity: 0,
            cycles_remaining: 0,
            last_update_time: 0,
        }
    }

    /// Whether the stone is settled.
    pub fn is_settled(&self) -> (b: bool)
        ensures
            b == self.settled(),
    {
        self.cycles_remaining == 0
    }

    /// Whether the stone is at rest.
    pub fn is_at_rest(&self) -> (b: bool)
        ensures
            b == self.at_rest(),
    {
        self.velocity_x == 0 && self.velocity_y == 0 && self.rot_velocity == 0
    }

    /// Whether the stone is lost.
    pub fn is_lost(&self, height: u32) -> (b: bool)
        ensures
            b == self.lost(height),
    {
        let across: u128 = magnitude_of(self.offset_x);
        let down: u128 = magnitude_of(self.offset_y);
        proof {
            lemma_magnitude_of_product(self.offset_x as int, self.offset_x as int);
            lemma_magnitude_of_product(self.offset_y as int, self.offset_y as int);
            assert(across * across <= 0x8000_0000_0000_0000 * 0x8000_0000_0000_0000)
                by (nonlinear_arith)
                requires
                    across <= 0x8000_0000_0000_0000,
            ;
            assert(down * down <= 0x8000_0000_0000_0000 * 0x8000_0000_0000_0000)
                by (nonlinear_arith)
                requires
                    down <= 0x8000_0000_0000_0000,
            ;
            assert(height * 1_500_000_000_000 <= 0xffff_ffff * 1_500_000_000_000);
        }
        across * across + down * down > (height as u128) * 1_500_000_000_000u128
    }

    /// What a renderer reads of the stone.
    pub fn transform(&self) -> (t: Transform)
        ensures
            t == self.shown(),
    {
        Transform {
            offset_x: self.offset_x,
            offset_y: self.offset_y,
            rotation: self.rotation,
            hue: self.hue,
            saturation: self.saturation,
            luminance: self.luminance,
        }
    }
}

/// The size of `v`.
pub fn magnitude_of(v: i64) -> (size: u128)
    ensures
        size == magnitude(v as int),
{
    if v < 0 {
        (-(v as i128)) as u128
    } else {
        v as u128
    }
}

/// One tick of a position at a velocity.
pub fn advance(position: i64, velocity: i64) -> (r: i64)
    ensures
        r == moved(position as int, velocity as int),
{
    let sum: i128 = (position as i128) + (velocity as i128);
    if sum < -1_000_000_000_000 {
        -1_000_000_000_000
    } else if sum > 1_000_000_000_000 {
        1_000_000_000_000
    } else {
        sum as i64
    }
}

/// One tick of a stone in transit during which `elapsed` cycles went by: it
/// moves by its velocities and loses the cycles, down to none.
pub fn step(s: StoneState, elapsed: u32) -> (r: StoneState)
    ensures
        r == stepped(s, elapsed as int),
{
    let cycles: u32 = if s.cycles_remaining > elapsed {
        s.cycles_remaining - elapsed
    } else {
        0
    };
    StoneState {
        offset_x: advance(s.offset_x, s.velocity_x),
        offset_y: advance(s.offset_y, s.velocity_y),
        rotation: advance(s.rotation, s.rot_velocity),
        hue: s.hue,
        saturation: s.saturation,
        luminance: s.luminance,
        velocity_x: s.velocity_x,
        velocity_y: s.velocity_y,
        rot_velocity: s.rot_velocity,
        cycles_remaining: cycles,
        last_update_time: s.last_update_time,
    }
}

/// The velocity toward a target, held inside `[-limit, limit]`.
pub fn velocity(target: i64, current: i64, duration: u32, factor: u32, limit: i64) -> (v: i64)
    requires
        duration > 0,
        limit >= 0,
    ensures
        v == velocity_toward(
            target as int,
            current as int,
            duration as int,
            factor as int,
            limit as int,
        ),
        -limit <= v <= limit,
{
    let delta: i128 = (target as i128) - (current as i128);
    proof {
        assert(0 < duration * 1_000_000 <= 0xffff_ffff * 1_000_000) by (nonlinear_arith)
            requires
                0 < duration <= 0xffff_ffff,
        ;
    }
    let den: u64 = (duration as u64) * 1_000_000u64;
    let raw: i64 = scaled_quotient(delta, factor as i64, den);
    clamp(raw, -limit, limit)
}

/// Gives the stone a target: the velocities that lead there in the target's
/// duration, multiplied by `factor` and held inside the speed limits.
pub fn retarget(s: StoneState, target: Target, factor: u32, now: u64) -> (r: StoneState)
    requires
        target.duration > 0,
    ensures
        r == retargeted(s, target, factor as int, now),
        -OFFSET_SPEED_LIMIT <= r.velocity_x <= OFFSET_SPEED_LIMIT,
        -OFFSET_SPEED_LIMIT <= r.velocity_y <= OFFSET_SPEED_LIMIT,
        -TURN_SPEED_LIMIT <= r.rot_velocity <= TURN_SPEED_LIMIT,
        r.cycles_remaining == target.duration,
{
    StoneState {
        offset_x: s.offset_x,
        offset_y: s.offset_y,
        rotation: s.rotation,
        hue: s.hue,
        saturation: s.saturation,
        luminance: s.luminance,
        velocity_x: velocity(
            target.x,
            s.offset_x,
            target.duration,
            factor,
            OFFSET_SPEED_LIMIT,
        ),
        velocity_y: velocity(
            target.y,
            s.offset_y,
            target.duration,
            factor,
            OFFSET_SPEED_LIMIT,
        ),
        rot_velocity: velocity(
            target.rotation,
            s.rotation,
            target.duration,
            factor,
            TURN_SPEED_LIMIT,
        ),
        cycles_remaining: target.duration,
        last_update_time: now,
    }
}

/// Brings the stone to a halt where it is.
pub fn freeze(s: StoneState, now: u64) -> (r: StoneState)
    ensures
        r == frozen(s, now),
{
    StoneState {
        offset_x: s.offset_x,
        offset_y: s.offset_y,
        rotation: s.rotation,
        hue: s.hue,
        saturation: s.saturation,
        luminance: s.luminance,
        velocity_x: 0,
        velocity_y: 0,
        rot_velocity: 0,
        cycles_remaining: 0,
        last_update_time: now,
    }
}

/// Puts the stone back at its place, still, with `cycles` to wait.
pub fn rearm(s: StoneState, cycles: u32) -> (r: StoneState)
    ensures
        r == rearmed(s, cycles),
{
    StoneState {
        offset_x: 0,
        offset_y: 0,
        rotation: 0,
        hue: s.hue,
        saturation: s.saturation,
        luminance: s.luminance,
        velocity_x: 0,
        velocity_y: 0,
        rot_velocity: 0,
        cycles_remaining: cycles,
        last_update_time: s.last_update_time,
    }
}

/// Gives the stone the colour of its row.
pub fn recolour(s: StoneState, row: u32, rows: u32, params: &Parameters) -> (r: StoneState)
    requires
        rows > 0,
    ensures
        r == recoloured(s, row as int, rows as int, *params),
{
    let pair: (u32, u32) = saturation_luminance(params.contrast_mode, params.dark_mode);
    StoneState {
        offset_x: s.offset_x,
        offset_y: s.offset_y,
        rotation: s.rotation,
        hue: hue(params.hue_start, params.hue_range, row, rows),
        saturation: pair.0,
        luminance: pair.1,
        velocity_x: s.velocity_x,
        velocity_y: s.velocity_y,
        rot_velocity: s.rot_velocity,
        cycles_remaining: s.cycles_remaining,
        last_update_time: s.last_update_time,
    }
}

/// Whether a settled stone is to be halted: it rests and the draw `toss` is
/// above `motion`, or it is lost.
pub fn must_freeze(s: &StoneState, motion: u32, height: u32, toss: i64) -> (b: bool)
    ensures
        b == ((s.at_rest() && toss > motion) || s.lost(height)),
{
    let stay: bool = s.is_at_rest() && toss > (motion as i64);
    let lost: bool = s.is_lost(height);
    stay || lost
}

/// The turn of a settled stone, for the draws `toss` and `target`. A lost
/// stone is halted whatever the draws are.
pub fn settle(
    s: StoneState,
    params: &Parameters,
    height: u32,
    toss: i64,
    target: Target,
    now: u64,
) -> (r: StoneState)
    requires
        target.duration > 0,
    ensures
        r == settled_turn(s, *params, height, toss, target, now),
        s.lost(height) ==> r.velocity_x == 0 && r.velocity_y == 0 && r.rot_velocity == 0
            && r.cycles_remaining == 0,
        -OFFSET_SPEED_LIMIT <= r.velocity_x <= OFFSET_SPEED_LIMIT,
        -OFFSET_SPEED_LIMIT <= r.velocity_y <= OFFSET_SPEED_LIMIT,
        -TURN_SPEED_LIMIT <= r.rot_velocity <= TURN_SPEED_LIMIT,
{
    if must_freeze(&s, params.motion, height, toss) {
        freeze(s, now)
    } else {
        retarget(s, target, params.velocity_factor, now)
    }
}

/// The cycles that went by between `last` and `now`.
pub fn cycles_between(now: u64, last: u64) -> (n: u32)
    ensures
        n == elapsed_cycles(now, last),
{
    if now < last {
        0
    } else {
        let whole: u64 = (now - last) / 10_000;
        if whole > 0xffff_ffff {
            0xffff_ffff
        } else {
            whole as u32
        }
    }
}

/// One tick by the clock of a stone in transit.
pub fn clock_step(s: StoneState, now: u64) -> (r: StoneState)
    ensures
        r == clock_stepped(s, now),
{
    let gone: u32 = cycles_between(now, s.last_update_time);
    let t: StoneState = step(s, gone);
    StoneState {
        offset_x: t.offset_x,
        offset_y: t.offset_y,
        rotation: t.rotation,
        hue: t.hue,
        saturation: t.saturation,
        luminance: t.luminance,
        velocity_x: t.velocity_x,
        velocity_y: t.velocity_y,
        rot_velocity: t.rot_velocity,
        cycles_remaining: t.cycles_remaining,
        last_update_time: now,
    }
}

} // verus!
