//! What holds of the model as a whole, proved from the definitions that the
//! functions' contracts are stated in.

use crate::engine::{cycle_ticked, relax_outcome, still_ticked};
use crate::grid::Cell;
use crate::params::{blended_hue, hue_of, lemma_blend_within, Parameters};
use crate::still::{
    arc_of, lemma_arc_below, seeded_transforms, still_transform, Draw, Transform, QUARTER_TURN,
};
use crate::stone::{
    frozen, moved, rearmed, retargeted, settled_turn, stepped, velocity_toward, StoneState,
    Target, OFFSET_SPEED_LIMIT, TURN_SPEED_LIMIT,
};
use crate::units::{
    lemma_magnitude_of_product, lemma_magnitude_of_quotient, lemma_weighed_bound, magnitude,
    toward_zero, weighed, HALF, POSITION_LIMIT, UNIT,
};
use vstd::prelude::*;

verus! {

/// Two passes of the static mode over the same cells, with the same seed and
/// the same parameters, give the same transforms, one for one.
pub proof fn law_seeded_pass_repeats(
    cells: Seq<Cell>,
    rows: int,
    params: Parameters,
    first: Seq<Transform>,
    second: Seq<Transform>,
)
    requires
        first == seeded_transforms(cells, rows, params),
        second == seeded_transforms(cells, rows, params),
    ensures
        first == second,
        first.len() == cells.len(),
{
}

/// The hue of a row of the grid lies in `[0, UNIT]` for a start and a range
/// below one whole, and below `UNIT` unless the blend is `UNIT` itself, which
/// is not wrapped.
pub proof fn law_hue_within_turn(start: int, range: int, row: int, rows: int)
    requires
        0 <= start < UNIT,
        0 <= range < UNIT,
        0 <= row <= rows,
        0 < rows,
    ensures
        0 <= hue_of(start, range, row, rows) <= UNIT,
        blended_hue(start, range, row, rows) != UNIT ==> hue_of(start, range, row, rows) < UNIT,
{
    lemma_blend_within(start, range, row, rows);
}

/// With the same draw and a scale that is not negative, a lower row is moved
/// no less than a higher one: the size of a weighed draw grows with the row.
pub proof fn law_weight_grows_with_row(draw: int, scale: int, upper: int, lower: int, rows: int)
    requires
        0 <= upper < lower,
        0 < rows,
        0 <= scale,
    ensures
        magnitude(weighed(draw, scale, upper, rows)) <= magnitude(weighed(draw, scale, lower, rows)),
{
    let den = UNIT * rows;
    assert(0 < den) by (nonlinear_arith)
        requires
            den == UNIT * rows,
            0 < rows,
            UNIT == 1_000_000,
    ;
    lemma_magnitude_of_quotient(draw * upper * scale, den);
    lemma_magnitude_of_quotient(draw * lower * scale, den);
    lemma_magnitude_of_product(draw, upper);
    lemma_magnitude_of_product(draw, lower);
    lemma_magnitude_of_product(draw * upper, scale);
    lemma_magnitude_of_product(draw * lower, scale);
    let size = magnitude(draw);
    assert(size * upper * scale <= size * lower * scale) by (nonlinear_arith)
        requires
            0 <= size,
            0 <= upper < lower,
            0 <= scale,
    ;
    vstd::arithmetic::div_mod::lemma_div_is_ordered(
        magnitude(draw * upper * scale),
        magnitude(draw * lower * scale),
        den,
    );
}

/// In the static mode, with the same draws and a displacement scale that is
/// not negative, the offsets of a cell in a lower row are no smaller than
/// those of a cell in a higher row.
pub proof fn law_lower_rows_move_more(
    upper: int,
    lower: int,
    rows: int,
    params: Parameters,
    draw: Draw,
)
    requires
        0 <= upper < lower <= rows,
        draw.in_range(),
        params.displacement_scale >= 0,
    ensures
        magnitude(still_transform(upper, rows, params, draw).offset_x as int) <= magnitude(
            still_transform(lower, rows, params, draw).offset_x as int,
        ),
        magnitude(still_transform(upper, rows, params, draw).offset_y as int) <= magnitude(
            still_transform(lower, rows, params, draw).offset_y as int,
        ),
{
    let scale = params.displacement_scale as int;
    lemma_weighed_bound(draw.x as int, scale, upper, rows);
    lemma_weighed_bound(draw.x as int, scale, lower, rows);
    lemma_weighed_bound(draw.y as int, scale, upper, rows);
    lemma_weighed_bound(draw.y as int, scale, lower, rows);
    law_weight_grows_with_row(draw.x as int, scale, upper, lower, rows);
    law_weight_grows_with_row(draw.y as int, scale, upper, lower, rows);
}

/// A weighed draw is cut toward zero, so it is no larger than the exact
/// share: its size times the denominator is at most the size of the draw
/// times the row times the size of the scale.
pub proof fn law_weight_within_share(draw: int, scale: int, row: int, rows: int)
    requires
        0 <= row,
        0 < rows,
    ensures
        magnitude(weighed(draw, scale, row, rows)) * (UNIT * rows) <= magnitude(draw) * row
            * magnitude(scale),
{
    let den = UNIT * rows;
    let num = draw * row * scale;
    assert(0 < den) by (nonlinear_arith)
        requires
            den == UNIT * rows,
            0 < rows,
            UNIT == 1_000_000,
    ;
    lemma_magnitude_of_quotient(num, den);
    lemma_magnitude_of_product(draw, row);
    lemma_magnitude_of_product(draw * row, scale);
    vstd::arithmetic::div_mod::lemma_fundamental_div_mod(magnitude(num), den);
    vstd::arithmetic::div_mod::lemma_mod_bound(magnitude(num), den);
    assert((magnitude(num) / den) * den == den * (magnitude(num) / den)) by (nonlinear_arith);
}

/// With the scale negated, a weighed draw is negated.
pub proof fn law_negated_scale_negates(draw: int, scale: int, row: int, rows: int)
    requires
        0 < rows,
    ensures
        weighed(draw, -scale, row, rows) == -weighed(draw, scale, row, rows),
{
    assert(draw * row * (-scale) == -(draw * row * scale)) by (nonlinear_arith);
}

/// In the static mode, for draws in range and a row of the grid, the place of
/// a cell is the weighed draws themselves: the offsets are the draws for
/// across and down weighed with the displacement scale, the rotation is the
/// angle of the third draw weighed with the rotation scale. No offset is
/// larger than half the scale times the row over the rows, no rotation
/// larger than a quarter turn times the scale times the row over the rows.
pub proof fn law_still_place_is_weighed(row: int, rows: int, params: Parameters, draw: Draw)
    requires
        0 <= row <= rows,
        0 < rows,
        draw.in_range(),
    ensures
        still_transform(row, rows, params, draw).offset_x == weighed(
            draw.x as int,
            params.displacement_scale as int,
            row,
            rows,
        ),
        still_transform(row, rows, params, draw).offset_y == weighed(
            draw.y as int,
            params.displacement_scale as int,
            row,
            rows,
        ),
        still_transform(row, rows, params, draw).rotation == weighed(
            arc_of(draw.turn as int),
            params.rotation_scale as int,
            row,
            rows,
        ),
        magnitude(still_transform(row, rows, params, draw).offset_x as int) * (UNIT * rows) <= HALF
            * row * magnitude(params.displacement_scale as int),
        magnitude(still_transform(row, rows, params, draw).offset_y as int) * (UNIT * rows) <= HALF
            * row * magnitude(params.displacement_scale as int),
        magnitude(still_transform(row, rows, params, draw).rotation as int) * (UNIT * rows)
            <= QUARTER_TURN * row * magnitude(params.rotation_scale as int),
{
    let ds = params.displacement_scale as int;
    let rs = params.rotation_scale as int;
    let angle = arc_of(draw.turn as int);
    lemma_arc_below(draw.turn as int);
    lemma_weighed_bound(draw.x as int, ds, row, rows);
    lemma_weighed_bound(draw.y as int, ds, row, rows);
    lemma_weighed_bound(angle, rs, row, rows);
    law_weight_within_share(draw.x as int, ds, row, rows);
    law_weight_within_share(draw.y as int, ds, row, rows);
    law_weight_within_share(angle, rs, row, rows);
    assert(magnitude(draw.x as int) * row * magnitude(ds) <= HALF * row * magnitude(ds))
        by (nonlinear_arith)
        requires
            0 <= magnitude(draw.x as int) <= HALF,
            0 <= row,
            0 <= magnitude(ds),
    ;
    assert(magnitude(draw.y as int) * row * magnitude(ds) <= HALF * row * magnitude(ds))
        by (nonlinear_arith)
        requires
            0 <= magnitude(draw.y as int) <= HALF,
            0 <= row,
            0 <= magnitude(ds),
    ;
    assert(magnitude(angle) * row * magnitude(rs) <= QUARTER_TURN * row * magnitude(rs))
        by (nonlinear_arith)
        requires
            0 <= magnitude(angle) <= QUARTER_TURN,
            0 <= row,
            0 <= magnitude(rs),
    ;
}

/// A tick of the static mode places the stones by the seed alone: a second
/// tick leaves every stone as the first left it, and two sets of stones on
/// the same grid show the same place and colour, stone by stone, whatever
/// they showed before.
pub proof fn law_still_tick_repeats(
    before: Seq<StoneState>,
    other: Seq<StoneState>,
    cells: Seq<Cell>,
    rows: int,
    params: Parameters,
    first: Seq<StoneState>,
    second: Seq<StoneState>,
    third: Seq<StoneState>,
)
    requires
        other.len() == before.len(),
        still_ticked(before, first, cells, rows, params),
        still_ticked(first, second, cells, rows, params),
        still_ticked(other, third, cells, rows, params),
    ensures
        second == first,
        forall|i: int| 0 <= i < before.len() ==> first[i].shown() == third[i].shown(),
{
    assert(second =~= first);
}

/// Whatever the velocity factor, the target and the place of the stone, the
/// velocities of a stone that was given a target are within the speed limits.
pub proof fn law_velocity_within_limits(s: StoneState, target: Target, factor: int, now: u64)
    ensures
        -OFFSET_SPEED_LIMIT <= retargeted(s, target, factor, now).velocity_x <= OFFSET_SPEED_LIMIT,
        -OFFSET_SPEED_LIMIT <= retargeted(s, target, factor, now).velocity_y <= OFFSET_SPEED_LIMIT,
        -TURN_SPEED_LIMIT <= retargeted(s, target, factor, now).rot_velocity <= TURN_SPEED_LIMIT,
{
}

/// A settled stone that is lost is halted on its turn, whatever the toss, the
/// motion and the target are: no velocity and no cycles are left.
pub proof fn law_lost_stone_is_halted(
    s: StoneState,
    params: Parameters,
    height: u32,
    toss: i64,
    target: Target,
    now: u64,
)
    requires
        s.lost(height),
    ensures
        settled_turn(s, params, height, toss, target, now) == frozen(s, now),
        settled_turn(s, params, height, toss, target, now).velocity_x == 0,
        settled_turn(s, params, height, toss, target, now).velocity_y == 0,
        settled_turn(s, params, height, toss, target, now).rot_velocity == 0,
        settled_turn(s, params, height, toss, target, now).settled(),
{
}

/// Whatever one tick of the relaxing mode makes of a settled stone that is
/// lost, the stone is halted: no velocity and no cycles are left, and it is
/// where it was.
pub proof fn law_tick_halts_lost_stones(
    before: StoneState,
    after: StoneState,
    row: int,
    rows: int,
    params: Parameters,
    height: u32,
    now: u64,
)
    requires
        before.settled(),
        before.lost(height),
        relax_outcome(before, after, row, rows, params, height, now),
    ensures
        after.velocity_x == 0,
        after.velocity_y == 0,
        after.rot_velocity == 0,
        after.settled(),
        after.offset_x == before.offset_x,
        after.offset_y == before.offset_y,
        after.rotation == before.rotation,
{
}

/// Whatever one tick of the relaxing mode makes of a settled stone, its
/// velocities are within the speed limits.
pub proof fn law_tick_keeps_speed_limits(
    before: StoneState,
    after: StoneState,
    row: int,
    rows: int,
    params: Parameters,
    height: u32,
    now: u64,
)
    requires
        before.settled(),
        relax_outcome(before, after, row, rows, params, height, now),
    ensures
        -OFFSET_SPEED_LIMIT <= after.velocity_x <= OFFSET_SPEED_LIMIT,
        -OFFSET_SPEED_LIMIT <= after.velocity_y <= OFFSET_SPEED_LIMIT,
        -TURN_SPEED_LIMIT <= after.rot_velocity <= TURN_SPEED_LIMIT,
{
}

/// A stone that was reset is at its place and still, with the cycles it was
/// given, and has kept its colour and its time.
pub proof fn law_reset_stone_is_home(s: StoneState, cycles: u32)
    ensures
        rearmed(s, cycles).offset_x == 0,
        rearmed(s, cycles).offset_y == 0,
        rearmed(s, cycles).rotation == 0,
        rearmed(s, cycles).velocity_x == 0,
        rearmed(s, cycles).velocity_y == 0,
        rearmed(s, cycles).rot_velocity == 0,
        rearmed(s, cycles).cycles_remaining == cycles,
        rearmed(s, cycles).shown().hue == s.hue,
        rearmed(s, cycles).last_update_time == s.last_update_time,
{
}

/// Two ticks of the cycle mode on the same stones, with the same seed and
/// the same parameters, give the same stones.
pub proof fn law_cycle_tick_repeats(
    before: Seq<StoneState>,
    cells: Seq<Cell>,
    rows: int,
    params: Parameters,
    first: Seq<StoneState>,
    second: Seq<StoneState>,
)
    requires
        cycle_ticked(before, first, cells, rows, params),
        cycle_ticked(before, second, cells, rows, params),
    ensures
        first == second,
{
    assert(first =~= second);
}

/// The stone after `n` ticks in which one cycle went by each.
pub open spec fn stepped_times(s: StoneState, n: nat) -> StoneState
    decreases n,
{
    if n == 0 {
        s
    } else {
        stepped(stepped_times(s, (n - 1) as nat), 1)
    }
}

/// A position after `n` ticks at the velocity `velocity`.
pub open spec fn drifted(position: int, velocity: int, n: nat) -> int
    decreases n,
{
    if n == 0 {
        position
    } else {
        moved(drifted(position, velocity, (n - 1) as nat), velocity)
    }
}

/// The target can be reached from `current` in `duration` ticks: both lie
/// inside the position limit, and the way is short enough for the speed
/// limit `limit`.
pub open spec fn in_reach(current: int, target: int, duration: int, limit: int) -> bool {
    &&& magnitude(current) <= POSITION_LIMIT
    &&& magnitude(target) <= POSITION_LIMIT
    &&& magnitude(target - current) <= limit * duration
}

proof fn lemma_stepped_times(s: StoneState, n: nat)
    ensures
        stepped_times(s, n).velocity_x == s.velocity_x,
        stepped_times(s, n).velocity_y == s.velocity_y,
        stepped_times(s, n).rot_velocity == s.rot_velocity,
        stepped_times(s, n).offset_x == drifted(s.offset_x as int, s.velocity_x as int, n),
        stepped_times(s, n).offset_y == drifted(s.offset_y as int, s.velocity_y as int, n),
        stepped_times(s, n).rotation == drifted(s.rotation as int, s.rot_velocity as int, n),
        n <= s.cycles_remaining ==> stepped_times(s, n).cycles_remaining == s.cycles_remaining - n,
        n >= s.cycles_remaining ==> stepped_times(s, n).cycles_remaining == 0,
    decreases n,
{
    if n > 0 {
        lemma_stepped_times(s, (n - 1) as nat);
    }
}

/// At the velocity that a whole factor gives, an axis in reach of its target
/// moves `n` velocities in `n` ticks, and after all of the duration it is
/// less than `duration` parts away from the target.
proof fn lemma_drift(current: int, target: int, duration: int, limit: int, n: nat)
    requires
        duration > 0,
        limit >= 0,
        in_reach(current, target, duration, limit),
        n <= duration,
    ensures
        velocity_toward(target, current, duration, UNIT as int, limit) == toward_zero(
            target - current,
            duration,
        ),
        drifted(current, toward_zero(target - current, duration), n) == current + n
            * toward_zero(target - current, duration),
        magnitude(current + duration * toward_zero(target - current, duration) - target)
            < duration,
    decreases n,
{
    let way = target - current;
    let v = toward_zero(way, duration);
    let size = magnitude(way);
    let q = size / duration;
    // With a factor of one whole the velocity is the way over the duration,
    // and the speed limit does not cut it.
    assert(0 < duration * UNIT) by (nonlinear_arith)
        requires
            0 < duration,
            UNIT == 1_000_000,
    ;
    lemma_magnitude_of_product(way, UNIT as int);
    lemma_magnitude_of_quotient(way * UNIT, duration * UNIT);
    lemma_magnitude_of_quotient(way, duration);
    assert(size * UNIT == UNIT * size && duration * UNIT == UNIT * duration) by (nonlinear_arith);
    vstd::arithmetic::div_mod::lemma_div_multiples_vanish_quotient(UNIT as int, size, duration);
    assert(toward_zero(way * UNIT, duration * UNIT) == v) by {
        assert(way >= 0 ==> way * UNIT >= 0) by (nonlinear_arith);
        assert(way <= 0 ==> way * UNIT <= 0) by (nonlinear_arith);
    }
    crate::units::lemma_quotient_bound(way, duration, limit);
    // The stone stays between where it was and the target.
    vstd::arithmetic::div_mod::lemma_fundamental_div_mod(size, duration);
    vstd::arithmetic::div_mod::lemma_mod_bound(size, duration);
    assert(0 <= n * q <= duration * q) by (nonlinear_arith)
        requires
            0 <= n <= duration,
            0 <= q,
    ;
    assert(n * v == if way >= 0 { n * q } else { -(n * q) }) by (nonlinear_arith)
        requires
            v == if way >= 0 { q } else { -q },
    ;
    assert(duration * v == if way >= 0 { duration * q } else { -(duration * q) })
        by (nonlinear_arith)
        requires
            v == if way >= 0 { q } else { -q },
    ;
    if n > 0 {
        lemma_drift(current, target, duration, limit, (n - 1) as nat);
        assert(n * v == (n - 1) * v + v) by (nonlinear_arith);
    } else {
        assert(n * v == 0) by (nonlinear_arith)
            requires
                n == 0,
        ;
    }
}

/// A stone in transit loses one cycle per tick and is settled exactly when
/// as many ticks have gone by as it had cycles.
pub proof fn law_transit_counts_down(s: StoneState, ticks: nat)
    requires
        ticks <= s.cycles_remaining,
    ensures
        stepped_times(s, ticks).cycles_remaining == s.cycles_remaining - ticks,
        stepped_times(s, ticks).settled() <==> ticks == s.cycles_remaining,
{
    lemma_stepped_times(s, ticks);
}

/// A stone that was given a target in reach, with a velocity factor of one
/// whole, is settled after the target's duration in ticks and not before,
/// and is then less than `duration` parts away from the target on each axis:
/// every tick loses less than one part to the cut of the velocity.
pub proof fn law_transit_arrives(s: StoneState, target: Target, now: u64, ticks: nat)
    requires
        target.duration > 0,
        ticks <= target.duration,
        in_reach(
            s.offset_x as int,
            target.x as int,
            target.duration as int,
            OFFSET_SPEED_LIMIT as int,
        ),
        in_reach(
            s.offset_y as int,
            target.y as int,
            target.duration as int,
            OFFSET_SPEED_LIMIT as int,
        ),
        in_reach(
            s.rotation as int,
            target.rotation as int,
            target.duration as int,
            TURN_SPEED_LIMIT as int,
        ),
    ensures
        stepped_times(retargeted(s, target, UNIT as int, now), ticks).settled() <==> ticks
            == target.duration,
        magnitude(
            stepped_times(retargeted(s, target, UNIT as int, now), target.duration as nat).offset_x
                - target.x,
        ) < target.duration,
        magnitude(
            stepped_times(retargeted(s, target, UNIT as int, now), target.duration as nat).offset_y
                - target.y,
        ) < target.duration,
        magnitude(
            stepped_times(retargeted(s, target, UNIT as int, now), target.duration as nat).rotation
                - target.rotation,
        ) < target.duration,
{
    let r = retargeted(s, target, UNIT as int, now);
    let d = target.duration as nat;
    lemma_stepped_times(r, ticks);
    lemma_stepped_times(r, d);
    lemma_drift(s.offset_x as int, target.x as int, d as int, OFFSET_SPEED_LIMIT as int, d);
    lemma_drift(s.offset_y as int, target.y as int, d as int, OFFSET_SPEED_LIMIT as int, d);
    lemma_drift(s.rotation as int, target.rotation as int, d as int, TURN_SPEED_LIMIT as int, d);
}

} // verus!
