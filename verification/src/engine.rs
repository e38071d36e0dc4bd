//! The engine: one pass over all stones per tick, in one of three modes, and
//! the reset that sends every stone back to its place.

use crate::chance::{draw_ambient, draw_seeded, seeded_draws};
use crate::grid::Cell;
use crate::params::Parameters;
use crate::still::{
    arc, arc_of, draw_at, static_pass, still_draws, still_transform, unit_draws, Transform,
    QUARTER_TURN,
};
use crate::stone::{
    clock_step, clock_stepped, freeze, must_freeze, rearm, rearmed, recolour, recoloured,
    retarget, retargeted, settled_turn, step, stepped, StoneState, Target, DURATION_END,
    LEAST_DURATION,
};
use crate::units::{HALF, LEAST_DRAW, UNIT};
use vstd::prelude::*;

verus! {

/// The least rotation of a target: a quarter turn back.
pub const LEAST_TURN: i64 = -785_398;

/// How the engine moves the stones.
#[derive(Clone, Copy, Debug, PartialEq, Eq, Structural)]
pub enum Mode {
    /// Every tick places every stone anew from the seed.
    Static,
    /// A settled stone gets a new target at once, from the seed; a tick is
    /// one cycle.
    CycleBased,
    /// A settled stone may stay where it rests, and a lost one is halted; the
    /// cycles go by with the clock.
    VelocityRelaxing,
}

/// The stone with the place and the colour of `t`.
pub open spec fn placed(s: StoneState, t: Transform) -> StoneState {
    StoneState {
        offset_x: t.offset_x,
        offset_y: t.offset_y,
        rotation: t.rotation,
        hue: t.hue,
        saturation: t.saturation,
        luminance: t.luminance,
        ..s
    }
}

/// One tick of a stone in the cycle mode: a settled stone is on its way to
/// `target`, another has made one step; either has the colour of its row.
pub open spec fn cycle_cell(
    s: StoneState,
    row: int,
    rows: int,
    params: Parameters,
    target: Target,
) -> StoneState {
    recoloured(
        if s.settled() {
            retargeted(s, target, params.velocity_factor as int, s.last_update_time)
        } else {
            stepped(s, 1)
        },
        row,
        rows,
        params,
    )
}

/// One tick of a stone in the relaxing mode: a settled stone has had its
/// turn with the draws `toss` and `target`, another has made one step by the
/// clock; either has the colour of its row.
pub open spec fn relax_cell(
    s: StoneState,
    row: int,
    rows: int,
    params: Parameters,
    height: u32,
    now: u64,
    toss: i64,
    target: Target,
) -> StoneState {
    recoloured(
        if s.settled() {
            settled_turn(s, params, height, toss, target, now)
        } else {
            clock_stepped(s, now)
        },
        row,
        rows,
        params,
    )
}

/// How many of the first `n` stones are settled.
pub open spec fn settled_count(states: Seq<StoneState>, n: int) -> int
    decreases n,
{
    if n <= 0 {
        0
    } else {
        settled_count(states, n - 1) + if states[n - 1].settled() {
            1int
        } else {
            0int
        }
    }
}

/// The duration that a draw of `[-HALF, HALF)` stands for: the draws are
/// spread evenly over `[LEAST_DURATION, DURATION_END)`.
pub open spec fn duration_of(draw: int) -> int {
    LEAST_DURATION + ((draw + HALF) * (DURATION_END - LEAST_DURATION)) / (UNIT as int)
}

/// The target that the draws at place `k` stand for, four in a row: across,
/// down, the turn, the duration.
pub open spec fn target_of(stream: Seq<i64>, k: int) -> Target {
    Target {
        x: stream[4 * k],
        y: stream[4 * k + 1],
        rotation: arc_of(stream[4 * k + 2] as int) as i64,
        duration: duration_of(stream[4 * k + 3] as int) as u32,
    }
}

/// The draws of one tick of the cycle mode: four for every settled stone,
/// from a generator seeded with the seed of `params`.
pub open spec fn cycle_draws(before: Seq<StoneState>, params: Parameters) -> Seq<i64> {
    seeded_draws(
        params.random_seed,
        (4 * settled_count(before, before.len() as int)) as usize,
        LEAST_DRAW,
        HALF,
    )
}

/// `after` is what one tick of the relaxing mode makes of `before`, for some
/// toss in `[0, UNIT)` and some target in range.
pub open spec fn relax_outcome(
    before: StoneState,
    after: StoneState,
    row: int,
    rows: int,
    params: Parameters,
    height: u32,
    now: u64,
) -> bool {
    exists|toss: i64, target: Target|
        0 <= toss < UNIT && target.in_range() && after == #[trigger] relax_cell(
            before,
            row,
            rows,
            params,
            height,
            now,
            toss,
            target,
        )
}

/// Every stone of `after` is the stone of `before` placed by the seeded pass.
pub open spec fn still_ticked(
    before: Seq<StoneState>,
    after: Seq<StoneState>,
    cells: Seq<Cell>,
    rows: int,
    params: Parameters,
) -> bool {
    &&& after.len() == before.len()
    &&& forall|i: int|
        0 <= i < before.len() ==> #[trigger] after[i] == placed(
            before[i],
            still_transform(
                cells[i].row as int,
                rows,
                params,
                draw_at(still_draws(cells, params), i),
            ),
        )
}

/// Every stone of `after` is what the cycle mode makes of its stone of
/// `before`, where the settled stones take their targets from `stream` in
/// the order in which they stand.
pub open spec fn cycle_moved(
    before: Seq<StoneState>,
    after: Seq<StoneState>,
    cells: Seq<Cell>,
    rows: int,
    params: Parameters,
    stream: Seq<i64>,
) -> bool {
    &&& after.len() == before.len()
    &&& forall|i: int|
        0 <= i < before.len() ==> #[trigger] after[i] == cycle_cell(
            before[i],
            cells[i].row as int,
            rows,
            params,
            target_of(stream, settled_count(before, i)),
        )
}

/// `after` is what one tick of the cycle mode makes of `before` with the
/// draws that the seed of `params` gives.
pub open spec fn cycle_ticked(
    before: Seq<StoneState>,
    after: Seq<StoneState>,
    cells: Seq<Cell>,
    rows: int,
    params: Parameters,
) -> bool {
    cycle_moved(before, after, cells, rows, params, cycle_draws(before, params))
}

/// Every stone of `after` is an outcome of the relaxing mode for its stone of
/// `before`.
pub open spec fn relax_ticked(
    before: Seq<StoneState>,
    after: Seq<StoneState>,
    cells: Seq<Cell>,
    rows: int,
    params: Parameters,
    height: u32,
    now: u64,
) -> bool {
    &&& after.len() == before.len()
    &&& forall|i: int|
        0 <= i < before.len() ==> relax_outcome(
            before[i],
            #[trigger] after[i],
            cells[i].row as int,
            rows,
            params,
            height,
            now,
        )
}

/// The count of settled stones does not fall as more stones are counted.
pub proof fn lemma_settled_count_grows(states: Seq<StoneState>, fewer: int, more: int)
    requires
        0 <= fewer <= more,
    ensures
        0 <= settled_count(states, fewer) <= settled_count(states, more) <= more,
    decreases more,
{
    if fewer < more {
        lemma_settled_count_grows(states, fewer, more - 1);
    } else if more > 0 {
        lemma_settled_count_grows(states, fewer - 1, more - 1);
    }
}

/// How many stones are settled.
pub fn count_settled(states: &Vec<StoneState>) -> (n: usize)
    ensures
        n == settled_count(states@, states@.len() as int),
        n <= states@.len(),
{
    let mut n: usize = 0;
    let mut i: usize = 0;
    while i < states.len()
        invariant
            i <= states@.len(),
            n == settled_count(states@, i as int),
            n <= i,
        decreases states@.len() - i,
    {
        if states[i].is_settled() {
            n = n + 1;
        }
        i = i + 1;
    }
    n
}

/// The duration that a draw stands for.
pub fn duration(draw: i64) -> (d: u32)
    requires
        -HALF <= draw < HALF,
    ensures
        d == duration_of(draw as int),
        LEAST_DURATION <= d < DURATION_END,
{
    let spread: i64 = (draw + 500_000) * 250 / 1_000_000;
    (50 + spread) as u32
}

/// The target that the draws at place `k` of the stream stand for.
pub fn target_from(stream: &Vec<i64>, k: usize) -> (target: Target)
    requires
        4 * k + 3 < stream@.len(),
        forall|j: int| 0 <= j < stream@.len() ==> -HALF <= #[trigger] stream@[j] < HALF,
    ensures
        target == target_of(stream@, k as int),
        target.in_range(),
{
    let size: usize = stream.len();
    assert(4 * k + 3 < size);
    let rotation: i64 = arc(stream[4 * k + 2]);
    proof {
        crate::still::lemma_arc_below(stream@[4 * k + 2] as int);
    }
    Target {
        x: stream[4 * k],
        y: stream[4 * k + 1],
        rotation,
        duration: duration(stream[4 * k + 3]),
    }
}

/// Draws a target from the generator of the running thread.
fn ambient_target() -> (target: Target)
    ensures
        target.in_range(),
{
    let x: i64 = draw_ambient(LEAST_DRAW, HALF);
    let y: i64 = draw_ambient(LEAST_DRAW, HALF);
    let rotation: i64 = draw_ambient(LEAST_TURN, QUARTER_TURN);
    let duration: i64 = draw_ambient(50, 300);
    Target { x, y, rotation, duration: duration as u32 }
}

/// One tick of the static mode: every stone is placed by the seeded pass.
pub fn still_tick(
    cells: &Vec<Cell>,
    states: &mut Vec<StoneState>,
    rows: u32,
    params: &Parameters,
)
    requires
        rows > 0,
        cells@.len() == old(states)@.len(),
        forall|i: int| 0 <= i < cells@.len() ==> cells@[i].row <= rows,
        3 * cells@.len() <= usize::MAX,
    ensures
        still_ticked(old(states)@, final(states)@, cells@, rows as int, *params),
        still_draws(cells@, *params).len() == 3 * cells@.len(),
        unit_draws(still_draws(cells@, *params)),
{
    let transforms: Vec<Transform> = static_pass(cells, rows, params);
    let count: usize = states.len();
    let mut i: usize = 0;
    while i < count
        invariant
            count == states@.len(),
            count == old(states)@.len(),
            count == transforms@.len(),
            i <= count,
            forall|k: int| 0 <= k < i ==> #[trigger] states@[k] == placed(old(states)@[k], transforms@[k]),
            forall|k: int| i <= k < count ==> #[trigger] states@[k] == old(states)@[k],
        decreases count - i,
    {
        let s: StoneState = states[i];
        let t: Transform = transforms[i];
        let next = StoneState {
            offset_x: t.offset_x,
            offset_y: t.offset_y,
            rotation: t.rotation,
            hue: t.hue,
            saturation: t.saturation,
            luminance: t.luminance,
            velocity_x: s.velocity_x,
            velocity_y: s.velocity_y,
            rot_velocity: s.rot_velocity,
            cycles_remaining: s.cycles_remaining,
            last_update_time: s.last_update_time,
        };
        states.set(i, next);
        i = i + 1;
    }
}

/// One tick of the cycle mode with the draws of `stream`: the stones take
/// their turns in order, and each settled stone takes four draws for its
/// target.
pub fn cycle_pass(
    cells: &Vec<Cell>,
    states: &mut Vec<StoneState>,
    rows: u32,
    params: &Parameters,
    stream: &Vec<i64>,
)
    requires
        rows > 0,
        cells@.len() == old(states)@.len(),
        stream@.len() == 4 * settled_count(old(states)@, old(states)@.len() as int),
        forall|j: int| 0 <= j < stream@.len() ==> -HALF <= #[trigger] stream@[j] < HALF,
    ensures
        cycle_moved(old(states)@, final(states)@, cells@, rows as int, *params, stream@),
{
    let count: usize = states.len();
    let mut used: usize = 0;
    let mut i: usize = 0;
    while i < count
        invariant
            rows > 0,
            count == states@.len(),
            count == old(states)@.len(),
            count == cells@.len(),
            i <= count,
            used == settled_count(old(states)@, i as int),
            stream@.len() == 4 * settled_count(old(states)@, count as int),
            forall|j: int| 0 <= j < stream@.len() ==> -HALF <= #[trigger] stream@[j] < HALF,
            forall|k: int|
                0 <= k < i ==> #[trigger] states@[k] == cycle_cell(
                    old(states)@[k],
                    cells@[k].row as int,
                    rows as int,
                    *params,
                    target_of(stream@, settled_count(old(states)@, k)),
                ),
            forall|k: int| i <= k < count ==> #[trigger] states@[k] == old(states)@[k],
        decreases count - i,
    {
        let s: StoneState = states[i];
        proof {
            lemma_settled_count_grows(old(states)@, i + 1, count as int);
        }
        let moved: StoneState = if s.is_settled() {
            let target: Target = target_from(stream, used);
            used = used + 1;
            retarget(s, target, params.velocity_factor, s.last_update_time)
        } else {
            step(s, 1)
        };
        let next: StoneState = recolour(moved, cells[i].row, rows, params);
        states.set(i, next);
        i = i + 1;
    }
}

/// One tick of the cycle mode. The generator is seeded afresh with
/// `params.random_seed`, and gives four draws for every settled stone.
pub fn cycle_tick(
    cells: &Vec<Cell>,
    states: &mut Vec<StoneState>,
    rows: u32,
    params: &Parameters,
)
    requires
        rows > 0,
        cells@.len() == old(states)@.len(),
        4 * cells@.len() <= usize::MAX,
    ensures
        cycle_ticked(old(states)@, final(states)@, cells@, rows as int, *params),
        cycle_draws(old(states)@, *params).len() == 4 * settled_count(
            old(states)@,
            old(states)@.len() as int,
        ),
        unit_draws(cycle_draws(old(states)@, *params)),
{
    let settled: usize = count_settled(states);
    let stream: Vec<i64> = draw_seeded(params.random_seed, 4 * settled, LEAST_DRAW, HALF);
    cycle_pass(cells, states, rows, params, &stream);
}

/// One tick of the relaxing mode at the time `now`, with draws from the
/// generator of the running thread. A settled stone draws its toss, and its
/// target where it is not halted.
pub fn relax_tick(
    cells: &Vec<Cell>,
    states: &mut Vec<StoneState>,
    rows: u32,
    params: &Parameters,
    height: u32,
    now: u64,
)
    requires
        rows > 0,
        cells@.len() == old(states)@.len(),
    ensures
        relax_ticked(old(states)@, final(states)@, cells@, rows as int, *params, height, now),
{
    let count: usize = states.len();
    let mut i: usize = 0;
    while i < count
        invariant
            rows > 0,
            count == states@.len(),
            count == old(states)@.len(),
            count == cells@.len(),
            i <= count,
            forall|k: int|
                0 <= k < i ==> relax_outcome(
                    old(states)@[k],
                    #[trigger] states@[k],
                    cells@[k].row as int,
                    rows as int,
                    *params,
                    height,
                    now,
                ),
            forall|k: int| i <= k < count ==> #[trigger] states@[k] == old(states)@[k],
        decreases count - i,
    {
        let s: StoneState = states[i];
        let mut toss: i64 = 0;
        let mut target = Target { x: 0, y: 0, rotation: 0, duration: 50 };
        let moved: StoneState = if s.is_settled() {
            toss = draw_ambient(0, UNIT);
            if must_freeze(&s, params.motion, height, toss) {
                freeze(s, now)
            } else {
                target = ambient_target();
                retarget(s, target, params.velocity_factor, now)
            }
        } else {
            clock_step(s, now)
        };
        let next: StoneState = recolour(moved, cells[i].row, rows, params);
        proof {
            assert(next == relax_cell(
                s,
                cells@[i as int].row as int,
                rows as int,
                *params,
                height,
                now,
                toss,
                target,
            ));
        }
        states.set(i, next);
        i = i + 1;
    }
}

/// One tick in the mode `mode`.
pub fn tick(
    mode: Mode,
    cells: &Vec<Cell>,
    states: &mut Vec<StoneState>,
    rows: u32,
    params: &Parameters,
    height: u32,
    now: u64,
)
    requires
        rows > 0,
        cells@.len() == old(states)@.len(),
        mode == Mode::Static ==> 3 * cells@.len() <= usize::MAX,
        mode == Mode::Static ==> forall|i: int| 0 <= i < cells@.len() ==> cells@[i].row <= rows,
        mode == Mode::CycleBased ==> 4 * cells@.len() <= usize::MAX,
    ensures
        mode == Mode::Static ==> still_ticked(
            old(states)@,
            final(states)@,
            cells@,
            rows as int,
            *params,
        ),
        mode == Mode::Static ==> still_draws(cells@, *params).len() == 3 * cells@.len()
            && unit_draws(still_draws(cells@, *params)),
        mode == Mode::CycleBased ==> cycle_ticked(
            old(states)@,
            final(states)@,
            cells@,
            rows as int,
            *params,
        ),
        mode == Mode::CycleBased ==> cycle_draws(old(states)@, *params).len() == 4
            * settled_count(old(states)@, old(states)@.len() as int) && unit_draws(
            cycle_draws(old(states)@, *params),
        ),
        mode == Mode::VelocityRelaxing ==> relax_ticked(
            old(states)@,
            final(states)@,
            cells@,
            rows as int,
            *params,
            height,
            now,
        ),
{
    match mode {
        Mode::Static => still_tick(cells, states, rows, params),
        Mode::CycleBased => cycle_tick(cells, states, rows, params),
        Mode::VelocityRelaxing => relax_tick(cells, states, rows, params, height, now),
    }
}

/// The reset: every stone goes back to its place, still, with a number of
/// cycles in `[LEAST_DURATION, DURATION_END)` to wait, drawn from the
/// generator of the running thread. Its colour and its time stay.
pub fn reset(states: &mut Vec<StoneState>)
    ensures
        final(states)@.len() == old(states)@.len(),
        forall|i: int|
            0 <= i < old(states)@.len() ==> {
                &&& LEAST_DURATION <= (#[trigger] final(states)@[i]).cycles_remaining
                    < DURATION_END
                &&& final(states)@[i] == rearmed(
                    old(states)@[i],
                    final(states)@[i].cycles_remaining,
                )
            },
{
    let count: usize = states.len();
    let mut i: usize = 0;
    while i < count
        invariant
            count == states@.len(),
            count == old(states)@.len(),
            i <= count,
            forall|k: int|
                0 <= k < i ==> {
                    &&& LEAST_DURATION <= (#[trigger] states@[k]).cycles_remaining < DURATION_END
                    &&& states@[k] == rearmed(old(states)@[k], states@[k].cycles_remaining)
                },
            forall|k: int| i <= k < count ==> #[trigger] states@[k] == old(states)@[k],
        decreases count - i,
    {
        let s: StoneState = states[i];
        let cycles: i64 = draw_ambient(50, 300);
        let next: StoneState = rearm(s, cycles as u32);
        states.set(i, next);
        i = i + 1;
    }
}

/// Every seed that is drawn is below this.
pub const SEED_END: u64 = 1_000_000;

/// A seed for the next passes, drawn from the generator of the running
/// thread.
pub fn fresh_seed() -> (seed: u64)
    ensures
        seed < SEED_END,
{
    let drawn: i64 = draw_ambient(0, 1_000_000);
    drawn as u64
}

/// As many fresh stones as there are cells.
pub fn build_states(count: usize) -> (states: Vec<StoneState>)
    ensures
        states@.len() == count,
        forall|i: int| 0 <= i < count ==> #[trigger] states@[i] == crate::stone::fresh_stone(),
{
    let mut states: Vec<StoneState> = Vec::new();
    let mut i: usize = 0;
    while i < count
        invariant
            i <= count,
            states@.len() == i,
            forall|k: int| 0 <= k < i ==> #[trigger] states@[k] == crate::stone::fresh_stone(),
        decreases count - i,
    {
        states.push(StoneState::new());
        i = i + 1;
    }
    states
}

} // verus!
