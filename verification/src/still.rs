//! The still picture: one seeded pass over the grid gives every cell its
//! transform.

use crate::chance::{draw_seeded, seeded_draws};
use crate::grid::Cell;
use crate::params::{hue, hue_of, palette, saturation_luminance, Parameters};
use crate::units::{lemma_quotient_bound, scaled_quotient, toward_zero, weigh, weighed, HALF, LEAST_DRAW,
    UNIT,
};
use vstd::prelude::*;

verus! {

/// A quarter turn is `QUARTER_TURN` parts of a radian wide on each side of
/// zero; `HALF_TURN_ARC` is twice that, the width of the whole range.
pub const HALF_TURN_ARC: i64 = 1_570_796;

pub const QUARTER_TURN: i64 = 785_398;

/// The three random draws of one cell, each in `[-HALF, HALF)`.
#[derive(Clone, Copy, Debug, PartialEq, Eq, Structural)]
pub struct Draw {
    pub x: i64,
    pub y: i64,
    pub turn: i64,
}

/// What a renderer needs of one cell: its displacement in cell sizes, its
/// rotation in radians, and its colour, all in parts of `UNIT`.
#[derive(Clone, Copy, Debug, PartialEq, Eq, Structural)]
pub struct Transform {
    pub offset_x: i64,
    pub offset_y: i64,
    pub rotation: i64,
    pub hue: u64,
    pub saturation: u32,
    pub luminance: u32,
}

impl Draw {
    /// Each of the three draws lies in `[-HALF, HALF)`.
    pub open spec fn in_range(self) -> bool {
        &&& -HALF <= self.x < HALF
        &&& -HALF <= self.y < HALF
        &&& -HALF <= self.turn < HALF
    }
}

/// The angle that a draw of `[-HALF, HALF)` stands for: the draw stretched to
/// the range of a quarter turn each way.
pub open spec fn arc_of(turn: int) -> int {
    toward_zero(turn * HALF_TURN_ARC, UNIT as int)
}

/// The transform of a cell in row `row` of `rows` for the draws `draw`.
pub open spec fn still_transform(row: int, rows: int, params: Parameters, draw: Draw) -> Transform {
    Transform {
        offset_x: weighed(draw.x as int, params.displacement_scale as int, row, rows) as i64,
        offset_y: weighed(draw.y as int, params.displacement_scale as int, row, rows) as i64,
        rotation: weighed(arc_of(draw.turn as int), params.rotation_scale as int, row, rows) as i64,
        hue: hue_of(params.hue_start as int, params.hue_range as int, row, rows) as u64,
        saturation: palette(params.contrast_mode, params.dark_mode).0,
        luminance: palette(params.contrast_mode, params.dark_mode).1,
    }
}

/// The draws of the cell at place `i`: three in a row from the stream.
pub open spec fn draw_at(stream: Seq<i64>, i: int) -> Draw {
    Draw { x: stream[3 * i], y: stream[3 * i + 1], turn: stream[3 * i + 2] }
}

/// The transforms of all cells, each from its own three draws of `stream`.
pub open spec fn still_transforms(
    cells: Seq<Cell>,
    rows: int,
    params: Parameters,
    stream: Seq<i64>,
) -> Seq<Transform> {
    Seq::new(
        cells.len(),
        |i: int| still_transform(cells[i].row as int, rows, params, draw_at(stream, i)),
    )
}

/// Every draw of the stream lies in `[-HALF, HALF)`.
pub open spec fn unit_draws(stream: Seq<i64>) -> bool {
    forall|k: int| 0 <= k < stream.len() ==> -HALF <= #[trigger] stream[k] < HALF
}

/// The draws of one pass: three for every cell, from a generator seeded with
/// the seed of `params`.
pub open spec fn still_draws(cells: Seq<Cell>, params: Parameters) -> Seq<i64> {
    seeded_draws(params.random_seed, (3 * cells.len()) as usize, LEAST_DRAW, HALF)
}

/// What one pass gives: the transforms of all cells for the draws that the
/// seed of `params` gives.
pub open spec fn seeded_transforms(cells: Seq<Cell>, rows: int, params: Parameters) -> Seq<
    Transform,
> {
    still_transforms(cells, rows, params, still_draws(cells, params))
}

/// Stretches a draw of `[-HALF, HALF]` to an angle of at most a quarter turn.
pub fn arc(turn: i64) -> (angle: i64)
    requires
        -HALF <= turn <= HALF,
    ensures
        angle == arc_of(turn as int),
        -QUARTER_TURN <= angle <= QUARTER_TURN,
{
    proof {
        lemma_quotient_bound(turn * HALF_TURN_ARC, UNIT as int, QUARTER_TURN as int);
    }
    scaled_quotient(turn as i128, HALF_TURN_ARC, 1_000_000)
}

/// A draw below `HALF` stands for an angle below a quarter turn.
pub proof fn lemma_arc_below(turn: int)
    requires
        -HALF <= turn < HALF,
    ensures
        -QUARTER_TURN <= arc_of(turn) < QUARTER_TURN,
{
    lemma_quotient_bound(turn * HALF_TURN_ARC, UNIT as int, QUARTER_TURN as int);
    if turn >= 0 {
        assert(turn * HALF_TURN_ARC <= 499_999 * 1_570_796);
    }
}

/// The transform of one cell from its row and its three draws.
pub fn static_transform(row: u32, rows: u32, params: &Parameters, draw: Draw) -> (t: Transform)
    requires
        rows > 0,
        row <= rows,
        draw.in_range(),
    ensures
        t == still_transform(row as int, rows as int, *params, draw),
{
    let angle: i64 = arc(draw.turn);
    let pair: (u32, u32) = saturation_luminance(params.contrast_mode, params.dark_mode);
    Transform {
        offset_x: weigh(draw.x, params.displacement_scale, row, rows),
        offset_y: weigh(draw.y, params.displacement_scale, row, rows),
        rotation: weigh(angle, params.rotation_scale, row, rows),
        hue: hue(params.hue_start, params.hue_range, row, rows),
        saturation: pair.0,
        luminance: pair.1,
    }
}

/// The transforms of all cells from a stream of draws, three for each cell
/// in the order in which the cells stand: for the offset across, the offset
/// down, the turn.
pub fn transforms_from(cells: &Vec<Cell>, rows: u32, params: &Parameters, stream: &Vec<i64>) -> (out:
    Vec<Transform>)
    requires
        rows > 0,
        forall|i: int| 0 <= i < cells@.len() ==> cells@[i].row <= rows,
        stream@.len() == 3 * cells@.len(),
        forall|k: int| 0 <= k < stream@.len() ==> -HALF <= #[trigger] stream@[k] < HALF,
    ensures
        out@ == still_transforms(cells@, rows as int, *params, stream@),
{
    let count: usize = cells.len();
    let size: usize = stream.len();
    let mut out: Vec<Transform> = Vec::new();
    let mut i: usize = 0;
    while i < count
        invariant
            rows > 0,
            count == cells@.len(),
            size == 3 * count,
            size == stream@.len(),
            i <= count,
            out@.len() == i,
            forall|k: int| 0 <= k < cells@.len() ==> cells@[k].row <= rows,
            forall|k: int| 0 <= k < stream@.len() ==> -HALF <= #[trigger] stream@[k] < HALF,
            forall|k: int|
                0 <= k < i ==> out@[k] == still_transform(
                    cells@[k].row as int,
                    rows as int,
                    *params,
                    draw_at(stream@, k),
                ),
        decreases count - i,
    {
        let draw = Draw { x: stream[3 * i], y: stream[3 * i + 1], turn: stream[3 * i + 2] };
        let t: Transform = static_transform(cells[i].row, rows, params, draw);
        out.push(t);
        i = i + 1;
    }
    proof {
        assert(out@ =~= still_transforms(cells@, rows as int, *params, stream@));
    }
    out
}

/// One pass over the grid: the generator is seeded afresh with
/// `params.random_seed`, and the cells take their draws in the order in which
/// they stand, three each.
pub fn static_pass(cells: &Vec<Cell>, rows: u32, params: &Parameters) -> (out: Vec<Transform>)
    requires
        rows > 0,
        forall|i: int| 0 <= i < cells@.len() ==> cells@[i].row <= rows,
        3 * cells@.len() <= usize::MAX,
    ensures
        out@ == seeded_transforms(cells@, rows as int, *params),
        still_draws(cells@, *params).len() == 3 * cells@.len(),
        unit_draws(still_draws(cells@, *params)),
{
    let stream: Vec<i64> = draw_seeded(params.random_seed, 3 * cells.len(), LEAST_DRAW, HALF);
    transforms_from(cells, rows, params, &stream)
}

} // verus!
