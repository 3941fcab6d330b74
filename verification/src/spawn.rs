//! Where food appears: a raw random draw, scaled onto an axis of the grid.

use crate::grid::{Grid, Position};
use vstd::prelude::*;

verus! {

/// The number of values a raw draw can take.
pub open spec fn draw_span() -> int {
    0x1_0000_0000
}

/// The coordinate that a raw draw stands for on an axis of `bound` cells:
/// the draw, read as a fraction of its span, times the length of the axis,
/// rounded down.
pub open spec fn scaled_draw(raw: u32, bound: i32) -> int {
    (raw as int * bound as int) / draw_span()
}

/// The cell that two raw draws stand for, one draw for each axis.
pub open spec fn drawn_cell(grid: Grid, raw_x: u32, raw_y: u32) -> Position {
    Position {
        x: scaled_draw(raw_x, grid.width) as i32,
        y: scaled_draw(raw_y, grid.height) as i32,
    }
}

/// A scaled draw lies on the axis.
pub proof fn lemma_random_position_on_axis(raw: u32, bound: i32)
    requires
        bound >= 1,
    ensures
        0 <= scaled_draw(raw, bound) < bound,
{
    let product = raw as int * bound as int;
    assert(0 <= product < draw_span() * bound) by (nonlinear_arith)
        requires
            product == raw as int * bound as int,
            0 <= raw as int,
            (raw as int) < draw_span(),
            bound >= 1,
    ;
    vstd::arithmetic::div_mod::lemma_div_pos_is_pos(product, draw_span());
    vstd::arithmetic::div_mod::lemma_multiply_divide_lt(product, draw_span(), bound as int);
}

/// One raw draw from the thread's random number generator, by
/// `rand::random::<u32>()`. Nothing is claimed of the value. (The generator
/// panics if the operating system cannot seed it.)
#[verifier::external_body]
fn random_draw() -> (raw: u32) {
    rand::random::<u32>()
}

/// Scales a raw draw onto an axis of `bound` cells.
pub fn random_position(raw: u32, bound: i32) -> (coord: i32)
    requires
        bound >= 1,
    ensures
        coord == scaled_draw(raw, bound),
        0 <= coord < bound,
{
    proof {
        lemma_random_position_on_axis(raw, bound);
        assert(raw as int * bound as int <= 0xffff_ffff * 0x7fff_ffff) by (nonlinear_arith)
            requires
                0 <= raw as int <= 0xffff_ffff,
                1 <= bound as int <= 0x7fff_ffff,
        ;
    }
    let product: u64 = (raw as u64) * (bound as u64);
    (product / 0x1_0000_0000u64) as i32
}

/// The cell that two raw draws stand for.
pub fn cell_from_draws(grid: &Grid, raw_x: u32, raw_y: u32) -> (cell: Position)
    requires
        grid.wf(),
    ensures
        cell == drawn_cell(*grid, raw_x, raw_y),
        grid.contains(cell),
{
    Position { x: random_position(raw_x, grid.width), y: random_position(raw_y, grid.height) }
}

/// A cell of the grid picked by two independent draws, one for each axis.
/// Whatever the draws give, the cell lies in the grid.
pub fn get_random_pos(grid: &Grid) -> (cell: Position)
    requires
        grid.wf(),
    ensures
        grid.contains(cell),
{
    let raw_x: u32 = random_draw();
    let raw_y: u32 = random_draw();
    cell_from_draws(grid, raw_x, raw_y)
}

} // verus!
