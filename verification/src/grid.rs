//! The grid model: cells, headings and wrap-around arithmetic.

use vstd::arithmetic::div_mod::{lemma_fundamental_div_mod, lemma_fundamental_div_mod_converse_mod};
use vstd::prelude::*;

verus! {

/// A cell of the grid.
#[derive(Clone, Copy, Debug, PartialEq, Eq, Structural)]
pub struct Position {
    pub x: i32,
    pub y: i32,
}

impl Position {
    pub fn new(x: i32, y: i32) -> (p: Position)
        ensures
            p == (Position { x, y }),
    {
        Position { x, y }
    }
}

/// One of the four headings.
#[derive(Clone, Copy, Debug, PartialEq, Eq, Structural)]
pub enum Direction {
    Left,
    Up,
    Right,
    Down,
}

impl Direction {
    /// The heading that points the other way.
    pub open spec fn opposite(self) -> Direction {
        match self {
            Direction::Left => Direction::Right,
            Direction::Right => Direction::Left,
            Direction::Up => Direction::Down,
            Direction::Down => Direction::Up,
        }
    }
}

impl core::ops::Neg for Direction {
    type Output = Direction;

    fn neg(self) -> (d: Direction) {
        match self {
            Direction::Left => Direction::Right,
            Direction::Right => Direction::Left,
            Direction::Up => Direction::Down,
            Direction::Down => Direction::Up,
        }
    }
}

impl vstd::std_specs::ops::NegSpecImpl for Direction {
    open spec fn obeys_neg_spec() -> bool {
        true
    }

    open spec fn neg_req(self) -> bool {
        true
    }

    open spec fn neg_spec(self) -> Direction {
        self.opposite()
    }
}

/// The index that `coord` denotes on a ring of `bound` cells.
pub open spec fn wrapped_spec(coord: int, bound: int) -> int {
    coord % bound
}

/// The coordinate one cell below `coord` on an axis of `bound` cells: a
/// coordinate at or under the low edge is first set to `bound`, then the step
/// is taken, so it lands on `bound - 1`.
pub open spec fn step_down_spec(coord: int, bound: int) -> int {
    if coord <= 0 {
        bound - 1
    } else {
        coord - 1
    }
}

/// The coordinate one cell above `coord` on an axis of `bound` cells: a
/// coordinate at or over the high edge is first set to `-1`, then the step is
/// taken, so it lands on `0`.
pub open spec fn step_up_spec(coord: int, bound: int) -> int {
    if coord >= bound - 1 {
        0
    } else {
        coord + 1
    }
}

/// A coordinate that lies on the axis denotes itself, and the steps that leave
/// the axis by one cell land where the ring closes.
pub proof fn lemma_wrapped_on_axis(coord: int, bound: int)
    requires
        0 <= coord < bound,
    ensures
        wrapped_spec(coord, bound) == coord,
        wrapped_spec(coord - 1, bound) == step_down_spec(coord, bound),
        wrapped_spec(coord + 1, bound) == step_up_spec(coord, bound),
{
    lemma_fundamental_div_mod_converse_mod(coord, bound, 0, coord);
    if coord == 0 {
        lemma_fundamental_div_mod_converse_mod(-1, bound, -1, bound - 1);
    } else {
        lemma_fundamental_div_mod_converse_mod(coord - 1, bound, 0, coord - 1);
    }
    if coord == bound - 1 {
        lemma_fundamental_div_mod_converse_mod(bound, bound, 1, 0);
    } else {
        lemma_fundamental_div_mod_converse_mod(coord + 1, bound, 0, coord + 1);
    }
}

/// Brings any coordinate onto an axis of `bound` cells.
pub fn wrapped(coord: i32, bound: i32) -> (r: i32)
    requires
        bound >= 1,
    ensures
        r == wrapped_spec(coord as int, bound as int),
        0 <= r < bound,
        0 <= coord < bound ==> r == coord,
{
    if coord >= 0 {
        let r: i32 = coord % bound;
        proof {
            if coord < bound {
                lemma_wrapped_on_axis(coord as int, bound as int);
            }
        }
        r
    } else {
        let below: i32 = -(coord + 1);
        let m: i32 = below % bound;
        proof {
            lemma_fundamental_div_mod(below as int, bound as int);
            let q = below as int / bound as int;
            assert(coord as int == (-q - 1) * bound + (bound - 1 - m)) by (nonlinear_arith)
                requires
                    below as int == bound * q + m,
                    coord as int == -(below as int) - 1,
            ;
            lemma_fundamental_div_mod_converse_mod(
                coord as int,
                bound as int,
                -q - 1,
                bound as int - 1 - m as int,
            );
        }
        bound - 1 - m
    }
}

/// One step towards the low edge, wrapping to the high edge.
pub fn step_down(coord: i32, bound: i32) -> (r: i32)
    requires
        bound >= 1,
    ensures
        r == step_down_spec(coord as int, bound as int),
        0 <= coord < bound ==> 0 <= r < bound,
{
    let mut c: i32 = coord;
    if c <= 0 {
        c = bound;
    }
    c - 1
}

/// One step towards the high edge, wrapping to the low edge.
pub fn step_up(coord: i32, bound: i32) -> (r: i32)
    requires
        bound >= 1,
    ensures
        r == step_up_spec(coord as int, bound as int),
        0 <= coord < bound ==> 0 <= r < bound,
{
    let mut c: i32 = coord;
    if c >= bound - 1 {
        c = -1;
    }
    c + 1
}

/// The fixed-size toroidal coordinate space.
#[derive(Clone, Copy, Debug, PartialEq, Eq, Structural)]
pub struct Grid {
    pub width: i32,
    pub height: i32,
}

impl Grid {
    /// A grid has at least one cell on each axis.
    pub open spec fn wf(self) -> bool {
        self.width >= 1 && self.height >= 1
    }

    pub open spec fn contains(self, p: Position) -> bool {
        0 <= p.x < self.width && 0 <= p.y < self.height
    }

    /// The cell next to `p` in heading `d`, each axis wrapping on its own.
    /// `Up` raises `y`, `Right` raises `x`.
    pub open spec fn neighbor_spec(self, p: Position, d: Direction) -> Position {
        match d {
            Direction::Left => Position { x: step_down_spec(p.x as int, self.width as int) as i32, y: p.y },
            Direction::Right => Position { x: step_up_spec(p.x as int, self.width as int) as i32, y: p.y },
            Direction::Up => Position { x: p.x, y: step_up_spec(p.y as int, self.height as int) as i32 },
            Direction::Down => Position { x: p.x, y: step_down_spec(p.y as int, self.height as int) as i32 },
        }
    }

    /// A grid of the given size, if it has a cell.
    pub fn new(width: i32, height: i32) -> (g: Option<Grid>)
        ensures
            g == if width >= 1 && height >= 1 {
                Some(Grid { width, height })
            } else {
                None
            },
    {
        if width >= 1 && height >= 1 {
            Some(Grid { width, height })
        } else {
            None
        }
    }

    pub fn holds(&self, p: Position) -> (b: bool)
        ensures
            b == self.contains(p),
    {
        0 <= p.x && p.x < self.width && 0 <= p.y && p.y < self.height
    }

    pub fn neighbor(&self, p: Position, d: Direction) -> (q: Position)
        requires
            self.wf(),
        ensures
            q == self.neighbor_spec(p, d),
            self.contains(p) ==> self.contains(q),
    {
        match d {
            Direction::Left => Position { x: step_down(p.x, self.width), y: p.y },
            Direction::Right => Position { x: step_up(p.x, self.width), y: p.y },
            Direction::Up => Position { x: p.x, y: step_up(p.y, self.height) },
            Direction::Down => Position { x: p.x, y: step_down(p.y, self.height) },
        }
    }
}

} // verus!
