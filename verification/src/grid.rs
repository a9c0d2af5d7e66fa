//! Grid cells, facing directions and the small geometric rules the front-end
//! applies to them.

use vstd::prelude::*;

verus! {

/// A cell of the level grid; columns grow to the right, rows grow downwards.
#[derive(Clone, Copy, Debug, PartialEq, Eq, Structural)]
pub struct Cell {
    pub col: i16,
    pub row: i16,
}

/// One of the four facing directions of Robbo and the directional elements.
#[derive(Clone, Copy, Debug, PartialEq, Eq, Structural)]
pub enum Direction {
    Up,
    Down,
    Left,
    Right,
}

/// How a one-cell step moves: along a row, along a column, or neither.
#[derive(Clone, Copy, Debug, PartialEq, Eq, Structural)]
pub enum StepAxis {
    Still,
    Horizontal,
    Vertical,
}

pub open spec fn abs_int(x: int) -> int {
    if x < 0 { -x } else { x }
}

pub open spec fn max_int(a: int, b: int) -> int {
    if a >= b { a } else { b }
}

/// Chebyshev distance: the number of king moves that join two cells.
pub open spec fn chebyshev(a: Cell, b: Cell) -> int {
    max_int(abs_int(a.col - b.col), abs_int(a.row - b.row))
}

/// Column and row change of one step in `dir`.
pub open spec fn spec_delta(dir: Direction) -> (int, int) {
    match dir {
        Direction::Up => (0, -1),
        Direction::Down => (0, 1),
        Direction::Left => (-1, 0),
        Direction::Right => (1, 0),
    }
}

/// Index of `dir` in the directional sprite sheets: right, down, left, up.
pub open spec fn spec_dir_index(dir: Direction) -> int {
    match dir {
        Direction::Right => 0,
        Direction::Down => 1,
        Direction::Left => 2,
        Direction::Up => 3,
    }
}

pub open spec fn spec_step_axis(from: Cell, to: Cell) -> StepAxis {
    if from.row == to.row && from.col != to.col {
        StepAxis::Horizontal
    } else if from.col == to.col && from.row != to.row {
        StepAxis::Vertical
    } else {
        StepAxis::Still
    }
}

/// The cell `k` steps from `from` in direction `dir`.
pub open spec fn cell_steps(from: Cell, dir: Direction, k: int) -> (int, int) {
    (from.col + spec_delta(dir).0 * k, from.row + spec_delta(dir).1 * k)
}

/// Number of cells that a shot trail covers ahead of the gun.
pub const SHOT_TRAIL_CELLS: usize = 5;

impl Cell {
    pub fn new(col: i16, row: i16) -> (c: Cell)
        ensures
            c.col == col,
            c.row == row,
    {
        Cell { col, row }
    }

    /// The cell shifted by `dc` columns and `dr` rows.
    pub fn offset(self, dc: i16, dr: i16) -> (c: Cell)
        requires
            i16::MIN <= self.col + dc <= i16::MAX,
            i16::MIN <= self.row + dr <= i16::MAX,
        ensures
            c.col == self.col + dc,
            c.row == self.row + dr,
    {
        Cell { col: self.col + dc, row: self.row + dr }
    }
}

impl Direction {
    /// Column and row change of one step in this direction.
    pub fn delta(self) -> (d: (i16, i16))
        ensures
            d.0 == spec_delta(self).0,
            d.1 == spec_delta(self).1,
    {
        match self {
            Direction::Up => (0, -1),
            Direction::Down => (0, 1),
            Direction::Left => (-1, 0),
            Direction::Right => (1, 0),
        }
    }

    /// Whether steps in this direction run along a row.
    pub fn is_horizontal(self) -> (b: bool)
        ensures
            b <==> (self == Direction::Left || self == Direction::Right),
    {
        match self {
            Direction::Left | Direction::Right => true,
            Direction::Up | Direction::Down => false,
        }
    }
}

/// Direction to index into directional sprite arrays (right, down, left, up).
pub fn dir_to_idx(dir: Direction) -> (i: usize)
    ensures
        i == spec_dir_index(dir),
        i < 4,
{
    match dir {
        Direction::Right => 0,
        Direction::Down => 1,
        Direction::Left => 2,
        Direction::Up => 3,
    }
}

/// Chebyshev distance between two cells: how many king moves cover both axes.
pub fn grid_distance(a: Cell, b: Cell) -> (d: i16)
    requires
        i16::MIN < a.col - b.col <= i16::MAX,
        i16::MIN < a.row - b.row <= i16::MAX,
    ensures
        d == chebyshev(a, b),
{
    let dc = a.col - b.col;
    let dr = a.row - b.row;
    let ac = if dc < 0 { -dc } else { dc };
    let ar = if dr < 0 { -dr } else { dr };
    if ac >= ar { ac } else { ar }
}

/// Classifies a visual step by the axis it travels along.
pub fn step_axis(from: Cell, to: Cell) -> (axis: StepAxis)
    ensures
        axis == spec_step_axis(from, to),
{
    if from.row == to.row && from.col != to.col {
        StepAxis::Horizontal
    } else if from.col == to.col && from.row != to.row {
        StepAxis::Vertical
    } else {
        StepAxis::Still
    }
}

/// Index of a cell in a row-major tile array of the given width.
pub fn tile_index(col: usize, row: usize, width: usize) -> (i: usize)
    requires
        col < width,
        row * width + col <= usize::MAX,
    ensures
        i == row * width + col,
{
    row * width + col
}

/// The cells that a shot trail covers: the first five cells ahead of `from`.
pub fn shot_trail_cells(from: Cell, dir: Direction) -> (cells: Vec<Cell>)
    requires
        i16::MIN + 5 <= from.col <= i16::MAX - 5,
        i16::MIN + 5 <= from.row <= i16::MAX - 5,
    ensures
        cells@.len() == SHOT_TRAIL_CELLS,
        forall|i: int|
            0 <= i < SHOT_TRAIL_CELLS ==> (#[trigger] cells@[i]).col == cell_steps(from, dir, i + 1).0
                && cells@[i].row == cell_steps(from, dir, i + 1).1,
{
    let (dc, dr) = dir.delta();
    let mut cells: Vec<Cell> = Vec::new();
    let mut step: i16 = 1;
    while step <= 5
        invariant
            1 <= step <= 6,
            cells@.len() == step - 1,
            dc == spec_delta(dir).0,
            dr == spec_delta(dir).1,
            -1 <= dc <= 1,
            -1 <= dr <= 1,
            i16::MIN + 5 <= from.col <= i16::MAX - 5,
            i16::MIN + 5 <= from.row <= i16::MAX - 5,
            forall|i: int|
                0 <= i < step - 1 ==> (#[trigger] cells@[i]).col == cell_steps(from, dir, i + 1).0
                    && cells@[i].row == cell_steps(from, dir, i + 1).1,
        decreases 6 - step,
    {
        assert(-5 <= dc * step <= 5) by (nonlinear_arith)
            requires
                -1 <= dc <= 1,
                1 <= step <= 5,
        ;
        assert(-5 <= dr * step <= 5) by (nonlinear_arith)
            requires
                -1 <= dr <= 1,
                1 <= step <= 5,
        ;
        let cell = from.offset(dc * step, dr * step);
        cells.push(cell);
        step = step + 1;
    }
    cells
}

} // verus!
