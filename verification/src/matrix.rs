//! A dense picture of the grid, one number per cell, for debugging and for
//! rendering as text.

use vstd::prelude::*;
use vstd::string::StringExecFns;
use crate::geometry::Point;
use crate::text::{decimal, push_decimal};

verus! {

/// The number of a cell that holds nothing.
pub const EMPTY_CELL: u8 = 0;

/// The number of a cell that holds a point of the snake.
pub const SNAKE_CELL: u8 = 1;

/// The number of a cell that holds food.
pub const FOOD_CELL: u8 = 7;

/// The grid as rows of cells. `rows[y][x]` is the cell in column `x` of row
/// `y`.
pub struct Matrix {
    pub rows: Vec<Vec<u8>>,
}

/// The cells of a row as text: each in decimal, with one space between
/// neighbours.
pub open spec fn row_text(cells: Seq<u8>) -> Seq<char>
    decreases cells.len(),
{
    if cells.len() == 0 {
        Seq::empty()
    } else if cells.len() == 1 {
        decimal(cells[0] as nat)
    } else {
        row_text(cells.drop_last()).push(' ') + decimal(cells.last() as nat)
    }
}

/// The rows as text, with one line break between neighbours.
pub open spec fn rows_text(rows: Seq<Vec<u8>>) -> Seq<char>
    decreases rows.len(),
{
    if rows.len() == 0 {
        Seq::empty()
    } else if rows.len() == 1 {
        row_text(rows[0]@)
    } else {
        rows_text(rows.drop_last()).push('\n') + row_text(rows.last()@)
    }
}

/// Whether one of `points` lies in column `x` of row `y`.
pub open spec fn hits(points: Seq<Point>, x: int, y: int) -> bool {
    exists|i: int| 0 <= i < points.len() && (#[trigger] points[i]).0 == x && points[i].1 == y
}

impl Matrix {
    /// The number in column `x` of row `y`.
    pub open spec fn cell(&self, x: int, y: int) -> u8 {
        self.rows@[y]@[x]
    }

    /// Whether the matrix has `dim_y` rows of `dim_x` cells each.
    pub open spec fn has_shape(&self, dim_x: u16, dim_y: u16) -> bool {
        &&& self.rows@.len() == dim_y
        &&& forall|y: int| 0 <= y < dim_y ==> (#[trigger] self.rows@[y])@.len() == dim_x
    }

    /// Whether the matrix has a cell for `p`.
    pub open spec fn has_cell(&self, p: Point) -> bool {
        p.1 < self.rows@.len() && p.0 < self.rows@[p.1 as int]@.len()
    }

    /// Whether the matrix has a cell for every point of `points`.
    pub open spec fn covers(&self, points: Seq<Point>) -> bool {
        forall|i: int| 0 <= i < points.len() ==> self.has_cell(#[trigger] points[i])
    }

    /// Whether `self` is `before` with `value` written to the cell of each
    /// point of `points` and every other cell left as it was.
    pub open spec fn marks(&self, before: Matrix, points: Seq<Point>, value: u8) -> bool {
        &&& self.rows@.len() == before.rows@.len()
        &&& forall|y: int|
            0 <= y < self.rows@.len() ==> (#[trigger] self.rows@[y])@.len()
                == before.rows@[y]@.len()
        &&& forall|x: int, y: int|
            0 <= y < self.rows@.len() && 0 <= x < self.rows@[y]@.len() ==> #[trigger] self.cell(
                x,
                y,
            ) == if hits(points, x, y) {
                value
            } else {
                before.cell(x, y)
            }
    }

    /// A matrix of `dim_y` rows and `dim_x` columns with every cell empty.
    pub fn new(dim_x: u16, dim_y: u16) -> (m: Self)
        ensures
            m.has_shape(dim_x, dim_y),
            forall|x: int, y: int|
                0 <= x < dim_x && 0 <= y < dim_y ==> #[trigger] m.cell(x, y) == EMPTY_CELL,
    {
        let mut rows: Vec<Vec<u8>> = Vec::with_capacity(dim_y as usize);
        let mut y: u16 = 0;
        while y < dim_y
            invariant
                y <= dim_y,
                rows@.len() == y,
                forall|j: int| 0 <= j < y ==> (#[trigger] rows@[j])@.len() == dim_x,
                forall|i: int, j: int|
                    0 <= i < dim_x && 0 <= j < y ==> #[trigger] rows@[j]@[i] == EMPTY_CELL,
            decreases dim_y - y,
        {
            let mut cells: Vec<u8> = Vec::with_capacity(dim_x as usize);
            let mut x: u16 = 0;
            while x < dim_x
                invariant
                    x <= dim_x,
                    cells@.len() == x,
                    forall|i: int| 0 <= i < x ==> #[trigger] cells@[i] == EMPTY_CELL,
                decreases dim_x - x,
            {
                cells.push(EMPTY_CELL);
                x += 1;
            }
            rows.push(cells);
            y += 1;
        }

        Matrix { rows }
    }

    /// Writes `value` to the cell of each point of `points`.
    fn mark(&mut self, points: &[Point], value: u8)
        requires
            old(self).covers(points@),
        ensures
            final(self).marks(*old(self), points@, value),
    {
        let mut i: usize = 0;
        while i < points.len()
            invariant
                i <= points@.len(),
                self.covers(points@),
                self.marks(*old(self), points@.take(i as int), value),
            decreases points@.len() - i,
        {
            let point = points[i];
            let ghost prev = *self;
            self.rows[point.1 as usize][point.0 as usize] = value;
            proof {
                let done = points@.take(i as int);
                let next = points@.take(i + 1);
                assert forall|x: int, y: int| hits(next, x, y) <==> hits(done, x, y) || (x
                    == point.0 && y == point.1) by {
                    if hits(done, x, y) {
                        let a = choose|a: int|
                            0 <= a < done.len() && (#[trigger] done[a]).0 == x && done[a].1 == y;
                        assert(next[a] == done[a]);
                    }
                    if x == point.0 && y == point.1 {
                        assert(next[i as int] == point);
                    }
                    if hits(next, x, y) {
                        let a = choose|a: int|
                            0 <= a < next.len() && (#[trigger] next[a]).0 == x && next[a].1 == y;
                        if a < i {
                            assert(done[a] == next[a]);
                        }
                    }
                }
                assert forall|x: int, y: int|
                    0 <= y < self.rows@.len() && 0 <= x < self.rows@[y]@.len() implies #[trigger] self.cell(
                    x,
                    y,
                ) == if hits(next, x, y) {
                    value
                } else {
                    old(self).cell(x, y)
                } by {
                    assert(prev.cell(x, y) == if hits(done, x, y) {
                        value
                    } else {
                        old(self).cell(x, y)
                    });
                }
            }
            i += 1;
        }
        assert(points@.take(points@.len() as int) =~= points@);
    }

    /// Marks the cells that the snake lies on.
    pub fn add_snake(&mut self, snake: &[Point])
        requires
            old(self).covers(snake@),
        ensures
            final(self).marks(*old(self), snake@, SNAKE_CELL),
    {
        self.mark(snake, SNAKE_CELL);
    }

    /// Marks the cells that hold food.
    pub fn add_food(&mut self, food: &[Point])
        requires
            old(self).covers(food@),
        ensures
            final(self).marks(*old(self), food@, FOOD_CELL),
    {
        self.mark(food, FOOD_CELL);
    }

    /// The matrix as text: one line per row, the cells of a row in decimal with
    /// a space between them.
    pub fn to_string(&self) -> (s: String)
        ensures
            s@ == rows_text(self.rows@),
    {
        let mut out = String::new();
        let mut y: usize = 0;
        while y < self.rows.len()
            invariant
                y <= self.rows@.len(),
                out@ == rows_text(self.rows@.take(y as int)),
            decreases self.rows@.len() - y,
        {
            if y > 0 {
                proof {
                    reveal_strlit("\n");
                }
                out.append("\n");
            }
            let ghost start = out@;
            let cells = &self.rows[y];
            let mut x: usize = 0;
            while x < cells.len()
                invariant
                    x <= cells@.len(),
                    out@ == start + row_text(cells@.take(x as int)),
                decreases cells@.len() - x,
            {
                if x > 0 {
                    proof {
                        reveal_strlit(" ");
                    }
                    out.append(" ");
                }
                push_decimal(&mut out, cells[x] as u32);
                proof {
                    let done = cells@.take(x as int);
                    let next = cells@.take(x + 1);
                    assert(next.drop_last() =~= done);
                }
                x += 1;
            }
            proof {
                assert(cells@.take(cells@.len() as int) =~= cells@);
                let done = self.rows@.take(y as int);
                let next = self.rows@.take(y + 1);
                assert(next.drop_last() =~= done);
            }
            y += 1;
        }
        assert(self.rows@.take(self.rows@.len() as int) =~= self.rows@);
        out
    }
}

} // verus!
