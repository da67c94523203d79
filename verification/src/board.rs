//! The board: the snake and the food of one session, and the step that moves
//! the snake, lets it eat and lets new food appear.

use vstd::prelude::*;
use vstd::slice::slice_to_vec;
use crate::err::{SnakeCtrlErr, SnakeCtrlResult};
use crate::food::{
    free_cells,
    lemma_free_cell_counted,
    lemma_without_first_distinct,
    occupied,
    without_first,
    Food,
};
use crate::geometry::{Direction, Point};
use crate::matrix::{hits, Matrix, EMPTY_CELL, FOOD_CELL, SNAKE_CELL};
use crate::options::InnerCfg;
use crate::snake::{
    aligned_at,
    initial_snake,
    lemma_moved_covers_old_ground,
    lemma_moved_keeps_distinct,
    lemma_moved_keeps_shape,
    linked,
    moved,
    within,
    Snake,
};

verus! {

/// The state of one session. `snake` lists the snake's points head first;
/// `food` lists the food points in no particular order.
pub struct Board {
    pub cfg: InnerCfg,
    pub dim_x: u16,
    pub dim_y: u16,
    pub snake: Vec<Point>,
    pub food: Vec<Point>,
}

/// Whether no food point lies on the snake.
pub open spec fn apart(snake: Seq<Point>, food: Seq<Point>) -> bool {
    forall|i: int| 0 <= i < food.len() ==> !snake.contains(#[trigger] food[i])
}

/// How the food changes when a new point is asked for: on a full grid it
/// stays as it was, otherwise one point is added at the end, on a cell of
/// the grid that held neither snake nor food.
pub open spec fn spawned(
    cfg: InnerCfg,
    snake: Seq<Point>,
    before: Seq<Point>,
    after: Seq<Point>,
) -> bool {
    if free_cells(cfg, snake, before) == 0 {
        after == before
    } else {
        &&& after.len() == before.len() + 1
        &&& after.drop_last() == before
        &&& cfg.contains(after.last())
        &&& !occupied(snake, before, after.last())
    }
}

/// The initial snake lies on the grid, is linked, and has `initial_snake_size`
/// different points, all on the center row, running left from the center
/// column one cell at a time.
pub proof fn lemma_initial_snake(cfg: InnerCfg)
    requires
        cfg.wf(),
        cfg.fits(),
        cfg.has_center_row(),
    ensures
        ({
            let s = initial_snake(cfg.center(), cfg.initial_snake_size);
            &&& s.len() == cfg.initial_snake_size
            &&& s.no_duplicates()
            &&& within(cfg, s)
            &&& linked(s)
            &&& forall|i: int|
                0 <= i < s.len() ==> (#[trigger] s[i]).1 == cfg.dimension_y / 2 && s[i].0
                    == cfg.dimension_x / 2 - i
            &&& !s.contains(Point(0, cfg.center().1))
        }),
{
    let s = initial_snake(cfg.center(), cfg.initial_snake_size);
    assert forall|i: int| 0 <= i < s.len() - 1 implies #[trigger] aligned_at(s, i) by {}
}

impl Board {
    /// What holds of a board at all times, also after a failed step: it stands
    /// on a configuration that a session can start on; the snake has a head,
    /// lies on the grid and is linked; the food lies on the grid, has no point
    /// twice and none on the snake.
    pub open spec fn wf(&self) -> bool {
        &&& self.cfg.wf()
        &&& self.cfg.fits()
        &&& self.cfg.has_center_row()
        &&& self.dim_x == self.cfg.dimension_x
        &&& self.dim_y == self.cfg.dimension_y
        &&& self.snake@.len() >= 1
        &&& within(self.cfg, self.snake@)
        &&& linked(self.snake@)
        &&& within(self.cfg, self.food@)
        &&& self.food@.no_duplicates()
        &&& apart(self.snake@, self.food@)
    }

    /// What holds of a board as long as no step has failed: in addition, no
    /// two points of the snake are equal.
    pub open spec fn intact(&self) -> bool {
        self.wf() && self.snake@.no_duplicates()
    }

    /// What one step in `direction` makes of the board `self`: the board
    /// `post` and the result `r`.
    ///
    /// The snake steps as `moved` says. When that fails the error is passed on
    /// and the food is untouched. When the new head lies on food, the tail is
    /// put back, that food point is removed, the result is `Ok(true)`, and
    /// with `auto_gen_food` a new point is asked for. Otherwise the result is
    /// `Ok(false)` and the food is untouched.
    pub open spec fn steps_to(
        self,
        direction: Direction,
        post: Board,
        r: SnakeCtrlResult<bool>,
    ) -> bool {
        let (stepped, outcome) = moved(self.cfg, self.snake@, direction);
        &&& post.cfg == self.cfg
        &&& post.dim_x == self.dim_x
        &&& post.dim_y == self.dim_y
        &&& match outcome {
            Err(e) => {
                &&& r == Err::<bool, SnakeCtrlErr>(e)
                &&& post.snake@ == stepped
                &&& post.food@ == self.food@
            },
            Ok(tail) => if self.food@.contains(stepped[0]) {
                let rest = without_first(self.food@, stepped[0]);
                &&& r == Ok::<bool, SnakeCtrlErr>(true)
                &&& post.snake@ == stepped.push(tail)
                &&& if self.cfg.auto_gen_food {
                    spawned(self.cfg, post.snake@, rest, post.food@)
                } else {
                    post.food@ == rest
                }
            } else {
                &&& r == Ok::<bool, SnakeCtrlErr>(false)
                &&& post.snake@ == stepped
                &&& post.food@ == self.food@
            },
        }
    }

    /// Whether a session can start on `cfg`, and the error if it cannot: the
    /// initial snake must fit between the left edge and the center, and the
    /// center must be a row of the grid.
    pub open spec fn start(cfg: InnerCfg) -> SnakeCtrlResult<()> {
        if !cfg.fits() {
            Err(SnakeCtrlErr::InitSnakeSizeIsBig)
        } else if !cfg.has_center_row() {
            Err(SnakeCtrlErr::RowIndexOutOfBounds(cfg.center().1))
        } else {
            Ok(())
        }
    }

    /// Whether `self` is the board a session on `cfg` starts with: the initial
    /// snake, and one food point with `auto_gen_food` or none without.
    pub open spec fn fresh(&self, cfg: InnerCfg) -> bool {
        &&& self.cfg == cfg
        &&& self.intact()
        &&& self.snake@ == initial_snake(cfg.center(), cfg.initial_snake_size)
        &&& self.food@.len() == if cfg.auto_gen_food {
            1nat
        } else {
            0nat
        }
    }

    /// Sets up the board of a new session. Fails with `InitSnakeSizeIsBig` when
    /// the initial snake does not fit to the left of the center, and with
    /// `RowIndexOutOfBounds` when it does but the grid has no row to put it on.
    pub fn new(cfg: InnerCfg) -> (r: SnakeCtrlResult<Self>)
        requires
            cfg.wf(),
        ensures
            Self::start(cfg) matches Err(e) ==> (r matches Err(f) && f == e),
            Self::start(cfg) is Ok ==> (r matches Ok(b) && b.fresh(cfg)),
    {
        let InnerCfg { dimension_x, dimension_y, initial_snake_size, .. } = cfg;

        let center = Board::center_of(dimension_x, dimension_y);
        let snake = Snake::create(center, initial_snake_size)?;
        if center.1 >= dimension_y {
            return Err(SnakeCtrlErr::RowIndexOutOfBounds(center.1));
        }

        let mut board = Board {
            cfg,
            dim_x: dimension_x,
            dim_y: dimension_y,
            snake,
            food: Vec::with_capacity(1),
        };
        proof {
            lemma_initial_snake(cfg);
        }

        if board.cfg.auto_gen_food {
            proof {
                lemma_free_cell_counted(cfg, board.snake@, board.food@, Point(0, center.1));
            }
            board.generate_food();
        }

        Ok(board)
    }

    /// Puts the board back to the start of the session: the initial snake, no
    /// food but the one point that `auto_gen_food` asks for.
    pub fn restart(&mut self) -> (r: SnakeCtrlResult<()>)
        requires
            old(self).wf(),
        ensures
            r is Ok,
            final(self).fresh(old(self).cfg),
            final(self).dim_x == old(self).dim_x,
            final(self).dim_y == old(self).dim_y,
    {
        self.snake = Snake::create(
            Board::center_of(self.cfg.dimension_x, self.cfg.dimension_y),
            self.cfg.initial_snake_size,
        )?;
        self.food = Vec::with_capacity(1);
        proof {
            lemma_initial_snake(self.cfg);
        }
        if self.cfg.auto_gen_food {
            proof {
                lemma_free_cell_counted(
                    self.cfg,
                    self.snake@,
                    self.food@,
                    Point(0, self.cfg.center().1),
                );
            }
            self.generate_food();
        }
        Ok(())
    }

    /// Moves the snake one cell in `direction`. Returns whether it ate.
    pub fn move_snake(&mut self, direction: Direction) -> (r: SnakeCtrlResult<bool>)
        requires
            old(self).wf(),
        ensures
            old(self).steps_to(direction, *final(self), r),
            final(self).wf(),
            old(self).intact() && r is Ok ==> final(self).intact(),
    {
        proof {
            lemma_moved_keeps_shape(self.cfg, self.snake@, direction);
            lemma_moved_covers_old_ground(self.cfg, self.snake@, direction);
            if self.snake@.no_duplicates() && moved(self.cfg, self.snake@, direction).1 is Ok {
                lemma_moved_keeps_distinct(self.cfg, self.snake@, direction);
            }
        }
        let removed_last = Snake::move_snake(&self.cfg, &mut self.snake, direction)?;

        let eaten = Snake::has_eaten(self.snake.as_slice(), self.food.as_slice());

        if let Some(e) = eaten {
            let ghost menu = self.food@;
            self.snake.push(removed_last);
            Food::clear_eaten(&mut self.food, &e);
            proof {
                lemma_without_first_distinct(menu, e);
                assert forall|i: int| 0 <= i < self.food@.len() implies !self.snake@.contains(
                    #[trigger] self.food@[i],
                ) && self.cfg.contains(self.food@[i]) by {
                    assert(self.food@.contains(self.food@[i]));
                }
            }

            if self.cfg.auto_gen_food {
                self.generate_food();
            }
            return Ok(true);
        }
        return Ok(false);
    }

    /// Asks for a new food point. On a full grid none appears.
    pub fn generate_food(&mut self)
        requires
            old(self).wf(),
        ensures
            final(self).wf(),
            final(self).cfg == old(self).cfg,
            final(self).dim_x == old(self).dim_x,
            final(self).dim_y == old(self).dim_y,
            final(self).snake@ == old(self).snake@,
            spawned(old(self).cfg, old(self).snake@, old(self).food@, final(self).food@),
    {
        if let Some(p) = Food::generate(&self.cfg, self.snake.as_slice(), self.food.as_slice()) {
            self.food.push(p);
            proof {
                let menu = old(self).food@;
                assert(self.food@.drop_last() =~= menu);
            }
        }
    }

    /// The cell in the middle of a grid of `dim_x` columns and `dim_y` rows.
    pub fn center_of(dim_x: u16, dim_y: u16) -> (r: Point)
        ensures
            r == Point(dim_x / 2, dim_y / 2),
    {
        let center_x = dim_x / 2;
        let center_y = dim_y / 2;
        Point(center_x, center_y)
    }

    /// A copy of the snake's points, head first.
    pub fn clone_snake(&self) -> (r: Vec<Point>)
        ensures
            r@ == self.snake@,
    {
        slice_to_vec(self.snake.as_slice())
    }

    /// A copy of the food points.
    pub fn clone_food(&self) -> (r: Vec<Point>)
        ensures
            r@ == self.food@,
    {
        slice_to_vec(self.food.as_slice())
    }

    /// The grid as a matrix of numbers: `FOOD_CELL` where food lies,
    /// `SNAKE_CELL` where the snake lies, `EMPTY_CELL` elsewhere.
    pub fn get_matrix(&self) -> (m: Matrix)
        requires
            self.wf(),
        ensures
            m.has_shape(self.dim_x, self.dim_y),
            forall|x: int, y: int|
                0 <= x < self.dim_x && 0 <= y < self.dim_y ==> #[trigger] m.cell(x, y) == if hits(
                    self.food@,
                    x,
                    y,
                ) {
                    FOOD_CELL
                } else if hits(self.snake@, x, y) {
                    SNAKE_CELL
                } else {
                    EMPTY_CELL
                },
    {
        let mut m = Matrix::new(self.dim_x, self.dim_y);
        m.add_snake(self.snake.as_slice());
        m.add_food(self.food.as_slice());
        m
    }
}

} // verus!
