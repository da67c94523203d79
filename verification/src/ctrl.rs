//! The controller: the one object a game loop talks to. It buffers the
//! direction asked for, applies it on the next tick, and hands out snapshots
//! of the state.

use vstd::prelude::*;
use crate::board::Board;
use crate::err::{SnakeCtrlErr, SnakeCtrlResult};
use crate::full_state::{
    calc_full_state,
    full_state_parts,
    mirror_all,
    reverse_all_y,
    SnakeCtrlFullState,
};
use crate::geometry::{Direction, Point};
use crate::matrix::{hits, Matrix, EMPTY_CELL, FOOD_CELL, SNAKE_CELL};
use crate::options::{InnerCfg, Options};
use crate::snake::aligned_at;

verus! {

/// One session of the game.
pub struct SnakeCtrl {
    next_direction: Direction,
    current_direction: Direction,
    board: Board,
    cfg: InnerCfg,
}

/// The raw state: the snake's points head first, the food, and the directions
/// of head and tail.
pub struct SnakeCtrlState {
    pub snake: Vec<Point>,
    pub food: Vec<Point>,
    pub head_direction: Direction,
    pub tail_direction: Direction,
}

impl SnakeCtrl {
    /// The direction the snake starts in, and starts again in after a restart.
    pub open spec fn initial_direction() -> Direction {
        Direction::Right
    }

    /// The direction that the next tick will apply.
    pub closed spec fn buffered(&self) -> Direction {
        self.next_direction
    }

    /// The direction that the last tick applied.
    pub closed spec fn heading(&self) -> Direction {
        self.current_direction
    }

    /// The board of the session.
    pub closed spec fn board(&self) -> Board {
        self.board
    }

    /// The configuration of the session.
    pub closed spec fn config(&self) -> InnerCfg {
        self.cfg
    }

    /// What holds of a controller at all times: its board is well formed and
    /// stands on the controller's configuration.
    pub open spec fn wf(&self) -> bool {
        self.board().wf() && self.board().cfg == self.config()
    }

    /// Starts a session. Fails with `InitSnakeSizeIsBig` when the initial snake
    /// does not fit to the left of the grid's center, and with
    /// `RowIndexOutOfBounds` when it does but the grid has no row to put it on.
    pub fn new(opts: &Options) -> (r: SnakeCtrlResult<Self>)
        ensures
            Board::start(opts.resolved()) matches Err(e) ==> (r matches Err(f) && f == e),
            Board::start(opts.resolved()) is Ok ==> (r matches Ok(c) && {
                &&& c.wf()
                &&& c.config() == opts.resolved()
                &&& c.board().fresh(opts.resolved())
                &&& c.heading() == Self::initial_direction()
                &&& c.buffered() == Self::initial_direction()
            }),
    {
        let cfg = InnerCfg::from_options(opts);
        let board = Board::new(cfg)?;

        Ok(SnakeCtrl { next_direction: Direction::Right, board, cfg, current_direction: Direction::Right })
    }

    /// Asks for a change of direction, to be applied on the next tick. A
    /// request to turn straight back is never buffered: it is an error with
    /// `fail_on_revert` and ignored without.
    pub fn direction_to(&mut self, direction: Direction) -> (r: SnakeCtrlResult<()>)
        ensures
            final(self).heading() == old(self).heading(),
            final(self).board() == old(self).board(),
            final(self).config() == old(self).config(),
            r is Err <==> old(self).config().fail_on_revert && direction == old(
                self,
            ).heading().opposite(),
            r matches Err(e) ==> e == SnakeCtrlErr::SnakeAteItself,
            final(self).buffered() == if direction == old(self).heading().opposite() {
                old(self).buffered()
            } else {
                direction
            },
    {
        let is_opposite_direction = self.current_direction.opposite_direction() == direction;
        if self.cfg.fail_on_revert && is_opposite_direction {
            return Err(SnakeCtrlErr::SnakeAteItself);
        }
        if !is_opposite_direction {
            self.next_direction = direction;
        }

        Ok(())
    }

    /// The direction that the last tick applied.
    pub fn current_direction(&self) -> (r: Direction)
        ensures
            r == self.heading(),
    {
        self.current_direction
    }

    /// Applies the buffered direction and moves the snake one cell in it.
    /// Returns whether the snake ate.
    pub fn next_tick(&mut self) -> (r: SnakeCtrlResult<bool>)
        requires
            old(self).wf(),
        ensures
            final(self).wf(),
            final(self).heading() == old(self).buffered(),
            final(self).buffered() == old(self).buffered(),
            final(self).config() == old(self).config(),
            old(self).board().steps_to(old(self).buffered(), final(self).board(), r),
            old(self).board().intact() && r is Ok ==> final(self).board().intact(),
    {
        self.current_direction = self.next_direction;
        self.board.move_snake(self.next_direction)
    }

    /// Starts the session again: the initial snake, the initial direction.
    pub fn restart(&mut self) -> (r: SnakeCtrlResult<()>)
        requires
            old(self).wf(),
        ensures
            r is Ok,
            final(self).wf(),
            final(self).config() == old(self).config(),
            final(self).board().fresh(old(self).config()),
            final(self).heading() == Self::initial_direction(),
            final(self).buffered() == Self::initial_direction(),
    {
        self.next_direction = Direction::Right;
        self.current_direction = Direction::Right;
        self.board.restart()
    }

    /// A copy of the raw state. The tail's direction is that in which the
    /// tail lies from the point before it, so the snake must have two points.
    pub fn get_state(&self) -> (r: SnakeCtrlState)
        requires
            self.wf(),
            self.board().snake@.len() >= 2,
        ensures
            r.snake@ == self.board().snake@,
            r.food@ == self.board().food@,
            r.head_direction == self.heading(),
            Some(r.tail_direction) == r.snake@.last().offset_from(r.snake@[r.snake@.len() - 2]),
    {
        let snake = self.board.clone_snake();
        let food = self.board.clone_food();
        let head_direction = self.current_direction;
        let tail = snake[snake.len() - 1];
        let pre_tail = snake[snake.len() - 2];
        assert(aligned_at(snake@, snake@.len() - 2));
        let tail_direction = tail.offset_from_near(&pre_tail).unwrap();

        SnakeCtrlState { snake, food, head_direction, tail_direction }
    }

    /// The classified state, with the food mirrored and the snake as it lies.
    pub fn get_full_state(&self) -> (r: SnakeCtrlFullState)
        requires
            self.wf(),
        ensures
            r.snake@ == full_state_parts(
                self.board().snake@,
                self.heading(),
                self.config().dimension_y,
                false,
            ),
            r.food@ == mirror_all(self.board().food@, self.config().dimension_y),
            r.direction == self.heading(),
    {
        calc_full_state(
            self.board.snake.as_slice(),
            self.board.food.as_slice(),
            self.current_direction,
            self.cfg.dimension_y,
            false,
        )
    }

    /// The classified state with food and snake mirrored, for a renderer
    /// whose rows grow downwards.
    pub fn get_full_state_reversed_y(&self) -> (r: SnakeCtrlFullState)
        requires
            self.wf(),
        ensures
            r.snake@ == full_state_parts(
                self.board().snake@,
                self.heading(),
                self.config().dimension_y,
                true,
            ),
            r.food@ == mirror_all(self.board().food@, self.config().dimension_y),
            r.direction == self.heading(),
    {
        calc_full_state(
            self.board.snake.as_slice(),
            self.board.food.as_slice(),
            self.current_direction,
            self.cfg.dimension_y,
            true,
        )
    }

    /// The raw state with every point mirrored. The directions are those of
    /// the state as it lies.
    pub fn get_state_reversed_y(&self) -> (r: SnakeCtrlState)
        requires
            self.wf(),
            self.board().snake@.len() >= 2,
        ensures
            r.snake@ == mirror_all(self.board().snake@, self.config().dimension_y),
            r.food@ == mirror_all(self.board().food@, self.config().dimension_y),
            r.head_direction == self.heading(),
            Some(r.tail_direction) == self.board().snake@.last().offset_from(
                self.board().snake@[self.board().snake@.len() - 2],
            ),
    {
        let dim_y = self.cfg.dimension_y;
        let mut state = self.get_state();
        reverse_all_y(&mut state.snake, dim_y);
        reverse_all_y(&mut state.food, dim_y);
        state
    }

    /// The grid as a matrix of numbers: `FOOD_CELL` where food lies,
    /// `SNAKE_CELL` where the snake lies, `EMPTY_CELL` elsewhere.
    pub fn get_matrix(&self) -> (m: Matrix)
        requires
            self.wf(),
        ensures
            m.has_shape(self.config().dimension_x, self.config().dimension_y),
            forall|x: int, y: int|
                0 <= x < self.config().dimension_x && 0 <= y < self.config().dimension_y
                    ==> #[trigger] m.cell(x, y) == if hits(self.board().food@, x, y) {
                    FOOD_CELL
                } else if hits(self.board().snake@, x, y) {
                    SNAKE_CELL
                } else {
                    EMPTY_CELL
                },
    {
        self.board.get_matrix()
    }
}

} // verus!
