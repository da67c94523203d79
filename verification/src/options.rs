//! Session configuration: the builder that callers fill in, and the resolved
//! record that the board and the controller read.

use vstd::prelude::*;
use crate::geometry::Point;

verus! {

/// The number of columns unless set.
pub const DEF_DIMENSION_X: u16 = 7;

/// The number of rows unless set.
pub const DEF_DIMENSION_Y: u16 = 7;

/// The initial length of the snake unless set.
pub const DEF_INITIAL_SNAKE_SIZE: u16 = 3;

/// Whether walls are open unless set.
pub const DEF_WALKING_THROUGH_THE_WALLS: bool = true;

/// Whether a reversal is an error unless set.
pub const DEF_FAIL_ON_REVERT: bool = false;

/// Whether eaten food is replaced unless set.
pub const DEF_AUTO_GEN_FOOD: bool = true;

/// The shortest snake a session can start with.
pub const MIN_SNAKE_SIZE: u16 = 3;

/// A builder for the session's configuration. Every setting that is left
/// untouched takes its default.
pub struct Options {
    dimension_x: Option<u16>,
    dimension_y: Option<u16>,
    initial_snake_size: Option<u16>,
    walking_through_the_walls: Option<bool>,
    fail_on_revert: Option<bool>,
    auto_gen_food: Option<bool>,
}

/// The configuration of one session, with every default filled in.
#[derive(Copy, Clone, Debug)]
pub struct InnerCfg {
    /// Number of columns.
    pub dimension_x: u16,
    /// Number of rows.
    pub dimension_y: u16,
    /// Length of the snake at the start, at least `MIN_SNAKE_SIZE`.
    pub initial_snake_size: u16,
    /// Whether leaving the grid re-enters it from the opposite edge.
    pub walking_through_the_walls: bool,
    /// Whether asking for an immediate reversal is an error.
    pub fail_on_revert: bool,
    /// Whether a new food point appears whenever one is eaten.
    pub auto_gen_food: bool,
}

impl InnerCfg {
    /// What holds of every configuration made from options: the snake starts
    /// with at least `MIN_SNAKE_SIZE` points.
    pub open spec fn wf(self) -> bool {
        self.initial_snake_size >= MIN_SNAKE_SIZE
    }

    /// Whether `p` is a cell of the grid.
    pub open spec fn contains(self, p: Point) -> bool {
        p.0 < self.dimension_x && p.1 < self.dimension_y
    }

    /// The cell the initial snake's head is placed on.
    pub open spec fn center(self) -> Point {
        Point(self.dimension_x / 2, self.dimension_y / 2)
    }

    /// Whether the initial snake fits between the left edge and the center.
    pub open spec fn fits(self) -> bool {
        self.center().0 >= self.initial_snake_size
    }

    /// Whether the center is a row of the grid. It is unless the grid has no
    /// row at all.
    pub open spec fn has_center_row(self) -> bool {
        self.center().1 < self.dimension_y
    }

    /// The configuration that `opts` stand for.
    pub fn from_options(opts: &Options) -> (cfg: Self)
        ensures
            cfg == opts.resolved(),
            cfg.wf(),
    {
        let snake_size = if let Some(s) = opts.initial_snake_size {
            if s < MIN_SNAKE_SIZE {
                MIN_SNAKE_SIZE
            } else {
                s
            }
        } else {
            DEF_INITIAL_SNAKE_SIZE
        };

        InnerCfg {
            dimension_x: opts.dimension_x.unwrap_or(DEF_DIMENSION_X),
            dimension_y: opts.dimension_y.unwrap_or(DEF_DIMENSION_Y),
            initial_snake_size: snake_size,
            walking_through_the_walls: opts.walking_through_the_walls.unwrap_or(
                DEF_WALKING_THROUGH_THE_WALLS,
            ),
            fail_on_revert: opts.fail_on_revert.unwrap_or(DEF_FAIL_ON_REVERT),
            auto_gen_food: opts.auto_gen_food.unwrap_or(DEF_AUTO_GEN_FOOD),
        }
    }
}

impl Options {
    /// The configuration these options stand for: each setting that was given,
    /// each default where none was, and the snake's initial size raised to
    /// `MIN_SNAKE_SIZE` where it was set lower.
    pub closed spec fn resolved(&self) -> InnerCfg {
        InnerCfg {
            dimension_x: match self.dimension_x {
                Some(v) => v,
                None => DEF_DIMENSION_X,
            },
            dimension_y: match self.dimension_y {
                Some(v) => v,
                None => DEF_DIMENSION_Y,
            },
            initial_snake_size: match self.initial_snake_size {
                Some(s) => if s < MIN_SNAKE_SIZE {
                    MIN_SNAKE_SIZE
                } else {
                    s
                },
                None => DEF_INITIAL_SNAKE_SIZE,
            },
            walking_through_the_walls: match self.walking_through_the_walls {
                Some(v) => v,
                None => DEF_WALKING_THROUGH_THE_WALLS,
            },
            fail_on_revert: match self.fail_on_revert {
                Some(v) => v,
                None => DEF_FAIL_ON_REVERT,
            },
            auto_gen_food: match self.auto_gen_food {
                Some(v) => v,
                None => DEF_AUTO_GEN_FOOD,
            },
        }
    }

    /// Sets the number of columns.
    pub fn dimension_x(self, val: u16) -> (r: Self)
        ensures
            r.resolved() == (InnerCfg { dimension_x: val, ..self.resolved() }),
    {
        Options { dimension_x: Some(val), ..self }
    }

    /// Sets the number of rows.
    pub fn dimension_y(self, val: u16) -> (r: Self)
        ensures
            r.resolved() == (InnerCfg { dimension_y: val, ..self.resolved() }),
    {
        Options { dimension_y: Some(val), ..self }
    }

    /// Sets the initial length of the snake. A value below `MIN_SNAKE_SIZE`
    /// counts as `MIN_SNAKE_SIZE`.
    pub fn initial_snake_size(self, val: u16) -> (r: Self)
        ensures
            r.resolved() == (InnerCfg {
                initial_snake_size: if val < MIN_SNAKE_SIZE {
                    MIN_SNAKE_SIZE
                } else {
                    val
                },
                ..self.resolved()
            }),
    {
        Options { initial_snake_size: Some(val), ..self }
    }

    /// Sets whether a snake that leaves the grid comes back in on the other
    /// side. If not, leaving the grid is fatal.
    pub fn walking_through_the_walls(self, val: bool) -> (r: Self)
        ensures
            r.resolved() == (InnerCfg { walking_through_the_walls: val, ..self.resolved() }),
    {
        Options { walking_through_the_walls: Some(val), ..self }
    }

    /// Sets whether asking for a reversal is an error. If not, such a request
    /// is ignored.
    pub fn fail_on_revert(self, val: bool) -> (r: Self)
        ensures
            r.resolved() == (InnerCfg { fail_on_revert: val, ..self.resolved() }),
    {
        Options { fail_on_revert: Some(val), ..self }
    }

    /// Sets whether a new food point appears at the start and whenever one
    /// is eaten.
    pub fn auto_gen_food(self, val: bool) -> (r: Self)
        ensures
            r.resolved() == (InnerCfg { auto_gen_food: val, ..self.resolved() }),
    {
        Options { auto_gen_food: Some(val), ..self }
    }
}

impl Default for Options {
    fn default() -> (r: Self)
        ensures
            r.resolved() == (InnerCfg {
                dimension_x: DEF_DIMENSION_X,
                dimension_y: DEF_DIMENSION_Y,
                initial_snake_size: DEF_INITIAL_SNAKE_SIZE,
                walking_through_the_walls: DEF_WALKING_THROUGH_THE_WALLS,
                fail_on_revert: DEF_FAIL_ON_REVERT,
                auto_gen_food: DEF_AUTO_GEN_FOOD,
            }),
    {
        Options {
            dimension_x: None,
            dimension_y: None,
            initial_snake_size: None,
            walking_through_the_walls: None,
            fail_on_revert: None,
            auto_gen_food: None,
        }
    }
}

} // verus!
