//! Laws of the game, each proved from the contracts of the functions it
//! speaks of.

use vstd::prelude::*;
use crate::board::{lemma_initial_snake, Board};
use crate::err::{SnakeCtrlErr, SnakeCtrlResult};
use crate::food::{
    free_cells,
    is_nth_free,
    lemma_free_cell_counted,
    lemma_free_in_row_monotone,
    lemma_free_in_rows_monotone,
    lemma_without_first_distinct,
    occupied,
    without_first,
};
use crate::full_state::{
    body_variant,
    corner_of,
    full_state_parts,
    mirror_all,
    part_variant,
    rows_within,
    SnakePartVariant,
};
use crate::geometry::{Direction, Point};
use crate::options::InnerCfg;
use crate::snake::{moved, wall_policy, within};

verus! {

/// The board a session starts with holds a snake of exactly
/// `initial_snake_size` points, all different, all on the grid, all on the
/// center row, the head on the center column and each further point one
/// column to the left.
pub proof fn law_fresh_layout(board: Board, cfg: InnerCfg)
    requires
        board.fresh(cfg),
    ensures
        board.snake@.len() == cfg.initial_snake_size,
        board.snake@.no_duplicates(),
        within(cfg, board.snake@),
        forall|i: int|
            0 <= i < board.snake@.len() ==> #[trigger] board.snake@[i] == Point(
                (cfg.dimension_x / 2 - i) as u16,
                cfg.dimension_y / 2,
            ),
{
    lemma_initial_snake(cfg);
}

/// Whatever the shape of the snake, a step that succeeds without eating puts
/// the head one cell further and moves every other point to where the point
/// before it was. The length stays.
pub proof fn law_move_follows_the_head(
    pre: Board,
    direction: Direction,
    post: Board,
    r: SnakeCtrlResult<bool>,
)
    requires
        pre.wf(),
        pre.steps_to(direction, post, r),
        r == Ok::<bool, SnakeCtrlErr>(false),
    ensures
        post.snake@.len() == pre.snake@.len(),
        Ok::<Point, SnakeCtrlErr>(post.snake@[0]) == wall_policy(
            pre.cfg,
            pre.snake@[0].stepped(direction),
        ),
        forall|i: int| 1 <= i < post.snake@.len() ==> #[trigger] post.snake@[i] == pre.snake@[i - 1],
        post.food@ == pre.food@,
{
}

/// Whether the point at `i` lies one step in `direction` from the point after
/// it.
pub open spec fn leads(snake: Seq<Point>, direction: Direction, i: int) -> bool {
    snake[i + 1].stepped(direction) == snake[i].coordinates()
}

/// Whether each point of `snake` lies one step in `direction` from the point
/// after it: the snake is straight and heads in `direction`.
pub open spec fn straight(snake: Seq<Point>, direction: Direction) -> bool {
    forall|i: int| 0 <= i < snake.len() - 1 ==> #[trigger] leads(snake, direction, i)
}

/// Whether none of `points` lies at the coordinates `at`.
pub open spec fn clear_of(points: Seq<Point>, at: (int, int)) -> bool {
    forall|i: int| 0 <= i < points.len() ==> (#[trigger] points[i]).coordinates() != at
}

/// A straight snake that steps on in its own direction, with the cell ahead
/// on the grid and free of snake and food, keeps its length, and every one of
/// its points moves exactly one cell in that direction.
pub proof fn law_straight_move_shifts(
    pre: Board,
    direction: Direction,
    post: Board,
    r: SnakeCtrlResult<bool>,
)
    requires
        pre.wf(),
        pre.snake@.len() >= 2,
        straight(pre.snake@, direction),
        0 <= pre.snake@[0].stepped(direction).0 < pre.cfg.dimension_x,
        0 <= pre.snake@[0].stepped(direction).1 < pre.cfg.dimension_y,
        clear_of(pre.snake@, pre.snake@[0].stepped(direction)),
        clear_of(pre.food@, pre.snake@[0].stepped(direction)),
        pre.steps_to(direction, post, r),
    ensures
        r == Ok::<bool, SnakeCtrlErr>(false),
        post.snake@.len() == pre.snake@.len(),
        forall|i: int|
            0 <= i < post.snake@.len() ==> (#[trigger] post.snake@[i]).coordinates()
                == pre.snake@[i].stepped(direction),
{
    let snake = pre.snake@;
    let body = snake.drop_last();
    let head = wall_policy(pre.cfg, snake[0].stepped(direction))->Ok_0;
    if body.contains(head) {
        let j = choose|j: int| 0 <= j < body.len() && body[j] == head;
        assert(snake[j] == head);
    }
    if pre.food@.contains(head) {
        let j = choose|j: int| 0 <= j < pre.food@.len() && pre.food@[j] == head;
        assert(pre.food@[j] == head);
    }
    assert forall|i: int| 0 <= i < post.snake@.len() implies (
    #[trigger] post.snake@[i]).coordinates() == pre.snake@[i].stepped(direction) by {
        if i > 0 {
            assert(leads(snake, direction, i - 1));
        }
    }
}

/// A step returns `Ok(true)` exactly when the snake steps without failing onto
/// a cell that holds food. The snake is then one point longer, the food it
/// stepped on is gone from the food, and no food lies under the new head.
/// Without `auto_gen_food` there is one food point fewer. With it the number of
/// food points is what it was before, unless the grid was full: then it is
/// one fewer.
pub proof fn law_eating_grows(
    pre: Board,
    direction: Direction,
    post: Board,
    r: SnakeCtrlResult<bool>,
)
    requires
        pre.wf(),
        pre.steps_to(direction, post, r),
    ensures
        r == Ok::<bool, SnakeCtrlErr>(true) <==> moved(pre.cfg, pre.snake@, direction).1 is Ok
            && pre.food@.contains(moved(pre.cfg, pre.snake@, direction).0[0]),
        r == Ok::<bool, SnakeCtrlErr>(true) ==> {
            let rest = without_first(pre.food@, post.snake@[0]);
            &&& post.snake@.len() == pre.snake@.len() + 1
            &&& pre.food@.contains(post.snake@[0])
            &&& !post.food@.contains(post.snake@[0])
            &&& rest.len() == pre.food@.len() - 1
            &&& !pre.cfg.auto_gen_food ==> post.food@ == rest
            &&& pre.cfg.auto_gen_food ==> post.food@.len() == if free_cells(
                pre.cfg,
                post.snake@,
                rest,
            ) == 0 {
                pre.food@.len() - 1
            } else {
                pre.food@.len() as int
            }
        },
{
    if r == Ok::<bool, SnakeCtrlErr>(true) {
        let head = post.snake@[0];
        let rest = without_first(pre.food@, head);
        lemma_without_first_distinct(pre.food@, head);
        if pre.cfg.auto_gen_food && post.food@.contains(head) {
            // The food is what was left, with at most one point more, on a cell off the snake.
            let j = choose|j: int| 0 <= j < post.food@.len() && post.food@[j] == head;
            if j < rest.len() {
                assert(post.food@.drop_last()[j] == head);
            }
            assert(post.snake@.contains(head));
        }
    }
}

/// When the count of free cells is zero the grid is full: every cell holds
/// snake or food.
pub proof fn law_no_free_cell_on_full_grid(cfg: InnerCfg, snake: Seq<Point>, food: Seq<Point>)
    requires
        free_cells(cfg, snake, food) == 0,
    ensures
        forall|p: Point| cfg.contains(p) ==> occupied(snake, food, p),
{
    assert forall|p: Point| cfg.contains(p) implies occupied(snake, food, p) by {
        if !occupied(snake, food, p) {
            lemma_free_cell_counted(cfg, snake, food, p);
        }
    }
}

/// The numbering of the free cells gives each number to one cell only.
pub proof fn law_free_cell_numbers_are_unique(
    cfg: InnerCfg,
    snake: Seq<Point>,
    food: Seq<Point>,
    k: nat,
    p: Point,
    q: Point,
)
    requires
        is_nth_free(cfg, snake, food, k, p),
        is_nth_free(cfg, snake, food, k, q),
    ensures
        p == q,
{
    if p != q {
        let (a, b) = if p.1 < q.1 || (p.1 == q.1 && p.0 < q.0) {
            (p, q)
        } else {
            (q, p)
        };
        if a.1 == b.1 {
            lemma_free_in_row_monotone(snake, food, a.1 as int, a.0 + 1, b.0 as int);
        } else {
            lemma_free_in_row_monotone(snake, food, a.1 as int, a.0 + 1, cfg.dimension_x as int);
            lemma_free_in_rows_monotone(cfg, snake, food, a.1 + 1, b.1 as int);
        }
    }
}

/// A head that steps onto a point of the snake other than the tail is a
/// failure with `SnakeAteItself`. The snake is left with its new head on the
/// body and without its old tail: the fatal move can be seen in it.
pub proof fn law_self_collision(cfg: InnerCfg, snake: Seq<Point>, direction: Direction)
    requires
        snake.len() >= 2,
        wall_policy(cfg, snake[0].stepped(direction)) is Ok,
        snake.drop_last().contains(wall_policy(cfg, snake[0].stepped(direction))->Ok_0),
    ensures
        ({
            let (after, r) = moved(cfg, snake, direction);
            &&& r == Err::<Point, SnakeCtrlErr>(SnakeCtrlErr::SnakeAteItself)
            &&& after.len() == snake.len()
            &&& Ok::<Point, SnakeCtrlErr>(after[0]) == wall_policy(cfg, snake[0].stepped(direction))
            &&& forall|i: int| 1 <= i < after.len() ==> #[trigger] after[i] == snake[i - 1]
        }),
{
}

/// With open walls a step off an edge of the grid lands on the opposite edge:
/// off column 0 on the last column and off the last column on column 0, the row
/// unchanged; off row 0 on the last row and off the last row on row 0, the
/// column unchanged.
pub proof fn law_open_walls_wrap(cfg: InnerCfg, p: Point)
    requires
        cfg.walking_through_the_walls,
        cfg.contains(p),
    ensures
        p.0 == 0 ==> wall_policy(cfg, p.stepped(Direction::Left)) == Ok::<Point, SnakeCtrlErr>(
            Point((cfg.dimension_x - 1) as u16, p.1),
        ),
        p.0 == cfg.dimension_x - 1 ==> wall_policy(cfg, p.stepped(Direction::Right)) == Ok::<
            Point,
            SnakeCtrlErr,
        >(Point(0, p.1)),
        p.1 == 0 ==> wall_policy(cfg, p.stepped(Direction::Bottom)) == Ok::<Point, SnakeCtrlErr>(
            Point(p.0, (cfg.dimension_y - 1) as u16),
        ),
        p.1 == cfg.dimension_y - 1 ==> wall_policy(cfg, p.stepped(Direction::Top)) == Ok::<
            Point,
            SnakeCtrlErr,
        >(Point(p.0, 0)),
{
}

/// Whether a step from `p` in `direction` leaves the grid.
pub open spec fn leaves_grid(cfg: InnerCfg, p: Point, direction: Direction) -> bool {
    match direction {
        Direction::Left => p.0 == 0,
        Direction::Right => p.0 == cfg.dimension_x - 1,
        Direction::Bottom => p.1 == 0,
        Direction::Top => p.1 == cfg.dimension_y - 1,
    }
}

/// With solid walls a step off any edge of the grid fails with
/// `SnakeHitTheWall`. The snake has then lost its tail and gained no head: it
/// is exactly one point shorter than before.
pub proof fn law_solid_walls_kill(cfg: InnerCfg, snake: Seq<Point>, direction: Direction)
    requires
        !cfg.walking_through_the_walls,
        snake.len() >= 2,
        cfg.contains(snake[0]),
        leaves_grid(cfg, snake[0], direction),
    ensures
        moved(cfg, snake, direction).1 == Err::<Point, SnakeCtrlErr>(SnakeCtrlErr::SnakeHitTheWall),
        moved(cfg, snake, direction).0 == snake.drop_last(),
        moved(cfg, snake, direction).0.len() == snake.len() - 1,
{
}

/// Three points in one column or one row, each near the next, make a straight
/// piece: vertical in a column, horizontal in a row.
pub proof fn law_straight_run_is_body(prev: Point, curr: Point, next: Point)
    requires
        prev.near(curr),
        curr.near(next),
        (prev.0 == curr.0 && curr.0 == next.0) || (prev.1 == curr.1 && curr.1 == next.1),
    ensures
        body_variant(prev, curr, next) == SnakePartVariant::Body(prev.0 == curr.0),
{
}

/// Three points, each near the next, that lie neither in one column nor in
/// one row make a corner: the one that joins the direction from the first to
/// the second with the direction from the second to the third.
pub proof fn law_turn_is_corner(prev: Point, curr: Point, next: Point)
    requires
        prev.near(curr),
        curr.near(next),
        !(prev.0 == curr.0 && curr.0 == next.0),
        !(prev.1 == curr.1 && curr.1 == next.1),
    ensures
        body_variant(prev, curr, next) == SnakePartVariant::Corner(
            corner_of(curr.offset_from(prev).unwrap(), next.offset_from(curr).unwrap()),
        ),
{
}

/// Mirroring is its own inverse. The points of the mirrored state, mirrored
/// once more about the same `dim_y`, are the points of the snake and of the
/// food as they lie, and its corners, turned once more, are the corners of the
/// state as it lies.
pub proof fn law_mirror_round_trip(
    snake: Seq<Point>,
    food: Seq<Point>,
    direction: Direction,
    dim_y: u16,
)
    requires
        rows_within(snake, dim_y),
        rows_within(food, dim_y),
    ensures
        mirror_all(mirror_all(snake, dim_y), dim_y) == snake,
        mirror_all(mirror_all(food, dim_y), dim_y) == food,
        forall|i: int|
            0 <= i < snake.len() ==> {
                let part = #[trigger] full_state_parts(snake, direction, dim_y, true)[i];
                &&& part.point.mirrored(dim_y) == snake[i]
                &&& part.variant.mirrored() == part_variant(snake, direction, i)
            },
{
}

} // verus!
