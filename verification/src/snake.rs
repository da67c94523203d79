//! The snake as an ordered list of points, head first, and the single step
//! that moves it.

use vstd::prelude::*;
use crate::err::{SnakeCtrlErr, SnakeCtrlResult};
use crate::geometry::{Direction, Point};
use crate::options::InnerCfg;

verus! {

/// The operations on a snake's points. The points themselves are held by the
/// board.
pub struct Snake {}

/// Whether every point of `points` is a cell of the grid.
pub open spec fn within(cfg: InnerCfg, points: Seq<Point>) -> bool {
    forall|i: int| 0 <= i < points.len() ==> cfg.contains(#[trigger] points[i])
}

/// Whether the points at `i` and `i + 1` share a column or a row.
pub open spec fn aligned_at(snake: Seq<Point>, i: int) -> bool {
    snake[i].aligned(snake[i + 1])
}

/// A snake is linked when every two consecutive points share a column or a
/// row. A step keeps this true even when it wraps round the grid.
pub open spec fn linked(snake: Seq<Point>) -> bool {
    forall|i: int| 0 <= i < snake.len() - 1 ==> #[trigger] aligned_at(snake, i)
}

/// The snake a session starts with: `size` points on the row of `center`,
/// the head on `center` and each further point one column to the left.
pub open spec fn initial_snake(center: Point, size: u16) -> Seq<Point> {
    Seq::new(size as nat, |i: int| Point((center.0 - i) as u16, center.1))
}

/// Where a head that stepped to `candidate` ends up. Inside the grid it stays
/// where it is. Outside, it is an error when walls are solid; otherwise the
/// coordinate that left the grid re-enters from the opposite edge and the
/// other coordinate is kept. The edges are tried in the order left, bottom,
/// right, top.
pub open spec fn wall_policy(cfg: InnerCfg, candidate: (int, int)) -> SnakeCtrlResult<Point> {
    let (x, y) = candidate;
    if 0 <= x < cfg.dimension_x && 0 <= y < cfg.dimension_y {
        Ok(Point(x as u16, y as u16))
    } else if !cfg.walking_through_the_walls {
        Err(SnakeCtrlErr::SnakeHitTheWall)
    } else if x < 0 {
        Ok(Point((cfg.dimension_x - 1) as u16, y as u16))
    } else if y < 0 {
        Ok(Point(x as u16, (cfg.dimension_y - 1) as u16))
    } else if x > cfg.dimension_x - 1 {
        Ok(Point(0, y as u16))
    } else {
        Ok(Point(x as u16, 0))
    }
}

/// Whether the head, at index 0, also occurs further down the snake.
pub open spec fn bites_itself(snake: Seq<Point>) -> bool {
    exists|i: int| 1 <= i < snake.len() && #[trigger] snake[i] == snake[0]
}

/// One step of the snake in `direction`: the points afterwards and what the
/// step returns.
///
/// A snake of fewer than two points cannot step and is left as it is. Else the
/// tail comes off and the head's new place is decided by the wall rule. If
/// that fails the snake stays without its tail. Otherwise the new head goes
/// in front; if it landed on the body the step fails with the head in place,
/// and if not the step hands back the tail that came off.
pub open spec fn moved(cfg: InnerCfg, snake: Seq<Point>, direction: Direction) -> (
    Seq<Point>,
    SnakeCtrlResult<Point>,
) {
    if snake.len() < 2 {
        (snake, Err(SnakeCtrlErr::SnakeIsZero))
    } else {
        let body = snake.drop_last();
        match wall_policy(cfg, body[0].stepped(direction)) {
            Err(e) => (body, Err(e)),
            Ok(head) => {
                let grown = body.insert(0, head);
                if body.contains(head) {
                    (grown, Err(SnakeCtrlErr::SnakeAteItself))
                } else {
                    (grown, Ok(snake.last()))
                }
            },
        }
    }
}

/// A step from a cell of the grid that passes the wall rule lands on a cell of
/// the grid, in the column or the row of the cell it came from.
pub proof fn lemma_step_lands(cfg: InnerCfg, p: Point, direction: Direction)
    requires
        cfg.contains(p),
        wall_policy(cfg, p.stepped(direction)) is Ok,
    ensures
        cfg.contains(wall_policy(cfg, p.stepped(direction))->Ok_0),
        wall_policy(cfg, p.stepped(direction))->Ok_0.aligned(p),
{
}

/// Whatever a step returns, it leaves a snake that lies on the grid, is linked
/// and has a head. When the step succeeds, the same holds of the snake with
/// the returned tail put back at its end.
pub proof fn lemma_moved_keeps_shape(cfg: InnerCfg, snake: Seq<Point>, direction: Direction)
    requires
        snake.len() >= 1,
        within(cfg, snake),
        linked(snake),
    ensures
        ({
            let (after, r) = moved(cfg, snake, direction);
            &&& after.len() >= 1
            &&& within(cfg, after)
            &&& linked(after)
            &&& (r matches Ok(tail) ==> {
                &&& after.push(tail) == snake.insert(0, after[0])
                &&& within(cfg, after.push(tail))
                &&& linked(after.push(tail))
            })
        }),
{
    let (after, r) = moved(cfg, snake, direction);
    if snake.len() >= 2 {
        let body = snake.drop_last();
        assert forall|i: int| 0 <= i < body.len() - 1 implies #[trigger] aligned_at(body, i) by {
            assert(aligned_at(snake, i));
        }
        match wall_policy(cfg, body[0].stepped(direction)) {
            Err(_) => {},
            Ok(_) => {
                lemma_step_lands(cfg, body[0], direction);
                assert forall|i: int| 0 <= i < after.len() - 1 implies #[trigger] aligned_at(
                    after,
                    i,
                ) by {
                    if i > 0 {
                        assert(aligned_at(body, i - 1));
                    }
                }
                if r is Ok {
                    let full = after.push(snake.last());
                    assert forall|i: int| 0 <= i < full.len() - 1 implies #[trigger] aligned_at(
                        full,
                        i,
                    ) by {
                        if i > 0 {
                            assert(aligned_at(snake, i - 1));
                        }
                    }
                }
            },
        }
    }
}

/// Every point of the snake after a step was a point of the snake before it,
/// with one exception: the new head of a step that succeeded.
pub proof fn lemma_moved_covers_old_ground(cfg: InnerCfg, snake: Seq<Point>, direction: Direction)
    ensures
        ({
            let (after, r) = moved(cfg, snake, direction);
            forall|p: Point| #[trigger]
                after.contains(p) ==> snake.contains(p) || (r is Ok && p == after[0])
        }),
{
    let (after, r) = moved(cfg, snake, direction);
    assert forall|p: Point| #[trigger] after.contains(p) implies snake.contains(p) || (r is Ok && p
        == after[0]) by {
        let a = choose|a: int| 0 <= a < after.len() && after[a] == p;
        if snake.len() < 2 || after.len() < snake.len() {
            assert(snake[a] == p);
        } else if a > 0 {
            assert(snake[a - 1] == p);
        } else if r is Err {
            let body = snake.drop_last();
            let b = choose|b: int| 0 <= b < body.len() && body[b] == p;
            assert(snake[b] == p);
        }
    }
}

/// A step that succeeds on a snake whose points are all different leaves a
/// snake whose points are all different. Putting the returned tail back keeps
/// that true when the new head did not land where the tail was.
pub proof fn lemma_moved_keeps_distinct(cfg: InnerCfg, snake: Seq<Point>, direction: Direction)
    requires
        snake.no_duplicates(),
        moved(cfg, snake, direction).1 is Ok,
    ensures
        ({
            let (after, r) = moved(cfg, snake, direction);
            &&& after.no_duplicates()
            &&& after[0] != r->Ok_0 ==> after.push(r->Ok_0).no_duplicates()
        }),
{
    let (after, r) = moved(cfg, snake, direction);
    let body = snake.drop_last();
    assert forall|i: int, j: int| 0 <= i < j < after.len() implies after[i] != after[j] by {
        if i == 0 {
            assert(body[j - 1] == after[j]);
        } else {
            assert(snake[i - 1] != snake[j - 1]);
        }
    }
    if after[0] != r->Ok_0 {
        let full = after.push(r->Ok_0);
        assert forall|i: int, j: int| 0 <= i < j < full.len() implies full[i] != full[j] by {
            if i > 0 {
                assert(snake[i - 1] != snake[j - 1]);
            } else if j < full.len() - 1 {
                assert(body[j - 1] == full[j]);
            }
        }
    }
}

impl Snake {
    /// Lays out the initial snake to the left of `center`, or fails when it
    /// would not fit between `center` and the left edge.
    pub fn create(center: Point, size: u16) -> (r: SnakeCtrlResult<Vec<Point>>)
        ensures
            center.0 < size ==> r == Err::<Vec<Point>, SnakeCtrlErr>(
                SnakeCtrlErr::InitSnakeSizeIsBig,
            ),
            center.0 >= size ==> r is Ok && r->Ok_0@ == initial_snake(center, size),
    {
        let Point(center_x, center_y) = center;

        if center_x < size {
            return Err(SnakeCtrlErr::InitSnakeSizeIsBig);
        }

        let mut snake: Vec<Point> = Vec::with_capacity(size as usize);
        let mut snake_part_ind: u16 = 0;
        while snake_part_ind < size
            invariant
                snake_part_ind <= size <= center_x,
                center == Point(center_x, center_y),
                snake@ == initial_snake(center, size).take(snake_part_ind as int),
            decreases size - snake_part_ind,
        {
            snake.push(Point(center_x - snake_part_ind, center_y));
            snake_part_ind += 1;
        }

        Ok(snake)
    }

    /// Moves the snake one cell in `direction` and hands back the tail that
    /// came off, so that the caller can put it back if the snake has eaten.
    pub fn move_snake(cfg: &InnerCfg, snake: &mut Vec<Point>, direction: Direction) -> (r:
        SnakeCtrlResult<Point>)
        requires
            within(*cfg, old(snake)@),
        ensures
            final(snake)@ == moved(*cfg, old(snake)@, direction).0,
            r == moved(*cfg, old(snake)@, direction).1,
    {
        if snake.len() < 2 {
            return Err(SnakeCtrlErr::SnakeIsZero);
        }
        let last = snake.pop().unwrap();
        let ghost body = snake@;

        let head = snake[0];
        let head_x = head.0;
        let head_y = head.1;

        let new_head = match direction {
            Direction::Right => (head_x as i32 + 1, head_y as i32),
            Direction::Top => (head_x as i32, head_y as i32 + 1),
            Direction::Bottom => (head_x as i32, head_y as i32 - 1),
            Direction::Left => (head_x as i32 - 1, head_y as i32),
        };

        let new_head = Snake::try_teleport_head_if_need(cfg, new_head)?;

        snake.insert(0, new_head);

        proof {
            if bites_itself(snake@) {
                let i = choose|i: int| 1 <= i < snake@.len() && #[trigger] snake@[i] == snake@[0];
                assert(body[i - 1] == new_head);
            }
            if body.contains(new_head) {
                let j = choose|j: int| 0 <= j < body.len() && body[j] == new_head;
                assert(snake@[j + 1] == snake@[0]);
            }
        }
        if Snake::is_ate_itself(snake.as_slice()) {
            return Err(SnakeCtrlErr::SnakeAteItself);
        }

        Ok(last)
    }

    /// Whether the head lies on another point of the snake.
    pub fn is_ate_itself(snake: &[Point]) -> (r: bool)
        requires
            snake@.len() >= 1,
        ensures
            r == bites_itself(snake@),
    {
        let head = &snake[0];
        let mut i: usize = 1;
        while i < snake.len()
            invariant
                1 <= i <= snake@.len(),
                *head == snake@[0],
                forall|j: int| 1 <= j < i ==> #[trigger] snake@[j] != *head,
            decreases snake@.len() - i,
        {
            let snake_part = &snake[i];
            if *snake_part == *head {
                return true;
            }
            i += 1;
        }
        false
    }

    /// The food point under the head, if there is one.
    pub fn has_eaten(snake: &[Point], food: &[Point]) -> (r: Option<Point>)
        requires
            snake@.len() >= 1,
        ensures
            r == if food@.contains(snake@[0]) {
                Some(snake@[0])
            } else {
                None::<Point>
            },
    {
        let first = &snake[0];
        let mut i: usize = 0;
        while i < food.len()
            invariant
                i <= food@.len(),
                *first == snake@[0],
                forall|j: int| 0 <= j < i ==> #[trigger] food@[j] != *first,
            decreases food@.len() - i,
        {
            let f = &food[i];
            if *f == *first {
                return Some(*f);
            }
            i += 1;
        }
        None
    }

    /// Applies the wall rule to the coordinates a head stepped to. At least
    /// one of the two coordinates must lie inside the grid, as it does after
    /// one step from a cell of the grid.
    pub fn try_teleport_head_if_need(cfg: &InnerCfg, new_head_unnormalized: (i32, i32)) -> (r:
        SnakeCtrlResult<Point>)
        requires
            cfg.dimension_x >= 1,
            cfg.dimension_y >= 1,
            0 <= new_head_unnormalized.0 < cfg.dimension_x || 0 <= new_head_unnormalized.1
                < cfg.dimension_y,
        ensures
            r == wall_policy(*cfg, (new_head_unnormalized.0 as int, new_head_unnormalized.1 as int)),
    {
        let (new_head_x, new_head_y) = new_head_unnormalized;
        let can_teleport = cfg.walking_through_the_walls;
        if new_head_unnormalized.0 < 0 {
            if !can_teleport {
                return Err(SnakeCtrlErr::SnakeHitTheWall);
            }
            return Ok(Point(cfg.dimension_x - 1, new_head_y as u16));
        } else if new_head_y < 0 {
            if !can_teleport {
                return Err(SnakeCtrlErr::SnakeHitTheWall);
            }
            return Ok(Point(new_head_x as u16, cfg.dimension_y - 1));
        } else if new_head_x > (cfg.dimension_x as i32 - 1) {
            if !can_teleport {
                return Err(SnakeCtrlErr::SnakeHitTheWall);
            }
            return Ok(Point(0, new_head_y as u16));
        } else if new_head_unnormalized.1 > (cfg.dimension_y as i32 - 1) {
            if !can_teleport {
                return Err(SnakeCtrlErr::SnakeHitTheWall);
            }
            return Ok(Point(new_head_x as u16, 0));
        }

        Ok(Point(new_head_x as u16, new_head_y as u16))
    }
}

} // verus!
