//! The classified view of the snake that a renderer draws from: each point
//! tagged as head, tail, straight body or corner, with its orientation.

use vstd::prelude::*;
use vstd::slice::slice_to_vec;
use crate::geometry::{Direction, Point};
use crate::snake::{aligned_at, linked};

verus! {

/// The orientation of a corner piece.
#[derive(Copy, Clone, Eq, PartialEq, Debug, Structural)]
pub enum SnakeCornerVariant {
    TopLeft,
    TopRight,
    BottomLeft,
    BottomRight,
}

impl SnakeCornerVariant {
    /// The corner as it looks once rows are counted from the opposite edge:
    /// top and bottom trade places, left and right stay.
    pub open spec fn mirrored(self) -> SnakeCornerVariant {
        match self {
            SnakeCornerVariant::TopLeft => SnakeCornerVariant::BottomLeft,
            SnakeCornerVariant::TopRight => SnakeCornerVariant::BottomRight,
            SnakeCornerVariant::BottomLeft => SnakeCornerVariant::TopLeft,
            SnakeCornerVariant::BottomRight => SnakeCornerVariant::TopRight,
        }
    }

    /// The corner with top and bottom traded.
    pub fn reverse_y(&self) -> (r: Self)
        ensures
            r == self.mirrored(),
    {
        match self {
            SnakeCornerVariant::TopLeft => SnakeCornerVariant::BottomLeft,
            SnakeCornerVariant::TopRight => SnakeCornerVariant::BottomRight,
            SnakeCornerVariant::BottomLeft => SnakeCornerVariant::TopLeft,
            SnakeCornerVariant::BottomRight => SnakeCornerVariant::TopRight,
        }
    }
}

/// What a point of the snake is drawn as.
#[derive(Copy, Clone, Eq, PartialEq, Debug, Structural)]
pub enum SnakePartVariant {
    /// The head, with the direction the snake is travelling in.
    Head(Direction),
    /// The tail, with the direction in which it trails behind its neighbour.
    Tail(Direction),
    /// A straight piece; `true` when it runs vertically.
    Body(bool),
    /// A piece where the snake turns.
    Corner(SnakeCornerVariant),
}

impl SnakePartVariant {
    /// The variant as it looks once rows are counted from the opposite edge.
    /// Only corners change.
    pub open spec fn mirrored(self) -> SnakePartVariant {
        match self {
            SnakePartVariant::Corner(v) => SnakePartVariant::Corner(v.mirrored()),
            _ => self,
        }
    }
}

/// One point of the snake together with its classification.
#[derive(Copy, Clone, Eq, PartialEq, Debug, Structural)]
pub struct SnakePart {
    pub point: Point,
    pub variant: SnakePartVariant,
}

impl SnakePart {
    /// The point `p` classified as `v`.
    pub fn new(p: Point, v: SnakePartVariant) -> (r: SnakePart)
        ensures
            r == (SnakePart { point: p, variant: v }),
    {
        SnakePart { point: p, variant: v }
    }
}

/// The snake head first, every point classified, with the food and the
/// direction of travel.
pub struct SnakeCtrlFullState {
    pub snake: Vec<SnakePart>,
    pub food: Vec<Point>,
    pub direction: Direction,
}

/// The direction in which `to` follows `from` along the snake. For two near
/// points it is the direction from `from` to `to`. Two consecutive points that
/// are not near sit on opposite edges of the grid, joined by a wrap, and the
/// direction is turned round to point across that edge.
pub open spec fn link(from: Point, to: Point) -> Direction
    recommends
        from.aligned(to),
{
    let d = to.offset_from(from).unwrap();
    if from.near(to) {
        d
    } else {
        d.opposite()
    }
}

/// The corner that joins an arrival in direction `incoming` to a departure in
/// direction `outgoing`.
pub open spec fn corner_of(incoming: Direction, outgoing: Direction) -> SnakeCornerVariant {
    match incoming {
        Direction::Top => if outgoing == Direction::Right {
            SnakeCornerVariant::BottomLeft
        } else {
            SnakeCornerVariant::BottomRight
        },
        Direction::Bottom => if outgoing == Direction::Right {
            SnakeCornerVariant::TopLeft
        } else {
            SnakeCornerVariant::TopRight
        },
        Direction::Left => if outgoing == Direction::Top {
            SnakeCornerVariant::TopLeft
        } else {
            SnakeCornerVariant::BottomLeft
        },
        Direction::Right => if outgoing == Direction::Top {
            SnakeCornerVariant::TopRight
        } else {
            SnakeCornerVariant::BottomRight
        },
    }
}

/// The classification of a point strictly inside the snake. `prev` is its
/// neighbour towards the tail and `next` its neighbour towards the head. When
/// the way in and the way out run along one axis the piece is straight;
/// otherwise it is the corner that joins the two.
pub open spec fn body_variant(prev: Point, curr: Point, next: Point) -> SnakePartVariant
    recommends
        prev.aligned(curr),
        curr.aligned(next),
{
    let from_prev = curr.offset_from(prev).unwrap();
    let to_next = next.offset_from(curr).unwrap();
    if from_prev.vertical() == to_next.vertical() {
        SnakePartVariant::Body(from_prev.vertical())
    } else {
        SnakePartVariant::Corner(corner_of(link(prev, curr), link(curr, next)))
    }
}

/// The classification of the point at index `i` of a snake travelling in
/// direction `direction`: the head carries that direction whatever the
/// geometry says, the last point is the tail, all others are body or corner.
pub open spec fn part_variant(snake: Seq<Point>, direction: Direction, i: int) -> SnakePartVariant
    recommends
        0 <= i < snake.len(),
        linked(snake),
{
    if i == 0 {
        SnakePartVariant::Head(direction)
    } else if i == snake.len() - 1 {
        SnakePartVariant::Tail(link(snake[i - 1], snake[i]))
    } else {
        body_variant(snake[i + 1], snake[i], snake[i - 1])
    }
}

/// The classified snake. With `reverse_y` every point is mirrored and every
/// corner turned upside down; without it both are left as they are.
pub open spec fn full_state_parts(
    snake: Seq<Point>,
    direction: Direction,
    dim_y: u16,
    reverse_y: bool,
) -> Seq<SnakePart> {
    Seq::new(
        snake.len(),
        |i: int|
            if reverse_y {
                SnakePart {
                    point: snake[i].mirrored(dim_y),
                    variant: part_variant(snake, direction, i).mirrored(),
                }
            } else {
                SnakePart { point: snake[i], variant: part_variant(snake, direction, i) }
            },
    )
}

/// Every point of `points` with its row counted from the opposite edge.
pub open spec fn mirror_all(points: Seq<Point>, dim_y: u16) -> Seq<Point> {
    Seq::new(points.len(), |i: int| points[i].mirrored(dim_y))
}

/// Whether no point of `points` lies beyond row `dim_y`, so that each can be
/// mirrored.
pub open spec fn rows_within(points: Seq<Point>, dim_y: u16) -> bool {
    forall|i: int| 0 <= i < points.len() ==> (#[trigger] points[i]).1 <= dim_y
}

/// Mirrors every point of `points` in place.
pub fn reverse_all_y(points: &mut Vec<Point>, dim_y: u16)
    requires
        rows_within(old(points)@, dim_y),
    ensures
        final(points)@ == mirror_all(old(points)@, dim_y),
{
    let n = points.len();
    let mut i: usize = 0;
    while i < n
        invariant
            i <= n,
            points@.len() == n,
            old(points)@.len() == n,
            forall|j: int| 0 <= j < i ==> points@[j] == old(points)@[j].mirrored(dim_y),
            forall|j: int| i <= j < n ==> points@[j] == old(points)@[j],
            rows_within(old(points)@, dim_y),
        decreases n - i,
    {
        let mut p = points[i];
        p.reverse_y(dim_y);
        points[i] = p;
        i += 1;
    }
}

/// Classifies every point of the snake for drawing. The food is always
/// mirrored; the snake's points and corners are mirrored only with
/// `reverse_y`.
pub fn calc_full_state(
    snake: &[Point],
    food: &[Point],
    current_direction: Direction,
    dim_y: u16,
    reverse_y: bool,
) -> (r: SnakeCtrlFullState)
    requires
        snake@.len() >= 1,
        linked(snake@),
        rows_within(food@, dim_y),
        reverse_y ==> rows_within(snake@, dim_y),
    ensures
        r.snake@ == full_state_parts(snake@, current_direction, dim_y, reverse_y),
        r.food@ == mirror_all(food@, dim_y),
        r.direction == current_direction,
{
    let snake_len = snake.len();
    let max_ind = snake_len - 1;
    let mut result: Vec<SnakePart> = Vec::with_capacity(snake_len);

    let mut ind: usize = 0;
    while ind < snake_len
        invariant
            ind <= snake_len,
            snake_len == snake@.len(),
            max_ind == snake_len - 1,
            linked(snake@),
            result@ == full_state_parts(snake@, current_direction, dim_y, false).take(ind as int),
        decreases snake_len - ind,
    {
        let curr_point = &snake[ind];
        if ind == 0 {
            result.push(SnakePart::new(*curr_point, SnakePartVariant::Head(current_direction)));
        } else if ind == max_ind {
            let pre_tail = &snake[max_ind - 1];
            assert(aligned_at(snake@, max_ind - 1));
            let mut tail_direction = curr_point.offset_from_near(pre_tail).unwrap();
            if !pre_tail.is_near_with(curr_point) {
                tail_direction = tail_direction.opposite_direction();
            }
            result.push(SnakePart::new(*curr_point, SnakePartVariant::Tail(tail_direction)))
        } else {
            let prev = &snake[ind + 1];
            let next = &snake[ind - 1];
            assert(aligned_at(snake@, ind as int));
            assert(aligned_at(snake@, ind - 1));
            result.push(SnakePart::new(*curr_point, get_body_part_variant(prev, curr_point, next)))
        }
        ind += 1;
    }

    let mut f = slice_to_vec(food);
    reverse_all_y(&mut f, dim_y);

    if reverse_y {
        let mut i: usize = 0;
        while i < snake_len
            invariant
                i <= snake_len,
                snake_len == snake@.len(),
                result@.len() == snake_len,
                rows_within(snake@, dim_y),
                forall|j: int|
                    0 <= j < i ==> result@[j] == full_state_parts(
                        snake@,
                        current_direction,
                        dim_y,
                        true,
                    )[j],
                forall|j: int|
                    i <= j < snake_len ==> result@[j] == full_state_parts(
                        snake@,
                        current_direction,
                        dim_y,
                        false,
                    )[j],
            decreases snake_len - i,
        {
            let mut p = result[i];
            p.point.reverse_y(dim_y);
            if let SnakePartVariant::Corner(v) = p.variant {
                p.variant = SnakePartVariant::Corner(v.reverse_y());
            }
            result[i] = p;
            i += 1;
        }
    }

    SnakeCtrlFullState { snake: result, food: f, direction: current_direction }
}

/// Classifies a point strictly inside the snake from its two neighbours:
/// `prev` towards the tail, `next` towards the head.
pub fn get_body_part_variant(prev: &Point, curr: &Point, next: &Point) -> (r: SnakePartVariant)
    requires
        prev.aligned(*curr),
        curr.aligned(*next),
    ensures
        r == body_variant(*prev, *curr, *next),
{
    let mut offset_from_prev = curr.offset_from_near(prev).unwrap();
    let mut offset_from_next = next.offset_from_near(curr).unwrap();

    if offset_from_prev == offset_from_next || offset_from_prev
        == offset_from_next.opposite_direction() {
        return SnakePartVariant::Body(offset_from_prev.is_vertical());
    }

    if !next.is_near_with(curr) {
        offset_from_next = offset_from_next.opposite_direction();
    }
    if !prev.is_near_with(curr) {
        offset_from_prev = offset_from_prev.opposite_direction();
    }

    match offset_from_prev {
        Direction::Top => {
            if offset_from_next == Direction::Right {
                SnakePartVariant::Corner(SnakeCornerVariant::BottomLeft)
            } else {
                SnakePartVariant::Corner(SnakeCornerVariant::BottomRight)
            }
        },
        Direction::Bottom => {
            if offset_from_next == Direction::Right {
                SnakePartVariant::Corner(SnakeCornerVariant::TopLeft)
            } else {
                SnakePartVariant::Corner(SnakeCornerVariant::TopRight)
            }
        },
        Direction::Left => {
            if offset_from_next == Direction::Top {
                SnakePartVariant::Corner(SnakeCornerVariant::TopLeft)
            } else {
                SnakePartVariant::Corner(SnakeCornerVariant::BottomLeft)
            }
        },
        Direction::Right => {
            if offset_from_next == Direction::Top {
                SnakePartVariant::Corner(SnakeCornerVariant::TopRight)
            } else {
                SnakePartVariant::Corner(SnakeCornerVariant::BottomRight)
            }
        },
    }
}

} // verus!
