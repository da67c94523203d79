//! Food on the grid: where a new point may appear and how an eaten one is
//! taken away.
//!
//! A new food point is drawn uniformly among the free cells. First cells of
//! the grid are drawn at random, a few times, until one is free: on a grid
//! with room to spare the first draw mostly is. If luck fails, the free cells
//! are numbered row by row, from row 0 upwards and within a row from column 0
//! rightwards, and a random number picks one of them. When no cell is free no
//! food appears.

use vstd::prelude::*;
use vstd::pervasive::unreached;
use rand::Rng;
use crate::geometry::Point;
use crate::options::InnerCfg;

verus! {

/// How often a cell is drawn at random before the free cells are numbered.
pub const SPAWN_TRIES: u32 = 32;

/// The operations on the food points. The points themselves are held by the
/// board.
pub struct Food {}

/// Whether `p` is taken by the snake or by food.
pub open spec fn occupied(snake: Seq<Point>, food: Seq<Point>, p: Point) -> bool {
    snake.contains(p) || food.contains(p)
}

/// The number of free cells among the first `x` cells of row `y`.
pub open spec fn free_in_row(snake: Seq<Point>, food: Seq<Point>, y: int, x: int) -> nat
    decreases x,
{
    if x <= 0 {
        0
    } else {
        let rest = free_in_row(snake, food, y, x - 1);
        if occupied(snake, food, Point((x - 1) as u16, y as u16)) {
            rest
        } else {
            rest + 1
        }
    }
}

/// The number of free cells in the first `y` rows of the grid.
pub open spec fn free_in_rows(cfg: InnerCfg, snake: Seq<Point>, food: Seq<Point>, y: int) -> nat
    decreases y,
{
    if y <= 0 {
        0
    } else {
        free_in_rows(cfg, snake, food, y - 1) + free_in_row(
            snake,
            food,
            y - 1,
            cfg.dimension_x as int,
        )
    }
}

/// The number of free cells that come before `p` when the grid is read row by
/// row.
pub open spec fn free_before(cfg: InnerCfg, snake: Seq<Point>, food: Seq<Point>, p: Point) -> nat {
    free_in_rows(cfg, snake, food, p.1 as int) + free_in_row(snake, food, p.1 as int, p.0 as int)
}

/// The number of free cells of the grid.
pub open spec fn free_cells(cfg: InnerCfg, snake: Seq<Point>, food: Seq<Point>) -> nat {
    free_in_rows(cfg, snake, food, cfg.dimension_y as int)
}

/// Whether `p` is the free cell with number `k`, counting from 0.
pub open spec fn is_nth_free(
    cfg: InnerCfg,
    snake: Seq<Point>,
    food: Seq<Point>,
    k: nat,
    p: Point,
) -> bool {
    cfg.contains(p) && !occupied(snake, food, p) && free_before(cfg, snake, food, p) == k
}

/// Whether `i` is the index of the first occurrence of `p` in `s`.
pub open spec fn is_first_at(s: Seq<Point>, p: Point, i: int) -> bool {
    &&& 0 <= i < s.len()
    &&& s[i] == p
    &&& forall|j: int| 0 <= j < i ==> #[trigger] s[j] != p
}

/// `s` with the first occurrence of `p` taken out, or `s` itself when `p` does
/// not occur.
pub open spec fn without_first(s: Seq<Point>, p: Point) -> Seq<Point> {
    if s.contains(p) {
        s.remove(choose|i: int| is_first_at(s, p, i))
    } else {
        s
    }
}

/// A first occurrence is unique, so `without_first` removes exactly the point
/// at the index where one is found.
pub proof fn lemma_first_at_removes(s: Seq<Point>, p: Point, i: int)
    requires
        is_first_at(s, p, i),
    ensures
        without_first(s, p) == s.remove(i),
{
    let c = choose|c: int| is_first_at(s, p, c);
    assert(c == i);
}

/// Taking the first occurrence of `p` out of points that are all different
/// leaves points that are all different, none of them `p`, and all of them
/// among those that were there.
pub proof fn lemma_without_first_distinct(s: Seq<Point>, p: Point)
    requires
        s.no_duplicates(),
    ensures
        without_first(s, p).no_duplicates(),
        !without_first(s, p).contains(p),
        forall|q: Point| #[trigger] without_first(s, p).contains(q) ==> s.contains(q),
        forall|q: Point| #[trigger] s.contains(q) && q != p ==> without_first(s, p).contains(q),
        s.contains(p) ==> without_first(s, p).len() == s.len() - 1,
        !s.contains(p) ==> without_first(s, p) == s,
{
    if s.contains(p) {
        let c = choose|c: int| is_first_at(s, p, c);
        let k = choose|k: int| 0 <= k < s.len() && s[k] == p;
        assert(exists|c: int| is_first_at(s, p, c)) by {
            assert(is_first_at(s, p, k)) by {
                assert forall|j: int| 0 <= j < k implies #[trigger] s[j] != p by {}
            }
        }
        let r = s.remove(c);
        assert forall|a: int| 0 <= a < r.len() implies #[trigger] r[a] == s[if a < c {
            a
        } else {
            a + 1
        }] by {}
        assert forall|q: Point| s.contains(q) && q != p implies r.contains(q) by {
            let a = choose|a: int| 0 <= a < s.len() && s[a] == q;
            assert(r[if a < c {
                a
            } else {
                a - 1
            }] == q);
        }
        assert forall|a: int| 0 <= a < r.len() implies #[trigger] r[a] != p by {}
    }
}

/// Reading further along a row never lowers the count of free cells.
pub proof fn lemma_free_in_row_monotone(
    snake: Seq<Point>,
    food: Seq<Point>,
    y: int,
    a: int,
    b: int,
)
    requires
        a <= b,
    ensures
        free_in_row(snake, food, y, a) <= free_in_row(snake, food, y, b),
    decreases b - a,
{
    if a < b {
        lemma_free_in_row_monotone(snake, food, y, a, b - 1);
    }
}

/// Reading further rows never lowers the count of free cells.
pub proof fn lemma_free_in_rows_monotone(
    cfg: InnerCfg,
    snake: Seq<Point>,
    food: Seq<Point>,
    a: int,
    b: int,
)
    requires
        a <= b,
    ensures
        free_in_rows(cfg, snake, food, a) <= free_in_rows(cfg, snake, food, b),
    decreases b - a,
{
    if a < b {
        lemma_free_in_rows_monotone(cfg, snake, food, a, b - 1);
    }
}

/// Every free cell of the grid has a number below the count of free cells.
pub proof fn lemma_free_cell_counted(
    cfg: InnerCfg,
    snake: Seq<Point>,
    food: Seq<Point>,
    p: Point,
)
    requires
        cfg.contains(p),
        !occupied(snake, food, p),
    ensures
        free_before(cfg, snake, food, p) < free_cells(cfg, snake, food),
{
    lemma_free_in_row_monotone(snake, food, p.1 as int, p.0 + 1, cfg.dimension_x as int);
    lemma_free_in_rows_monotone(cfg, snake, food, p.1 + 1, cfg.dimension_y as int);
}

/// A uniform draw from `0..bound`, made by `gen_range` of the `rand` crate
/// on its thread-local generator. That the result lies below `bound` is
/// taken on trust. `gen_range` panics on an empty range, which the
/// precondition rules out.
#[verifier::external_body]
fn random_below(bound: u32) -> (r: u32)
    requires
        bound > 0,
    ensures
        r < bound,
{
    let mut rng = rand::rngs::ThreadRng::default();
    rng.gen_range(0, bound)
}

impl Food {
    /// Whether `p` is one of `points`.
    pub fn holds(points: &[Point], p: &Point) -> (r: bool)
        ensures
            r == points@.contains(*p),
    {
        let mut i: usize = 0;
        while i < points.len()
            invariant
                i <= points@.len(),
                forall|j: int| 0 <= j < i ==> #[trigger] points@[j] != *p,
            decreases points@.len() - i,
        {
            if points[i] == *p {
                return true;
            }
            i += 1;
        }
        false
    }

    /// The number of cells of the grid that hold neither snake nor food.
    pub fn count_free(cfg: &InnerCfg, snake: &[Point], food: &[Point]) -> (r: u32)
        ensures
            r == free_cells(*cfg, snake@, food@),
    {
        let mut count: u32 = 0;
        let mut y: u16 = 0;
        while y < cfg.dimension_y
            invariant
                y <= cfg.dimension_y,
                count == free_in_rows(*cfg, snake@, food@, y as int),
                count <= u16::MAX * y,
            decreases cfg.dimension_y - y,
        {
            let mut x: u16 = 0;
            while x < cfg.dimension_x
                invariant
                    x <= cfg.dimension_x,
                    y < cfg.dimension_y,
                    count == free_in_rows(*cfg, snake@, food@, y as int) + free_in_row(
                        snake@,
                        food@,
                        y as int,
                        x as int,
                    ),
                    count <= u16::MAX * y + x,
                decreases cfg.dimension_x - x,
            {
                let p = Point(x, y);
                if !Food::holds(snake, &p) && !Food::holds(food, &p) {
                    count += 1;
                }
                x += 1;
            }
            y += 1;
        }
        count
    }

    /// The free cell with number `k`, counting the free cells from 0 row by
    /// row.
    pub fn nth_free(cfg: &InnerCfg, snake: &[Point], food: &[Point], k: u32) -> (p: Point)
        requires
            k < free_cells(*cfg, snake@, food@),
        ensures
            is_nth_free(*cfg, snake@, food@, k as nat, p),
    {
        let mut seen: u32 = 0;
        let mut y: u16 = 0;
        while y < cfg.dimension_y
            invariant
                y <= cfg.dimension_y,
                seen == free_in_rows(*cfg, snake@, food@, y as int),
                seen <= k,
                k < free_cells(*cfg, snake@, food@),
            decreases cfg.dimension_y - y,
        {
            let mut x: u16 = 0;
            while x < cfg.dimension_x
                invariant
                    x <= cfg.dimension_x,
                    y < cfg.dimension_y,
                    seen == free_in_rows(*cfg, snake@, food@, y as int) + free_in_row(
                        snake@,
                        food@,
                        y as int,
                        x as int,
                    ),
                    seen <= k,
                decreases cfg.dimension_x - x,
            {
                let p = Point(x, y);
                if !Food::holds(snake, &p) && !Food::holds(food, &p) {
                    if seen == k {
                        return p;
                    }
                    seen += 1;
                }
                x += 1;
            }
            y += 1;
        }
        // All free cells have been seen, and there are more than `k` of them.
        unreached()
    }

    /// Picks a cell for a new food point, uniformly among the free cells, or
    /// `None` when the grid has no free cell.
    pub fn generate(cfg: &InnerCfg, snake: &[Point], food: &[Point]) -> (r: Option<Point>)
        ensures
            r is None <==> free_cells(*cfg, snake@, food@) == 0,
            r matches Some(p) ==> cfg.contains(p) && !occupied(snake@, food@, p) && free_before(
                *cfg,
                snake@,
                food@,
                p,
            ) < free_cells(*cfg, snake@, food@),
    {
        if cfg.dimension_x > 0 && cfg.dimension_y > 0 {
            let mut tries: u32 = 0;
            while tries < SPAWN_TRIES
                invariant
                    cfg.dimension_x > 0,
                    cfg.dimension_y > 0,
                decreases SPAWN_TRIES - tries,
            {
                let x = random_below(cfg.dimension_x as u32) as u16;
                let y = random_below(cfg.dimension_y as u32) as u16;
                let apple = Point(x, y);
                if !Food::holds(snake, &apple) && !Food::holds(food, &apple) {
                    proof {
                        lemma_free_cell_counted(*cfg, snake@, food@, apple);
                    }
                    return Some(apple);
                }
                tries += 1;
            }
        }
        let free = Food::count_free(cfg, snake, food);
        if free == 0 {
            return None;
        }
        let k = random_below(free);
        Some(Food::nth_free(cfg, snake, food, k))
    }

    /// Takes the first food point equal to `eaten` out of `food`; does nothing
    /// when there is none.
    pub fn clear_eaten(food: &mut Vec<Point>, eaten: &Point)
        ensures
            final(food)@ == without_first(old(food)@, *eaten),
    {
        let mut pos: usize = 0;
        while pos < food.len()
            invariant
                pos <= food@.len(),
                food@ == old(food)@,
                forall|j: int| 0 <= j < pos ==> #[trigger] food@[j] != *eaten,
            decreases food@.len() - pos,
        {
            if food[pos] == *eaten {
                proof {
                    lemma_first_at_removes(food@, *eaten, pos as int);
                }
                food.remove(pos);
                return ;
            }
            pos += 1;
        }
    }
}

} // verus!
