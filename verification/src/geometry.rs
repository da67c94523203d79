//! Grid coordinates and the four cardinal directions.

use vstd::prelude::*;

verus! {

/// A direction of travel. `Top` increases the row coordinate, `Right`
/// increases the column coordinate.
#[derive(Copy, Clone, Eq, PartialEq, Debug, Structural)]
pub enum Direction {
    Top,
    Right,
    Bottom,
    Left,
}

impl Direction {
    /// The direction pointing the other way along the same axis.
    pub open spec fn opposite(self) -> Direction {
        match self {
            Direction::Top => Direction::Bottom,
            Direction::Right => Direction::Left,
            Direction::Bottom => Direction::Top,
            Direction::Left => Direction::Right,
        }
    }

    /// Whether the direction runs along the row axis (`Top` or `Bottom`).
    pub open spec fn vertical(self) -> bool {
        self == Direction::Top || self == Direction::Bottom
    }

    /// The direction pointing the other way.
    pub fn opposite_direction(&self) -> (r: Self)
        ensures
            r == self.opposite(),
    {
        match self {
            Direction::Top => Direction::Bottom,
            Direction::Right => Direction::Left,
            Direction::Bottom => Direction::Top,
            Direction::Left => Direction::Right,
        }
    }

    /// Whether the direction is `Top` or `Bottom`.
    pub fn is_vertical(&self) -> (r: bool)
        ensures
            r == self.vertical(),
    {
        match self {
            Direction::Top | Direction::Bottom => true,
            Direction::Left | Direction::Right => false,
        }
    }

    /// Whether the direction is `Left` or `Right`.
    pub fn is_horizontal(&self) -> (r: bool)
        ensures
            r == !self.vertical(),
    {
        !self.is_vertical()
    }
}

/// A cell of the grid: column first, row second.
#[derive(Copy, Clone, Eq, PartialEq, Debug, Structural)]
pub struct Point(pub u16, pub u16);

impl Point {
    /// Two cells are near when they share one coordinate and differ by
    /// exactly one in the other.
    pub open spec fn near(self, p: Point) -> bool {
        ||| self.0 == p.0 && (self.1 - p.1 == 1 || p.1 - self.1 == 1)
        ||| self.1 == p.1 && (self.0 - p.0 == 1 || p.0 - self.0 == 1)
    }

    /// Two cells are aligned when they share a column or a row.
    pub open spec fn aligned(self, p: Point) -> bool {
        self.0 == p.0 || self.1 == p.1
    }

    /// The direction that leads from `p` towards `self` along the column or
    /// row they share, and `None` when they share neither. Within a shared
    /// column the answer is `Bottom` when `self` lies lower and `Top`
    /// otherwise; within a shared row it is `Left` when `self` lies further
    /// left and `Right` otherwise.
    pub open spec fn offset_from(self, p: Point) -> Option<Direction> {
        if self.0 == p.0 {
            Some(if self.1 < p.1 { Direction::Bottom } else { Direction::Top })
        } else if self.1 == p.1 {
            Some(if self.0 < p.0 { Direction::Left } else { Direction::Right })
        } else {
            None
        }
    }

    /// The cell with its row counted from the opposite edge: `y` becomes
    /// `dimension_y - y`.
    pub open spec fn mirrored(self, dimension_y: u16) -> Point
        recommends
            self.1 <= dimension_y,
    {
        Point(self.0, (dimension_y - self.1) as u16)
    }

    /// The column and the row of the cell as integers.
    pub open spec fn coordinates(self) -> (int, int) {
        (self.0 as int, self.1 as int)
    }

    /// The coordinates one step away from `self` in direction `d`, before any
    /// wall rule is applied. They may lie outside the grid.
    pub open spec fn stepped(self, d: Direction) -> (int, int) {
        match d {
            Direction::Right => (self.0 + 1, self.1 as int),
            Direction::Top => (self.0 as int, self.1 + 1),
            Direction::Bottom => (self.0 as int, self.1 - 1),
            Direction::Left => (self.0 - 1, self.1 as int),
        }
    }

    /// Whether `p` is one of the four cells next to `self`.
    pub fn is_near_with(&self, p: &Point) -> (r: bool)
        ensures
            r == self.near(*p),
    {
        if self.0 == p.0 {
            let d: i32 = self.1 as i32 - p.1 as i32;
            d == 1 || d == -1
        } else if self.1 == p.1 {
            let d: i32 = self.0 as i32 - p.0 as i32;
            d == 1 || d == -1
        } else {
            false
        }
    }

    /// The direction from `p` towards `self` along the column or row they
    /// share, if they share one.
    pub fn offset_from_near(&self, p: &Point) -> (r: Option<Direction>)
        ensures
            r == self.offset_from(*p),
            r is Some <==> self.aligned(*p),
    {
        if self.0 == p.0 {
            return Some(if self.1 < p.1 { Direction::Bottom } else { Direction::Top });
        } else if self.1 == p.1 {
            return Some(if self.0 < p.0 { Direction::Left } else { Direction::Right });
        }
        None
    }

    /// Counts the row from the opposite edge of a grid of `dimension_y` rows.
    pub fn reverse_y(&mut self, dimension_y: u16)
        requires
            old(self).1 <= dimension_y,
        ensures
            *final(self) == old(self).mirrored(dimension_y),
    {
        self.1 = dimension_y - self.1;
    }
}

} // verus!
