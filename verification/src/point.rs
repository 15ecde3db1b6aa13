//! Grid positions and their mathematical counterpart.

use vstd::prelude::*;

verus! {

/// A position with unbounded integer coordinates: what a `Point` stands for
/// in contracts.
pub ghost struct Cell {
    pub x: int,
    pub y: int,
}

impl Cell {
    /// Componentwise sum.
    pub open spec fn plus(self, rhs: Cell) -> Cell {
        Cell { x: self.x + rhs.x, y: self.y + rhs.y }
    }

    /// The cell mirrored through the origin.
    pub open spec fn negated(self) -> Cell {
        Cell { x: -self.x, y: -self.y }
    }

    /// Both coordinates can be stored in an `i32`.
    pub open spec fn fits(self) -> bool {
        i32::MIN <= self.x <= i32::MAX && i32::MIN <= self.y <= i32::MAX
    }
}

/// A position on the grid: column first, row second.
#[derive(Copy, Clone, Debug, PartialEq, Eq, Structural)]
pub struct Point(pub i32, pub i32);

impl View for Point {
    type V = Cell;

    open spec fn view(&self) -> Cell {
        Cell { x: self.0 as int, y: self.1 as int }
    }
}

impl Point {
    /// Whether `self + rhs` can be computed: whether both sums are in the
    /// range of `i32`.
    pub fn can_add(&self, rhs: &Point) -> (ok: bool)
        ensures
            ok == self@.plus(rhs@).fits(),
    {
        let x: i64 = self.0 as i64 + rhs.0 as i64;
        let y: i64 = self.1 as i64 + rhs.1 as i64;
        i32::MIN as i64 <= x && x <= i32::MAX as i64 && i32::MIN as i64 <= y && y <= i32::MAX as i64
    }
}

impl core::ops::Add<Point> for Point {
    type Output = Point;

    /// Componentwise sum of two positions.
    fn add(self, rhs: Point) -> (sum: Point)
        ensures
            sum@ == self@.plus(rhs@),
    {
        Point(self.0 + rhs.0, self.1 + rhs.1)
    }
}

impl vstd::std_specs::ops::AddSpecImpl<Point> for Point {
    open spec fn obeys_add_spec() -> bool {
        true
    }

    open spec fn add_req(self, rhs: Point) -> bool {
        self@.plus(rhs@).fits()
    }

    open spec fn add_spec(self, rhs: Point) -> Point {
        Point((self.0 + rhs.0) as i32, (self.1 + rhs.1) as i32)
    }
}

} // verus!
