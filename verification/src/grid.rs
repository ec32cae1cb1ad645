//! Cell addressing on the grid.

use crate::direction::Direction;
use vstd::prelude::*;

verus! {

/// A cell of the unbounded mathematical grid.
pub struct Cell {
    pub x: int,
    pub y: int,
}

impl Cell {
    /// The neighbouring cell one unit along `heading`.
    pub open spec fn step(self, heading: Direction) -> Cell {
        Cell { x: self.x + heading.dx(), y: self.y + heading.dy() }
    }

    /// Whether both coordinates fit the machine representation.
    pub open spec fn addressable(self) -> bool {
        &&& i32::MIN <= self.x <= i32::MAX
        &&& i32::MIN <= self.y <= i32::MAX
    }
}

/// A cell address held in machine integers.
#[derive(Clone, Copy, Debug, PartialEq, Eq, Structural)]
pub struct GridCoordinate {
    pub x: i32,
    pub y: i32,
}

impl View for GridCoordinate {
    type V = Cell;

    open spec fn view(&self) -> Cell {
        Cell { x: self.x as int, y: self.y as int }
    }
}

impl GridCoordinate {
    /// The address of column `x`, row `y`.
    pub fn new(x: i32, y: i32) -> (cell: GridCoordinate)
        ensures
            cell.x == x,
            cell.y == y,
    {
        GridCoordinate { x, y }
    }

    /// The neighbouring cell one unit along `heading`, or `None` when that
    /// cell lies beyond the machine range.
    pub fn checked_step(self, heading: Direction) -> (next: Option<GridCoordinate>)
        ensures
            next is Some <==> self@.step(heading).addressable(),
            next matches Some(cell) ==> cell@ == self@.step(heading),
    {
        match heading {
            Direction::Right => match self.x.checked_add(1) {
                Some(x) => Some(GridCoordinate { x, y: self.y }),
                None => None,
            },
            Direction::Left => match self.x.checked_sub(1) {
                Some(x) => Some(GridCoordinate { x, y: self.y }),
                None => None,
            },
            Direction::Up => match self.y.checked_sub(1) {
                Some(y) => Some(GridCoordinate { x: self.x, y }),
                None => None,
            },
            Direction::Down => match self.y.checked_add(1) {
                Some(y) => Some(GridCoordinate { x: self.x, y }),
                None => None,
            },
        }
    }

    /// The neighbouring cell one unit along `heading`.
    pub fn step(self, heading: Direction) -> (next: GridCoordinate)
        requires
            self@.step(heading).addressable(),
        ensures
            next@ == self@.step(heading),
    {
        match heading {
            Direction::Right => GridCoordinate { x: self.x + 1, y: self.y },
            Direction::Left => GridCoordinate { x: self.x - 1, y: self.y },
            Direction::Up => GridCoordinate { x: self.x, y: self.y - 1 },
            Direction::Down => GridCoordinate { x: self.x, y: self.y + 1 },
        }
    }
}

/// Two cell addresses with the same view are the same address.
pub proof fn lemma_view_injective(a: GridCoordinate, b: GridCoordinate)
    requires
        a@ == b@,
    ensures
        a == b,
{
}

} // verus!
