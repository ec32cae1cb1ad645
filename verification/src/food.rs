//! The food pickup and the playfield bounds inside which it respawns.

use crate::grid::{Cell, GridCoordinate};
use rand::Rng;
use vstd::prelude::*;

verus! {

/// The side of one grid cell, in the units of the playfield bounds.
pub const CELL_SIZE: u32 = 20;

/// The extent of the playfield, in the same units as [`CELL_SIZE`].
#[derive(Clone, Copy, Debug, PartialEq, Eq, Structural)]
pub struct Bounds {
    pub width: u32,
    pub height: u32,
}

impl Bounds {
    /// The number of whole cells across the playfield.
    pub open spec fn columns(self) -> int {
        self.width as int / CELL_SIZE as int
    }

    /// The number of whole cells down the playfield.
    pub open spec fn rows(self) -> int {
        self.height as int / CELL_SIZE as int
    }

    /// Food never spawns in column 0 or row 0, so a playfield needs a second
    /// column and a second row to hold any food at all.
    pub open spec fn wf(self) -> bool {
        self.columns() >= 2 && self.rows() >= 2
    }

    /// The cells in which food may spawn: every cell of the playfield except
    /// those of column 0 and row 0.
    pub open spec fn spawnable(self, cell: Cell) -> bool {
        &&& 1 <= cell.x < self.columns()
        &&& 1 <= cell.y < self.rows()
    }

    /// Bounds of the given extent, or `None` when they leave no cell for food.
    pub fn new(width: u32, height: u32) -> (made: Option<Bounds>)
        ensures
            made is Some <==> (Bounds { width, height }).wf(),
            made matches Some(bounds) ==> bounds == (Bounds { width, height }),
    {
        let bounds = Bounds { width, height };
        if bounds.admits_food() {
            Some(bounds)
        } else {
            None
        }
    }

    /// Whether these bounds leave at least one cell for food.
    pub fn admits_food(&self) -> (ok: bool)
        ensures
            ok == self.wf(),
    {
        self.width / CELL_SIZE >= 2 && self.height / CELL_SIZE >= 2
    }

    /// A random cell of the playfield, column 0 and row 0 excluded.
    pub fn random_cell(&self) -> (cell: GridCoordinate)
        requires
            self.wf(),
        ensures
            self.spawnable(cell@),
    {
        let column: u32 = random_in_range(1, self.width / CELL_SIZE);
        let row: u32 = random_in_range(1, self.height / CELL_SIZE);
        GridCoordinate { x: column as i32, y: row as i32 }
    }
}

/// Draws one integer from `rand::thread_rng()` with `Rng::gen_range(low, high)`.
/// The contract claims only the range of the draw, which the sampler
/// guarantees for integers: at least `low` and below `high`. Nothing is
/// claimed of which value in that range comes back, nor of its distribution.
/// An empty range is excluded because the sampler panics on it. The
/// generator seeds itself from the operating system on first use; the
/// contract takes that to succeed.
#[verifier::external_body]
fn random_in_range(low: u32, high: u32) -> (drawn: u32)
    requires
        low < high,
    ensures
        low <= drawn < high,
{
    rand::thread_rng().gen_range(low, high)
}

/// The single food pickup. It is never removed, only moved.
#[derive(Debug)]
pub struct Food {
    position: GridCoordinate,
}

impl View for Food {
    type V = Cell;

    closed spec fn view(&self) -> Cell {
        self.position@
    }
}

impl Food {
    /// Food lying on `position`.
    pub fn new(position: GridCoordinate) -> (food: Food)
        ensures
            food@ == position@,
    {
        Food { position }
    }

    /// Food on a random cell of the playfield, column 0 and row 0 excluded.
    pub fn spawn(bounds: Bounds) -> (food: Food)
        requires
            bounds.wf(),
        ensures
            bounds.spawnable(food@),
    {
        Food { position: bounds.random_cell() }
    }

    /// The cell on which the food lies.
    pub fn position(&self) -> (cell: GridCoordinate)
        ensures
            cell@ == self@,
    {
        self.position
    }

    /// Whether a head on `head` eats the food: it does when both are on the
    /// same cell.
    pub fn check_consumption(&self, head: GridCoordinate) -> (consumed: bool)
        ensures
            consumed == (head@ == self@),
    {
        head.x == self.position.x && head.y == self.position.y
    }

    /// Moves the food to `position`.
    pub fn relocate(&mut self, position: GridCoordinate)
        ensures
            final(self)@ == position@,
    {
        self.position = position;
    }

    /// Moves the food to a random cell of the playfield, column 0 and row 0
    /// excluded. The cell may be one that the snake occupies.
    pub fn respawn(&mut self, bounds: Bounds)
        requires
            bounds.wf(),
        ensures
            bounds.spawnable(final(self)@),
    {
        self.relocate(bounds.random_cell());
    }
}

} // verus!
