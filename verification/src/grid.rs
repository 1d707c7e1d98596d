//! The playing field and its cells.

use crate::direction::Direction;
use vstd::prelude::*;

verus! {

/// Number of rows of the playing field.
pub const GRID_ROWS: i32 = 20;

/// Number of columns of the playing field.
pub const GRID_COLUMNS: i32 = 20;

/// Edge of one cell on screen, in pixels. Only drawing uses it.
pub const BODY_SIZE: i32 = 25;

/// Ticks per second.
pub const UPDATE_SPEED: u64 = 6;

/// One cell of the grid: a segment of the snake, or the food.
#[derive(Clone, Copy, Debug, PartialEq, Eq, Structural)]
pub struct BodyPart {
    pub x: i32,
    pub y: i32,
}

impl BodyPart {
    /// The cell lies on the playing field.
    pub open spec fn in_grid(self) -> bool {
        0 <= self.x < GRID_COLUMNS && 0 <= self.y < GRID_ROWS
    }

    /// One step in direction `dir` from this cell stays within `i32`.
    pub open spec fn can_step(self, dir: Direction) -> bool {
        i32::MIN <= self.x + dir.dx() <= i32::MAX && i32::MIN <= self.y + dir.dy() <= i32::MAX
    }

    /// The cell one step away in direction `dir`.
    pub open spec fn neighbor(self, dir: Direction) -> BodyPart {
        BodyPart { x: (self.x + dir.dx()) as i32, y: (self.y + dir.dy()) as i32 }
    }

    /// The cell one step away in direction `dir`.
    pub fn step(self, dir: Direction) -> (r: BodyPart)
        requires
            self.can_step(dir),
        ensures
            r == self.neighbor(dir),
    {
        match dir {
            Direction::Left => BodyPart { x: self.x - 1, y: self.y },
            Direction::Right => BodyPart { x: self.x + 1, y: self.y },
            Direction::Up => BodyPart { x: self.x, y: self.y - 1 },
            Direction::Down => BodyPart { x: self.x, y: self.y + 1 },
        }
    }

    /// Whether the cell lies on the playing field.
    pub fn is_in_grid(self) -> (r: bool)
        ensures
            r == self.in_grid(),
    {
        0 <= self.x && self.x < GRID_COLUMNS && 0 <= self.y && self.y < GRID_ROWS
    }
}

/// Number of cells of the playing field.
pub open spec fn grid_size() -> nat {
    (GRID_COLUMNS * GRID_ROWS) as nat
}

/// The `k`-th cell of the playing field, counting column by column, each from the top.
pub open spec fn grid_cell(k: int) -> BodyPart {
    BodyPart { x: (k / GRID_ROWS as int) as i32, y: (k % GRID_ROWS as int) as i32 }
}

/// All cells of the playing field, column by column, each from the top.
pub open spec fn grid_cells() -> Seq<BodyPart> {
    Seq::new(grid_size(), |k: int| grid_cell(k))
}

/// A cell is among `grid_cells()` exactly if it lies on the playing field.
pub proof fn lemma_grid_cells_cover(c: BodyPart)
    ensures
        grid_cells().contains(c) <==> c.in_grid(),
{
    if c.in_grid() {
        let k = c.x * GRID_ROWS + c.y;
        assert(grid_cells()[k] == c);
    }
}

} // verus!
