use vstd::prelude::*;

verus! {

/// A cell of the grid: `x` is the column, `y` the row, rows growing downwards.
#[derive(Clone, Copy, Debug, PartialEq, Eq, Structural)]
pub struct WorldPoint2 {
    pub x: i8,
    pub y: i8,
}

/// A displacement between two cells of the grid.
#[derive(Clone, Copy, Debug, PartialEq, Eq, Structural)]
pub struct WorldVector2 {
    pub x: i8,
    pub y: i8,
}

impl WorldPoint2 {
    pub fn new(x: i8, y: i8) -> (point: WorldPoint2)
        ensures
            point.x == x,
            point.y == y,
    {
        WorldPoint2 { x, y }
    }

    /// The cell as a pair of mathematical integers `(x, y)`.
    pub open spec fn cell(self) -> (int, int) {
        (self.x as int, self.y as int)
    }
}

impl WorldVector2 {
    pub fn new(x: i8, y: i8) -> (vector: WorldVector2)
        ensures
            vector.x == x,
            vector.y == y,
    {
        WorldVector2 { x, y }
    }

    /// The displacement as a pair of mathematical integers `(x, y)`.
    pub open spec fn offset(self) -> (int, int) {
        (self.x as int, self.y as int)
    }
}

} // verus!
