use vstd::prelude::*;

verus! {

/// Number of rows of the occupancy grid, the floor row included.
pub const BOARD_ROWS: usize = 21;

/// Number of columns of the occupancy grid, both walls included.
pub const BOARD_COLUMNS: usize = 12;

/// Row index of the floor: every cell of this row is a boundary cell.
pub const FLOOR_ROW: usize = 20;

/// Column index of the left wall.
pub const LEFT_WALL: usize = 0;

/// Column index of the right wall.
pub const RIGHT_WALL: usize = 11;

/// Cell code of an empty cell.
pub const EMPTY_CODE: u8 = 0;

/// Cell code of a boundary cell (floor or wall).
pub const LIMIT_CODE: u8 = 99;

/// Row of the pivot of a freshly spawned piece.
pub const TOP_BOUNDARY: i8 = 0;

/// Column of the pivot of a freshly spawned piece.
pub const SPAWN_COLUMN: i8 = 5;

/// Number of simulation updates per second.
pub const DESIRED_FPS: u32 = 60;

/// Time between two automatic down-moves at level 0, in simulation updates.
pub const FALL_TIME: u32 = 60;

pub const POINTS_FOR_ONE_LINE: u32 = 40;

pub const POINTS_FOR_TWO_LINES: u32 = 100;

pub const POINTS_FOR_THREE_LINES: u32 = 300;

pub const POINTS_FOR_MORE_THAN_THREE_LINES: u32 = 1200;

/// Highest level a game reaches.
pub const MAX_LEVEL: u8 = 9;

/// Number of cumulative lines after which the level rises by one.
pub const LINES_PER_LEVEL: u8 = 5;

/// The side of a cell in world units: one step of a piece.
pub const GRID_STEP: i32 = 20;

/// The height in world units at which line 0 lies; line `n` lies `n` steps
/// higher.
pub const FIRST_LINE_HEIGHT: i32 = -260;

/// The number of blocks that make a line complete.
pub const BLOCKS_PER_LINE: usize = 10;

} // verus!
