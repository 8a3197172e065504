use vstd::prelude::*;
use crate::grid::{
    cell_free, compacted, complete_among, completed_rows, empty_grid, empty_row, floor_row,
    has_border, in_field, lemma_completed_rows, lemma_stamped_is_grid,
    is_grid, is_kept, lemma_compacted_has_no_complete_row, lemma_compacted_is_grid,
    lemma_compaction_rows, lemma_filter_one, lemma_rows_sink, no_complete_row, on_grid, row_complete, stamped,
    surviving_rows, with_walls, Grid,
};
use crate::kinds::TetriminoType;
use crate::matrix::{matrix_cells, matrix_get, matrix_set, matrix_zeros};
use crate::score::{level_of, reward, ScoreBoard};
use crate::tetrimino::Tetrimino;

verus! {

/// The occupancy grid of a game: 21 rows of 12 cells, of which the last row
/// and the first and last column are the boundary. A cell holds 0 where it
/// is empty, the code of a piece kind, from 1 to 7, where a block of that
/// kind lies, and 99 where it belongs to the boundary.
#[derive(Debug)]
pub struct Board {
    pub data: nalgebra::SMatrix<u8, 21, 12>,
}

impl View for Board {
    type V = Grid;

    open spec fn view(&self) -> Grid {
        Seq::new(
            21,
            |row: int| Seq::new(12, |column: int| matrix_cells(self.data)[(row, column)]),
        )
    }
}

/// The matrix index `(row, column)` of the cell `(x, y)`, where neither
/// coordinate is negative.
pub fn to_matrix_index(x_coordinate: i8, y_coordinate: i8) -> (index: Option<(usize, usize)>)
    ensures
        index == (if x_coordinate >= 0 && y_coordinate >= 0 {
            Some((y_coordinate as usize, x_coordinate as usize))
        } else {
            None
        }),
{
    if x_coordinate >= 0 && y_coordinate >= 0 {
        Some((y_coordinate as usize, x_coordinate as usize))
    } else {
        None
    }
}

/// Whether the cell `(x, y)` of the board is free: it is, unless it lies on
/// the grid and holds a block or a boundary cell.
pub fn board_position_empty(x: i8, y: i8, board: &Board) -> (free: bool)
    ensures
        free == cell_free(board@, x as int, y as int),
{
    match to_matrix_index(x, y) {
        Some((row, column)) => match board.get(row, column) {
            Some(code) => code == 0,
            None => true,
        },
        None => true,
    }
}

impl Board {
    /// The grid of a board has the fixed extent of 21 rows by 12 columns.
    pub proof fn lemma_view_is_grid(&self)
        ensures
            is_grid(self@),
    {
    }

    /// The board of a new game: an empty playfield inside the boundary.
    pub fn new() -> (board: Board)
        ensures
            board@ == empty_grid(),
    {
        let mut board = Board { data: matrix_zeros() };
        let mut row: usize = 0;
        while row < 20
            invariant
                row <= 20,
                forall|r: int, c: int|
                    on_grid(r, c) ==> #[trigger] board@[r][c] == (if r < row && (c == 0 || c == 11) {
                        99u8
                    } else {
                        0u8
                    }),
            decreases 20 - row,
        {
            board.write(row, 0, 99);
            board.write(row, 11, 99);
            row += 1;
        }
        let mut column: usize = 0;
        while column < 12
            invariant
                column <= 12,
                forall|r: int, c: int|
                    on_grid(r, c) ==> #[trigger] board@[r][c] == (if (r < 20 && (c == 0 || c == 11))
                        || (r == 20 && c < column) {
                        99u8
                    } else {
                        0u8
                    }),
            decreases 12 - column,
        {
            board.write(20, column, 99);
            column += 1;
        }
        assert(board@ =~~= empty_grid());
        board
    }

    /// The code of the cell in the given row and column, or `None` where
    /// the place lies outside the grid.
    pub fn get(&self, row: usize, column: usize) -> (code: Option<u8>)
        ensures
            code == (if on_grid(row as int, column as int) {
                Some(self@[row as int][column as int])
            } else {
                None
            }),
    {
        matrix_get(&self.data, row, column)
    }

    fn write(&mut self, row: usize, column: usize, code: u8)
        requires
            on_grid(row as int, column as int),
        ensures
            final(self)@ == old(self)@.update(
                row as int,
                old(self)@[row as int].update(column as int, code),
            ),
    {
        matrix_set(&mut self.data, row, column, code);
        assert(self@ =~~= old(self)@.update(
            row as int,
            old(self)@[row as int].update(column as int, code),
        ));
    }

    /// Whether the cell `(x, y)` is free: it is, unless it lies on the grid
    /// and holds a block or a boundary cell.
    pub fn is_cell_free(&self, x: i32, y: i32) -> (free: bool)
        ensures
            free == cell_free(self@, x as int, y as int),
    {
        if x < 0 || y < 0 {
            return true;
        }
        match self.get(y as usize, x as usize) {
            Some(code) => code == 0,
            None => true,
        }
    }

    /// Puts a block of the given kind into the cell `(x, y)` where that
    /// cell lies in the playfield, and says whether it did.
    pub fn place_block(&mut self, x: i32, y: i32, kind: TetriminoType) -> (placed: bool)
        ensures
            placed == in_field(y as int, x as int),
            final(self)@ == stamped(old(self)@, seq![(x as int, y as int)], kind.code()),
    {
        let placed = 0 <= y && y < 20 && 1 <= x && x <= 10;
        if placed {
            self.write(y as usize, x as usize, kind.to_code());
        }
        assert(seq![(x as int, y as int)][0] == (x as int, y as int));
        assert(self@ =~~= stamped(old(self)@, seq![(x as int, y as int)], kind.code()));
        placed
    }

    /// Whether walls and floor are in place: every cell outside the
    /// playfield holds the boundary code.
    pub fn has_boundary(&self) -> (whole: bool)
        ensures
            whole == has_border(self@),
    {
        let mut row: usize = 0;
        while row < 21
            invariant
                row <= 21,
                forall|r: int, c: int|
                    0 <= r < row && 0 <= c < 12 && !in_field(r, c) ==> #[trigger] self@[r][c]
                        == 99,
            decreases 21 - row,
        {
            let mut column: usize = 0;
            while column < 12
                invariant
                    row < 21,
                    column <= 12,
                    forall|r: int, c: int|
                        0 <= r < row && 0 <= c < 12 && !in_field(r, c) ==> #[trigger] self@[r][c]
                            == 99,
                    forall|c: int|
                        0 <= c < column && !in_field(row as int, c) ==> #[trigger] self@[row as int][c]
                            == 99,
                decreases 12 - column,
            {
                let inside = row < 20 && 1 <= column && column <= 10;
                if !inside {
                    match self.get(row, column) {
                        Some(code) => {
                            if code != 99 {
                                assert(on_grid(row as int, column as int));
                                return false;
                            }
                        },
                        None => vstd::pervasive::unreached(),
                    }
                }
                column += 1;
            }
            row += 1;
        }
        true
    }

    /// Whether a row of the playfield is complete.
    pub fn has_complete_row(&self) -> (found: bool)
        ensures
            found == !no_complete_row(self@),
    {
        let mut row: usize = 0;
        while row < 20
            invariant
                row <= 20,
                forall|r: int| 0 <= r < row ==> !row_complete(#[trigger] self@[r]),
            decreases 20 - row,
        {
            if self.row_is_complete(row) {
                return true;
            }
            row += 1;
        }
        false
    }

    /// Whether the row is complete: none of its ten playfield cells is empty.
    fn row_is_complete(&self, row: usize) -> (complete: bool)
        requires
            row < 21,
        ensures
            complete == row_complete(self@[row as int]),
    {
        let mut column: usize = 1;
        while column <= 10
            invariant
                1 <= column <= 11,
                row < 21,
                forall|c: int| 1 <= c < column ==> #[trigger] self@[row as int][c] != 0,
            decreases 11 - column,
        {
            match self.get(row, column) {
                Some(code) => {
                    if code == 0 {
                        return false;
                    }
                },
                None => vstd::pervasive::unreached(),
            }
            column += 1;
        }
        true
    }

    /// Whether the row would be complete with the piece locked into the
    /// board.
    fn row_completed_by(&self, row: usize, tetrimino: &Tetrimino) -> (complete: bool)
        requires
            row < 20,
        ensures
            complete == row_complete(
                stamped(self@, tetrimino.cells(), tetrimino.kind.code())[row as int],
            ),
    {
        let ghost after = stamped(self@, tetrimino.cells(), tetrimino.kind.code());
        let mut column: usize = 1;
        while column <= 10
            invariant
                1 <= column <= 11,
                row < 20,
                after == stamped(self@, tetrimino.cells(), tetrimino.kind.code()),
                forall|c: int| 1 <= c < column ==> #[trigger] after[row as int][c] != 0,
            decreases 11 - column,
        {
            assert(in_field(row as int, column as int));
            assert(tetrimino.kind.code() != 0);
            if !tetrimino.occupies(column as i32, row as i32) {
                match self.get(row, column) {
                    Some(code) => {
                        if code == 0 {
                            assert(after[row as int][column as int] == 0);
                            return false;
                        }
                    },
                    None => vstd::pervasive::unreached(),
                }
            }
            column += 1;
        }
        true
    }

    /// The number of lines that locking the piece would clear. The board
    /// stays as it is.
    pub fn lines_cleared_by(&self, tetrimino: &Tetrimino) -> (lines: u8)
        ensures
            lines == completed_rows(stamped(self@, tetrimino.cells(), tetrimino.kind.code())),
            lines <= 20,
    {
        let ghost after = stamped(self@, tetrimino.cells(), tetrimino.kind.code());
        let mut lines: u8 = 0;
        let mut row: usize = 0;
        while row < 20
            invariant
                row <= 20,
                lines <= row,
                after == stamped(self@, tetrimino.cells(), tetrimino.kind.code()),
                lines == complete_among(after, row as int),
            decreases 20 - row,
        {
            if self.row_completed_by(row, tetrimino) {
                lines += 1;
            }
            row += 1;
        }
        proof {
            self.lemma_view_is_grid();
            lemma_stamped_is_grid(self@, tetrimino.cells(), tetrimino.kind.code());
            lemma_completed_rows(after);
        }
        lines
    }

    /// Writes the playfield cells of a row of `from` into a row of this
    /// board, between two wall cells.
    fn copy_row(&mut self, target: usize, from: &Board, source: usize)
        requires
            target < 21,
            source < 21,
        ensures
            final(self)@ == old(self)@.update(target as int, with_walls(from@[source as int])),
    {
        let mut column: usize = 0;
        while column < 12
            invariant
                column <= 12,
                target < 21,
                source < 21,
                self@.len() == 21,
                self@[target as int].len() == 12,
                forall|r: int| 0 <= r < 21 && r != target ==> #[trigger] self@[r] == old(self)@[r],
                forall|c: int|
                    0 <= c < column ==> #[trigger] self@[target as int][c] == with_walls(
                        from@[source as int],
                    )[c],
            decreases 12 - column,
        {
            let code: u8 = if column == 0 || column == 11 {
                99
            } else {
                match from.get(source, column) {
                    Some(code) => code,
                    None => vstd::pervasive::unreached(),
                }
            };
            self.write(target, column, code);
            column += 1;
        }
        assert(self@[target as int] =~= with_walls(from@[source as int]));
        assert(self@ =~= old(self)@.update(target as int, with_walls(from@[source as int])));
    }

    /// Writes the code of the piece into each of its four cells that lies in
    /// the playfield.
    fn stamp(&mut self, tetrimino: &Tetrimino)
        ensures
            final(self)@ == stamped(old(self)@, tetrimino.cells(), tetrimino.kind.code()),
    {
        let kind = tetrimino.kind;
        let x: i32 = tetrimino.pos.x as i32;
        let y: i32 = tetrimino.pos.y as i32;
        let ghost cells = tetrimino.cells();
        assert(cells.len() == 4);
        assert(cells[0] == (x as int, y as int));
        self.place_block(x, y, kind);
        assert(cells.take(1) =~= seq![(x as int, y as int)]);
        let mut i: usize = 0;
        while i < 3
            invariant
                i <= 3,
                kind == tetrimino.kind,
                x == tetrimino.pos.x,
                y == tetrimino.pos.y,
                cells == tetrimino.cells(),
                self@ == stamped(old(self)@, cells.take(i + 1), kind.code()),
            decreases 3 - i,
        {
            let vector = tetrimino.vectors[i];
            self.place_block(x + vector.x as i32, y + vector.y as i32, kind);
            proof {
                let cell = (x + vector.x as int, y + vector.y as int);
                assert(cells[i + 1] == cell);
                let shorter = cells.take(i + 1);
                let longer = cells.take(i + 2);
                assert(longer =~= shorter.push(cell));
                assert(seq![cell][0] == cell);
                assert forall|c: (int, int)|
                    longer.contains(c) <==> shorter.contains(c) || c == cell by {
                    if shorter.contains(c) {
                        let j = choose|j: int| 0 <= j < shorter.len() && shorter[j] == c;
                        assert(longer[j] == c);
                    }
                    if c == cell {
                        assert(longer[i + 1] == c);
                    }
                }
                assert(self@ =~~= stamped(old(self)@, cells.take(i + 2), kind.code()));
            }
            i += 1;
        }
        assert(cells.take(4) =~= cells);
    }

    /// Drops the complete rows of the playfield: the rows above them sink,
    /// and empty rows enter at the top. Returns the number of rows dropped.
    pub fn clear_complete_rows(&mut self) -> (cleared: u8)
        ensures
            final(self)@ == compacted(old(self)@),
            cleared == completed_rows(old(self)@),
            cleared <= 20,
            no_complete_row(final(self)@),
            has_border(final(self)@),
            forall|row: int| 0 <= row < cleared ==> #[trigger] final(self)@[row] == empty_row(),
            forall|row: int|
                0 <= row < 20 && !row_complete(old(self)@[row]) ==> final(self)@[row + cleared
                    - #[trigger] complete_among(old(self)@, row)] == with_walls(old(self)@[row]),
    {
        let mut updated = Board::new();
        let mut target: usize = 20;
        let mut source: usize = 20;
        let mut cleared: u8 = 0;
        let ghost grid = self@;
        assert(grid.subrange(20, 20) =~= Seq::<Seq<u8>>::empty());
        assert(grid.subrange(20, 20).filter(is_kept()).len() == 0) by {
            grid.subrange(20, 20).lemma_filter_len(is_kept());
        }
        while source > 0
            invariant
                source <= target <= 20,
                cleared == target - source,
                grid == self@,
                grid.len() == 21,
                updated@.len() == 21,
                grid.subrange(source as int, 20).filter(is_kept()).len() == 20 - target,
                forall|r: int| 0 <= r < target ==> #[trigger] updated@[r] == empty_row(),
                forall|r: int|
                    target <= r < 20 ==> #[trigger] updated@[r] == with_walls(
                        grid.subrange(source as int, 20).filter(is_kept())[r - target],
                    ),
                updated@[20] == floor_row(),
            decreases source,
        {
            let ghost below = grid.subrange(source as int, 20).filter(is_kept());
            source -= 1;
            let complete = self.row_is_complete(source);
            proof {
                let row = grid[source as int];
                let rest = grid.subrange(source as int + 1, 20);
                assert(grid.subrange(source as int, 20) =~= seq![row] + rest);
                Seq::filter_distributes_over_add(seq![row], rest, is_kept());
                lemma_filter_one(row);
            }
            if !complete {
                target -= 1;
                updated.copy_row(target, self, source);
                proof {
                    let now = grid.subrange(source as int, 20).filter(is_kept());
                    assert(now =~= seq![grid[source as int]] + below);
                    assert forall|r: int| target <= r < 20 implies #[trigger] updated@[r]
                        == with_walls(now[r - target]) by {
                        if r > target {
                            assert(now[r - target] == below[r - target - 1]);
                        }
                    }
                }
            } else {
                cleared += 1;
                proof {
                    let now = grid.subrange(source as int, 20).filter(is_kept());
                    assert(now =~= below);
                }
            }
        }
        proof {
            assert(grid.subrange(0, 20).filter(is_kept()) == surviving_rows(grid));
            assert(updated@ =~= compacted(grid));
            lemma_compacted_has_no_complete_row(grid);
            lemma_compacted_is_grid(grid);
            lemma_compaction_rows(grid);
            assert forall|row: int| 0 <= row < 20 && !row_complete(grid[row]) implies updated@[row
                + cleared - #[trigger] complete_among(grid, row)] == with_walls(grid[row]) by {
                lemma_rows_sink(grid, row);
            }
        }
        self.data = updated.data;
        cleared
    }

    /// Locks the piece into the board: its code is written into each of its
    /// four cells that lies in the playfield, then the complete rows are
    /// dropped. Returns the number of rows dropped. Every row that is not
    /// complete sinks by the number of complete rows below it, and as many
    /// empty rows as were dropped enter at the top.
    pub fn lock(&mut self, tetrimino: &Tetrimino) -> (cleared: u8)
        ensures
            final(self)@ == compacted(
                stamped(old(self)@, tetrimino.cells(), tetrimino.kind.code()),
            ),
            cleared == completed_rows(
                stamped(old(self)@, tetrimino.cells(), tetrimino.kind.code()),
            ),
            cleared <= 20,
            no_complete_row(final(self)@),
            has_border(final(self)@),
            forall|row: int| 0 <= row < cleared ==> #[trigger] final(self)@[row] == empty_row(),
            forall|row: int|
                #![trigger complete_among(
                    stamped(old(self)@, tetrimino.cells(), tetrimino.kind.code()),
                    row,
                )]
                0 <= row < 20 && !row_complete(
                    stamped(old(self)@, tetrimino.cells(), tetrimino.kind.code())[row],
                ) ==> final(self)@[row + cleared - complete_among(
                    stamped(old(self)@, tetrimino.cells(), tetrimino.kind.code()),
                    row,
                )] == with_walls(
                    stamped(old(self)@, tetrimino.cells(), tetrimino.kind.code())[row],
                ),
    {
        self.stamp(tetrimino);
        self.clear_complete_rows()
    }

    /// Locks the piece into the board, as `lock` does, and records the
    /// cleared lines in the score. Returns the number of lines cleared.
    /// The counters of the score must have room for these lines. Where
    /// that is in doubt, call `lock`, ask `ScoreBoard::can_record`, and
    /// then call `ScoreBoard::apply_score`.
    pub fn update(&mut self, tetrimino: &Tetrimino, score: &mut ScoreBoard) -> (cleared: u8)
        requires
            old(score).has_room(
                completed_rows(stamped(old(self)@, tetrimino.cells(), tetrimino.kind.code())),
            ),
        ensures
            final(self)@ == compacted(
                stamped(old(self)@, tetrimino.cells(), tetrimino.kind.code()),
            ),
            cleared == completed_rows(
                stamped(old(self)@, tetrimino.cells(), tetrimino.kind.code()),
            ),
            no_complete_row(final(self)@),
            has_border(final(self)@),
            forall|row: int| 0 <= row < cleared ==> #[trigger] final(self)@[row] == empty_row(),
            forall|row: int|
                #![trigger complete_among(
                    stamped(old(self)@, tetrimino.cells(), tetrimino.kind.code()),
                    row,
                )]
                0 <= row < 20 && !row_complete(
                    stamped(old(self)@, tetrimino.cells(), tetrimino.kind.code())[row],
                ) ==> final(self)@[row + cleared - complete_among(
                    stamped(old(self)@, tetrimino.cells(), tetrimino.kind.code()),
                    row,
                )] == with_walls(
                    stamped(old(self)@, tetrimino.cells(), tetrimino.kind.code())[row],
                ),
            *final(score) == old(score).recorded(cleared as int),
            final(score).lines == old(score).lines + cleared,
            final(score).score == old(score).score + reward(cleared as int),
            final(score).level == level_of(final(score).lines as int),
            final(score).lines >= old(score).lines,
            final(score).score >= old(score).score,
    {
        let cleared = self.lock(tetrimino);
        score.apply_score(cleared);
        cleared
    }
}

} // verus!
