use vstd::prelude::*;

verus! {

/// The mathematical model of the occupancy grid: 21 rows of 12 cell codes
/// each, row 0 at the top. A cell `(x, y)` stands in row `y`, column `x`.
pub type Grid = Seq<Seq<u8>>;

/// A place of the grid, the boundary included.
pub open spec fn on_grid(row: int, column: int) -> bool {
    0 <= row < 21 && 0 <= column < 12
}

/// A place of the playfield: on the grid, and neither on the floor nor on a
/// wall.
pub open spec fn in_field(row: int, column: int) -> bool {
    0 <= row < 20 && 1 <= column <= 10
}

pub open spec fn is_grid(grid: Grid) -> bool {
    &&& grid.len() == 21
    &&& forall|row: int| 0 <= row < 21 ==> (#[trigger] grid[row]).len() == 12
}

/// Every place outside the playfield holds the boundary code.
pub open spec fn has_border(grid: Grid) -> bool {
    forall|row: int, column: int|
        on_grid(row, column) && !in_field(row, column) ==> #[trigger] grid[row][column] == 99
}

/// A cell is free unless it lies on the grid and holds a code other than 0.
/// A cell outside the grid, one with a negative coordinate too, counts as
/// free and blocks nothing; the boundary keeps a piece that starts inside
/// the playfield from ever reaching such a cell with its pivot.
pub open spec fn cell_free(grid: Grid, x: int, y: int) -> bool {
    !(on_grid(y, x) && grid[y][x] > 0)
}

/// Every cell of the sequence is free.
pub open spec fn cells_free(grid: Grid, cells: Seq<(int, int)>) -> bool {
    forall|i: int| 0 <= i < cells.len() ==> cell_free(grid, (#[trigger] cells[i]).0, cells[i].1)
}

/// A row is complete when none of its playfield cells is empty. The two wall
/// cells do not count.
pub open spec fn row_complete(row: Seq<u8>) -> bool {
    forall|column: int| 1 <= column <= 10 ==> #[trigger] row[column] != 0
}

/// No row of the playfield is complete.
pub open spec fn no_complete_row(grid: Grid) -> bool {
    forall|row: int| 0 <= row < 20 ==> !row_complete(#[trigger] grid[row])
}

/// A playfield row without blocks: two wall cells around ten empty cells.
pub open spec fn empty_row() -> Seq<u8> {
    Seq::new(
        12,
        |column: int|
            if column == 0 || column == 11 {
                99u8
            } else {
                0u8
            },
    )
}

/// The floor: twelve boundary cells.
pub open spec fn floor_row() -> Seq<u8> {
    Seq::new(12, |column: int| 99u8)
}

/// The grid of a new game: twenty empty rows above the floor.
pub open spec fn empty_grid() -> Grid {
    Seq::new(
        21,
        |row: int|
            if row < 20 {
                empty_row()
            } else {
                floor_row()
            },
    )
}

/// The row with its two wall cells set to the boundary code.
pub open spec fn with_walls(row: Seq<u8>) -> Seq<u8> {
    Seq::new(
        12,
        |column: int|
            if column == 0 || column == 11 {
                99u8
            } else {
                row[column]
            },
    )
}

/// The grid after `code` was written into every cell of `cells` that lies in
/// the playfield. Cells outside the playfield are left as they are, so the
/// boundary is never written over.
pub open spec fn stamped(grid: Grid, cells: Seq<(int, int)>, code: u8) -> Grid {
    Seq::new(
        21,
        |row: int|
            Seq::new(
                12,
                |column: int|
                    if in_field(row, column) && cells.contains((column, row)) {
                        code
                    } else {
                        grid[row][column]
                    },
            ),
    )
}

/// The rows that a compaction keeps are those that are not complete.
pub open spec fn is_kept() -> spec_fn(Seq<u8>) -> bool {
    |row: Seq<u8>| !row_complete(row)
}

/// The playfield rows that are not complete, from top to bottom.
pub open spec fn surviving_rows(grid: Grid) -> Seq<Seq<u8>> {
    grid.subrange(0, 20).filter(is_kept())
}

/// The number of complete rows of the playfield.
pub open spec fn completed_rows(grid: Grid) -> int {
    20 - surviving_rows(grid).len()
}

/// The grid after its complete rows were dropped: the rows that are not
/// complete keep their order and sink to the floor, and as many empty rows
/// as were dropped enter at the top. Walls and floor are set anew.
pub open spec fn compacted(grid: Grid) -> Grid {
    Seq::new(
        21,
        |row: int|
            if row < completed_rows(grid) {
                empty_row()
            } else if row < 20 {
                with_walls(surviving_rows(grid)[row - completed_rows(grid)])
            } else {
                floor_row()
            },
    )
}

/// What the filter of the kept rows makes of a single row.
pub proof fn lemma_filter_one(row: Seq<u8>)
    ensures
        seq![row].filter(is_kept()) == (if row_complete(row) {
            Seq::<Seq<u8>>::empty()
        } else {
            seq![row]
        }),
{
    reveal_with_fuel(Seq::filter, 2);
    assert(seq![row].drop_last() =~= Seq::<Seq<u8>>::empty());
    assert(seq![row].last() == row);
    if row_complete(row) {
        assert(seq![row].filter(is_kept()) =~= Seq::<Seq<u8>>::empty());
    } else {
        assert(seq![row].filter(is_kept()) =~= seq![row]);
    }
}

/// The number of complete rows among the first `n` rows of the grid.
pub open spec fn complete_among(grid: Grid, n: int) -> int
    decreases n,
{
    if n <= 0 {
        0
    } else {
        complete_among(grid, n - 1) + (if row_complete(grid[n - 1]) {
            1int
        } else {
            0int
        })
    }
}

/// Setting the wall cells of a row does not change whether it is complete.
pub proof fn lemma_with_walls_complete(row: Seq<u8>)
    ensures
        row_complete(with_walls(row)) == row_complete(row),
{
    if row_complete(row) {
        assert forall|column: int| 1 <= column <= 10 implies #[trigger] with_walls(row)[column]
            != 0 by {
            assert(row[column] != 0);
        }
    } else {
        let column = choose|column: int| 1 <= column <= 10 && !(#[trigger] row[column] != 0);
        assert(with_walls(row)[column] == 0);
    }
}

/// The rows that survive and the complete rows are, together, the rows of
/// the playfield: of the first `n` rows, those that the filter keeps and
/// those that are complete add up to `n`.
pub proof fn lemma_kept_and_complete(grid: Grid, n: int)
    requires
        0 <= n <= grid.len(),
    ensures
        grid.subrange(0, n).filter(is_kept()).len() + complete_among(grid, n) == n,
    decreases n,
{
    reveal(Seq::filter);
    if n > 0 {
        lemma_kept_and_complete(grid, n - 1);
        assert(grid.subrange(0, n).drop_last() =~= grid.subrange(0, n - 1));
        assert(grid.subrange(0, n).last() == grid[n - 1]);
    }
}

/// The number of rows that a compaction drops is the number of complete
/// rows of the playfield, and lies between 0 and 20.
pub proof fn lemma_completed_rows(grid: Grid)
    requires
        is_grid(grid),
    ensures
        completed_rows(grid) == complete_among(grid, 20),
        0 <= completed_rows(grid) <= 20,
        surviving_rows(grid).len() == 20 - completed_rows(grid),
{
    lemma_kept_and_complete(grid, 20);
    grid.subrange(0, 20).lemma_filter_len(is_kept());
}

/// A compaction gives a grid of the fixed extent, with its boundary in
/// place.
pub proof fn lemma_compacted_is_grid(grid: Grid)
    requires
        is_grid(grid),
    ensures
        is_grid(compacted(grid)),
        has_border(compacted(grid)),
{
    lemma_completed_rows(grid);
}

/// After a compaction no row of the playfield is complete: every complete
/// row was dropped.
pub proof fn lemma_compacted_has_no_complete_row(grid: Grid)
    requires
        is_grid(grid),
    ensures
        no_complete_row(compacted(grid)),
{
    lemma_completed_rows(grid);
    let dropped = completed_rows(grid);
    let kept = surviving_rows(grid);
    assert forall|row: int| 0 <= row < 20 implies !row_complete(#[trigger] compacted(grid)[row]) by {
        if row < dropped {
            assert(empty_row()[1] == 0);
        } else {
            grid.subrange(0, 20).lemma_filter_pred(is_kept(), row - dropped);
            lemma_with_walls_complete(kept[row - dropped]);
        }
    }
}

/// A compaction keeps the playfield at its twenty rows. It drops exactly
/// the complete rows, brings in as many empty rows at the top, keeps below
/// them the rows that were not complete, in their order and with their
/// walls, and leaves the floor in place.
pub proof fn lemma_compaction_rows(grid: Grid)
    requires
        is_grid(grid),
    ensures
        completed_rows(grid) == complete_among(grid, 20),
        surviving_rows(grid).len() + completed_rows(grid) == 20,
        forall|row: int|
            0 <= row < completed_rows(grid) ==> #[trigger] compacted(grid)[row] == empty_row(),
        forall|row: int|
            completed_rows(grid) <= row < 20 ==> #[trigger] compacted(grid)[row] == with_walls(
                surviving_rows(grid)[row - completed_rows(grid)],
            ),
        forall|i: int|
            0 <= i < surviving_rows(grid).len() ==> !row_complete(
                #[trigger] surviving_rows(grid)[i],
            ) && grid.subrange(0, 20).contains(surviving_rows(grid)[i]),
        compacted(grid)[20] == floor_row(),
        complete_among(compacted(grid), 20) == 0,
{
    lemma_completed_rows(grid);
    lemma_compacted_has_no_complete_row(grid);
    lemma_none_complete(compacted(grid), 20);
    assert forall|i: int| 0 <= i < surviving_rows(grid).len() implies !row_complete(
        #[trigger] surviving_rows(grid)[i],
    ) && grid.subrange(0, 20).contains(surviving_rows(grid)[i]) by {
        grid.subrange(0, 20).lemma_filter_pred(is_kept(), i);
        assert(surviving_rows(grid).contains(surviving_rows(grid)[i]));
        grid.subrange(0, 20).lemma_filter_contains_rev(is_kept(), surviving_rows(grid)[i]);
    }
}

/// Where a row that is not complete stands among the rows that the filter
/// keeps of the first `n` rows: as many places from the top as there are
/// rows above it that are not complete either.
pub proof fn lemma_kept_row_place(grid: Grid, n: int, row: int)
    requires
        0 <= row < n <= grid.len(),
        !row_complete(grid[row]),
    ensures
        0 <= row - complete_among(grid, row) < grid.subrange(0, n).filter(is_kept()).len(),
        grid.subrange(0, n).filter(is_kept())[row - complete_among(grid, row)] == grid[row],
    decreases n,
{
    reveal(Seq::filter);
    lemma_kept_and_complete(grid, n - 1);
    lemma_kept_and_complete(grid, row);
    grid.subrange(0, row).lemma_filter_len(is_kept());
    assert(grid.subrange(0, n).drop_last() =~= grid.subrange(0, n - 1));
    assert(grid.subrange(0, n).last() == grid[n - 1]);
    if row < n - 1 {
        lemma_kept_row_place(grid, n - 1, row);
    }
}

/// A compaction loses no row that is not complete, and keeps these rows in
/// their order: each of them sinks by the number of complete rows below
/// it, and keeps its cells between the walls.
pub proof fn lemma_rows_sink(grid: Grid, row: int)
    requires
        is_grid(grid),
        0 <= row < 20,
        !row_complete(grid[row]),
    ensures
        row <= row + completed_rows(grid) - complete_among(grid, row) < 20,
        compacted(grid)[row + completed_rows(grid) - complete_among(grid, row)] == with_walls(
            grid[row],
        ),
{
    lemma_completed_rows(grid);
    lemma_kept_row_place(grid, 20, row);
    lemma_complete_among_grows(grid, row, 20);
}

/// The count of complete rows among the first rows does not fall as more
/// rows are counted.
pub proof fn lemma_complete_among_grows(grid: Grid, fewer: int, more: int)
    requires
        fewer <= more,
    ensures
        complete_among(grid, fewer) <= complete_among(grid, more),
        0 <= complete_among(grid, fewer),
    decreases more - fewer,
{
    if fewer < more {
        lemma_complete_among_grows(grid, fewer, more - 1);
    } else {
        lemma_count_not_negative(grid, fewer);
    }
}

/// A count of complete rows is not negative.
pub proof fn lemma_count_not_negative(grid: Grid, n: int)
    ensures
        0 <= complete_among(grid, n),
    decreases n,
{
    if n > 0 {
        lemma_count_not_negative(grid, n - 1);
    }
}

/// Where none of the first `n` rows is complete, their count of complete
/// rows is 0.
pub proof fn lemma_none_complete(grid: Grid, n: int)
    requires
        0 <= n <= 20,
        no_complete_row(grid),
    ensures
        complete_among(grid, n) == 0,
    decreases n,
{
    if n > 0 {
        lemma_none_complete(grid, n - 1);
        assert(!row_complete(grid[n - 1]));
    }
}

/// The filter keeps a sequence of rows as it is where none of them is
/// complete.
pub proof fn lemma_all_kept(rows: Seq<Seq<u8>>)
    requires
        forall|i: int| 0 <= i < rows.len() ==> !row_complete(#[trigger] rows[i]),
    ensures
        rows.filter(is_kept()) == rows,
    decreases rows.len(),
{
    reveal(Seq::filter);
    if rows.len() > 0 {
        lemma_all_kept(rows.drop_last());
        assert(rows.drop_last().push(rows.last()) =~= rows);
    }
}

/// A compaction changes nothing where no row is complete.
pub proof fn lemma_compaction_without_complete_row(grid: Grid)
    requires
        is_grid(grid),
        has_border(grid),
        no_complete_row(grid),
    ensures
        compacted(grid) == grid,
        completed_rows(grid) == 0,
{
    lemma_all_kept(grid.subrange(0, 20));
    assert forall|row: int| 0 <= row < 21 implies #[trigger] compacted(grid)[row] == grid[row] by {
        if row < 20 {
            assert(grid.subrange(0, 20)[row] == grid[row]);
            assert forall|column: int| 0 <= column < 12 implies with_walls(grid[row])[column]
                == grid[row][column] by {
                if column == 0 || column == 11 {
                    assert(on_grid(row, column) && !in_field(row, column));
                }
            }
            assert(with_walls(grid[row]) =~= grid[row]);
        } else {
            assert forall|column: int| 0 <= column < 12 implies floor_row()[column]
                == grid[row][column] by {
                assert(on_grid(row, column) && !in_field(row, column));
            }
            assert(floor_row() =~= grid[20]);
        }
    }
    assert(compacted(grid) =~= grid);
}

/// Writing a code into cells of the playfield keeps the extent of the grid
/// and its boundary.
pub proof fn lemma_stamped_is_grid(grid: Grid, cells: Seq<(int, int)>, code: u8)
    requires
        is_grid(grid),
    ensures
        is_grid(stamped(grid, cells, code)),
        has_border(grid) ==> has_border(stamped(grid, cells, code)),
{
}

/// Two grids that agree in every row but one differ by at most one in their
/// count of complete rows.
pub proof fn lemma_one_row_differs(first: Grid, second: Grid, differing: int, n: int)
    requires
        0 <= n,
        forall|row: int| 0 <= row < n && row != differing ==> #[trigger] first[row] == second[row],
    ensures
        complete_among(first, n) <= complete_among(second, n) + 1,
        differing < 0 || differing >= n ==> complete_among(first, n) == complete_among(second, n),
    decreases n,
{
    if n > 0 {
        lemma_one_row_differs(first, second, differing, n - 1);
        if differing != n - 1 {
            assert(first[n - 1] == second[n - 1]);
        } else {
            lemma_one_row_differs(first, second, -1, n - 1);
        }
    }
}

/// Writing a code into cells of a playfield without a complete row
/// completes at most as many rows as cells were given: a piece of four cells
/// clears at most four rows.
pub proof fn lemma_stamp_completes_at_most(grid: Grid, cells: Seq<(int, int)>, code: u8)
    requires
        is_grid(grid),
        no_complete_row(grid),
    ensures
        0 <= completed_rows(stamped(grid, cells, code)) <= cells.len(),
    decreases cells.len(),
{
    let after = stamped(grid, cells, code);
    lemma_completed_rows(after);
    if cells.len() == 0 {
        assert(after =~~= grid);
        lemma_none_complete(grid, 20);
    } else {
        let fewer = cells.drop_last();
        let before = stamped(grid, fewer, code);
        lemma_stamp_completes_at_most(grid, fewer, code);
        lemma_completed_rows(before);
        let last = cells.last();
        assert forall|row: int| 0 <= row < 20 && row != last.1 implies #[trigger] after[row]
            == before[row] by {
            assert forall|column: int| 0 <= column < 12 implies after[row][column]
                == before[row][column] by {
                if cells.contains((column, row)) {
                    let i = choose|i: int| 0 <= i < cells.len() && cells[i] == (column, row);
                    assert(fewer[i] == (column, row));
                }
                if fewer.contains((column, row)) {
                    let i = choose|i: int| 0 <= i < fewer.len() && fewer[i] == (column, row);
                    assert(cells[i] == (column, row));
                }
            }
            assert(after[row] =~= before[row]);
        }
        lemma_one_row_differs(after, before, last.1, 20);
    }
}

/// The grid of a new game has the fixed extent, its boundary, and no
/// complete row.
pub proof fn lemma_empty_grid()
    ensures
        is_grid(empty_grid()),
        has_border(empty_grid()),
        no_complete_row(empty_grid()),
{
    assert forall|row: int| 0 <= row < 20 implies !row_complete(#[trigger] empty_grid()[row]) by {
        assert(empty_row()[1] == 0);
    }
}

} // verus!
