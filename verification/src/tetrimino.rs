use vstd::prelude::*;
use crate::board::Board;
use crate::constants::{SPAWN_COLUMN, TOP_BOUNDARY};
use crate::geometry::{lemma_turn_counts, rotate_vector, turn_all, turn_all_by, turn_by};
use crate::grid::{cell_free, cells_free};
use crate::kinds::{Rotation, TetriminoType};
use crate::vector_buffer::{buffer_into_inner, buffer_items, buffer_new, buffer_push};
use crate::types::{WorldPoint2, WorldVector2};

verus! {

/// A direction in which a piece moves by one cell.
#[derive(Debug, Clone, Copy, PartialEq, Eq, Structural)]
pub enum Direction {
    DOWN,
    LEFT,
    RIGHT,
}

/// The controlled piece: the cell of its pivot, and the three other cells as
/// displacements from the pivot.
#[derive(Debug, Clone, Copy)]
pub struct Tetrimino {
    pub kind: TetriminoType,
    pub pos: WorldPoint2,
    pub vectors: [WorldVector2; 3],
}

/// The three displacements of a kind as it spawns.
pub open spec fn base_offsets(kind: TetriminoType) -> Seq<(int, int)> {
    match kind {
        TetriminoType::I => seq![(-1, 0), (1, 0), (2, 0)],
        TetriminoType::J => seq![(-2, 0), (-1, 0), (0, 1)],
        TetriminoType::L => seq![(0, 1), (1, 0), (2, 0)],
        TetriminoType::O => seq![(1, 0), (0, 1), (1, 1)],
        TetriminoType::S => seq![(-1, 1), (0, 1), (1, 0)],
        TetriminoType::T => seq![(-1, 0), (0, 1), (1, 0)],
        TetriminoType::Z => seq![(-1, -1), (0, -1), (1, 0)],
    }
}

/// The four cells of a shape: the pivot, then the pivot moved by each
/// displacement.
pub open spec fn shape_cells(pivot: (int, int), offsets: Seq<(int, int)>) -> Seq<(int, int)> {
    Seq::new(
        offsets.len() + 1,
        |i: int|
            if i == 0 {
                pivot
            } else {
                (pivot.0 + offsets[i - 1].0, pivot.1 + offsets[i - 1].1)
            },
    )
}

/// The cells that the displacements reach from the pivot, the cell of the
/// pivot itself left out.
pub open spec fn reached_cells(pivot: (int, int), offsets: Seq<(int, int)>) -> Seq<(int, int)> {
    Seq::new(offsets.len(), |i: int| (pivot.0 + offsets[i].0, pivot.1 + offsets[i].1))
}

/// The three displacements of a kind differ from each other, and none of
/// them is the pivot itself.
pub proof fn lemma_base_offsets_distinct(kind: TetriminoType)
    ensures
        base_offsets(kind).len() == 3,
        forall|i: int| 0 <= i < 3 ==> #[trigger] base_offsets(kind)[i] != (0int, 0int),
        forall|i: int, j: int|
            0 <= i < j < 3 ==> #[trigger] base_offsets(kind)[i] != #[trigger] base_offsets(
                kind,
            )[j],
{
}

/// Quarter turns take different displacements to different displacements.
pub proof fn lemma_turn_is_one_to_one(first: (int, int), second: (int, int), quarter_turns: int)
    requires
        first != second,
    ensures
        turn_by(first, quarter_turns) != turn_by(second, quarter_turns),
{
}

impl Direction {
    /// The displacement of one step in this direction. Rows grow
    /// downwards.
    pub open spec fn step(self) -> (int, int) {
        match self {
            Direction::DOWN => (0, 1),
            Direction::LEFT => (-1, 0),
            Direction::RIGHT => (1, 0),
        }
    }
}

impl Tetrimino {
    /// The three displacements as pairs of integers.
    pub open spec fn offsets(&self) -> Seq<(int, int)> {
        Seq::new(3, |i: int| self.vectors@[i].offset())
    }

    /// The four cells that the piece occupies.
    pub open spec fn cells(&self) -> Seq<(int, int)> {
        shape_cells(self.pos.cell(), self.offsets())
    }

    /// A new piece of the given kind at the spawn cell.
    pub fn from(kind: &TetriminoType) -> (piece: Tetrimino)
        ensures
            piece.kind == *kind,
            piece.pos.cell() == (SPAWN_COLUMN as int, TOP_BOUNDARY as int),
            piece.offsets() == base_offsets(*kind),
            piece.wf(),
    {
        let pos = WorldPoint2::new(SPAWN_COLUMN, TOP_BOUNDARY);
        let piece = match kind {
            TetriminoType::I => Tetrimino {
                kind: TetriminoType::I,
                pos,
                vectors: [WorldVector2::new(-1, 0), WorldVector2::new(1, 0), WorldVector2::new(2, 0)],
            },
            TetriminoType::J => Tetrimino {
                kind: TetriminoType::J,
                pos,
                vectors: [WorldVector2::new(-2, 0), WorldVector2::new(-1, 0), WorldVector2::new(0, 1)],
            },
            TetriminoType::L => Tetrimino {
                kind: TetriminoType::L,
                pos,
                vectors: [WorldVector2::new(0, 1), WorldVector2::new(1, 0), WorldVector2::new(2, 0)],
            },
            TetriminoType::O => Tetrimino {
                kind: TetriminoType::O,
                pos,
                vectors: [WorldVector2::new(1, 0), WorldVector2::new(0, 1), WorldVector2::new(1, 1)],
            },
            TetriminoType::S => Tetrimino {
                kind: TetriminoType::S,
                pos,
                vectors: [WorldVector2::new(-1, 1), WorldVector2::new(0, 1), WorldVector2::new(1, 0)],
            },
            TetriminoType::T => Tetrimino {
                kind: TetriminoType::T,
                pos,
                vectors: [WorldVector2::new(-1, 0), WorldVector2::new(0, 1), WorldVector2::new(1, 0)],
            },
            TetriminoType::Z => Tetrimino {
                kind: TetriminoType::Z,
                pos,
                vectors: [WorldVector2::new(-1, -1), WorldVector2::new(0, -1), WorldVector2::new(1, 0)],
            },
        };
        assert(piece.offsets() =~= base_offsets(*kind));
        assert(turn_all_by(base_offsets(*kind), 0) =~= base_offsets(*kind));
        piece
    }

    /// The displacements are those of the kind after some number of quarter
    /// turns.
    pub open spec fn wf(&self) -> bool {
        exists|quarter_turns: int|
            0 <= quarter_turns < 4 && self.offsets() == #[trigger] turn_all_by(
                base_offsets(self.kind),
                quarter_turns,
            )
    }

    /// The pivot after one step in the given direction.
    pub open spec fn pivot_after(&self, direction: Direction) -> (int, int) {
        (self.pos.x + direction.step().0, self.pos.y + direction.step().1)
    }

    /// Whether the pivot can take one step in the given direction without
    /// leaving the range of its coordinates.
    pub open spec fn has_room_to_move(&self, direction: Direction) -> bool {
        &&& i8::MIN <= self.pivot_after(direction).0 <= i8::MAX
        &&& i8::MIN <= self.pivot_after(direction).1 <= i8::MAX
    }

    /// Whether the piece can take one step in the given direction: it can
    /// where each of its four cells, moved by that step, is free.
    pub open spec fn may_move(&self, direction: Direction, grid: Seq<Seq<u8>>) -> bool {
        cells_free(grid, shape_cells(self.pivot_after(direction), self.offsets()))
    }

    /// Whether the piece can take a quarter turn: it can where each of the
    /// three turned cells is free. The pivot stays where it is through the
    /// turn, and its cell is not looked at.
    pub open spec fn may_rotate(&self, clockwise: bool, grid: Seq<Seq<u8>>) -> bool {
        cells_free(grid, reached_cells(self.pos.cell(), turn_all(self.offsets(), clockwise)))
    }

    /// No displacement of a well-formed piece reaches further than two cells
    /// along either axis.
    pub proof fn lemma_offsets_bounded(&self)
        requires
            self.wf(),
        ensures
            forall|i: int|
                0 <= i < 3 ==> -2 <= (#[trigger] self.vectors@[i]).x <= 2 && -2
                    <= self.vectors@[i].y <= 2,
    {
        let quarter_turns = choose|quarter_turns: int|
            0 <= quarter_turns < 4 && self.offsets() == #[trigger] turn_all_by(
                base_offsets(self.kind),
                quarter_turns,
            );
        let turned = turn_all_by(base_offsets(self.kind), quarter_turns);
        assert forall|i: int| 0 <= i < 3 implies -2 <= (#[trigger] self.vectors@[i]).x <= 2 && -2
            <= self.vectors@[i].y <= 2 by {
            assert(self.offsets()[i] == turned[i]);
            assert(base_offsets(self.kind).len() == 3);
        }
    }

    /// The four cells of a well-formed piece are four different cells.
    pub proof fn lemma_cells_distinct(&self)
        requires
            self.wf(),
        ensures
            self.cells().len() == 4,
            forall|i: int, j: int|
                0 <= i < j < 4 ==> #[trigger] self.cells()[i] != #[trigger] self.cells()[j],
    {
        let quarter_turns = choose|quarter_turns: int|
            0 <= quarter_turns < 4 && self.offsets() == #[trigger] turn_all_by(
                base_offsets(self.kind),
                quarter_turns,
            );
        let base = base_offsets(self.kind);
        let turned = turn_all_by(base, quarter_turns);
        lemma_base_offsets_distinct(self.kind);
        assert forall|i: int| 0 <= i < 3 implies #[trigger] turned[i] != (0int, 0int) by {
            lemma_turn_is_one_to_one(base[i], (0, 0), quarter_turns);
        }
        assert forall|i: int, j: int| 0 <= i < j < 3 implies #[trigger] turned[i]
            != #[trigger] turned[j] by {
            lemma_turn_is_one_to_one(base[i], base[j], quarter_turns);
        }
        let cells = self.cells();
        assert forall|i: int, j: int| 0 <= i < j < 4 implies #[trigger] cells[i]
            != #[trigger] cells[j] by {
            assert(turned[j - 1] == self.offsets()[j - 1]);
            if i > 0 {
                assert(turned[i - 1] == self.offsets()[i - 1]);
            }
        }
    }

    /// Whether the four cells of a shape with the given pivot and the given
    /// displacements are free.
    fn shape_fits(x: i32, y: i32, vectors: &[WorldVector2; 3], board: &Board) -> (fits: bool)
        requires
            -1000 <= x <= 1000,
            -1000 <= y <= 1000,
        ensures
            fits == cells_free(
                board@,
                shape_cells((x as int, y as int), Seq::new(3, |i: int| vectors@[i].offset())),
            ),
    {
        let ghost cells = shape_cells(
            (x as int, y as int),
            Seq::new(3, |i: int| vectors@[i].offset()),
        );
        if !board.is_cell_free(x, y) {
            assert(cells[0] == (x as int, y as int));
            return false;
        }
        let mut i: usize = 0;
        while i < 3
            invariant
                i <= 3,
                -1000 <= x <= 1000,
                -1000 <= y <= 1000,
                cells == shape_cells(
                    (x as int, y as int),
                    Seq::new(3, |i: int| vectors@[i].offset()),
                ),
                forall|j: int| 0 <= j < i + 1 ==> cell_free(board@, (#[trigger] cells[j]).0, cells[j].1),
            decreases 3 - i,
        {
            let vector = vectors[i];
            assert(cells[i + 1] == (x + vector.x, y + vector.y));
            if !board.is_cell_free(x + vector.x as i32, y + vector.y as i32) {
                return false;
            }
            i += 1;
        }
        true
    }

    /// Whether the cell `(x, y)` is one of the four cells of the piece.
    pub fn occupies(&self, x: i32, y: i32) -> (occupied: bool)
        ensures
            occupied == self.cells().contains((x as int, y as int)),
    {
        let pivot_x: i32 = self.pos.x as i32;
        let pivot_y: i32 = self.pos.y as i32;
        let ghost cells = self.cells();
        proof {
            assert(cells.len() == 4);
            assert(cells[0] == (pivot_x as int, pivot_y as int));
            assert(cells[1] == (pivot_x + self.vectors@[0].x, pivot_y + self.vectors@[0].y));
            assert(cells[2] == (pivot_x + self.vectors@[1].x, pivot_y + self.vectors@[1].y));
            assert(cells[3] == (pivot_x + self.vectors@[2].x, pivot_y + self.vectors@[2].y));
            if cells.contains((x as int, y as int)) {
                let i = choose|i: int| 0 <= i < cells.len() && cells[i] == (x as int, y as int);
                assert(i == 0 || i == 1 || i == 2 || i == 3);
            }
        }
        (x == pivot_x && y == pivot_y) || (x == pivot_x + self.vectors[0].x as i32 && y == pivot_y
            + self.vectors[0].y as i32) || (x == pivot_x + self.vectors[1].x as i32 && y == pivot_y
            + self.vectors[1].y as i32) || (x == pivot_x + self.vectors[2].x as i32 && y == pivot_y
            + self.vectors[2].y as i32)
    }

    /// Whether the piece can take one step in the given direction.
    pub fn can_move(&self, direction: Direction, board: &Board) -> (can: bool)
        ensures
            can == self.may_move(direction, board@),
    {
        let x: i32 = self.pos.x as i32;
        let y: i32 = self.pos.y as i32;
        assert(Seq::new(3, |i: int| self.vectors@[i].offset()) == self.offsets());
        match direction {
            Direction::DOWN => Tetrimino::shape_fits(x, y + 1, &self.vectors, board),
            Direction::LEFT => Tetrimino::shape_fits(x - 1, y, &self.vectors, board),
            Direction::RIGHT => Tetrimino::shape_fits(x + 1, y, &self.vectors, board),
        }
    }

    /// The orientation of the piece: the number of clockwise quarter turns
    /// that take the displacements of its kind to those of the piece.
    /// There is none where the piece is not well-formed.
    pub fn rotation(&self) -> (rotation: Option<Rotation>)
        ensures
            rotation is Some <==> self.wf(),
            rotation matches Some(orientation) ==> self.offsets() == turn_all_by(
                base_offsets(self.kind),
                orientation.turns(),
            ),
    {
        let mut shape = Tetrimino::from(&self.kind);
        let ghost base = base_offsets(self.kind);
        let mut quarter_turns: u8 = 0;
        proof {
            lemma_turn_counts(base, 0, true);
        }
        while quarter_turns < 4
            invariant
                quarter_turns <= 4,
                base == base_offsets(self.kind),
                shape.kind == self.kind,
                shape.offsets() == turn_all_by(base, quarter_turns as int),
                forall|k: int|
                    0 <= k < quarter_turns ==> self.offsets() != #[trigger] turn_all_by(base, k),
            decreases 4 - quarter_turns,
        {
            if self.vectors[0] == shape.vectors[0] && self.vectors[1] == shape.vectors[1]
                && self.vectors[2] == shape.vectors[2] {
                assert(self.offsets() =~= shape.offsets());
                return Some(Rotation::from_quarter_turns(quarter_turns));
            }
            let ghost before = shape.offsets();
            proof {
                assert(self.offsets()[0] == self.vectors@[0].offset());
                assert(self.offsets()[1] == self.vectors@[1].offset());
                assert(self.offsets()[2] == self.vectors@[2].offset());
                assert(before[0] == shape.vectors@[0].offset());
                assert(before[1] == shape.vectors@[1].offset());
                assert(before[2] == shape.vectors@[2].offset());
                shape.lemma_offsets_bounded();
                lemma_turn_counts(base, quarter_turns as int, true);
            }
            shape.vectors = [
                rotate_vector(shape.vectors[0], true),
                rotate_vector(shape.vectors[1], true),
                rotate_vector(shape.vectors[2], true),
            ];
            assert(shape.offsets() =~= turn_all(before, true));
            quarter_turns += 1;
        }
        None
    }

    /// Whether the piece is well-formed: whether its displacements are
    /// those of its kind after some number of quarter turns.
    pub fn is_well_formed(&self) -> (well_formed: bool)
        ensures
            well_formed == self.wf(),
    {
        self.rotation().is_some()
    }

    /// Whether the piece can take a quarter turn about its pivot. The piece
    /// stays as it is: this looks at a placement and takes none.
    pub fn can_rotate(&self, clockwise: bool, board: &Board) -> (can: bool)
        requires
            self.wf(),
        ensures
            can == self.may_rotate(clockwise, board@),
    {
        let mut turned = *self;
        turned.rotate(clockwise, board)
    }

    /// Moves the piece by one step in the given direction where it can, and
    /// says whether it did. A piece that cannot move stays as it is.
    pub fn try_move(&mut self, direction: Direction, board: &Board) -> (moved: bool)
        requires
            old(self).may_move(direction, board@) ==> old(self).has_room_to_move(direction),
        ensures
            moved == old(self).may_move(direction, board@),
            moved ==> final(self).pos.cell() == old(self).pivot_after(direction),
            !moved ==> final(self).pos == old(self).pos,
            final(self).kind == old(self).kind,
            final(self).vectors == old(self).vectors,
    {
        let can = self.can_move(direction, board);
        if can {
            match direction {
                Direction::DOWN => {
                    self.pos.y = self.pos.y + 1;
                },
                Direction::LEFT => {
                    self.pos.x = self.pos.x - 1;
                },
                Direction::RIGHT => {
                    self.pos.x = self.pos.x + 1;
                },
            }
        }
        can
    }

    /// Moves the piece one column to the left where it can.
    pub fn move_left(&mut self, board: &Board)
        requires
            old(self).may_move(Direction::LEFT, board@) ==> old(self).has_room_to_move(
                Direction::LEFT,
            ),
        ensures
            final(self).pos.cell() == (if old(self).may_move(Direction::LEFT, board@) {
                old(self).pivot_after(Direction::LEFT)
            } else {
                old(self).pos.cell()
            }),
            final(self).kind == old(self).kind,
            final(self).vectors == old(self).vectors,
    {
        self.try_move(Direction::LEFT, board);
    }

    /// Moves the piece one column to the right where it can.
    pub fn move_right(&mut self, board: &Board)
        requires
            old(self).may_move(Direction::RIGHT, board@) ==> old(self).has_room_to_move(
                Direction::RIGHT,
            ),
        ensures
            final(self).pos.cell() == (if old(self).may_move(Direction::RIGHT, board@) {
                old(self).pivot_after(Direction::RIGHT)
            } else {
                old(self).pos.cell()
            }),
            final(self).kind == old(self).kind,
            final(self).vectors == old(self).vectors,
    {
        self.try_move(Direction::RIGHT, board);
    }

    /// Moves the piece one row down where it can, and says whether it did.
    pub fn move_down(&mut self, board: &Board) -> (moved: bool)
        requires
            old(self).may_move(Direction::DOWN, board@) ==> old(self).has_room_to_move(
                Direction::DOWN,
            ),
        ensures
            moved == old(self).may_move(Direction::DOWN, board@),
            final(self).pos.cell() == (if moved {
                old(self).pivot_after(Direction::DOWN)
            } else {
                old(self).pos.cell()
            }),
            final(self).kind == old(self).kind,
            final(self).vectors == old(self).vectors,
    {
        self.try_move(Direction::DOWN, board)
    }

    /// Turns the piece by a quarter turn about its pivot where it can, and
    /// says whether it did. It can where each of the three turned cells is
    /// free. No other place is tried: a piece that cannot turn where it
    /// stands stays as it is.
    pub fn rotate(&mut self, clockwise: bool, board: &Board) -> (rotated: bool)
        requires
            old(self).wf(),
        ensures
            rotated == old(self).may_rotate(clockwise, board@),
            rotated ==> final(self).offsets() == turn_all(old(self).offsets(), clockwise),
            !rotated ==> final(self).vectors == old(self).vectors,
            final(self).pos == old(self).pos,
            final(self).kind == old(self).kind,
            final(self).wf(),
    {
        let x: i32 = self.pos.x as i32;
        let y: i32 = self.pos.y as i32;
        let ghost turned = turn_all(self.offsets(), clockwise);
        let ghost cells = reached_cells(self.pos.cell(), turned);
        proof {
            self.lemma_offsets_bounded();
        }
        let mut new_vectors = buffer_new();
        let mut can_rotate = true;
        let mut i: usize = 0;
        while i < 3
            invariant_except_break
                can_rotate,
                buffer_items(new_vectors).len() == i,
                forall|j: int|
                    0 <= j < i ==> (#[trigger] buffer_items(new_vectors)[j]).0 == turned[j].0
                        && buffer_items(new_vectors)[j].1 == turned[j].1,
                forall|j: int| 0 <= j < i ==> cell_free(board@, (#[trigger] cells[j]).0, cells[j].1),
            invariant
                i <= 3,
                x == self.pos.x,
                y == self.pos.y,
                *self == *old(self),
                turned == turn_all(self.offsets(), clockwise),
                cells == reached_cells(self.pos.cell(), turned),
                forall|j: int|
                    0 <= j < 3 ==> -2 <= (#[trigger] self.vectors@[j]).x <= 2 && -2
                        <= self.vectors@[j].y <= 2,
            ensures
                can_rotate ==> i == 3 && buffer_items(new_vectors).len() == 3,
                can_rotate ==> forall|j: int|
                    0 <= j < 3 ==> (#[trigger] buffer_items(new_vectors)[j]).0 == turned[j].0
                        && buffer_items(new_vectors)[j].1 == turned[j].1,
                can_rotate == cells_free(board@, cells),
            decreases 3 - i,
        {
            let vector = self.vectors[i];
            assert(self.vectors@[i as int] == vector);
            let result = rotate_vector(vector, clockwise);
            assert(turned[i as int] == result.offset());
            assert(cells[i as int] == (x + result.x, y + result.y));
            if !board.is_cell_free(x + result.x as i32, y + result.y as i32) {
                can_rotate = false;
                break ;
            }
            buffer_push(&mut new_vectors, (result.x, result.y));
            i += 1;
        }
        if can_rotate {
            match buffer_into_inner(new_vectors) {
                Some(items) => {
                    self.vectors = [
                        WorldVector2::new(items[0].0, items[0].1),
                        WorldVector2::new(items[1].0, items[1].1),
                        WorldVector2::new(items[2].0, items[2].1),
                    ];
                },
                None => vstd::pervasive::unreached(),
            }
            proof {
                assert(self.offsets() =~= turned);
                let quarter_turns = choose|quarter_turns: int|
                    0 <= quarter_turns < 4 && old(self).offsets() == #[trigger] turn_all_by(
                        base_offsets(old(self).kind),
                        quarter_turns,
                    );
                let next = if clockwise {
                    quarter_turns + 1
                } else {
                    quarter_turns + 3
                };
                lemma_turn_counts(base_offsets(self.kind), quarter_turns, clockwise);
                lemma_turn_counts(base_offsets(self.kind), next, clockwise);
                assert(self.offsets() == turn_all_by(base_offsets(self.kind), next % 4));
            }
        }
        can_rotate
    }

    /// Turns the piece by a quarter turn clockwise where it can.
    pub fn rotate_clockwise(&mut self, board: &Board)
        requires
            old(self).wf(),
        ensures
            final(self).offsets() == (if old(self).may_rotate(true, board@) {
                turn_all(old(self).offsets(), true)
            } else {
                old(self).offsets()
            }),
            final(self).pos == old(self).pos,
            final(self).kind == old(self).kind,
            final(self).wf(),
    {
        self.rotate(true, board);
    }

    /// Turns the piece by a quarter turn counter-clockwise where it can.
    pub fn rotate_counter_clockwise(&mut self, board: &Board)
        requires
            old(self).wf(),
        ensures
            final(self).offsets() == (if old(self).may_rotate(false, board@) {
                turn_all(old(self).offsets(), false)
            } else {
                old(self).offsets()
            }),
            final(self).pos == old(self).pos,
            final(self).kind == old(self).kind,
            final(self).wf(),
    {
        self.rotate(false, board);
    }
}

} // verus!
