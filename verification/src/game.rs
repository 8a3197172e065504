use vstd::prelude::*;
use crate::board::Board;
use crate::constants::{FALL_TIME, SPAWN_COLUMN, TOP_BOUNDARY};
use crate::geometry::turn_all;
use crate::grid::{
    cells_free, compacted, completed_rows, empty_grid, has_border, in_field, is_grid,
    lemma_compacted_has_no_complete_row, lemma_compacted_is_grid, lemma_stamp_completes_at_most,
    lemma_stamped_is_grid, no_complete_row, stamped, Grid,
};
use crate::ecs::resources::Motion;
use crate::inputs::GameKey;
use crate::kinds::TetriminoType;
use crate::random::random_tetrimino_type;
use crate::score::{level_of, reward, ScoreBoard};
use crate::tetrimino::{base_offsets, reached_cells, shape_cells, Direction, Tetrimino};

verus! {

/// What happened in a step of the game that the shell around it has to
/// show or sound.
#[derive(Debug, Clone, Copy, PartialEq, Eq, Structural)]
pub enum GameEvent {
    /// Nothing to report.
    Nothing,
    /// The piece landed and was locked into the board, which cleared this
    /// many lines; the next piece is in play.
    Landed(u8),
    /// The piece could not leave the top row: the game is over.
    GameOver,
}

/// The state of a game: the board, the piece in play, the kind that comes
/// next, the score, and the time left until the piece falls by itself.
#[derive(Debug)]
pub struct GamePlayState {
    pub board: Board,
    /// Simulation updates left until the next automatic down-move.
    pub fall_timeout: u32,
    pub game_over: bool,
    pub start_again: bool,
    pub next_tetrimino: TetriminoType,
    pub score: ScoreBoard,
    pub tetrimino: Tetrimino,
}

/// The mathematical model of a game state.
pub struct GameView {
    pub board: Grid,
    pub kind: TetriminoType,
    pub pivot: (int, int),
    pub offsets: Seq<(int, int)>,
    pub next: TetriminoType,
    pub score: ScoreBoard,
    pub fall_timeout: int,
    pub game_over: bool,
    pub start_again: bool,
}

/// The time between two automatic down-moves at the given level: the time
/// at level 0 divided by the level plus one.
pub open spec fn fall_time_at(level: int) -> int {
    FALL_TIME as int / (level + 1)
}

/// The piece falls faster on a higher level: the time between two automatic
/// down-moves does not grow with the level, and is shorter on level 9 than
/// on level 0.
pub proof fn lemma_fall_time_shrinks(lower: int, higher: int)
    requires
        0 <= lower <= higher <= 9,
    ensures
        0 < fall_time_at(higher) <= fall_time_at(lower) <= FALL_TIME,
        fall_time_at(9) < fall_time_at(0),
{
    assert(fall_time_at(0) == 60 && fall_time_at(1) == 30 && fall_time_at(2) == 20 && fall_time_at(3)
        == 15 && fall_time_at(4) == 12 && fall_time_at(5) == 10 && fall_time_at(6) == 8
        && fall_time_at(7) == 7 && fall_time_at(8) == 6 && fall_time_at(9) == 6);
}

impl GameView {
    /// The state in which a game starts: an empty board, no score, a piece
    /// of the first kind at the spawn cell, and a full fall time ahead.
    pub open spec fn fresh(current: TetriminoType, next: TetriminoType) -> GameView {
        GameView {
            board: empty_grid(),
            kind: current,
            pivot: (SPAWN_COLUMN as int, TOP_BOUNDARY as int),
            offsets: base_offsets(current),
            next,
            score: ScoreBoard { level: 0, lines: 0, score: 0 },
            fall_timeout: FALL_TIME as int,
            game_over: false,
            start_again: false,
        }
    }

    /// The four cells of the piece in play.
    pub open spec fn cells(self) -> Seq<(int, int)> {
        shape_cells(self.pivot, self.offsets)
    }

    /// Whether the piece can take one step in the given direction.
    pub open spec fn may_move(self, direction: Direction) -> bool {
        cells_free(
            self.board,
            shape_cells(
                (self.pivot.0 + direction.step().0, self.pivot.1 + direction.step().1),
                self.offsets,
            ),
        )
    }

    /// Whether the piece can take a quarter turn: it can where each of the
    /// three turned cells is free.
    pub open spec fn may_rotate(self, clockwise: bool) -> bool {
        cells_free(self.board, reached_cells(self.pivot, turn_all(self.offsets, clockwise)))
    }

    /// The state after an attempt to move the piece: it moves where it can,
    /// and nothing changes where it cannot.
    pub open spec fn shifted(self, direction: Direction) -> GameView {
        if self.may_move(direction) {
            GameView {
                pivot: (self.pivot.0 + direction.step().0, self.pivot.1 + direction.step().1),
                ..self
            }
        } else {
            self
        }
    }

    /// The state after an attempt to turn the piece: it turns where it can,
    /// and nothing changes where it cannot.
    pub open spec fn turned(self, clockwise: bool) -> GameView {
        if self.may_rotate(clockwise) {
            GameView { offsets: turn_all(self.offsets, clockwise), ..self }
        } else {
            self
        }
    }

    /// The board with the piece written into it, before any row is dropped.
    pub open spec fn board_with_piece(self) -> Grid {
        stamped(self.board, self.cells(), self.kind.code())
    }

    /// The number of lines that locking the piece where it stands clears.
    pub open spec fn lines_to_clear(self) -> int {
        completed_rows(self.board_with_piece())
    }

    /// The state after the piece was locked: the board holds the piece and
    /// has lost its complete rows, the score has recorded them, the kind
    /// that was next is in play at the spawn cell, and `drawn` comes next.
    pub open spec fn landed(self, drawn: TetriminoType) -> GameView {
        GameView {
            board: compacted(self.board_with_piece()),
            kind: self.next,
            pivot: (SPAWN_COLUMN as int, TOP_BOUNDARY as int),
            offsets: base_offsets(self.next),
            next: drawn,
            score: self.score.recorded(self.lines_to_clear()),
            ..self
        }
    }

    /// The state after a down-move was asked for. The piece moves down
    /// where it can. Where it cannot and stands in the top row, the game is
    /// over. Where it cannot and stands lower, it is locked.
    pub open spec fn dropped(self, drawn: TetriminoType) -> GameView {
        if self.may_move(Direction::DOWN) {
            self.shifted(Direction::DOWN)
        } else if self.pivot.1 == TOP_BOUNDARY as int {
            GameView { game_over: true, ..self }
        } else {
            self.landed(drawn)
        }
    }

    /// What a down-move reports.
    pub open spec fn drop_event(self) -> GameEvent {
        if self.may_move(Direction::DOWN) {
            GameEvent::Nothing
        } else if self.pivot.1 == TOP_BOUNDARY as int {
            GameEvent::GameOver
        } else {
            GameEvent::Landed(self.lines_to_clear() as u8)
        }
    }

    /// The state after a key. Once the game is over, the only key with an
    /// effect is the one that asks to start again.
    pub open spec fn after_key(self, key: GameKey, drawn: TetriminoType) -> GameView {
        if self.game_over {
            if key == GameKey::Restart {
                GameView { start_again: true, ..self }
            } else {
                self
            }
        } else {
            match key {
                GameKey::Left => self.shifted(Direction::LEFT),
                GameKey::Right => self.shifted(Direction::RIGHT),
                GameKey::Down => self.dropped(drawn),
                GameKey::RotateLeft => self.turned(false),
                GameKey::RotateRight => self.turned(true),
                GameKey::Restart => self,
            }
        }
    }

    /// What a key reports.
    pub open spec fn key_event(self, key: GameKey) -> GameEvent {
        if !self.game_over && key == GameKey::Down {
            self.drop_event()
        } else {
            GameEvent::Nothing
        }
    }

    /// The state after `elapsed` simulation updates have passed. Nothing
    /// moves once the game is over. Otherwise the fall time runs down, and
    /// when more time has passed than was left, a down-move is made and the
    /// fall time starts again, shorter on a higher level.
    pub open spec fn after_time(self, elapsed: int, drawn: TetriminoType) -> GameView {
        if self.game_over {
            self
        } else if elapsed > self.fall_timeout {
            let next = self.dropped(drawn);
            if next.game_over {
                GameView { fall_timeout: 0, ..next }
            } else {
                GameView { fall_timeout: fall_time_at(next.score.level as int), ..next }
            }
        } else {
            GameView { fall_timeout: self.fall_timeout - elapsed, ..self }
        }
    }

    /// What the passing of time reports.
    pub open spec fn time_event(self, elapsed: int) -> GameEvent {
        if !self.game_over && elapsed > self.fall_timeout {
            self.drop_event()
        } else {
            GameEvent::Nothing
        }
    }

    /// The state after everything that a motion asks for was tried, in this
    /// order: a step down, a step to the left, a step to the right, a turn
    /// to the right, a turn to the left. There is no step up.
    pub open spec fn after_motion(self, motion: Motion, drawn: TetriminoType) -> GameView {
        let down = if motion.down {
            self.after_key(GameKey::Down, drawn)
        } else {
            self
        };
        let left = if motion.left {
            down.after_key(GameKey::Left, drawn)
        } else {
            down
        };
        let right = if motion.right {
            left.after_key(GameKey::Right, drawn)
        } else {
            left
        };
        let turned = if motion.rotation_right {
            right.after_key(GameKey::RotateRight, drawn)
        } else {
            right
        };
        if motion.rotation_left {
            turned.after_key(GameKey::RotateLeft, drawn)
        } else {
            turned
        }
    }

    /// What a motion reports: what its step down reports, if it asks for
    /// one.
    pub open spec fn motion_event(self, motion: Motion) -> GameEvent {
        if motion.down {
            self.key_event(GameKey::Down)
        } else {
            GameEvent::Nothing
        }
    }

    /// A state that the game can be in: the board has its boundary and no
    /// complete row, the pivot of the piece stands in the playfield, the
    /// piece has the shape of its kind, and the level is that of the lines.
    pub open spec fn wf(self) -> bool {
        &&& is_grid(self.board)
        &&& has_border(self.board)
        &&& no_complete_row(self.board)
        &&& in_field(self.pivot.1, self.pivot.0)
        &&& self.offsets.len() == 3
        &&& self.score.level == level_of(self.score.lines as int)
    }

    /// Whether a step down locks the piece: it does where the game is on,
    /// the piece cannot move down, and it does not stand in the top row.
    pub open spec fn locks(self) -> bool {
        !self.game_over && !self.may_move(Direction::DOWN) && self.pivot.1 != TOP_BOUNDARY as int
    }

    /// Whether a step down can be taken without leaving the range of the
    /// counters of the score: it can unless it locks the piece and the
    /// score has no room for the lines that this clears.
    pub open spec fn has_room_to_drop(self) -> bool {
        self.locks() ==> self.score.has_room(self.lines_to_clear())
    }
}

impl View for GamePlayState {
    type V = GameView;

    open spec fn view(&self) -> GameView {
        GameView {
            board: self.board@,
            kind: self.tetrimino.kind,
            pivot: self.tetrimino.pos.cell(),
            offsets: self.tetrimino.offsets(),
            next: self.next_tetrimino,
            score: self.score,
            fall_timeout: self.fall_timeout as int,
            game_over: self.game_over,
            start_again: self.start_again,
        }
    }
}

/// A step from a pivot in the playfield onto a free cell of a grid with its
/// boundary ends in the playfield: the boundary keeps the pivot inside.
pub proof fn lemma_pivot_stays_in_field(grid: Grid, pivot: (int, int), direction: Direction)
    requires
        is_grid(grid),
        has_border(grid),
        in_field(pivot.1, pivot.0),
        crate::grid::cell_free(
            grid,
            pivot.0 + direction.step().0,
            pivot.1 + direction.step().1,
        ),
    ensures
        in_field(pivot.1 + direction.step().1, pivot.0 + direction.step().0),
{
    let x = pivot.0 + direction.step().0;
    let y = pivot.1 + direction.step().1;
    if !in_field(y, x) {
        assert(crate::grid::on_grid(y, x));
        assert(grid[y][x] == 99);
    }
}

impl GamePlayState {
    /// A state that the game can be in: see `GameView::wf`.
    pub open spec fn wf(&self) -> bool {
        self@.wf() && self.tetrimino.wf()
    }

    /// Whether this is a state that the game can be in.
    pub fn is_valid(&self) -> (valid: bool)
        ensures
            valid == self.wf(),
    {
        proof {
            self.board.lemma_view_is_grid();
            assert(self.tetrimino.offsets().len() == 3);
        }
        self.board.has_boundary() && !self.board.has_complete_row() && 1 <= self.tetrimino.pos.x
            && self.tetrimino.pos.x <= 10 && 0 <= self.tetrimino.pos.y && self.tetrimino.pos.y
            <= 19 && self.tetrimino.is_well_formed() && self.score.level == ScoreBoard::level_for(
            self.score.lines,
        )
    }

    /// Whether a step down can be taken without leaving the range of the
    /// counters of the score: it can unless it locks the piece and the
    /// score has no room for the lines that this clears.
    pub fn can_drop(&self) -> (can: bool)
        ensures
            can == self@.has_room_to_drop(),
    {
        if self.game_over || self.tetrimino.pos.y == TOP_BOUNDARY {
            return true;
        }
        if self.tetrimino.can_move(Direction::DOWN, &self.board) {
            return true;
        }
        let lines = self.board.lines_cleared_by(&self.tetrimino);
        self.score.can_record(lines)
    }

    /// Whether every step can be taken: whether this is a state that the
    /// game can be in and its score can record four more lines.
    pub fn can_step(&self) -> (can: bool)
        ensures
            can == (self.wf() && self.score.has_room(4)),
            can ==> forall|step: Step| self@.has_room_for(step),
    {
        let can = self.is_valid() && self.score.can_record(4);
        proof {
            if can {
                lemma_room_for_four_lines(self@);
            }
        }
        can
    }

    /// A new game with the given kind in play and the given kind next.
    pub fn with_pieces(current: TetriminoType, next: TetriminoType) -> (state: GamePlayState)
        ensures
            state@ == GameView::fresh(current, next),
            state.wf(),
    {
        let state = GamePlayState {
            board: Board::new(),
            fall_timeout: FALL_TIME,
            game_over: false,
            start_again: false,
            next_tetrimino: next,
            score: ScoreBoard::new(),
            tetrimino: Tetrimino::from(&current),
        };
        proof {
            crate::grid::lemma_empty_grid();
        }
        state
    }

    /// A new game with two kinds drawn at random.
    pub fn new() -> (state: GamePlayState)
        ensures
            exists|current: TetriminoType, next: TetriminoType|
                state@ == #[trigger] GameView::fresh(current, next),
            state.wf(),
    {
        let current = random_tetrimino_type();
        let next = random_tetrimino_type();
        GamePlayState::with_pieces(current, next)
    }

    /// Starts the game anew with the given kind in play and the given kind
    /// next: the board is emptied, the score set back, and the fall time
    /// starts again in full.
    pub fn restart_with(&mut self, current: TetriminoType, next: TetriminoType)
        ensures
            final(self)@ == GameView::fresh(current, next),
            final(self).wf(),
    {
        *self = GamePlayState::with_pieces(current, next);
    }

    /// Starts the game anew with two kinds drawn at random.
    pub fn reset(&mut self)
        ensures
            exists|current: TetriminoType, next: TetriminoType|
                final(self)@ == #[trigger] GameView::fresh(current, next),
            final(self).wf(),
    {
        let next = random_tetrimino_type();
        let current = random_tetrimino_type();
        self.restart_with(current, next);
    }

    /// Starts the game anew where that was asked for after the game was
    /// over, and says whether it did. The shell then starts its clock anew
    /// as well, so that the time the finished game was shown does not
    /// count as elapsed.
    pub fn restart_if_asked(&mut self) -> (restarted: bool)
        ensures
            restarted == (old(self).start_again && old(self).game_over),
            restarted ==> final(self).wf() && exists|current: TetriminoType, next: TetriminoType|
                final(self)@ == #[trigger] GameView::fresh(current, next),
            !restarted ==> final(self)@ == old(self)@ && final(self).tetrimino == old(
                self,
            ).tetrimino,
    {
        if self.start_again && self.game_over {
            self.reset();
            true
        } else {
            false
        }
    }

    /// Makes a down-move: the piece moves down, or the game is over, or the
    /// piece is locked and the next one spawns.
    fn drop_piece(&mut self, drawn: TetriminoType) -> (event: GameEvent)
        requires
            old(self).wf(),
            !old(self).game_over,
            old(self)@.has_room_to_drop(),
        ensures
            final(self)@ == old(self)@.dropped(drawn),
            event == old(self)@.drop_event(),
            final(self).wf(),
            final(self).score.score >= old(self).score.score,
            final(self).score.lines >= old(self).score.lines,
    {
        proof {
            lemma_drop(self@, drawn);
        }
        let moved = self.tetrimino.try_move(Direction::DOWN, &self.board);
        if moved {
            proof {
                let after = shape_cells(
                    old(self).tetrimino.pivot_after(Direction::DOWN),
                    old(self).tetrimino.offsets(),
                );
                assert(after[0] == old(self).tetrimino.pivot_after(Direction::DOWN));
                lemma_pivot_stays_in_field(self.board@, old(self)@.pivot, Direction::DOWN);
                assert(self.tetrimino.offsets() == old(self).tetrimino.offsets());
            }
            GameEvent::Nothing
        } else if self.tetrimino.pos.y == TOP_BOUNDARY {
            self.game_over = true;
            GameEvent::GameOver
        } else {
            proof {
                let cells = self.tetrimino.cells();
                let code = self.tetrimino.kind.code();
                lemma_stamped_is_grid(self.board@, cells, code);
                lemma_compacted_is_grid(stamped(self.board@, cells, code));
                lemma_compacted_has_no_complete_row(stamped(self.board@, cells, code));
            }
            let cleared = self.board.update(&self.tetrimino, &mut self.score);
            self.tetrimino = Tetrimino::from(&self.next_tetrimino);
            self.next_tetrimino = drawn;
            GameEvent::Landed(cleared)
        }
    }

    /// Moves the piece sideways where it can.
    fn shift_piece(&mut self, direction: Direction)
        requires
            old(self).wf(),
            direction != Direction::DOWN,
        ensures
            final(self)@ == old(self)@.shifted(direction),
            final(self).wf(),
    {
        let moved = self.tetrimino.try_move(direction, &self.board);
        proof {
            assert(self.tetrimino.offsets() == old(self).tetrimino.offsets());
            if moved {
                let after = shape_cells(
                    old(self).tetrimino.pivot_after(direction),
                    old(self).tetrimino.offsets(),
                );
                assert(after[0] == old(self).tetrimino.pivot_after(direction));
                lemma_pivot_stays_in_field(self.board@, old(self)@.pivot, direction);
            }
        }
    }

    /// Handles a key, with `drawn` as the kind that a locked piece makes
    /// come next. Where a step down locks the piece, the counters of the
    /// score must have room for the lines that this clears: a score that
    /// can record four lines always has.
    pub fn input_with(&mut self, key: GameKey, drawn: TetriminoType) -> (event: GameEvent)
        requires
            old(self).wf(),
            key == GameKey::Down ==> old(self)@.has_room_to_drop(),
        ensures
            final(self)@ == old(self)@.after_key(key, drawn),
            event == old(self)@.key_event(key),
            final(self).wf(),
            final(self).score.score >= old(self).score.score,
            final(self).score.lines >= old(self).score.lines,
            old(self).game_over ==> final(self).game_over && final(self).board@ == old(self).board@
                && final(self).score == old(self).score,
    {
        proof {
            lemma_step(self@, Step::Key(key, drawn));
        }
        if !self.game_over && key == GameKey::Down {
            self.drop_piece(drawn)
        } else {
            self.sideways(key, drawn);
            GameEvent::Nothing
        }
    }

    /// Handles a key. Should the piece be locked, the kind that comes next
    /// is drawn at random.
    pub fn input(&mut self, key: GameKey) -> (event: GameEvent)
        requires
            old(self).wf(),
            key == GameKey::Down ==> old(self)@.has_room_to_drop(),
        ensures
            exists|drawn: TetriminoType| final(self)@ == #[trigger] old(self)@.after_key(key, drawn),
            event == old(self)@.key_event(key),
            final(self).wf(),
            final(self).score.score >= old(self).score.score,
            final(self).score.lines >= old(self).score.lines,
            old(self).game_over ==> final(self).game_over && final(self).board@ == old(self).board@
                && final(self).score == old(self).score,
    {
        let drawn = random_tetrimino_type();
        self.input_with(key, drawn)
    }

    /// Tries everything that a motion asks for, with `drawn` as the kind
    /// that a locked piece makes come next. Each step and each turn is
    /// taken where it is legal and dropped where it is not.
    pub fn apply_motion_with(&mut self, motion: &Motion, drawn: TetriminoType) -> (event: GameEvent)
        requires
            old(self).wf(),
            motion.down ==> old(self)@.has_room_to_drop(),
        ensures
            final(self)@ == old(self)@.after_motion(*motion, drawn),
            event == old(self)@.motion_event(*motion),
            final(self).wf(),
            final(self).score.score >= old(self).score.score,
            final(self).score.lines >= old(self).score.lines,
            old(self).game_over ==> final(self).game_over && final(self).board@ == old(self).board@
                && final(self).score == old(self).score,
    {
        proof {
            lemma_step(self@, Step::Motion(*motion, drawn));
        }
        let mut event = GameEvent::Nothing;
        if motion.down {
            event = self.input_with(GameKey::Down, drawn);
        }
        if motion.left {
            self.sideways(GameKey::Left, drawn);
        }
        if motion.right {
            self.sideways(GameKey::Right, drawn);
        }
        if motion.rotation_right {
            self.sideways(GameKey::RotateRight, drawn);
        }
        if motion.rotation_left {
            self.sideways(GameKey::RotateLeft, drawn);
        }
        event
    }

    /// Handles a key that locks no piece.
    fn sideways(&mut self, key: GameKey, drawn: TetriminoType)
        requires
            old(self).wf(),
            old(self).game_over || key != GameKey::Down,
        ensures
            final(self)@ == old(self)@.after_key(key, drawn),
            final(self).wf(),
            final(self).score == old(self).score,
    {
        if self.game_over {
            if key == GameKey::Restart {
                self.start_again = true;
            }
            return ;
        }
        match key {
            GameKey::Left => {
                self.shift_piece(Direction::LEFT);
            },
            GameKey::Right => {
                self.shift_piece(Direction::RIGHT);
            },
            GameKey::RotateLeft => {
                self.tetrimino.rotate(false, &self.board);
            },
            GameKey::RotateRight => {
                self.tetrimino.rotate(true, &self.board);
            },
            _ => {},
        }
    }

    /// Tries everything that a motion asks for. Should the piece be
    /// locked, the kind that comes next is drawn at random.
    pub fn apply_motion(&mut self, motion: &Motion) -> (event: GameEvent)
        requires
            old(self).wf(),
            motion.down ==> old(self)@.has_room_to_drop(),
        ensures
            exists|drawn: TetriminoType|
                final(self)@ == #[trigger] old(self)@.after_motion(*motion, drawn),
            event == old(self)@.motion_event(*motion),
            final(self).wf(),
            final(self).score.score >= old(self).score.score,
            final(self).score.lines >= old(self).score.lines,
            old(self).game_over ==> final(self).game_over && final(self).board@ == old(self).board@
                && final(self).score == old(self).score,
    {
        let drawn = random_tetrimino_type();
        self.apply_motion_with(motion, drawn)
    }

    /// Lets `elapsed` simulation updates pass, with `drawn` as the kind
    /// that a locked piece makes come next. Where the fall time runs out
    /// and the piece is locked, the counters of the score must have room
    /// for the lines that this clears: a score that can record four lines
    /// always has.
    pub fn update_with(&mut self, elapsed: u32, drawn: TetriminoType) -> (event: GameEvent)
        requires
            old(self).wf(),
            elapsed > old(self).fall_timeout ==> old(self)@.has_room_to_drop(),
        ensures
            final(self)@ == old(self)@.after_time(elapsed as int, drawn),
            event == old(self)@.time_event(elapsed as int),
            final(self).wf(),
            final(self).score.score >= old(self).score.score,
            final(self).score.lines >= old(self).score.lines,
            old(self).game_over ==> final(self).game_over && final(self).board@ == old(self).board@
                && final(self).score == old(self).score,
    {
        proof {
            lemma_step(self@, Step::Time(elapsed as nat, drawn));
        }
        if self.game_over {
            return GameEvent::Nothing;
        }
        if elapsed > self.fall_timeout {
            let event = self.drop_piece(drawn);
            if self.game_over {
                self.fall_timeout = 0;
            } else {
                self.fall_timeout = FALL_TIME / (self.score.level as u32 + 1);
            }
            event
        } else {
            self.fall_timeout = self.fall_timeout - elapsed;
            GameEvent::Nothing
        }
    }

    /// Lets `elapsed` simulation updates pass. Should the piece be locked,
    /// the kind that comes next is drawn at random.
    pub fn update(&mut self, elapsed: u32) -> (event: GameEvent)
        requires
            old(self).wf(),
            elapsed > old(self).fall_timeout ==> old(self)@.has_room_to_drop(),
        ensures
            exists|drawn: TetriminoType|
                final(self)@ == #[trigger] old(self)@.after_time(elapsed as int, drawn),
            event == old(self)@.time_event(elapsed as int),
            final(self).wf(),
            final(self).score.score >= old(self).score.score,
            final(self).score.lines >= old(self).score.lines,
            old(self).game_over ==> final(self).game_over && final(self).board@ == old(self).board@
                && final(self).score == old(self).score,
    {
        let drawn = random_tetrimino_type();
        self.update_with(elapsed, drawn)
    }
}

/// One step of a game: a key, or the passing of time. Each carries the
/// kind that comes next should the step lock the piece.
pub enum Step {
    Key(GameKey, TetriminoType),
    Motion(Motion, TetriminoType),
    Time(nat, TetriminoType),
}

impl GameView {
    /// The state after one step.
    pub open spec fn after(self, step: Step) -> GameView {
        match step {
            Step::Key(key, drawn) => self.after_key(key, drawn),
            Step::Motion(motion, drawn) => self.after_motion(motion, drawn),
            Step::Time(elapsed, drawn) => self.after_time(elapsed as int, drawn),
        }
    }

    /// Whether the step makes a down-move: the key for it, a motion that
    /// asks for it, or the fall time running out.
    pub open spec fn drops_on(self, step: Step) -> bool {
        match step {
            Step::Key(key, _) => key == GameKey::Down,
            Step::Motion(motion, _) => motion.down,
            Step::Time(elapsed, _) => elapsed > self.fall_timeout,
        }
    }

    /// Whether the step can be taken without leaving the range of the
    /// counters of the score.
    pub open spec fn has_room_for(self, step: Step) -> bool {
        self.drops_on(step) ==> self.has_room_to_drop()
    }

    /// The state after a sequence of steps, taken in order.
    pub open spec fn after_all(self, steps: Seq<Step>) -> GameView
        decreases steps.len(),
    {
        if steps.len() == 0 {
            self
        } else {
            self.after_all(steps.drop_last()).after(steps.last())
        }
    }

    /// Whether each step of the sequence can be taken, in the state in
    /// which it comes, without leaving the range of the counters of the
    /// score.
    pub open spec fn has_room_for_all(self, steps: Seq<Step>) -> bool
        decreases steps.len(),
    {
        steps.len() == 0 || (self.has_room_for_all(steps.drop_last()) && self.after_all(
            steps.drop_last(),
        ).has_room_for(steps.last()))
    }
}

/// Locking a piece into a board without a complete row clears at most four
/// lines, and leaves a state that the game can be in.
pub proof fn lemma_landed(state: GameView, drawn: TetriminoType)
    requires
        state.wf(),
        state.score.has_room(state.lines_to_clear()),
    ensures
        0 <= state.lines_to_clear() <= 4,
        state.landed(drawn).wf(),
        state.landed(drawn).score.lines == state.score.lines + state.lines_to_clear(),
        state.landed(drawn).score.score == state.score.score + reward(state.lines_to_clear()),
{
    let cells = state.cells();
    let code = state.kind.code();
    lemma_stamp_completes_at_most(state.board, cells, code);
    lemma_stamped_is_grid(state.board, cells, code);
    lemma_compacted_is_grid(stamped(state.board, cells, code));
    lemma_compacted_has_no_complete_row(stamped(state.board, cells, code));
}

/// A score with room for four lines has room for every step down of a
/// state that the game can be in.
pub proof fn lemma_room_for_four_lines(state: GameView)
    requires
        state.wf(),
        state.score.has_room(4),
    ensures
        state.has_room_to_drop(),
        forall|step: Step| state.has_room_for(step),
{
    lemma_stamp_completes_at_most(state.board, state.cells(), state.kind.code());
}

/// A key that asks for no step down, or that comes when the game is over,
/// takes a state that the game can be in to another such state, and
/// changes neither the board nor the score nor whether the game is over.
pub proof fn lemma_quiet_key(state: GameView, key: GameKey, drawn: TetriminoType)
    requires
        state.wf(),
        state.game_over || key != GameKey::Down,
    ensures
        state.after_key(key, drawn).wf(),
        state.after_key(key, drawn).board == state.board,
        state.after_key(key, drawn).score == state.score,
        state.after_key(key, drawn).game_over == state.game_over,
        state.after_key(key, drawn).kind == state.kind,
        state.game_over ==> state.after_key(key, drawn).pivot == state.pivot && state.after_key(
            key,
            drawn,
        ).offsets == state.offsets,
{
    let left = shape_cells((state.pivot.0 - 1, state.pivot.1), state.offsets);
    let right = shape_cells((state.pivot.0 + 1, state.pivot.1), state.offsets);
    assert(left[0] == (state.pivot.0 - 1, state.pivot.1));
    assert(right[0] == (state.pivot.0 + 1, state.pivot.1));
    if state.may_move(Direction::LEFT) {
        lemma_pivot_stays_in_field(state.board, state.pivot, Direction::LEFT);
    }
    if state.may_move(Direction::RIGHT) {
        lemma_pivot_stays_in_field(state.board, state.pivot, Direction::RIGHT);
    }
}

/// A step down of a game that is on takes a state that the game can be in
/// to another such state. It adds at most four lines and at most 1200
/// points, and takes nothing away.
pub proof fn lemma_drop(state: GameView, drawn: TetriminoType)
    requires
        state.wf(),
        !state.game_over,
        state.has_room_to_drop(),
    ensures
        state.dropped(drawn).wf(),
        state.score.score <= state.dropped(drawn).score.score <= state.score.score + 1200,
        state.score.lines <= state.dropped(drawn).score.lines <= state.score.lines + 4,
{
    let down = shape_cells((state.pivot.0, state.pivot.1 + 1), state.offsets);
    assert(down[0] == (state.pivot.0, state.pivot.1 + 1));
    if state.may_move(Direction::DOWN) {
        lemma_pivot_stays_in_field(state.board, state.pivot, Direction::DOWN);
    } else if state.pivot.1 != TOP_BOUNDARY as int {
        lemma_landed(state, drawn);
    }
}

/// A step takes a state that the game can be in to another such state.
/// Neither the score nor the number of lines falls, and a step of a game
/// that is over leaves board, score and piece as they are and the game
/// over.
pub proof fn lemma_step(state: GameView, step: Step)
    requires
        state.wf(),
        state.has_room_for(step),
    ensures
        state.after(step).wf(),
        state.after(step).score.score >= state.score.score,
        state.after(step).score.lines >= state.score.lines,
        state.after(step).score.lines <= state.score.lines + 4,
        state.after(step).score.score <= state.score.score + 1200,
        state.game_over ==> {
            &&& state.after(step).game_over
            &&& state.after(step).board == state.board
            &&& state.after(step).score == state.score
            &&& state.after(step).pivot == state.pivot
            &&& state.after(step).offsets == state.offsets
            &&& state.after(step).kind == state.kind
        },
{
    match step {
        Step::Key(key, drawn) => {
            if state.game_over || key != GameKey::Down {
                lemma_quiet_key(state, key, drawn);
            } else {
                lemma_drop(state, drawn);
            }
        },
        Step::Time(elapsed, drawn) => {
            if !state.game_over && elapsed > state.fall_timeout {
                lemma_drop(state, drawn);
            }
        },
        Step::Motion(motion, drawn) => {
            let down = if motion.down {
                state.after_key(GameKey::Down, drawn)
            } else {
                state
            };
            if motion.down {
                if state.game_over {
                    lemma_quiet_key(state, GameKey::Down, drawn);
                } else {
                    lemma_drop(state, drawn);
                }
            }
            let left = if motion.left {
                down.after_key(GameKey::Left, drawn)
            } else {
                down
            };
            lemma_quiet_key(down, GameKey::Left, drawn);
            let right = if motion.right {
                left.after_key(GameKey::Right, drawn)
            } else {
                left
            };
            lemma_quiet_key(left, GameKey::Right, drawn);
            let turned = if motion.rotation_right {
                right.after_key(GameKey::RotateRight, drawn)
            } else {
                right
            };
            lemma_quiet_key(right, GameKey::RotateRight, drawn);
            lemma_quiet_key(turned, GameKey::RotateLeft, drawn);
        },
    }
}

/// Over any sequence of steps for which the counters of the score have
/// room, neither the score nor the number of lines falls, and a game that
/// is over stays over with its board and its score as they were.
pub proof fn lemma_steps(state: GameView, steps: Seq<Step>)
    requires
        state.wf(),
        state.has_room_for_all(steps),
    ensures
        state.after_all(steps).wf(),
        state.after_all(steps).score.score >= state.score.score,
        state.after_all(steps).score.lines >= state.score.lines,
        state.after_all(steps).score.lines <= state.score.lines + 4 * steps.len(),
        state.after_all(steps).score.score <= state.score.score + 1200 * steps.len(),
        state.game_over ==> {
            &&& state.after_all(steps).game_over
            &&& state.after_all(steps).board == state.board
            &&& state.after_all(steps).score == state.score
        },
    decreases steps.len(),
{
    if steps.len() > 0 {
        lemma_steps(state, steps.drop_last());
        lemma_step(state.after_all(steps.drop_last()), steps.last());
    }
}

} // verus!
