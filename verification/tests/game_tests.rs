use tetris::board::Board;
use tetris::ecs::resources::Motion;
use tetris::game::{GameEvent, GamePlayState};
use tetris::inputs::GameKey;
use tetris::kinds::TetriminoType;
use tetris::random::{get_random_tetrimino_type, random_tetrimino_type};
use tetris::score::ScoreBoard;
use tetris::types::WorldPoint2;

fn grid(board: &Board) -> Vec<Vec<u8>> {
    (0..21usize)
        .map(|row| (0..12usize).map(|column| board.get(row, column).unwrap()).collect())
        .collect()
}

fn offsets(state: &GamePlayState) -> [(i8, i8); 3] {
    let vectors = state.tetrimino.vectors;
    [(vectors[0].x, vectors[0].y), (vectors[1].x, vectors[1].y), (vectors[2].x, vectors[2].y)]
}

#[test]
fn a_new_game_starts_empty() {
    let state = GamePlayState::with_pieces(TetriminoType::T, TetriminoType::S);
    assert_eq!(grid(&state.board), grid(&Board::new()));
    assert_eq!(state.fall_timeout, 60);
    assert!(!state.game_over);
    assert!(!state.start_again);
    assert_eq!(state.next_tetrimino, TetriminoType::S);
    assert_eq!(state.score, ScoreBoard { level: 0, lines: 0, score: 0 });
    assert_eq!(state.tetrimino.kind, TetriminoType::T);
    assert_eq!(state.tetrimino.pos, WorldPoint2 { x: 5, y: 0 });
    assert_eq!(offsets(&state), [(-1, 0), (0, 1), (1, 0)]);
}

#[test]
fn a_random_game_starts_empty() {
    let state = GamePlayState::new();
    assert_eq!(grid(&state.board), grid(&Board::new()));
    assert_eq!(state.fall_timeout, 60);
    assert!(!state.game_over);
    assert_eq!(state.score, ScoreBoard::new());
    assert_eq!(state.tetrimino.pos, WorldPoint2 { x: 5, y: 0 });
}

#[test]
fn random_kinds_are_kinds_and_vary() {
    let mut seen = [false; 8];
    for _ in 0..500 {
        let kind = get_random_tetrimino_type().unwrap();
        let code = kind.to_code();
        assert!((1..=7).contains(&code));
        seen[code as usize] = true;
        let other = random_tetrimino_type().to_code();
        assert!((1..=7).contains(&other));
    }
    assert!(seen.iter().filter(|kind| **kind).count() >= 2);
}

#[test]
fn the_fall_timer_counts_down_and_fires_when_it_is_passed() {
    let mut state = GamePlayState::with_pieces(TetriminoType::O, TetriminoType::I);
    for tick in 1..=60 {
        assert_eq!(state.update_with(1, TetriminoType::J), GameEvent::Nothing);
        assert_eq!(state.fall_timeout, 60 - tick);
        assert_eq!(state.tetrimino.pos, WorldPoint2 { x: 5, y: 0 });
    }
    assert_eq!(state.update_with(1, TetriminoType::J), GameEvent::Nothing);
    assert_eq!(state.tetrimino.pos, WorldPoint2 { x: 5, y: 1 });
    assert_eq!(state.fall_timeout, 60);
    assert_eq!(state.update_with(60, TetriminoType::J), GameEvent::Nothing);
    assert_eq!(state.fall_timeout, 0);
    assert_eq!(state.tetrimino.pos, WorldPoint2 { x: 5, y: 1 });
    assert_eq!(state.update_with(0, TetriminoType::J), GameEvent::Nothing);
    assert_eq!(state.tetrimino.pos, WorldPoint2 { x: 5, y: 1 });
    assert_eq!(state.update_with(1, TetriminoType::J), GameEvent::Nothing);
    assert_eq!(state.tetrimino.pos, WorldPoint2 { x: 5, y: 2 });
}

#[test]
fn the_fall_time_shrinks_with_the_level() {
    let expected = [60, 30, 20, 15, 12, 10, 8, 7, 6, 6];
    for (level, fall_time) in expected.iter().enumerate() {
        let mut state = GamePlayState::with_pieces(TetriminoType::O, TetriminoType::I);
        let lines = if level == 0 { 0 } else { (level as u8) * 5 + 1 };
        state.score = ScoreBoard { level: level as u8, lines, score: 0 };
        assert_eq!(ScoreBoard::level_for(lines), level as u8);
        state.update_with(61, TetriminoType::J);
        assert_eq!(state.fall_timeout, *fall_time);
    }
}

#[test]
fn keys_move_and_turn_the_piece() {
    let mut state = GamePlayState::with_pieces(TetriminoType::L, TetriminoType::I);
    assert_eq!(state.input_with(GameKey::Left, TetriminoType::Z), GameEvent::Nothing);
    assert_eq!(state.tetrimino.pos, WorldPoint2 { x: 4, y: 0 });
    state.input_with(GameKey::Right, TetriminoType::Z);
    state.input_with(GameKey::Right, TetriminoType::Z);
    assert_eq!(state.tetrimino.pos, WorldPoint2 { x: 6, y: 0 });
    assert_eq!(state.input_with(GameKey::Down, TetriminoType::Z), GameEvent::Nothing);
    assert_eq!(state.tetrimino.pos, WorldPoint2 { x: 6, y: 1 });
    state.input_with(GameKey::RotateRight, TetriminoType::Z);
    assert_eq!(offsets(&state), [(-1, 0), (0, 1), (0, 2)]);
    state.input_with(GameKey::RotateLeft, TetriminoType::Z);
    assert_eq!(offsets(&state), [(0, 1), (1, 0), (2, 0)]);
    state.input_with(GameKey::Restart, TetriminoType::Z);
    assert!(!state.start_again);
    assert_eq!(state.fall_timeout, 60);
    assert_eq!(state.next_tetrimino, TetriminoType::I);
}

#[test]
fn a_piece_that_lands_is_locked_and_the_next_one_spawns() {
    let mut state = GamePlayState::with_pieces(TetriminoType::O, TetriminoType::I);
    for _ in 0..18 {
        assert_eq!(state.input_with(GameKey::Down, TetriminoType::T), GameEvent::Nothing);
    }
    assert_eq!(state.tetrimino.pos, WorldPoint2 { x: 5, y: 18 });
    assert_eq!(state.input_with(GameKey::Down, TetriminoType::T), GameEvent::Landed(0));
    assert_eq!(state.tetrimino.kind, TetriminoType::I);
    assert_eq!(state.tetrimino.pos, WorldPoint2 { x: 5, y: 0 });
    assert_eq!(offsets(&state), [(-1, 0), (1, 0), (2, 0)]);
    assert_eq!(state.next_tetrimino, TetriminoType::T);
    assert_eq!(state.board.get(18, 5), Some(4));
    assert_eq!(state.board.get(18, 6), Some(4));
    assert_eq!(state.board.get(19, 5), Some(4));
    assert_eq!(state.board.get(19, 6), Some(4));
    assert_eq!(state.score, ScoreBoard::new());
    assert!(!state.game_over);
}

#[test]
fn gravity_locks_a_piece_and_clears_its_line() {
    let mut state = GamePlayState::with_pieces(TetriminoType::I, TetriminoType::S);
    for x in 1..=10 {
        if !(4..=7).contains(&x) {
            assert!(state.board.place_block(x, 19, TetriminoType::J));
        }
    }
    assert!(state.board.place_block(1, 18, TetriminoType::J));
    for _ in 0..19 {
        assert_eq!(state.update_with(61, TetriminoType::Z), GameEvent::Nothing);
    }
    assert_eq!(state.tetrimino.pos, WorldPoint2 { x: 5, y: 19 });
    assert_eq!(state.update_with(61, TetriminoType::Z), GameEvent::Landed(1));
    assert_eq!(state.score, ScoreBoard { level: 0, lines: 1, score: 40 });
    assert_eq!(state.tetrimino.kind, TetriminoType::S);
    assert_eq!(state.next_tetrimino, TetriminoType::Z);
    assert_eq!(state.fall_timeout, 60);
    for column in 1..=10usize {
        let expected = if column == 1 { 2 } else { 0 };
        assert_eq!(state.board.get(19, column), Some(expected));
        assert_eq!(state.board.get(18, column), Some(0));
    }
}

fn blocked_at_the_top() -> GamePlayState {
    let mut state = GamePlayState::with_pieces(TetriminoType::T, TetriminoType::S);
    for y in 0..20 {
        assert!(state.board.place_block(5, y, TetriminoType::I));
    }
    state
}

#[test]
fn game_over() {
    let mut state = blocked_at_the_top();
    let board = grid(&state.board);
    assert_eq!(state.update_with(60, TetriminoType::L), GameEvent::Nothing);
    assert!(!state.game_over);
    assert_eq!(state.update_with(1, TetriminoType::L), GameEvent::GameOver);
    assert!(state.game_over);
    assert_eq!(grid(&state.board), board);
    assert_eq!(state.score, ScoreBoard::new());
    assert_eq!(state.tetrimino.pos, WorldPoint2 { x: 5, y: 0 });
    assert_eq!(state.next_tetrimino, TetriminoType::S);

    let piece = offsets(&state);
    for key in [
        GameKey::Left,
        GameKey::Right,
        GameKey::Down,
        GameKey::RotateLeft,
        GameKey::RotateRight,
    ] {
        assert_eq!(state.input_with(key, TetriminoType::L), GameEvent::Nothing);
        assert_eq!(state.input(key), GameEvent::Nothing);
        assert!(state.game_over);
        assert!(!state.start_again);
        assert_eq!(grid(&state.board), board);
        assert_eq!(state.score, ScoreBoard::new());
        assert_eq!(state.tetrimino.pos, WorldPoint2 { x: 5, y: 0 });
        assert_eq!(offsets(&state), piece);
    }
    assert_eq!(state.update_with(1000, TetriminoType::L), GameEvent::Nothing);
    assert_eq!(state.update(1000), GameEvent::Nothing);
    let all = Motion {
        up: true,
        down: true,
        left: true,
        right: true,
        rotation_right: true,
        rotation_left: true,
    };
    assert_eq!(state.apply_motion_with(&all, TetriminoType::L), GameEvent::Nothing);
    assert!(state.game_over);
    assert_eq!(grid(&state.board), board);
    assert_eq!(state.score, ScoreBoard::new());
    assert!(!state.restart_if_asked());
    assert!(state.game_over);
}

#[test]
fn a_key_down_at_the_top_ends_the_game_too() {
    let mut state = blocked_at_the_top();
    assert_eq!(state.input_with(GameKey::Down, TetriminoType::L), GameEvent::GameOver);
    assert!(state.game_over);
}

#[test]
fn restart_after_game_over() {
    let mut state = blocked_at_the_top();
    state.score = ScoreBoard { level: 1, lines: 6, score: 440 };
    assert_eq!(state.input_with(GameKey::Restart, TetriminoType::L), GameEvent::Nothing);
    assert!(!state.start_again);
    assert!(!state.restart_if_asked());
    assert_eq!(state.update_with(61, TetriminoType::L), GameEvent::GameOver);
    assert_eq!(state.fall_timeout, 0);
    assert_eq!(state.input_with(GameKey::Restart, TetriminoType::L), GameEvent::Nothing);
    assert!(state.start_again);
    assert!(state.game_over);
    assert!(state.restart_if_asked());
    assert!(!state.game_over);
    assert!(!state.start_again);
    assert_eq!(grid(&state.board), grid(&Board::new()));
    assert_eq!(state.score, ScoreBoard::new());
    assert_eq!(state.fall_timeout, 60);
    assert_eq!(state.tetrimino.pos, WorldPoint2 { x: 5, y: 0 });
    assert!(!state.restart_if_asked());
}

#[test]
fn restart_with_given_kinds() {
    let mut state = blocked_at_the_top();
    state.update_with(61, TetriminoType::L);
    state.restart_with(TetriminoType::Z, TetriminoType::J);
    assert!(!state.game_over);
    assert_eq!(state.tetrimino.kind, TetriminoType::Z);
    assert_eq!(state.next_tetrimino, TetriminoType::J);
    assert_eq!(offsets(&state), [(-1, -1), (0, -1), (1, 0)]);
    state.reset();
    assert!(!state.game_over);
    assert_eq!(grid(&state.board), grid(&Board::new()));
}

#[test]
fn a_motion_is_applied_in_full() {
    let mut state = GamePlayState::with_pieces(TetriminoType::L, TetriminoType::I);
    let motion = Motion {
        up: true,
        down: true,
        left: true,
        right: false,
        rotation_right: true,
        rotation_left: false,
    };
    assert_eq!(state.apply_motion_with(&motion, TetriminoType::Z), GameEvent::Nothing);
    assert_eq!(state.tetrimino.pos, WorldPoint2 { x: 4, y: 1 });
    assert_eq!(offsets(&state), [(-1, 0), (0, 1), (0, 2)]);
    let both = Motion {
        up: false,
        down: false,
        left: true,
        right: true,
        rotation_right: true,
        rotation_left: true,
    };
    assert_eq!(state.apply_motion(&both), GameEvent::Nothing);
    assert_eq!(state.tetrimino.pos, WorldPoint2 { x: 4, y: 1 });
    assert_eq!(offsets(&state), [(-1, 0), (0, 1), (0, 2)]);
    let idle = Motion::default();
    assert_eq!(state.apply_motion(&idle), GameEvent::Nothing);
    assert_eq!(state.tetrimino.pos, WorldPoint2 { x: 4, y: 1 });
}

#[test]
fn score_and_lines_never_fall_over_a_game() {
    let mut state = GamePlayState::new();
    let mut previous = state.score;
    let keys = [GameKey::Left, GameKey::RotateRight, GameKey::Down, GameKey::Right, GameKey::Down];
    for step in 0..3000usize {
        if state.game_over || !state.score.can_record(4) {
            break;
        }
        if step % 3 == 0 {
            state.update(7);
        } else {
            state.input(keys[step % keys.len()]);
        }
        assert!(state.score.score >= previous.score);
        assert!(state.score.lines >= previous.lines);
        assert_eq!(state.score.level, ScoreBoard::level_for(state.score.lines));
        for row in 0..20usize {
            assert!((1..=10usize).any(|column| state.board.get(row, column) == Some(0)));
        }
        previous = state.score;
    }
}

#[test]
fn a_state_of_the_game_is_valid() {
    let mut state = GamePlayState::with_pieces(TetriminoType::J, TetriminoType::O);
    assert!(state.is_valid());
    assert!(state.can_step());
    for key in [GameKey::RotateLeft, GameKey::Left, GameKey::Down, GameKey::RotateRight] {
        state.input_with(key, TetriminoType::I);
        assert!(state.is_valid());
    }
    for _ in 0..40 {
        state.update_with(61, TetriminoType::T);
        assert!(state.is_valid());
        assert!(state.can_step());
    }

    let mut full = GamePlayState::with_pieces(TetriminoType::J, TetriminoType::O);
    full.score = ScoreBoard { level: 9, lines: 252, score: 0 };
    assert!(full.is_valid());
    assert!(!full.can_step());

    let mut level = GamePlayState::with_pieces(TetriminoType::J, TetriminoType::O);
    level.score = ScoreBoard { level: 3, lines: 0, score: 0 };
    assert!(!level.is_valid());
    assert!(!level.can_step());

    let mut outside = GamePlayState::with_pieces(TetriminoType::J, TetriminoType::O);
    outside.tetrimino.pos = WorldPoint2 { x: 0, y: 3 };
    assert!(!outside.is_valid());
    outside.tetrimino.pos = WorldPoint2 { x: 4, y: 20 };
    assert!(!outside.is_valid());
    outside.tetrimino.pos = WorldPoint2 { x: 10, y: 19 };
    assert!(outside.is_valid());

    let mut bent = GamePlayState::with_pieces(TetriminoType::J, TetriminoType::O);
    bent.tetrimino.vectors[0].x = 1;
    assert!(!bent.is_valid());

    let mut complete = GamePlayState::with_pieces(TetriminoType::J, TetriminoType::O);
    for x in 1..=10 {
        complete.board.place_block(x, 12, TetriminoType::S);
    }
    assert!(!complete.is_valid());
    assert_eq!(complete.board.clear_complete_rows(), 1);
    assert!(complete.is_valid());
}

#[test]
fn a_turn_is_taken_on_an_occupied_spawn_cell() {
    let mut state = GamePlayState::with_pieces(TetriminoType::T, TetriminoType::S);
    assert!(state.board.place_block(5, 0, TetriminoType::I));
    state.input_with(GameKey::RotateRight, TetriminoType::L);
    assert_eq!(offsets(&state), [(0, -1), (-1, 0), (0, 1)]);
    assert!(!state.game_over);
}

#[test]
fn a_step_down_is_refused_only_where_the_counters_would_overflow() {
    let mut state = GamePlayState::with_pieces(TetriminoType::I, TetriminoType::S);
    for x in 1..=10 {
        if !(4..=7).contains(&x) {
            assert!(state.board.place_block(x, 19, TetriminoType::J));
        }
    }
    state.score = ScoreBoard { level: 9, lines: 255, score: 0 };
    assert!(state.is_valid());
    assert!(!state.can_step());
    for _ in 0..19 {
        assert!(state.can_drop());
        assert_eq!(state.input_with(GameKey::Down, TetriminoType::Z), GameEvent::Nothing);
    }
    assert!(!state.can_drop());
    state.score = ScoreBoard { level: 9, lines: 254, score: 0 };
    assert!(state.can_drop());
    state.score = ScoreBoard { level: 9, lines: 254, score: u32::MAX - 39 };
    assert!(!state.can_drop());
    state.score = ScoreBoard { level: 9, lines: 254, score: u32::MAX - 40 };
    assert!(state.can_drop());
    assert_eq!(state.input_with(GameKey::Down, TetriminoType::Z), GameEvent::Landed(1));
    assert_eq!(state.score, ScoreBoard { level: 9, lines: 255, score: u32::MAX });

    let mut empty = GamePlayState::with_pieces(TetriminoType::O, TetriminoType::S);
    empty.score = ScoreBoard { level: 9, lines: 255, score: u32::MAX };
    for _ in 0..18 {
        empty.input_with(GameKey::Down, TetriminoType::Z);
    }
    assert!(empty.can_drop());
    assert_eq!(empty.input_with(GameKey::Down, TetriminoType::Z), GameEvent::Landed(0));
    empty.game_over = true;
    assert!(empty.can_drop());
}
