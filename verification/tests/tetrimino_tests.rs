use tetris::board::Board;
use tetris::geometry::rotate_vector;
use tetris::kinds::{Rotation, TetriminoType};
use tetris::tetrimino::{Direction, Tetrimino};
use tetris::types::{WorldPoint2, WorldVector2};

const KINDS: [TetriminoType; 7] = [
    TetriminoType::I,
    TetriminoType::J,
    TetriminoType::L,
    TetriminoType::O,
    TetriminoType::S,
    TetriminoType::T,
    TetriminoType::Z,
];

fn offsets(piece: &Tetrimino) -> [(i8, i8); 3] {
    [
        (piece.vectors[0].x, piece.vectors[0].y),
        (piece.vectors[1].x, piece.vectors[1].y),
        (piece.vectors[2].x, piece.vectors[2].y),
    ]
}

#[test]
fn pieces_spawn_at_the_spawn_cell_with_their_offsets() {
    let expected = [
        [(-1, 0), (1, 0), (2, 0)],
        [(-2, 0), (-1, 0), (0, 1)],
        [(0, 1), (1, 0), (2, 0)],
        [(1, 0), (0, 1), (1, 1)],
        [(-1, 1), (0, 1), (1, 0)],
        [(-1, 0), (0, 1), (1, 0)],
        [(-1, -1), (0, -1), (1, 0)],
    ];
    for (kind, shape) in KINDS.iter().zip(expected.iter()) {
        let piece = Tetrimino::from(kind);
        assert_eq!(piece.kind, *kind);
        assert_eq!(piece.pos, WorldPoint2 { x: 5, y: 0 });
        assert_eq!(offsets(&piece), *shape);
    }
}

#[test]
fn quarter_turn_of_a_vector() {
    let vector = WorldVector2 { x: 2, y: 1 };
    assert_eq!(rotate_vector(vector, true), WorldVector2 { x: -1, y: 2 });
    assert_eq!(rotate_vector(vector, false), WorldVector2 { x: 1, y: -2 });
    let zero = WorldVector2 { x: 0, y: 0 };
    assert_eq!(rotate_vector(zero, true), zero);
    let far = WorldVector2 { x: -127, y: 127 };
    assert_eq!(rotate_vector(far, true), WorldVector2 { x: -127, y: -127 });
    assert_eq!(rotate_vector(far, false), WorldVector2 { x: 127, y: 127 });
}

#[test]
fn four_quarter_turns_give_back_the_offsets() {
    let board = Board::new();
    for kind in KINDS.iter() {
        for clockwise in [true, false] {
            let mut piece = Tetrimino::from(kind);
            piece.pos = WorldPoint2 { x: 5, y: 8 };
            let start = offsets(&piece);
            for turn in 0..4 {
                assert!(piece.rotate(clockwise, &board));
                if turn < 3 {
                    assert_ne!(offsets(&piece), start);
                }
            }
            assert_eq!(offsets(&piece), start);
            assert_eq!(piece.pos, WorldPoint2 { x: 5, y: 8 });
        }
    }
}

#[test]
fn opposite_quarter_turns_cancel() {
    let board = Board::new();
    for kind in KINDS.iter() {
        let mut piece = Tetrimino::from(kind);
        piece.pos = WorldPoint2 { x: 5, y: 8 };
        let start = offsets(&piece);
        piece.rotate_clockwise(&board);
        piece.rotate_counter_clockwise(&board);
        assert_eq!(offsets(&piece), start);
    }
}

#[test]
fn clockwise_turn_of_the_l_piece() {
    let board = Board::new();
    let mut piece = Tetrimino::from(&TetriminoType::L);
    piece.pos = WorldPoint2 { x: 5, y: 8 };
    piece.rotate_clockwise(&board);
    assert_eq!(offsets(&piece), [(-1, 0), (0, 1), (0, 2)]);
    piece.rotate_counter_clockwise(&board);
    piece.rotate_counter_clockwise(&board);
    assert_eq!(offsets(&piece), [(1, 0), (0, -1), (0, -2)]);
}

#[test]
fn move_is_taken_exactly_when_every_cell_is_free() {
    let mut board = Board::new();
    let mut piece = Tetrimino::from(&TetriminoType::T);
    assert!(piece.can_move(Direction::DOWN, &board));
    assert!(piece.move_down(&board));
    assert_eq!(piece.pos, WorldPoint2 { x: 5, y: 1 });
    piece.move_left(&board);
    assert_eq!(piece.pos, WorldPoint2 { x: 4, y: 1 });
    piece.move_right(&board);
    piece.move_right(&board);
    assert_eq!(piece.pos, WorldPoint2 { x: 6, y: 1 });

    assert!(board.place_block(7, 2, TetriminoType::O));
    let before = piece;
    assert!(!piece.can_move(Direction::DOWN, &board));
    assert!(!piece.move_down(&board));
    assert_eq!(piece.pos, before.pos);
    assert_eq!(offsets(&piece), offsets(&before));
    assert_eq!(piece.kind, before.kind);
    assert!(piece.try_move(Direction::LEFT, &board));
    assert!(piece.try_move(Direction::DOWN, &board));
    assert_eq!(piece.pos, WorldPoint2 { x: 5, y: 2 });
    assert!(!piece.try_move(Direction::RIGHT, &board));
    assert_eq!(piece.pos, WorldPoint2 { x: 5, y: 2 });
}

#[test]
fn a_block_under_the_pivot_alone_stops_the_piece() {
    let mut board = Board::new();
    let mut piece = Tetrimino::from(&TetriminoType::I);
    assert!(board.place_block(5, 1, TetriminoType::O));
    assert!(!piece.can_move(Direction::DOWN, &board));
    assert!(!piece.move_down(&board));
    assert_eq!(piece.pos, WorldPoint2 { x: 5, y: 0 });
}

#[test]
fn walls_and_floor_stop_a_piece() {
    let board = Board::new();
    let mut piece = Tetrimino::from(&TetriminoType::I);
    for _ in 0..20 {
        piece.move_left(&board);
    }
    assert_eq!(piece.pos, WorldPoint2 { x: 2, y: 0 });
    for _ in 0..20 {
        piece.move_right(&board);
    }
    assert_eq!(piece.pos, WorldPoint2 { x: 8, y: 0 });
    let mut steps = 0;
    while piece.move_down(&board) {
        steps += 1;
    }
    assert_eq!(steps, 19);
    assert_eq!(piece.pos, WorldPoint2 { x: 8, y: 19 });
}

#[test]
fn rotation_blocked_by_wall() {
    let board = Board::new();
    let mut piece = Tetrimino::from(&TetriminoType::I);
    assert!(piece.rotate(true, &board));
    for _ in 0..4 {
        piece.move_left(&board);
    }
    piece.move_down(&board);
    assert_eq!(piece.pos, WorldPoint2 { x: 1, y: 1 });
    let before = offsets(&piece);
    assert_eq!(before, [(0, -1), (0, 1), (0, 2)]);
    assert!(!piece.can_rotate(true, &board));
    assert!(!piece.rotate(true, &board));
    assert_eq!(offsets(&piece), before);
    assert!(!piece.rotate(false, &board));
    assert_eq!(offsets(&piece), before);
    piece.rotate_clockwise(&board);
    piece.rotate_counter_clockwise(&board);
    assert_eq!(offsets(&piece), before);
    assert_eq!(piece.pos, WorldPoint2 { x: 1, y: 1 });
    piece.move_right(&board);
    piece.move_right(&board);
    assert!(piece.can_rotate(true, &board));
    assert!(piece.rotate(true, &board));
    assert_eq!(offsets(&piece), [(1, 0), (-1, 0), (-2, 0)]);
}

#[test]
fn rotation_blocked_by_a_block() {
    let mut board = Board::new();
    let mut piece = Tetrimino::from(&TetriminoType::T);
    piece.pos = WorldPoint2 { x: 5, y: 10 };
    assert!(board.place_block(5, 9, TetriminoType::O));
    let before = offsets(&piece);
    assert!(!piece.rotate(true, &board));
    assert_eq!(offsets(&piece), before);
    assert!(piece.rotate(false, &board) == false);
    assert_eq!(offsets(&piece), before);
}

#[test]
fn a_piece_turns_above_the_top_row() {
    let board = Board::new();
    let mut piece = Tetrimino::from(&TetriminoType::L);
    assert!(piece.rotate(false, &board));
    assert_eq!(offsets(&piece), [(1, 0), (0, -1), (0, -2)]);
}

#[test]
fn well_formed_pieces_are_turns_of_their_kind() {
    let board = Board::new();
    for kind in KINDS.iter() {
        let mut piece = Tetrimino::from(kind);
        piece.pos = WorldPoint2 { x: 5, y: 8 };
        for _ in 0..4 {
            assert!(piece.is_well_formed());
            assert!(piece.rotate(true, &board));
        }
        piece.vectors[1] = WorldVector2 { x: 3, y: 3 };
        assert!(!piece.is_well_formed());
    }
    let mut mixed = Tetrimino::from(&TetriminoType::I);
    mixed.kind = TetriminoType::T;
    assert!(!mixed.is_well_formed());
    let far = Tetrimino {
        kind: TetriminoType::O,
        pos: WorldPoint2 { x: -128, y: 127 },
        vectors: [
            WorldVector2 { x: -128, y: 0 },
            WorldVector2 { x: 0, y: -128 },
            WorldVector2 { x: 127, y: 127 },
        ],
    };
    assert!(!far.is_well_formed());
}

#[test]
fn the_orientation_counts_clockwise_quarter_turns() {
    let board = Board::new();
    let clockwise = [Rotation::Zero, Rotation::FracPi2, Rotation::Pi, Rotation::Frac3Pi2];
    for kind in KINDS.iter() {
        let mut piece = Tetrimino::from(kind);
        piece.pos = WorldPoint2 { x: 5, y: 8 };
        for expected in clockwise {
            assert_eq!(piece.rotation(), Some(expected));
            assert!(piece.rotate(true, &board));
        }
        assert_eq!(piece.rotation(), Some(Rotation::Zero));
        assert!(piece.rotate(false, &board));
        assert_eq!(piece.rotation(), Some(Rotation::Frac3Pi2));
        piece.vectors[2] = WorldVector2 { x: 9, y: 9 };
        assert_eq!(piece.rotation(), None);
    }
}

#[test]
fn a_block_on_the_pivot_does_not_stop_a_turn() {
    let mut board = Board::new();
    assert!(board.place_block(5, 5, TetriminoType::O));
    for clockwise in [true, false] {
        let mut piece = Tetrimino::from(&TetriminoType::T);
        piece.pos = WorldPoint2 { x: 5, y: 5 };
        assert!(piece.can_rotate(clockwise, &board));
        assert!(piece.rotate(clockwise, &board));
        let expected = if clockwise {
            [(0, -1), (-1, 0), (0, 1)]
        } else {
            [(0, 1), (1, 0), (0, -1)]
        };
        assert_eq!(offsets(&piece), expected);
        assert_eq!(piece.pos, WorldPoint2 { x: 5, y: 5 });
    }
    let mut piece = Tetrimino::from(&TetriminoType::T);
    piece.pos = WorldPoint2 { x: 5, y: 5 };
    piece.rotate_clockwise(&board);
    assert_eq!(offsets(&piece), [(0, -1), (-1, 0), (0, 1)]);
    piece.rotate_counter_clockwise(&board);
    assert_eq!(offsets(&piece), [(-1, 0), (0, 1), (1, 0)]);

    assert!(board.place_block(5, 4, TetriminoType::O));
    let before = offsets(&piece);
    assert!(!piece.rotate(true, &board));
    assert_eq!(offsets(&piece), before);
}

#[test]
fn the_cells_of_a_piece() {
    let mut piece = Tetrimino::from(&TetriminoType::S);
    piece.pos = WorldPoint2 { x: 4, y: 7 };
    let cells = [(4, 7), (3, 8), (4, 8), (5, 7)];
    for x in 0..12 {
        for y in 0..21 {
            assert_eq!(piece.occupies(x, y), cells.contains(&(x, y)));
        }
    }
    assert!(!piece.occupies(-1000, 7));
}
