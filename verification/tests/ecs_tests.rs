use tetris::collisions::CollisionObjectData;
use tetris::ecs::components::{rotate_vectors, GameEntityType, Image, Point2, Position, Turn};
use tetris::ecs::resources::{Motion, Timing};
use tetris::ecs::systems::{
    Block, Candidate, CollisionsSystem, ControlSystem, MovementSystem, MovingEntity,
};
use tetris::inputs::{Axes, Buttons};
use tetris::types::WorldVector2;

const PIECES: [GameEntityType; 7] = [
    GameEntityType::I,
    GameEntityType::J,
    GameEntityType::L,
    GameEntityType::O,
    GameEntityType::S,
    GameEntityType::T,
    GameEntityType::Z,
];

const BLOCKS: [GameEntityType; 7] = [
    GameEntityType::IBlock,
    GameEntityType::JBlock,
    GameEntityType::LBlock,
    GameEntityType::OBlock,
    GameEntityType::SBlock,
    GameEntityType::TBlock,
    GameEntityType::ZBlock,
];

fn pairs(vectors: &[WorldVector2]) -> Vec<(i8, i8)> {
    vectors.iter().map(|vector| (vector.x, vector.y)).collect()
}

fn motion(up: bool, down: bool, left: bool, right: bool, rr: bool, rl: bool) -> Motion {
    Motion { up, down, left, right, rotation_right: rr, rotation_left: rl }
}

#[test]
fn entity_codes() {
    for (code, kind) in PIECES.iter().enumerate() {
        assert_eq!(GameEntityType::from_code(code as u8 + 1), Some(*kind));
    }
    assert_eq!(GameEntityType::from_code(8), Some(GameEntityType::Board));
    assert_eq!(GameEntityType::from_code(0), None);
    assert_eq!(GameEntityType::from_code(9), None);
    assert_eq!(GameEntityType::from_code(255), None);
}

#[test]
fn random_entities_are_pieces_and_vary() {
    let mut seen = Vec::new();
    for _ in 0..500 {
        let kind = GameEntityType::get_random().unwrap();
        assert!(PIECES.contains(&kind));
        if !seen.contains(&kind) {
            seen.push(kind);
        }
    }
    assert!(seen.len() >= 2);
}

#[test]
fn cells_of_the_pieces() {
    assert_eq!(pairs(&GameEntityType::T.vectors()), vec![(0, 0), (-1, -1), (0, -1), (1, -1)]);
    assert_eq!(pairs(&GameEntityType::I.vectors()), vec![(0, 0), (-1, 0), (1, 0), (2, 0)]);
    assert_eq!(pairs(&GameEntityType::J.vectors()), vec![(0, 0), (0, -1), (-1, 0), (-2, 0)]);
    assert_eq!(pairs(&GameEntityType::L.vectors()), vec![(0, 0), (0, -1), (1, 0), (2, 0)]);
    assert_eq!(pairs(&GameEntityType::Z.vectors()), vec![(0, 0), (0, 1), (1, 0), (-1, 1)]);
    assert_eq!(pairs(&GameEntityType::S.vectors()), vec![(0, 0), (0, 1), (-1, 0), (1, 1)]);
    assert_eq!(pairs(&GameEntityType::O.vectors()), vec![(0, 0), (1, 0), (0, -1), (1, -1)]);
    for block in BLOCKS {
        assert_eq!(pairs(&block.vectors()), vec![(0, 0)]);
    }
}

#[test]
fn cells_of_board_and_line() {
    let mut board: Vec<(i8, i8)> = Vec::new();
    for x in -5..7 {
        board.push((x, 0));
    }
    for y in 0..22 {
        board.push((-5, y));
    }
    for y in 0..22 {
        board.push((6, y));
    }
    assert_eq!(board.len(), 56);
    assert_eq!(pairs(&GameEntityType::Board.vectors()), board);
    let line: Vec<(i8, i8)> = (-4..6).map(|x| (x, 0)).collect();
    assert_eq!(line.len(), 10);
    assert_eq!(pairs(&GameEntityType::Line.vectors()), line);
}

#[test]
fn colours_names_groups_and_blocks() {
    let colours = [
        (165, 42, 42),
        (255, 255, 255),
        (255, 0, 255),
        (0, 0, 255),
        (0, 255, 0),
        (255, 0, 0),
        (0, 255, 255),
    ];
    for i in 0..7 {
        assert_eq!(PIECES[i].get_color(), colours[i]);
        assert_eq!(BLOCKS[i].get_color(), colours[i]);
        assert_eq!(PIECES[i].get_name(), "tetrimino");
        assert_eq!(BLOCKS[i].get_name(), "tetrimino");
        assert_eq!(PIECES[i].get_collision_group(), 1);
        assert_eq!(BLOCKS[i].get_collision_group(), 1);
        assert_eq!(PIECES[i].get_block_type(), Some(BLOCKS[i]));
        assert_eq!(BLOCKS[i].get_block_type(), None);
    }
    assert_eq!(GameEntityType::Board.get_color(), (0, 255, 255));
    assert_eq!(GameEntityType::Line.get_color(), (255, 255, 0));
    assert_eq!(GameEntityType::Board.get_name(), "board");
    assert_eq!(GameEntityType::Line.get_name(), "line");
    assert_eq!(GameEntityType::Board.get_collision_group(), 2);
    assert_eq!(GameEntityType::Line.get_collision_group(), 3);
    assert_eq!(GameEntityType::Board.get_block_type(), None);
    assert_eq!(GameEntityType::Line.get_block_type(), None);
}

#[test]
fn turns_of_vectors() {
    let vectors = GameEntityType::L.vectors();
    assert_eq!(pairs(&rotate_vectors(&vectors, Turn::Still)), pairs(&vectors));
    assert_eq!(
        pairs(&rotate_vectors(&vectors, Turn::Left)),
        vec![(0, 0), (1, 0), (0, 1), (0, 2)]
    );
    assert_eq!(
        pairs(&rotate_vectors(&vectors, Turn::Right)),
        vec![(0, 0), (-1, 0), (0, -1), (0, -2)]
    );
    let mut turned = vectors.clone();
    for _ in 0..4 {
        turned = rotate_vectors(&turned, Turn::Left);
    }
    assert_eq!(pairs(&turned), pairs(&vectors));
    let back = rotate_vectors(&rotate_vectors(&vectors, Turn::Left), Turn::Right);
    assert_eq!(pairs(&back), pairs(&vectors));
    assert_eq!(rotate_vectors(&Vec::new(), Turn::Left).len(), 0);
}

#[test]
fn positions_and_images() {
    assert_eq!(Position::new().point, Point2 { x: 0, y: 120 });
    assert_eq!(Position::default().point, Point2 { x: 0, y: 120 });
    let moved = Position::new().with_position(Point2 { x: -40, y: 60 });
    assert_eq!(moved.point, Point2 { x: -40, y: 60 });

    let empty = Image::new();
    assert_eq!(empty.kind, GameEntityType::T);
    assert!(empty.vectors.is_empty());
    let image = Image::new().with_kind(&GameEntityType::Line);
    assert_eq!(image.kind, GameEntityType::Line);
    assert!(image.vectors.is_empty());
    let image = image.with_vectors(GameEntityType::O.vectors());
    assert_eq!(image.kind, GameEntityType::Line);
    assert_eq!(pairs(&image.vectors), vec![(0, 0), (1, 0), (0, -1), (1, -1)]);

    let mut image = Image::of_kind(&GameEntityType::T);
    assert_eq!(image.kind, GameEntityType::T);
    assert_eq!(pairs(&image.vectors), vec![(0, 0), (-1, -1), (0, -1), (1, -1)]);
    image.rotate(Turn::Left);
    assert_eq!(pairs(&image.vectors), vec![(0, 0), (1, -1), (1, 0), (1, 1)]);
    image.rotate(Turn::Still);
    assert_eq!(pairs(&image.vectors), vec![(0, 0), (1, -1), (1, 0), (1, 1)]);
    image.rotate(Turn::Right);
    image.rotate(Turn::Right);
    assert_eq!(pairs(&image.vectors), vec![(0, 0), (-1, 1), (-1, 0), (-1, -1)]);
}

#[test]
fn collision_object_data() {
    let data = CollisionObjectData::new();
    assert_eq!(data.name, None);
    assert!(data.vectors.is_empty());
    assert_eq!(data.entity_id, None);
    let data = CollisionObjectData::default();
    assert_eq!(data.name, None);
    let data = data.with_name("line").with_entity_id(7).with_vectors(GameEntityType::S.vectors());
    assert_eq!(data.name, Some("line"));
    assert_eq!(data.entity_id, Some(7));
    assert_eq!(pairs(&data.vectors), vec![(0, 0), (0, 1), (-1, 0), (1, 1)]);

    let mut data = CollisionObjectData::of_kind(&GameEntityType::Z, 42);
    assert_eq!(data.name, Some("tetrimino"));
    assert_eq!(data.entity_id, Some(42));
    assert_eq!(pairs(&data.vectors), vec![(0, 0), (0, 1), (1, 0), (-1, 1)]);
    assert_eq!(
        pairs(&data.turned_vectors(Turn::Right)),
        vec![(0, 0), (1, 0), (0, -1), (1, 1)]
    );
    assert_eq!(pairs(&data.vectors), vec![(0, 0), (0, 1), (1, 0), (-1, 1)]);
    data.rotate(Turn::Right);
    assert_eq!(pairs(&data.vectors), vec![(0, 0), (1, 0), (0, -1), (1, 1)]);
    assert_eq!(data.name, Some("tetrimino"));
    assert_eq!(data.entity_id, Some(42));
    let board = CollisionObjectData::of_kind(&GameEntityType::Board, 0);
    assert_eq!(board.name, Some("board"));
    assert_eq!(board.vectors.len(), 56);
}

#[test]
fn motion_of_axes() {
    assert_eq!(Motion::new(1, -1, true, false), motion(true, false, true, false, true, false));
    assert_eq!(Motion::new(-1, 1, false, true), motion(false, true, false, true, false, true));
    assert_eq!(Motion::new(0, 0, false, false), Motion::default());
    assert!(!Motion::default().any());
    for flag in 0..6 {
        let one = motion(flag == 0, flag == 1, flag == 2, flag == 3, flag == 4, flag == 5);
        assert!(one.any());
        let mut reset = one;
        reset.reset();
        assert_eq!(reset, Motion::default());
        assert!(!reset.any());
    }
    assert_eq!(Timing::default().fall_timeout, 60);
    assert_ne!(Buttons::RotateLeft, Buttons::RotateRight);
    assert_ne!(Buttons::StartGame, Buttons::RotateRight);
    assert_ne!(Axes::Horizontal, Axes::Vertical);
}

fn entity(x: i32, y: i32, controllable: bool, is_static: bool, in_collision: bool) -> MovingEntity {
    MovingEntity { position: Position { point: Point2 { x, y } }, controllable, is_static, in_collision }
}

#[test]
fn movement_of_one_entity() {
    let still = Motion::default();
    let mut piece = entity(0, 120, true, false, false);
    MovementSystem::move_entity(&still, false, &mut piece);
    assert_eq!(piece, entity(0, 120, true, false, false));
    MovementSystem::move_entity(&still, true, &mut piece);
    assert_eq!(piece, entity(0, 100, true, false, false));
    MovementSystem::move_entity(&motion(false, true, true, false, false, false), true, &mut piece);
    assert_eq!(piece, entity(-20, 60, true, false, false));
    MovementSystem::move_entity(&motion(true, false, false, true, true, true), false, &mut piece);
    assert_eq!(piece, entity(0, 80, true, false, false));
    MovementSystem::move_entity(&motion(true, true, true, true, false, false), false, &mut piece);
    assert_eq!(piece, entity(0, 80, true, false, false));

    let all = motion(true, false, false, true, false, false);
    let mut block = entity(40, -200, false, false, false);
    MovementSystem::move_entity(&all, true, &mut block);
    assert_eq!(block, entity(40, -200, false, false, false));
    let mut touching = entity(40, -200, true, false, true);
    MovementSystem::move_entity(&all, true, &mut touching);
    assert_eq!(touching, entity(40, -200, true, false, true));
    let mut fixed = entity(40, -200, true, true, false);
    MovementSystem::move_entity(&all, true, &mut fixed);
    assert_eq!(fixed, entity(60, -180, true, true, false));
}

#[test]
fn turn_of_a_motion() {
    assert_eq!(MovementSystem::turn(&Motion::default()), Turn::Still);
    assert_eq!(MovementSystem::turn(&motion(true, true, true, true, false, false)), Turn::Still);
    assert_eq!(MovementSystem::turn(&motion(false, false, false, false, true, false)), Turn::Right);
    assert_eq!(MovementSystem::turn(&motion(false, false, false, false, false, true)), Turn::Left);
    assert_eq!(MovementSystem::turn(&motion(false, false, false, false, true, true)), Turn::Left);
}

#[test]
fn one_update_of_the_movement() {
    let mut asked = motion(false, false, true, false, true, false);
    let mut timing = Timing { fall_timeout: 3 };
    let mut entities = vec![
        entity(0, 120, true, false, false),
        entity(0, -280, false, true, false),
        entity(20, -260, false, false, false),
    ];
    let turn = MovementSystem::run(&mut asked, &mut timing, 1, &mut entities);
    assert_eq!(turn, Turn::Right);
    assert_eq!(asked, Motion::default());
    assert_eq!(timing.fall_timeout, 2);
    assert_eq!(
        entities,
        vec![
            entity(-20, 120, true, false, false),
            entity(0, -280, false, true, false),
            entity(20, -260, false, false, false),
        ]
    );
    for expected in [1, 0] {
        let turn = MovementSystem::run(&mut asked, &mut timing, 1, &mut entities);
        assert_eq!(turn, Turn::Still);
        assert_eq!(timing.fall_timeout, expected);
        assert_eq!(entities[0], entity(-20, 120, true, false, false));
    }
    MovementSystem::run(&mut asked, &mut timing, 1, &mut entities);
    assert_eq!(timing.fall_timeout, 60);
    assert_eq!(
        entities,
        vec![
            entity(-20, 100, true, false, false),
            entity(0, -280, false, true, false),
            entity(20, -260, false, false, false),
        ]
    );
    let mut none: Vec<MovingEntity> = Vec::new();
    MovementSystem::run(&mut asked, &mut timing, 1, &mut none);
    assert_eq!(timing.fall_timeout, 59);
    assert!(none.is_empty());
}

fn step(dx: i32, dy: i32, turn: Turn) -> Candidate {
    Candidate { dx, dy, turn }
}

#[test]
fn candidates_in_their_order() {
    let idle = Motion::default();
    assert_eq!(CollisionsSystem::candidates(&idle, &Timing { fall_timeout: 5 }, 1), vec![]);
    assert_eq!(CollisionsSystem::candidates(&idle, &Timing { fall_timeout: 1 }, 1), vec![]);
    assert_eq!(
        CollisionsSystem::candidates(&idle, &Timing { fall_timeout: 0 }, 1),
        vec![step(0, -20, Turn::Still)]
    );
    let all = motion(true, true, true, true, true, true);
    assert_eq!(
        CollisionsSystem::candidates(&all, &Timing { fall_timeout: 0 }, 1),
        vec![
            step(0, -20, Turn::Still),
            step(0, 20, Turn::Still),
            step(0, -20, Turn::Still),
            step(-20, 0, Turn::Still),
            step(20, 0, Turn::Still),
            step(0, 0, Turn::Right),
            step(0, 0, Turn::Left),
        ]
    );
    let some = motion(false, false, true, false, false, true);
    assert_eq!(
        CollisionsSystem::candidates(&some, &Timing { fall_timeout: 9 }, 1),
        vec![step(-20, 0, Turn::Still), step(0, 0, Turn::Left)]
    );
}

#[test]
fn first_contact_and_control() {
    assert_eq!(CollisionsSystem::first_contact(&vec![]), None);
    assert_eq!(CollisionsSystem::first_contact(&vec![false, false]), None);
    assert_eq!(CollisionsSystem::first_contact(&vec![false, true, true]), Some(1));
    assert_eq!(CollisionsSystem::first_contact(&vec![true]), Some(0));
    assert!(CollisionsSystem::removes_control(&Motion::default()));
    assert!(!CollisionsSystem::removes_control(&motion(false, true, false, false, false, false)));
    assert!(!CollisionsSystem::removes_control(&motion(false, false, false, false, false, true)));
}

#[test]
fn top_completed_line() {
    let mut none: Vec<u8> = Vec::new();
    assert_eq!(ControlSystem::calculate_top_completed_line(&mut none), 0);
    let mut lines = vec![3, 7, 5];
    assert_eq!(ControlSystem::calculate_top_completed_line(&mut lines), 7);
    assert_eq!(lines, vec![3, 7, 5]);
    let mut zero = vec![0];
    assert_eq!(ControlSystem::calculate_top_completed_line(&mut zero), 0);
    let mut high = vec![255, 1];
    assert_eq!(ControlSystem::calculate_top_completed_line(&mut high), 255);
}

#[test]
fn line_numbers() {
    assert_eq!(ControlSystem::calculate_line_number(-260), 0);
    assert_eq!(ControlSystem::calculate_line_number(-240), 1);
    assert_eq!(ControlSystem::calculate_line_number(-241), 0);
    assert_eq!(ControlSystem::calculate_line_number(-221), 1);
    assert_eq!(ControlSystem::calculate_line_number(140), 20);
    assert_eq!(ControlSystem::calculate_line_number(-261), 0);
    assert_eq!(ControlSystem::calculate_line_number(-1000), 0);
    assert_eq!(ControlSystem::calculate_line_number(i32::MIN), 0);
    assert_eq!(ControlSystem::calculate_line_number(4840), 255);
    assert_eq!(ControlSystem::calculate_line_number(4839), 254);
    assert_eq!(ControlSystem::calculate_line_number(i32::MAX), 255);
}

#[test]
fn completed_lines_are_noted_at_ten_blocks() {
    let mut lines: Vec<u8> = Vec::new();
    ControlSystem::update_completed_lines(&mut lines, 4, 9);
    assert!(lines.is_empty());
    ControlSystem::update_completed_lines(&mut lines, 4, 10);
    assert_eq!(lines, vec![4]);
    ControlSystem::update_completed_lines(&mut lines, 5, 11);
    ControlSystem::update_completed_lines(&mut lines, 6, 0);
    assert_eq!(lines, vec![4]);
    ControlSystem::update_completed_lines(&mut lines, 2, 10);
    assert_eq!(lines, vec![4, 2]);
    assert!(ControlSystem::is_complete_line(10));
    assert!(!ControlSystem::is_complete_line(9));
    assert!(!ControlSystem::is_complete_line(11));
}

#[test]
fn a_piece_splits_into_blocks() {
    let position = Position { point: Point2 { x: 40, y: -220 } };
    let vectors = GameEntityType::T.vectors();
    let blocks =
        ControlSystem::split_controlled_tetrimino_into_blocks(&vectors, &position, &GameEntityType::T);
    let expected: Vec<Block> = [(40, -220), (20, -240), (40, -240), (60, -240)]
        .iter()
        .map(|(x, y)| Block {
            position: Position { point: Point2 { x: *x, y: *y } },
            kind: GameEntityType::TBlock,
        })
        .collect();
    assert_eq!(blocks, expected);
    let none = ControlSystem::split_controlled_tetrimino_into_blocks(
        &Vec::new(),
        &position,
        &GameEntityType::I,
    );
    assert!(none.is_empty());
}

#[test]
fn blocks_above_the_top_line_sink() {
    let mut above = Position { point: Point2 { x: 20, y: -200 } };
    ControlSystem::shift_block(&mut above, 2, 2);
    assert_eq!(above.point, Point2 { x: 20, y: -240 });
    let mut level = Position { point: Point2 { x: 20, y: -220 } };
    ControlSystem::shift_block(&mut level, 2, 2);
    assert_eq!(level.point, Point2 { x: 20, y: -220 });
    let mut below = Position { point: Point2 { x: 20, y: -260 } };
    ControlSystem::shift_block(&mut below, 2, 1);
    assert_eq!(below.point, Point2 { x: 20, y: -260 });
    let mut nothing = Position { point: Point2 { x: 20, y: 100 } };
    ControlSystem::shift_block(&mut nothing, 0, 0);
    assert_eq!(nothing.point, Point2 { x: 20, y: 100 });
}

#[test]
fn the_last_entity_with_a_contact_wins() {
    assert_eq!(CollisionsSystem::select_contact(&vec![]), None);
    assert_eq!(CollisionsSystem::select_contact(&vec![vec![], vec![false, false]]), None);
    assert_eq!(
        CollisionsSystem::select_contact(&vec![vec![false, true, true], vec![false, false, false]]),
        Some((0, 1))
    );
    assert_eq!(
        CollisionsSystem::select_contact(&vec![
            vec![true, true],
            vec![false, false],
            vec![false, true],
            vec![],
        ]),
        Some((2, 1))
    );
}

fn line(height: i32, blocks_in_contact: usize) -> tetris::ecs::systems::LineContacts {
    tetris::ecs::systems::LineContacts { height, blocks_in_contact }
}

#[test]
fn complete_lines_are_those_that_ten_blocks_touch() {
    assert_eq!(ControlSystem::completed_lines(&vec![]), Vec::<u8>::new());
    let lines = vec![line(-260, 10), line(-240, 9), line(-220, 10), line(-200, 0), line(-180, 11)];
    assert_eq!(ControlSystem::completed_lines(&lines), vec![0, 2]);
    let unordered = vec![line(-100, 10), line(-260, 3), line(-240, 10)];
    assert_eq!(ControlSystem::completed_lines(&unordered), vec![8, 1]);
}

#[test]
fn blocks_sink_when_lines_are_cleared() {
    let at = |x: i32, y: i32| Position { point: Point2 { x, y } };
    let lines = vec![line(-260, 10), line(-240, 10), line(-220, 4), line(-200, 0)];
    let mut blocks = vec![at(0, -260), at(20, -240), at(40, -220), at(60, -200), at(80, 100)];
    let completed = ControlSystem::run(&lines, &mut blocks);
    assert_eq!(completed, vec![0, 1]);
    assert_eq!(blocks, vec![at(0, -260), at(20, -240), at(40, -260), at(60, -240), at(80, 60)]);

    let none = vec![line(-260, 9), line(-240, 2)];
    let mut still = vec![at(0, -260), at(20, -240), at(40, 200)];
    assert_eq!(ControlSystem::run(&none, &mut still), Vec::<u8>::new());
    assert_eq!(still, vec![at(0, -260), at(20, -240), at(40, 200)]);

    let apart = vec![line(-260, 10), line(-240, 5), line(-220, 10)];
    let mut between = vec![at(0, -240), at(0, -200)];
    assert_eq!(ControlSystem::run(&apart, &mut between), vec![0, 2]);
    assert_eq!(between, vec![at(0, -240), at(0, -240)]);
}
