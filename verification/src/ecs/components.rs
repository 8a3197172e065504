use vstd::prelude::*;
use crate::geometry::{can_turn, rotate_vector, turn};
use crate::random::random_in_range;
use crate::types::WorldVector2;

verus! {

/// A quarter turn of a shape in the world, where heights grow upwards, or
/// none.
#[derive(Debug, Clone, Copy, PartialEq, Eq, Structural)]
pub enum Turn {
    /// No turn.
    Still,
    /// A quarter turn counter-clockwise.
    Left,
    /// A quarter turn clockwise.
    Right,
}

/// A point of the world, in world units.
#[derive(Debug, Clone, Copy, PartialEq, Eq, Structural)]
pub struct Point2 {
    pub x: i32,
    pub y: i32,
}

/// Where an entity stands in the world.
#[derive(Debug, Clone, Copy, PartialEq, Eq, Structural)]
pub struct Position {
    pub point: Point2,
}

impl Default for Position {
    fn default() -> (position: Position)
        ensures
            position.point.x == 0,
            position.point.y == 120,
    {
        Position { point: Point2 { x: 0, y: 120 } }
    }
}

impl Position {
    /// The place at which a controlled piece enters the world.
    pub fn new() -> (position: Position)
        ensures
            position.point.x == 0,
            position.point.y == 120,
    {
        Position { point: Point2 { x: 0, y: 120 } }
    }

    pub fn with_position(self, position: Point2) -> (moved: Position)
        ensures
            moved.point == position,
    {
        Position { point: position }
    }
}

/// What an entity is: a piece of one of the seven kinds, the board, a line
/// across the playfield, or a single block that a piece of one of the seven
/// kinds left behind.
#[derive(Debug, Clone, PartialEq, Eq, Copy, Structural)]
pub enum GameEntityType {
    I,
    J,
    L,
    O,
    S,
    T,
    Z,
    Board,
    Line,
    IBlock,
    JBlock,
    LBlock,
    OBlock,
    SBlock,
    TBlock,
    ZBlock,
}

impl Turn {
    /// A displacement after this turn. Heights grow upwards, so a quarter
    /// turn to the left takes `(x, y)` to `(-y, x)`.
    pub open spec fn apply(self, offset: (int, int)) -> (int, int) {
        match self {
            Turn::Still => offset,
            Turn::Left => turn(offset, true),
            Turn::Right => turn(offset, false),
        }
    }

    /// Whether each of the displacements can take this turn without leaving
    /// the range of its coordinates.
    pub open spec fn fits(self, vectors: Seq<WorldVector2>) -> bool {
        match self {
            Turn::Still => true,
            Turn::Left => forall|i: int| 0 <= i < vectors.len() ==> can_turn(#[trigger] vectors[i], true),
            Turn::Right => forall|i: int|
                0 <= i < vectors.len() ==> can_turn(#[trigger] vectors[i], false),
        }
    }

    /// Every displacement of the sequence after this turn.
    pub open spec fn apply_all(self, offsets: Seq<WorldVector2>) -> Seq<(int, int)> {
        Seq::new(offsets.len(), |i: int| self.apply(offsets[i].offset()))
    }
}

/// The displacements after the given turn.
pub fn rotate_vectors(vectors: &Vec<WorldVector2>, turn: Turn) -> (result: Vec<WorldVector2>)
    requires
        turn.fits(vectors@),
    ensures
        result.len() == vectors.len(),
        forall|i: int|
            0 <= i < result.len() ==> (#[trigger] result[i]).offset() == turn.apply(
                vectors[i].offset(),
            ),
{
    let mut result: Vec<WorldVector2> = Vec::new();
    let mut i: usize = 0;
    while i < vectors.len()
        invariant
            i <= vectors.len(),
            result.len() == i,
            turn.fits(vectors@),
            forall|j: int|
                0 <= j < i ==> (#[trigger] result[j]).offset() == turn.apply(vectors[j].offset()),
        decreases vectors.len() - i,
    {
        let vector = vectors[i];
        let rotated = match turn {
            Turn::Still => vector,
            Turn::Left => rotate_vector(vector, true),
            Turn::Right => rotate_vector(vector, false),
        };
        result.push(rotated);
        i += 1;
    }
    result
}

/// The cells that an entity kind covers, as displacements from its
/// position. A piece covers its pivot and three more cells; a block covers
/// one cell; a line covers the ten cells of a playfield row; the board
/// covers its floor of twelve cells and, above each end of it, a wall of
/// twenty-two cells.
pub open spec fn kind_offsets(kind: GameEntityType) -> Seq<(int, int)> {
    match kind {
        GameEntityType::T => seq![(0, 0), (-1, -1), (0, -1), (1, -1)],
        GameEntityType::I => seq![(0, 0), (-1, 0), (1, 0), (2, 0)],
        GameEntityType::J => seq![(0, 0), (0, -1), (-1, 0), (-2, 0)],
        GameEntityType::L => seq![(0, 0), (0, -1), (1, 0), (2, 0)],
        GameEntityType::Z => seq![(0, 0), (0, 1), (1, 0), (-1, 1)],
        GameEntityType::S => seq![(0, 0), (0, 1), (-1, 0), (1, 1)],
        GameEntityType::O => seq![(0, 0), (1, 0), (0, -1), (1, -1)],
        GameEntityType::Board => Seq::new(
            56,
            |i: int|
                if i < 12 {
                    (i - 5, 0int)
                } else if i < 34 {
                    (-5int, i - 12)
                } else {
                    (6int, i - 34)
                },
        ),
        GameEntityType::Line => Seq::new(10, |i: int| (i - 4, 0int)),
        _ => seq![(0, 0)],
    }
}

impl GameEntityType {
    /// Whether this is one of the seven kinds of piece.
    pub open spec fn is_piece(self) -> bool {
        match self {
            GameEntityType::I
            | GameEntityType::J
            | GameEntityType::L
            | GameEntityType::O
            | GameEntityType::S
            | GameEntityType::T
            | GameEntityType::Z => true,
            _ => false,
        }
    }

    /// The kind with the given code: 1 to 7 are the pieces `I`, `J`, `L`,
    /// `O`, `S`, `T`, `Z`, and 8 is the board. No other code has a kind.
    pub open spec fn of_code(code: u8) -> Option<GameEntityType> {
        if code == 1 {
            Some(GameEntityType::I)
        } else if code == 2 {
            Some(GameEntityType::J)
        } else if code == 3 {
            Some(GameEntityType::L)
        } else if code == 4 {
            Some(GameEntityType::O)
        } else if code == 5 {
            Some(GameEntityType::S)
        } else if code == 6 {
            Some(GameEntityType::T)
        } else if code == 7 {
            Some(GameEntityType::Z)
        } else if code == 8 {
            Some(GameEntityType::Board)
        } else {
            None
        }
    }

    pub fn from_code(code: u8) -> (kind: Option<GameEntityType>)
        ensures
            kind == GameEntityType::of_code(code),
    {
        match code {
            1 => Some(GameEntityType::I),
            2 => Some(GameEntityType::J),
            3 => Some(GameEntityType::L),
            4 => Some(GameEntityType::O),
            5 => Some(GameEntityType::S),
            6 => Some(GameEntityType::T),
            7 => Some(GameEntityType::Z),
            8 => Some(GameEntityType::Board),
            _ => None,
        }
    }

    /// A kind of piece drawn at random. Every draw gives one of the seven
    /// kinds of piece.
    pub fn get_random() -> (kind: Option<GameEntityType>)
        ensures
            kind is Some,
            kind->0.is_piece(),
    {
        GameEntityType::from_code(random_in_range(1, 8))
    }

    /// The cells that this kind covers, as displacements from the position
    /// of the entity.
    pub fn vectors(&self) -> (vectors: Vec<WorldVector2>)
        ensures
            vectors.len() == kind_offsets(*self).len(),
            forall|i: int|
                0 <= i < vectors.len() ==> (#[trigger] vectors[i]).offset() == kind_offsets(
                    *self,
                )[i],
    {
        let mut vectors: Vec<WorldVector2> = Vec::new();
        match self {
            GameEntityType::T => {
                vectors.push(WorldVector2::new(0, 0));
                vectors.push(WorldVector2::new(-1, -1));
                vectors.push(WorldVector2::new(0, -1));
                vectors.push(WorldVector2::new(1, -1));
            },
            GameEntityType::I => {
                vectors.push(WorldVector2::new(0, 0));
                vectors.push(WorldVector2::new(-1, 0));
                vectors.push(WorldVector2::new(1, 0));
                vectors.push(WorldVector2::new(2, 0));
            },
            GameEntityType::J => {
                vectors.push(WorldVector2::new(0, 0));
                vectors.push(WorldVector2::new(0, -1));
                vectors.push(WorldVector2::new(-1, 0));
                vectors.push(WorldVector2::new(-2, 0));
            },
            GameEntityType::L => {
                vectors.push(WorldVector2::new(0, 0));
                vectors.push(WorldVector2::new(0, -1));
                vectors.push(WorldVector2::new(1, 0));
                vectors.push(WorldVector2::new(2, 0));
            },
            GameEntityType::Z => {
                vectors.push(WorldVector2::new(0, 0));
                vectors.push(WorldVector2::new(0, 1));
                vectors.push(WorldVector2::new(1, 0));
                vectors.push(WorldVector2::new(-1, 1));
            },
            GameEntityType::S => {
                vectors.push(WorldVector2::new(0, 0));
                vectors.push(WorldVector2::new(0, 1));
                vectors.push(WorldVector2::new(-1, 0));
                vectors.push(WorldVector2::new(1, 1));
            },
            GameEntityType::O => {
                vectors.push(WorldVector2::new(0, 0));
                vectors.push(WorldVector2::new(1, 0));
                vectors.push(WorldVector2::new(0, -1));
                vectors.push(WorldVector2::new(1, -1));
            },
            GameEntityType::Board => {
                let mut x: i8 = -5;
                while x < 7
                    invariant
                        -5 <= x <= 7,
                        vectors.len() == x + 5,
                        forall|i: int|
                            0 <= i < vectors.len() ==> (#[trigger] vectors[i]).offset()
                                == kind_offsets(GameEntityType::Board)[i],
                    decreases 7 - x,
                {
                    vectors.push(WorldVector2::new(x, 0));
                    x += 1;
                }
                let mut y: i8 = 0;
                while y < 22
                    invariant
                        0 <= y <= 22,
                        vectors.len() == 12 + y,
                        forall|i: int|
                            0 <= i < vectors.len() ==> (#[trigger] vectors[i]).offset()
                                == kind_offsets(GameEntityType::Board)[i],
                    decreases 22 - y,
                {
                    vectors.push(WorldVector2::new(-5, y));
                    y += 1;
                }
                let mut y: i8 = 0;
                while y < 22
                    invariant
                        0 <= y <= 22,
                        vectors.len() == 34 + y,
                        forall|i: int|
                            0 <= i < vectors.len() ==> (#[trigger] vectors[i]).offset()
                                == kind_offsets(GameEntityType::Board)[i],
                    decreases 22 - y,
                {
                    vectors.push(WorldVector2::new(6, y));
                    y += 1;
                }
            },
            GameEntityType::Line => {
                let mut x: i8 = -4;
                while x < 6
                    invariant
                        -4 <= x <= 6,
                        vectors.len() == x + 4,
                        forall|i: int|
                            0 <= i < vectors.len() ==> (#[trigger] vectors[i]).offset()
                                == kind_offsets(GameEntityType::Line)[i],
                    decreases 6 - x,
                {
                    vectors.push(WorldVector2::new(x, 0));
                    x += 1;
                }
            },
            _ => {
                vectors.push(WorldVector2::new(0, 0));
            },
        }
        vectors
    }

    /// The colour in which this kind is drawn, as red, green and blue.
    pub fn get_color(&self) -> (color: (u8, u8, u8))
        ensures
            color == self.color(),
    {
        match self {
            GameEntityType::I | GameEntityType::IBlock => (165, 42, 42),
            GameEntityType::J | GameEntityType::JBlock => (255, 255, 255),
            GameEntityType::L | GameEntityType::LBlock => (255, 0, 255),
            GameEntityType::O | GameEntityType::OBlock => (0, 0, 255),
            GameEntityType::S | GameEntityType::SBlock => (0, 255, 0),
            GameEntityType::T | GameEntityType::TBlock => (255, 0, 0),
            GameEntityType::Z | GameEntityType::ZBlock => (0, 255, 255),
            GameEntityType::Board => (0, 255, 255),
            GameEntityType::Line => (255, 255, 0),
        }
    }

    /// The colour of this kind: a block has the colour of the piece that it
    /// comes from.
    pub open spec fn color(self) -> (u8, u8, u8) {
        match self {
            GameEntityType::I | GameEntityType::IBlock => (165, 42, 42),
            GameEntityType::J | GameEntityType::JBlock => (255, 255, 255),
            GameEntityType::L | GameEntityType::LBlock => (255, 0, 255),
            GameEntityType::O | GameEntityType::OBlock => (0, 0, 255),
            GameEntityType::S | GameEntityType::SBlock => (0, 255, 0),
            GameEntityType::T | GameEntityType::TBlock => (255, 0, 0),
            GameEntityType::Z | GameEntityType::ZBlock => (0, 255, 255),
            GameEntityType::Board => (0, 255, 255),
            GameEntityType::Line => (255, 255, 0),
        }
    }

    /// The name under which this kind takes part in collisions.
    pub open spec fn name(self) -> Seq<char> {
        match self {
            GameEntityType::Board => "board"@,
            GameEntityType::Line => "line"@,
            _ => "tetrimino"@,
        }
    }

    pub fn get_name(&self) -> (name: &'static str)
        ensures
            name@ == self.name(),
    {
        match self {
            GameEntityType::Board => "board",
            GameEntityType::Line => "line",
            _ => "tetrimino",
        }
    }

    /// The collision group of this kind: 3 for a line, 2 for the board, 1
    /// for pieces and blocks.
    pub open spec fn collision_group(self) -> usize {
        match self {
            GameEntityType::Line => 3,
            GameEntityType::Board => 2,
            _ => 1,
        }
    }

    pub fn get_collision_group(&self) -> (group: usize)
        ensures
            group == self.collision_group(),
    {
        match self {
            GameEntityType::Line => 3,
            GameEntityType::Board => 2,
            _ => 1,
        }
    }

    /// The kind of block that a piece of this kind leaves behind. Only the
    /// seven kinds of piece have one.
    pub open spec fn block_type(self) -> Option<GameEntityType> {
        match self {
            GameEntityType::I => Some(GameEntityType::IBlock),
            GameEntityType::J => Some(GameEntityType::JBlock),
            GameEntityType::L => Some(GameEntityType::LBlock),
            GameEntityType::O => Some(GameEntityType::OBlock),
            GameEntityType::S => Some(GameEntityType::SBlock),
            GameEntityType::T => Some(GameEntityType::TBlock),
            GameEntityType::Z => Some(GameEntityType::ZBlock),
            _ => None,
        }
    }

    pub fn get_block_type(&self) -> (block: Option<GameEntityType>)
        ensures
            block == self.block_type(),
            block is Some <==> self.is_piece(),
    {
        match self {
            GameEntityType::I => Some(GameEntityType::IBlock),
            GameEntityType::J => Some(GameEntityType::JBlock),
            GameEntityType::L => Some(GameEntityType::LBlock),
            GameEntityType::O => Some(GameEntityType::OBlock),
            GameEntityType::S => Some(GameEntityType::SBlock),
            GameEntityType::T => Some(GameEntityType::TBlock),
            GameEntityType::Z => Some(GameEntityType::ZBlock),
            _ => None,
        }
    }
}

/// What is drawn of an entity: the cells that it covers, as displacements
/// from its position, and its kind.
#[derive(Debug)]
pub struct Image {
    pub vectors: Vec<WorldVector2>,
    pub kind: GameEntityType,
}

impl Image {
    /// An image without cells, of kind `T`.
    pub fn new() -> (image: Image)
        ensures
            image.vectors@ == Seq::<WorldVector2>::empty(),
            image.kind == GameEntityType::T,
    {
        Image { kind: GameEntityType::T, vectors: Vec::new() }
    }

    pub fn with_kind(self, kind: &GameEntityType) -> (image: Image)
        ensures
            image.kind == *kind,
            image.vectors == self.vectors,
    {
        Image { kind: *kind, vectors: self.vectors }
    }

    pub fn with_vectors(self, vectors: Vec<WorldVector2>) -> (image: Image)
        ensures
            image.kind == self.kind,
            image.vectors == vectors,
    {
        Image { kind: self.kind, vectors }
    }

    /// The image of a kind: its kind and the cells that it covers.
    pub fn of_kind(kind: &GameEntityType) -> (image: Image)
        ensures
            image.kind == *kind,
            image.vectors.len() == kind_offsets(*kind).len(),
            forall|i: int|
                0 <= i < image.vectors.len() ==> (#[trigger] image.vectors[i]).offset()
                    == kind_offsets(*kind)[i],
    {
        Image::new().with_kind(kind).with_vectors(kind.vectors())
    }

    /// Turns the cells of the image about its position.
    pub fn rotate(&mut self, turn: Turn)
        requires
            turn.fits(old(self).vectors@),
        ensures
            final(self).kind == old(self).kind,
            final(self).vectors.len() == old(self).vectors.len(),
            forall|i: int|
                0 <= i < final(self).vectors.len() ==> (#[trigger] final(self).vectors[i]).offset()
                    == turn.apply(old(self).vectors[i].offset()),
    {
        self.vectors = rotate_vectors(&self.vectors, turn);
    }
}

} // verus!
