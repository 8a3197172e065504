use vstd::prelude::*;

verus! {

/// The seven piece kinds.
#[derive(Debug, Clone, Copy, PartialEq, Eq, Structural)]
pub enum TetriminoType {
    I,
    J,
    L,
    O,
    S,
    T,
    Z,
}

/// An orientation of a piece: a multiple of a quarter turn.
#[derive(Debug, Clone, Copy, PartialEq, Eq, Structural)]
pub enum Rotation {
    Zero,
    FracPi2,
    Pi,
    Frac3Pi2,
}

/// What a cell code of the board stands for.
#[derive(Debug, Clone, Copy, PartialEq, Eq, Structural)]
pub enum BoardType {
    EMPTY,
    BLOCK,
    LIMIT,
}

impl TetriminoType {
    /// The cell code of this kind: `I` is 1, `J` 2, `L` 3, `O` 4, `S` 5, `T` 6, `Z` 7.
    pub open spec fn code(self) -> u8 {
        match self {
            TetriminoType::I => 1,
            TetriminoType::J => 2,
            TetriminoType::L => 3,
            TetriminoType::O => 4,
            TetriminoType::S => 5,
            TetriminoType::T => 6,
            TetriminoType::Z => 7,
        }
    }

    pub fn to_code(&self) -> (code: u8)
        ensures
            code == self.code(),
            1 <= code <= 7,
    {
        match self {
            TetriminoType::I => 1,
            TetriminoType::J => 2,
            TetriminoType::L => 3,
            TetriminoType::O => 4,
            TetriminoType::S => 5,
            TetriminoType::T => 6,
            TetriminoType::Z => 7,
        }
    }

    /// The kind with the given cell code, for the codes 1 to 7; `None` for
    /// every other code.
    pub fn from_code(code: u8) -> (kind: Option<TetriminoType>)
        ensures
            1 <= code <= 7 <==> kind is Some,
            kind matches Some(k) ==> k.code() == code,
    {
        match code {
            1 => Some(TetriminoType::I),
            2 => Some(TetriminoType::J),
            3 => Some(TetriminoType::L),
            4 => Some(TetriminoType::O),
            5 => Some(TetriminoType::S),
            6 => Some(TetriminoType::T),
            7 => Some(TetriminoType::Z),
            _ => None,
        }
    }

    /// Every kind has a code from 1 to 7, and no two kinds have the same
    /// code.
    pub proof fn lemma_code_round_trip(kind: TetriminoType, other: TetriminoType)
        ensures
            1 <= kind.code() <= 7,
            kind.code() == other.code() ==> kind == other,
    {
    }
}

impl Rotation {
    /// The number of quarter turns of this orientation, from 0 to 3.
    pub open spec fn turns(self) -> int {
        match self {
            Rotation::Zero => 0,
            Rotation::FracPi2 => 1,
            Rotation::Pi => 2,
            Rotation::Frac3Pi2 => 3,
        }
    }

    /// The orientation of a fraction of a full turn that was rounded to
    /// hundredths.
    pub open spec fn of_hundredths(hundredths: int) -> Option<Rotation> {
        if hundredths == 0 || hundredths == 100 {
            Some(Rotation::Zero)
        } else if hundredths == 25 {
            Some(Rotation::Frac3Pi2)
        } else if hundredths == 50 {
            Some(Rotation::Pi)
        } else if hundredths == 75 {
            Some(Rotation::FracPi2)
        } else {
            None
        }
    }

    /// Classifies an angle that is given as a fraction of a full turn,
    /// rounded to hundredths: 0 and 100 are no turn, 25 is three quarter
    /// turns, 50 a half turn, 75 one quarter turn. Every other value,
    /// a negative one too, is not a quarter turn and gives `None`.
    pub fn from_hundredths(hundredths: i32) -> (rotation: Option<Rotation>)
        ensures
            rotation == Rotation::of_hundredths(hundredths as int),
    {
        if hundredths == 0 || hundredths == 100 {
            Some(Rotation::Zero)
        } else if hundredths == 25 {
            Some(Rotation::Frac3Pi2)
        } else if hundredths == 50 {
            Some(Rotation::Pi)
        } else if hundredths == 75 {
            Some(Rotation::FracPi2)
        } else {
            None
        }
    }

    /// The number of quarter turns of this orientation.
    pub fn quarter_turns(&self) -> (turns: u8)
        ensures
            turns == self.turns(),
    {
        match self {
            Rotation::Zero => 0,
            Rotation::FracPi2 => 1,
            Rotation::Pi => 2,
            Rotation::Frac3Pi2 => 3,
        }
    }

    /// The orientation of a number of quarter turns, taken modulo 4.
    pub fn from_quarter_turns(turns: u8) -> (rotation: Rotation)
        ensures
            rotation.turns() == turns as int % 4,
    {
        match turns % 4 {
            0 => Rotation::Zero,
            1 => Rotation::FracPi2,
            2 => Rotation::Pi,
            _ => Rotation::Frac3Pi2,
        }
    }
}

impl BoardType {
    /// What a cell code stands for: 0 is an empty cell, 99 a boundary cell,
    /// every other code a block.
    pub open spec fn of_code(code: u8) -> BoardType {
        if code == 0 {
            BoardType::EMPTY
        } else if code == 99 {
            BoardType::LIMIT
        } else {
            BoardType::BLOCK
        }
    }

    pub fn from_code(code: u8) -> (kind: Option<BoardType>)
        ensures
            kind == Some(BoardType::of_code(code)),
    {
        match code {
            0 => Some(BoardType::EMPTY),
            99 => Some(BoardType::LIMIT),
            _ => Some(BoardType::BLOCK),
        }
    }
}

} // verus!
