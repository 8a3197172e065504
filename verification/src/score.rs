use vstd::prelude::*;
use crate::constants::{
    POINTS_FOR_MORE_THAN_THREE_LINES, POINTS_FOR_ONE_LINE, POINTS_FOR_THREE_LINES,
    POINTS_FOR_TWO_LINES,
};

verus! {

/// The level, the cumulative number of cleared lines and the score of a game.
#[derive(Debug, Clone, Copy, PartialEq, Eq, Structural)]
pub struct ScoreBoard {
    pub level: u8,
    pub lines: u8,
    pub score: u32,
}

/// The points that clearing `cleared` lines at once is worth.
pub open spec fn reward(cleared: int) -> int {
    if cleared <= 0 {
        0
    } else if cleared == 1 {
        40
    } else if cleared == 2 {
        100
    } else if cleared == 3 {
        300
    } else {
        1200
    }
}

/// The level that belongs to a cumulative number of cleared lines: it rises
/// by one with every fifth line after the first, and stays at 9 from the
/// 46th line on.
pub open spec fn level_of(lines: int) -> int {
    if lines <= 5 {
        0
    } else if lines >= 46 {
        9
    } else {
        (lines - 1) / 5
    }
}

impl ScoreBoard {
    pub fn new() -> (score: ScoreBoard)
        ensures
            score.level == 0,
            score.lines == 0,
            score.score == 0,
    {
        ScoreBoard { level: 0, lines: 0, score: 0 }
    }

    /// Whether `cleared` more lines can be recorded without leaving the
    /// range of the two counters.
    pub open spec fn has_room(&self, cleared: int) -> bool {
        &&& self.lines + cleared <= u8::MAX
        &&& self.score + reward(cleared) <= u32::MAX
    }

    /// The score board after `cleared` lines, cleared at once, were
    /// recorded.
    pub open spec fn recorded(self, cleared: int) -> ScoreBoard {
        ScoreBoard {
            level: level_of(self.lines + cleared) as u8,
            lines: (self.lines + cleared) as u8,
            score: (self.score + reward(cleared)) as u32,
        }
    }

    /// Whether `cleared` more lines can be recorded without leaving the
    /// range of the two counters.
    pub fn can_record(&self, cleared: u8) -> (fits: bool)
        ensures
            fits == self.has_room(cleared as int),
    {
        let points: u32 = ScoreBoard::points_for(cleared);
        cleared <= u8::MAX - self.lines && points <= u32::MAX - self.score
    }

    /// The points that clearing `cleared` lines at once is worth.
    pub fn points_for(cleared: u8) -> (points: u32)
        ensures
            points == reward(cleared as int),
    {
        match cleared {
            0 => 0,
            1 => POINTS_FOR_ONE_LINE,
            2 => POINTS_FOR_TWO_LINES,
            3 => POINTS_FOR_THREE_LINES,
            _ => POINTS_FOR_MORE_THAN_THREE_LINES,
        }
    }

    /// The level that belongs to a cumulative number of cleared lines.
    pub fn level_for(lines: u8) -> (level: u8)
        ensures
            level == level_of(lines as int),
            level <= 9,
    {
        match lines {
            0..=5 => 0,
            6..=10 => 1,
            11..=15 => 2,
            16..=20 => 3,
            21..=25 => 4,
            26..=30 => 5,
            31..=35 => 6,
            36..=40 => 7,
            41..=45 => 8,
            _ => 9,
        }
    }

    /// Records `cleared` lines that were cleared at once: the lines are
    /// counted, their reward is added to the score, and the level follows
    /// the new number of lines.
    pub fn apply_score(&mut self, cleared: u8)
        requires
            old(self).has_room(cleared as int),
        ensures
            *final(self) == old(self).recorded(cleared as int),
            final(self).lines == old(self).lines + cleared,
            final(self).score == old(self).score + reward(cleared as int),
            final(self).level == level_of(final(self).lines as int),
            final(self).lines >= old(self).lines,
            final(self).score >= old(self).score,
    {
        self.lines = self.lines + cleared;
        self.score = self.score + ScoreBoard::points_for(cleared);
        self.level = ScoreBoard::level_for(self.lines);
    }
}

/// The level never falls as lines are cleared, and never passes 9.
pub proof fn lemma_level_monotonic(fewer: int, more: int)
    requires
        fewer <= more,
    ensures
        0 <= level_of(fewer) <= level_of(more) <= 9,
{
}

} // verus!
