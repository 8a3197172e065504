use vstd::prelude::*;
use crate::matrix::matrix_times_vector;
use crate::types::WorldVector2;

verus! {

/// A displacement after a quarter turn about the pivot. Clockwise, the
/// matrix with the rows `(0, -1)` and `(1, 0)` is applied to it,
/// counter-clockwise the matrix with the rows `(0, 1)` and `(-1, 0)`.
pub open spec fn turn(offset: (int, int), clockwise: bool) -> (int, int) {
    if clockwise {
        (-offset.1, offset.0)
    } else {
        (offset.1, -offset.0)
    }
}

/// Every displacement of the sequence after a quarter turn.
pub open spec fn turn_all(offsets: Seq<(int, int)>, clockwise: bool) -> Seq<(int, int)> {
    Seq::new(offsets.len(), |i: int| turn(offsets[i], clockwise))
}

/// A displacement after a number of clockwise quarter turns, taken modulo 4.
pub open spec fn turn_by(offset: (int, int), quarter_turns: int) -> (int, int) {
    if quarter_turns % 4 == 0 {
        offset
    } else if quarter_turns % 4 == 1 {
        (-offset.1, offset.0)
    } else if quarter_turns % 4 == 2 {
        (-offset.0, -offset.1)
    } else {
        (offset.1, -offset.0)
    }
}

/// Every displacement of the sequence after a number of clockwise quarter
/// turns.
pub open spec fn turn_all_by(offsets: Seq<(int, int)>, quarter_turns: int) -> Seq<(int, int)> {
    Seq::new(offsets.len(), |i: int| turn_by(offsets[i], quarter_turns))
}

/// Four quarter turns in one direction give back the displacements they
/// started from.
pub proof fn lemma_four_turns(offsets: Seq<(int, int)>, clockwise: bool)
    ensures
        turn_all(turn_all(turn_all(turn_all(offsets, clockwise), clockwise), clockwise), clockwise)
            == offsets,
{
    assert(turn_all(
        turn_all(turn_all(turn_all(offsets, clockwise), clockwise), clockwise),
        clockwise,
    ) =~= offsets);
}

/// A quarter turn in one direction undoes a quarter turn in the other.
pub proof fn lemma_opposite_turns(offsets: Seq<(int, int)>, clockwise: bool)
    ensures
        turn_all(turn_all(offsets, clockwise), !clockwise) == offsets,
{
    assert(turn_all(turn_all(offsets, clockwise), !clockwise) =~= offsets);
}

/// One more quarter turn: clockwise it adds one to the number of clockwise
/// quarter turns, counter-clockwise it adds three.
pub proof fn lemma_turn_counts(offsets: Seq<(int, int)>, quarter_turns: int, clockwise: bool)
    requires
        0 <= quarter_turns,
    ensures
        turn_all(turn_all_by(offsets, quarter_turns), clockwise) == turn_all_by(
            offsets,
            if clockwise {
                quarter_turns + 1
            } else {
                quarter_turns + 3
            },
        ),
        turn_all_by(offsets, 0) == offsets,
        turn_all_by(offsets, quarter_turns % 4) == turn_all_by(offsets, quarter_turns),
{
    let after = if clockwise {
        quarter_turns + 1
    } else {
        quarter_turns + 3
    };
    assert(turn_all(turn_all_by(offsets, quarter_turns), clockwise) =~= turn_all_by(
        offsets,
        after,
    ));
    assert(turn_all_by(offsets, 0) =~= offsets);
    assert(turn_all_by(offsets, quarter_turns % 4) =~= turn_all_by(offsets, quarter_turns));
}

/// Whether the displacement can take the quarter turn without leaving the
/// range of its coordinates: the coordinate that the turn negates must not
/// be the least of its type.
pub open spec fn can_turn(vector: WorldVector2, clockwise: bool) -> bool {
    if clockwise {
        vector.y > i8::MIN
    } else {
        vector.x > i8::MIN
    }
}

/// The displacement after a quarter turn about the pivot.
pub fn rotate_vector(vector: WorldVector2, clockwise: bool) -> (rotated: WorldVector2)
    requires
        can_turn(vector, clockwise),
    ensures
        rotated.offset() == turn(vector.offset(), clockwise),
{
    let product = if clockwise {
        let entries: [i8; 4] = [0, -1, 1, 0];
        assert(entries@[0] == 0 && entries@[1] == -1 && entries@[2] == 1 && entries@[3] == 0);
        matrix_times_vector(&entries, vector.x, vector.y)
    } else {
        let entries: [i8; 4] = [0, 1, -1, 0];
        assert(entries@[0] == 0 && entries@[1] == 1 && entries@[2] == -1 && entries@[3] == 0);
        matrix_times_vector(&entries, vector.x, vector.y)
    };
    WorldVector2::new(product.0, product.1)
}

} // verus!
