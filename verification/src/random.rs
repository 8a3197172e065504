//! Draws of piece kinds, and what this library takes on trust from rand.

use vstd::prelude::*;
use rand::Rng;
use crate::kinds::TetriminoType;

verus! {

/// `rand::thread_rng` and `rand::Rng::gen_range` on it: a number that is at
/// least `low` and less than `high`. Which one is left open: it differs from
/// call to call. The call panics unless `low < high`, which `requires` asks
/// for.
#[verifier::external_body]
pub(crate) fn random_in_range(low: u8, high: u8) -> (number: u8)
    requires
        low < high,
    ensures
        low <= number < high,
{
    rand::thread_rng().gen_range(low, high)
}

/// A piece kind drawn at random. Every draw gives one of the seven kinds.
pub fn get_random_tetrimino_type() -> (kind: Option<TetriminoType>)
    ensures
        kind is Some,
{
    TetriminoType::from_code(random_in_range(1, 8))
}

/// A piece kind drawn at random.
pub fn random_tetrimino_type() -> (kind: TetriminoType) {
    match get_random_tetrimino_type() {
        Some(kind) => kind,
        None => vstd::pervasive::unreached(),
    }
}

} // verus!
