//! What this library takes on trust from arrayvec: the buffer in which a
//! turn collects the turned displacements of a piece.

use vstd::prelude::*;

verus! {

/// `arrayvec::ArrayVec`, of which nothing but the contracts below is known.
#[verifier::external_type_specification]
#[verifier::external_body]
#[verifier::reject_recursive_types(T)]
pub struct ExArrayVec<T, const CAP: usize>(arrayvec::ArrayVec<T, CAP>);

/// The items that a buffer of at most three pairs holds, in the order in
/// which they were pushed.
pub uninterp spec fn buffer_items(buffer: arrayvec::ArrayVec<(i8, i8), 3>) -> Seq<(i8, i8)>;

/// `arrayvec::ArrayVec::new`: a buffer that holds nothing.
#[verifier::external_body]
pub(crate) fn buffer_new() -> (buffer: arrayvec::ArrayVec<(i8, i8), 3>)
    ensures
        buffer_items(buffer) == Seq::<(i8, i8)>::empty(),
{
    arrayvec::ArrayVec::new()
}

/// `arrayvec::ArrayVec::push`: the item is appended. The call panics on a
/// full buffer, which `requires` leaves out.
#[verifier::external_body]
pub(crate) fn buffer_push(buffer: &mut arrayvec::ArrayVec<(i8, i8), 3>, item: (i8, i8))
    requires
        buffer_items(*old(buffer)).len() < 3,
    ensures
        buffer_items(*final(buffer)) == buffer_items(*old(buffer)).push(item),
{
    buffer.push(item)
}

/// `arrayvec::ArrayVec::into_inner`: the array of the three items where the
/// buffer is full, nothing where it holds fewer.
#[verifier::external_body]
pub(crate) fn buffer_into_inner(buffer: arrayvec::ArrayVec<(i8, i8), 3>) -> (items: Option<
    [(i8, i8); 3],
>)
    ensures
        buffer_items(buffer).len() == 3 ==> items is Some && items->0@ == buffer_items(buffer),
        buffer_items(buffer).len() < 3 ==> items is None,
{
    buffer.into_inner().ok()
}

} // verus!
