//! What this library takes on trust from nalgebra: the matrix that holds
//! the board, and the product of a matrix with a vector.

use vstd::prelude::*;

verus! {

/// `nalgebra::Matrix`, of which nothing but the contracts below is known.
#[verifier::external_type_specification]
#[verifier::external_body]
#[verifier::reject_recursive_types(T)]
#[verifier::reject_recursive_types(R)]
#[verifier::reject_recursive_types(C)]
#[verifier::reject_recursive_types(S)]
pub struct ExMatrix<T, R, C, S>(nalgebra::Matrix<T, R, C, S>);

/// `nalgebra::Const`, the number of rows or columns of a matrix as a type.
#[verifier::external_type_specification]
#[verifier::external_body]
pub struct ExConst<const R: usize>(nalgebra::Const<R>);

/// `nalgebra::ArrayStorage`, the array in which a matrix keeps its entries.
#[verifier::external_type_specification]
#[verifier::external_body]
#[verifier::reject_recursive_types(T)]
pub struct ExArrayStorage<T, const R: usize, const C: usize>(nalgebra::ArrayStorage<T, R, C>);

/// What a 21 x 12 matrix of bytes holds: the entry at `(row, column)`, for
/// `0 <= row < 21` and `0 <= column < 12`.
pub uninterp spec fn matrix_cells(matrix: nalgebra::SMatrix<u8, 21, 12>) -> Map<(int, int), u8>;

/// `nalgebra::SMatrix::zeros`: a matrix all of whose entries are zero.
#[verifier::external_body]
pub(crate) fn matrix_zeros() -> (matrix: nalgebra::SMatrix<u8, 21, 12>)
    ensures
        forall|row: int, column: int|
            0 <= row < 21 && 0 <= column < 12 ==> #[trigger] matrix_cells(matrix)[(row, column)]
                == 0,
{
    nalgebra::SMatrix::<u8, 21, 12>::zeros()
}

/// `nalgebra::Matrix::get` with a `(row, column)` index: the entry at that
/// place, or `None` where the index lies outside the matrix.
#[verifier::external_body]
pub(crate) fn matrix_get(matrix: &nalgebra::SMatrix<u8, 21, 12>, row: usize, column: usize) -> (entry:
    Option<u8>)
    ensures
        entry == (if row < 21 && column < 12 {
            Some(matrix_cells(*matrix)[(row as int, column as int)])
        } else {
            None
        }),
{
    matrix.get((row, column)).copied()
}

/// `nalgebra::Matrix::index_mut` with a `(row, column)` index, followed by a
/// write through the reference it returns: that entry becomes `value`, every
/// other entry stays. The call panics outside the matrix, which `requires`
/// leaves out.
#[verifier::external_body]
pub(crate) fn matrix_set(
    matrix: &mut nalgebra::SMatrix<u8, 21, 12>,
    row: usize,
    column: usize,
    value: u8,
)
    requires
        row < 21,
        column < 12,
    ensures
        matrix_cells(*final(matrix)) == matrix_cells(*old(matrix)).insert(
            (row as int, column as int),
            value,
        ),
{
    *matrix.index_mut((row, column)) = value;
}

/// The product of a `nalgebra::Matrix2`, built by `from_row_slice` from the
/// four entries in row order, with the `nalgebra::Vector2` of `x` and `y`.
/// The contract claims the row-by-column product. nalgebra forms each
/// product of two entries and then the sum of a row in `i8`, so `requires`
/// keeps every one of them in range.
#[verifier::external_body]
pub(crate) fn matrix_times_vector(entries: &[i8; 4], x: i8, y: i8) -> (product: (i8, i8))
    requires
        i8::MIN <= entries@[0] * x <= i8::MAX,
        i8::MIN <= entries@[1] * y <= i8::MAX,
        i8::MIN <= entries@[2] * x <= i8::MAX,
        i8::MIN <= entries@[3] * y <= i8::MAX,
        i8::MIN <= entries@[0] * x + entries@[1] * y <= i8::MAX,
        i8::MIN <= entries@[2] * x + entries@[3] * y <= i8::MAX,
    ensures
        product.0 == entries@[0] * x + entries@[1] * y,
        product.1 == entries@[2] * x + entries@[3] * y,
{
    let product = nalgebra::Matrix2::from_row_slice(entries) * nalgebra::Vector2::new(x, y);
    (product.x, product.y)
}

} // verus!
