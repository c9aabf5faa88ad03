//! Two-dimensional array of binary64 encodings, held by an `ndarray::Array2`.

use vstd::prelude::*;

verus! {

/// `ndarray::ShapeError`, the error of `Array2::from_shape_vec`, carried through opaque.
#[verifier::external_type_specification]
#[verifier::external_body]
pub struct ExShapeError(ndarray::ShapeError);

/// A two-dimensional array, indexed (row, column), held in an `ndarray::Array2`. Its contents
/// are known through [`grid_cells`] and [`grid_shape`].
#[derive(Debug)]
#[verifier::external_body]
pub struct Grid {
    array: ndarray::Array2<u64>,
}

/// The elements of a grid in row-major order.
pub uninterp spec fn grid_cells(g: Grid) -> Seq<u64>;

/// The extents (rows, columns) of a grid.
pub uninterp spec fn grid_shape(g: Grid) -> (usize, usize);

impl Grid {
    /// Relies on `ndarray::Array2::from_shape_vec`: with a plain `(rows, cols)` shape the
    /// elements are laid out in row-major order, and it fails only where the shape does not
    /// match the number of elements or the product of the non-zero extents exceeds `isize::MAX`.
    #[verifier::external_body]
    pub(crate) fn from_shape_vec(rows: usize, cols: usize, cells: Vec<u64>) -> (r: Result<
        Grid,
        ndarray::ShapeError,
    >)
        ensures
            r matches Ok(g) ==> grid_cells(g) == cells@ && grid_shape(g) == (rows, cols)
                && cells@.len() == rows * cols,
            cells@.len() == rows * cols && 1 <= rows && 1 <= cols && rows * cols <= isize::MAX
                ==> r is Ok,
    {
        ndarray::Array2::from_shape_vec((rows, cols), cells).map(|array| Grid { array })
    }

    /// Relies on `ndarray::ArrayBase::dim`: the extents as a tuple.
    #[verifier::external_body]
    pub(crate) fn dim(&self) -> (r: (usize, usize))
        ensures
            r == grid_shape(*self),
    {
        self.array.dim()
    }

    /// Relies on indexing an `ndarray::Array2` by `[row, col]`, which panics only out of bounds.
    #[verifier::external_body]
    pub(crate) fn get(&self, row: usize, col: usize) -> (r: u64)
        requires
            row < grid_shape(*self).0,
            col < grid_shape(*self).1,
        ensures
            r == grid_cells(*self)[row * grid_shape(*self).1 + col],
    {
        self.array[[row, col]]
    }
}

} // verus!
