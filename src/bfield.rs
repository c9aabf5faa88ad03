//! The equilibrium's magnetic field strength.

use vstd::prelude::*;
use crate::error::{NcError, NcErrorView};
use crate::extract::{extract_2d_var, read_outcome};
use crate::grid::{grid_cells, grid_shape, Grid};
use crate::store::{find_var, Store, VarView};

verus! {

/// Magnetic field strength B as a function of (ψ, θ), as binary64 encodings.
#[derive(Debug)]
pub struct Bfield {
    /// The values, indexed (ψ, θ).
    pub b: Grid,
    /// The extents (ψ, θ) of `b`.
    pub shape: (usize, usize),
}

/// What building [`Bfield`] from `vars` gives: the extents of `b_field_norm` and its values in
/// row-major order, or the first error.
pub open spec fn bfield_outcome(vars: Seq<VarView<u64>>) -> Result<
    ((usize, usize), Seq<u64>),
    NcErrorView,
> {
    match read_outcome(vars, "b_field_norm"@, 2) {
        Err(e) => Err(e),
        Ok(values) => {
            let dims = vars[find_var(vars, "b_field_norm"@)->Some_0].dims;
            Ok(((dims[0], dims[1]), values))
        },
    }
}

impl Bfield {
    /// `shape` is the grid's, and the grid holds one value per (ψ, θ) pair.
    pub open spec fn wf(&self) -> bool {
        &&& grid_shape(self.b) == self.shape
        &&& grid_cells(self.b).len() == self.shape.0 * self.shape.1
    }

    /// Reads the two-dimensional field `b_field_norm`.
    pub fn build(store: &Store<u64>) -> (r: Result<Bfield, NcError>)
        ensures
            match bfield_outcome(store@) {
                Ok((shape, values)) => r is Ok && r->Ok_0.shape == shape && grid_cells(r->Ok_0.b)
                    == values && r->Ok_0.wf(),
                Err(e) => r is Err && r->Err_0@ == e,
            },
    {
        let (shape, values) = extract_2d_var(store, "b_field_norm")?;
        match Grid::from_shape_vec(shape.0, shape.1, values) {
            Ok(b) => {
                let shape = b.dim();
                Ok(Bfield { b, shape })
            },
            Err(_) => Err(
                NcError::GetValuesError {
                    source: "extents exceed the addressable size".to_owned(),
                    name: "b_field_norm".to_owned(),
                },
            ),
        }
    }

    /// The field at the `row`-th ψ sample and the `col`-th θ sample.
    pub fn value_at(&self, row: usize, col: usize) -> (r: u64)
        requires
            self.wf(),
            row < self.shape.0,
            col < self.shape.1,
        ensures
            r == grid_cells(self.b)[row * self.shape.1 + col],
    {
        self.b.get(row, col)
    }
}

} // verus!
