//! Loading of reconstructed tokamak equilibria from named-variable array stores.
//!
//! A store is taken as a [`Store`] snapshot of its variables. The extraction functions turn
//! its variables into validated scalars and arrays, the domain entities ([`Scalars`],
//! [`Coords`], [`Currents`], [`Bfield`]) are built from them, and [`NcData`] assembles the
//! entities in a fixed order. Real values are carried as their IEEE 754 binary64 encodings
//! (`u64`). [`Spline`] validates the samples that an interpolation engine is initialised from.

mod error;
mod store;
mod extract;
mod grid;
mod scalars;
mod coords;
mod currents;
mod bfield;
mod equilibrium;
mod spline;

pub use error::{NcError, NcErrorView, SplineError, SplineErrorView};
pub use store::{element_count, find_var, lemma_find_var_bounds, Store, VarView, Variable};
pub use grid::{grid_cells, grid_shape, Grid};
pub use extract::{
    check_if_empty, extract_1d_var, extract_2d_var, extract_scalar, extract_var_with_axis_value,
    extract_var_with_first_axis_value, extract_variable, rank_error, read_outcome,
    with_first_axis_value, with_given_axis_value,
};
pub use scalars::{scalars_outcome, Scalars};
pub use coords::{coords_outcome, Coords, AXIS_ZERO};
pub use currents::{currents_outcome, Currents};
pub use bfield::{bfield_outcome, Bfield};
pub use equilibrium::{
    assembly_error, lemma_currents_on_axis, lemma_empty_variable_any_rank,
    lemma_psi_extended_to_axis, lemma_scalars_reproducible, lemma_wrong_rank_names_variable,
    FileState, NcData, OPEN_FAILURE,
};
pub use spline::{
    binary64_le, dataset_problem, is_nan, is_sorted, Spline, SplineType, INFINITY_BITS, SIGN_BIT,
};
