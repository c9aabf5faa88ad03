//! The equilibrium aggregate: opening a store and building every entity from it.

use vstd::prelude::*;
use crate::bfield::{bfield_outcome, Bfield};
use crate::coords::{coords_outcome, Coords, AXIS_ZERO};
use crate::currents::{currents_outcome, Currents};
use crate::error::{NcError, NcErrorView};
use crate::extract::{rank_error, read_outcome};
use crate::grid::grid_cells;
use crate::scalars::{scalars_outcome, Scalars};
use crate::store::{element_count, find_var, Store, VarView};

verus! {

/// The reason given when the store refuses to open.
pub const OPEN_FAILURE: &'static str = "Error opening NetCDF file";

/// What became of the attempt to open the file at a path.
#[derive(Debug)]
pub enum FileState {
    /// No file exists at the path.
    Missing,
    /// The store refused to open the file; the text is its own description of the failure.
    Rejected(String),
    /// The file was opened; this is a snapshot of its variables.
    Readable(Store<u64>),
}

/// A reconstructed equilibrium.
#[derive(Debug)]
pub struct NcData {
    /// Path of the file it was read from.
    pub path: String,
    /// Scalar values.
    pub scalars: Scalars,
    /// Coordinates ψ and θ.
    pub coords: Coords,
    /// Plasma currents I and g.
    pub currents: Currents,
    /// Magnetic field strength.
    pub bfield: Bfield,
}

/// The first error met while building the entities from `vars`, in the order scalars,
/// coordinates, currents, field; `None` where all of them build.
pub open spec fn assembly_error(vars: Seq<VarView<u64>>) -> Option<NcErrorView> {
    if let Err(e) = scalars_outcome(vars) {
        Some(e)
    } else if let Err(e) = coords_outcome(vars) {
        Some(e)
    } else if let Err(e) = currents_outcome(vars) {
        Some(e)
    } else if let Err(e) = bfield_outcome(vars) {
        Some(e)
    } else {
        None
    }
}

impl NcData {
    /// Every entity is well formed and is the one built from `vars`.
    pub open spec fn built_from(&self, vars: Seq<VarView<u64>>) -> bool {
        &&& self.scalars == scalars_outcome(vars)->Ok_0
        &&& self.coords.psi@ == coords_outcome(vars)->Ok_0.0
        &&& self.coords.theta@ == coords_outcome(vars)->Ok_0.1
        &&& self.coords.wf()
        &&& self.currents.i@ == currents_outcome(vars)->Ok_0.0
        &&& self.currents.g@ == currents_outcome(vars)->Ok_0.1
        &&& self.currents.wf()
        &&& self.bfield.shape == bfield_outcome(vars)->Ok_0.0
        &&& grid_cells(self.bfield.b) == bfield_outcome(vars)->Ok_0.1
        &&& self.bfield.wf()
    }

    /// Builds the equilibrium from the file at `path`: its scalars, coordinates, currents and
    /// field, in that order. The first failure is returned unchanged, and nothing is built.
    pub fn open(path: String, file: FileState) -> (r: Result<NcData, NcError>)
        ensures
            match file {
                FileState::Missing => r is Err && r->Err_0@ == NcErrorView::FileNotFound(path@),
                FileState::Rejected(source) => r is Err && r->Err_0@
                    == NcErrorView::LibraryError { source: source@, reason: OPEN_FAILURE@ },
                FileState::Readable(store) => match assembly_error(store@) {
                    Some(e) => r is Err && r->Err_0@ == e,
                    None => r is Ok && r->Ok_0.path@ == path@ && r->Ok_0.built_from(store@),
                },
            },
    {
        let store = match file {
            FileState::Missing => {
                return Err(NcError::FileNotFound(path));
            },
            FileState::Rejected(source) => {
                return Err(NcError::LibraryError { source, reason: OPEN_FAILURE.to_owned() });
            },
            FileState::Readable(store) => store,
        };
        let scalars = Scalars::build(&store)?;
        let coords = Coords::build(&store)?;
        let currents = Currents::build(&store)?;
        let bfield = Bfield::build(&store)?;
        Ok(NcData { path, scalars, coords, currents, bfield })
    }
}

/// In every equilibrium built from a store, ψ has one sample more than the store's `psi`
/// variable, and the first is 0.0.
pub proof fn lemma_psi_extended_to_axis(d: NcData, vars: Seq<VarView<u64>>)
    requires
        assembly_error(vars) is None,
        d.built_from(vars),
    ensures
        d.coords.psi_len == read_outcome(vars, "psi"@, 1)->Ok_0.len() + 1,
        d.coords.psi@[0] == AXIS_ZERO,
{
}

/// In every equilibrium built from a store of well-formed variables, g's first two samples
/// are equal and I's first sample is 0.0.
pub proof fn lemma_currents_on_axis(d: NcData, vars: Seq<VarView<u64>>)
    requires
        forall|k: int| 0 <= k < vars.len() ==> (#[trigger] vars[k]).wf(),
        assembly_error(vars) is None,
        d.built_from(vars),
    ensures
        d.currents.g@[0] == d.currents.g@[1],
        d.currents.i@[0] == AXIS_ZERO,
{
    let k = find_var(vars, "g_norm"@)->Some_0;
    crate::store::lemma_find_var_bounds(vars, "g_norm"@);
    assert(vars[k].wf());
    let g = read_outcome(vars, "g_norm"@, 1)->Ok_0;
    assert(g.len() >= 1);
    assert((seq![g[0]] + g)[1] == g[0]);
}

/// A variable that exists, is not empty and has a rank other than the one requested gives the
/// error for that rank, naming the variable: `NotScalar`, `Not1D` or `Not2D`.
pub proof fn lemma_wrong_rank_names_variable<T>(vars: Seq<VarView<T>>, name: Seq<char>, rank: nat)
    requires
        rank <= 2,
        find_var(vars, name) matches Some(k) && element_count(vars[k].dims) != 0 && vars[k].dims.len()
            != rank,
    ensures
        read_outcome(vars, name, rank) == Err::<Seq<T>, _>(rank_error(rank, name)),
        rank == 0 ==> rank_error(rank, name) == NcErrorView::NotScalar(name),
        rank == 1 ==> rank_error(rank, name) == NcErrorView::Not1D(name),
        rank == 2 ==> rank_error(rank, name) == NcErrorView::Not2D(name),
{
}

/// A variable that exists and holds no elements gives `EmptyVariable`, whatever the rank
/// requested.
pub proof fn lemma_empty_variable_any_rank<T>(vars: Seq<VarView<T>>, name: Seq<char>, rank: nat)
    requires
        find_var(vars, name) matches Some(k) && element_count(vars[k].dims) == 0,
    ensures
        read_outcome(vars, name, rank) == Err::<Seq<T>, _>(NcErrorView::EmptyVariable(name)),
{
}

/// Scalars built twice from the same store are identical, error or value.
pub proof fn lemma_scalars_reproducible(first: Seq<VarView<u64>>, second: Seq<VarView<u64>>)
    requires
        first == second,
    ensures
        scalars_outcome(first) == scalars_outcome(second),
{
}

} // verus!
