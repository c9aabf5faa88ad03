//! The equilibrium's scalar values.

use vstd::prelude::*;
use crate::error::{NcError, NcErrorView};
use crate::extract::{extract_1d_var, extract_scalar, read_outcome};
use crate::store::{Store, VarView};

verus! {

/// An equilibrium's scalar values, as binary64 encodings. `baxis` and `raxis` are the only
/// quantities in non-normalised units.
#[derive(Debug, Clone, Copy, PartialEq, Eq)]
pub struct Scalars {
    /// Magnetic field strength on the axis, in T.
    pub baxis: u64,
    /// Major radius, in m.
    pub raxis: u64,
    /// ψ at the last closed surface (normalised): the last sample of `psi`.
    pub psi_wall: u64,
}

/// What building [`Scalars`] from `vars` gives: `Baxis`, `raxis` and the last sample of `psi`,
/// or the first error met in that order.
pub open spec fn scalars_outcome(vars: Seq<VarView<u64>>) -> Result<Scalars, NcErrorView> {
    match read_outcome(vars, "Baxis"@, 0) {
        Err(e) => Err(e),
        Ok(baxis) => match read_outcome(vars, "raxis"@, 0) {
            Err(e) => Err(e),
            Ok(raxis) => match read_outcome(vars, "psi"@, 1) {
                Err(e) => Err(e),
                Ok(psi) => Ok(Scalars { baxis: baxis[0], raxis: raxis[0], psi_wall: psi.last() }),
            },
        },
    }
}

impl Scalars {
    /// Reads the scalar values from the store.
    pub fn build(store: &Store<u64>) -> (r: Result<Scalars, NcError>)
        ensures
            match scalars_outcome(store@) {
                Ok(s) => r is Ok && r->Ok_0 == s,
                Err(e) => r is Err && r->Err_0@ == e,
            },
    {
        let baxis = extract_scalar(store, "Baxis")?;
        let raxis = extract_scalar(store, "raxis")?;
        let psi = extract_1d_var(store, "psi")?;
        let psi_wall = psi[psi.len() - 1];
        Ok(Scalars { baxis, raxis, psi_wall })
    }
}

} // verus!
