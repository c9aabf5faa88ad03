//! The equilibrium's ψ and θ coordinates.

use vstd::prelude::*;
use crate::error::{NcError, NcErrorView};
use crate::extract::{extract_1d_var, extract_var_with_axis_value, read_outcome};
use crate::store::{Store, VarView};

verus! {

/// Binary64 encoding of +0.0: ψ on the magnetic axis, and the toroidal current there.
pub const AXIS_ZERO: u64 = 0;

/// The equilibrium's coordinates: ψ, extended with a value on the magnetic axis, and the
/// Boozer angle θ. Values are binary64 encodings.
#[derive(Debug)]
pub struct Coords {
    /// The ψ coordinate, starting with 0.0 on the axis.
    pub psi: Vec<u64>,
    /// The θ coordinate.
    pub theta: Vec<u64>,
    /// Number of ψ samples.
    pub psi_len: usize,
    /// Number of θ samples.
    pub theta_len: usize,
    /// First and last ψ sample.
    pub psi_span: (u64, u64),
    /// First and last θ sample.
    pub theta_span: (u64, u64),
}

/// What building [`Coords`] from `vars` gives: ψ with 0.0 prepended and θ, or the first error.
pub open spec fn coords_outcome(vars: Seq<VarView<u64>>) -> Result<
    (Seq<u64>, Seq<u64>),
    NcErrorView,
> {
    match read_outcome(vars, "psi"@, 1) {
        Err(e) => Err(e),
        Ok(psi) => match read_outcome(vars, "boozer_theta"@, 1) {
            Err(e) => Err(e),
            Ok(theta) => Ok((seq![AXIS_ZERO] + psi, theta)),
        },
    }
}

impl Coords {
    /// Both arrays are non-empty, and the lengths and spans are theirs.
    pub open spec fn wf(&self) -> bool {
        &&& self.psi@.len() >= 1
        &&& self.theta@.len() >= 1
        &&& self.psi_len == self.psi@.len()
        &&& self.theta_len == self.theta@.len()
        &&& self.psi_span == (self.psi@[0], self.psi@.last())
        &&& self.theta_span == (self.theta@[0], self.theta@.last())
    }

    /// Reads ψ, prepending 0.0 for the magnetic axis, then θ.
    pub fn build(store: &Store<u64>) -> (r: Result<Coords, NcError>)
        ensures
            match coords_outcome(store@) {
                Ok((psi, theta)) => r is Ok && r->Ok_0.psi@ == psi && r->Ok_0.theta@ == theta
                    && r->Ok_0.wf(),
                Err(e) => r is Err && r->Err_0@ == e,
            },
    {
        let psi = extract_var_with_axis_value(store, "psi", AXIS_ZERO)?;
        let theta = extract_1d_var(store, "boozer_theta")?;
        let psi_len = psi.len();
        let theta_len = theta.len();
        let psi_span = (psi[0], psi[psi_len - 1]);
        let theta_span = (theta[0], theta[theta_len - 1]);
        Ok(Coords { psi, theta, psi_len, theta_len, psi_span, theta_span })
    }
}

} // verus!
