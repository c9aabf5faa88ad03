//! The equilibrium's plasma currents.

use vstd::prelude::*;
use crate::coords::AXIS_ZERO;
use crate::error::{NcError, NcErrorView};
use crate::extract::{
    extract_var_with_axis_value, extract_var_with_first_axis_value, read_outcome,
};
use crate::store::{Store, VarView};

verus! {

/// The toroidal current I and the poloidal current g, both extended with a value on the
/// magnetic axis. Values are binary64 encodings.
#[derive(Debug)]
pub struct Currents {
    /// Toroidal current I, starting with 0.0 on the axis.
    pub i: Vec<u64>,
    /// Poloidal current g, starting with a copy of its first sample.
    pub g: Vec<u64>,
    /// Number of I samples.
    pub i_len: usize,
    /// Number of g samples.
    pub g_len: usize,
    /// First and last I sample.
    pub i_span: (u64, u64),
    /// First and last g sample.
    pub g_span: (u64, u64),
}

/// What building [`Currents`] from `vars` gives: `(i, g)`, with g's first sample repeated and
/// 0.0 prepended to I, or the first error (g is read first).
pub open spec fn currents_outcome(vars: Seq<VarView<u64>>) -> Result<
    (Seq<u64>, Seq<u64>),
    NcErrorView,
> {
    match read_outcome(vars, "g_norm"@, 1) {
        Err(e) => Err(e),
        Ok(g) => match read_outcome(vars, "I_norm"@, 1) {
            Err(e) => Err(e),
            Ok(i) => Ok((seq![AXIS_ZERO] + i, seq![g[0]] + g)),
        },
    }
}

impl Currents {
    /// Both arrays are non-empty, and the lengths and spans are theirs.
    pub open spec fn wf(&self) -> bool {
        &&& self.i@.len() >= 1
        &&& self.g@.len() >= 1
        &&& self.i_len == self.i@.len()
        &&& self.g_len == self.g@.len()
        &&& self.i_span == (self.i@[0], self.i@.last())
        &&& self.g_span == (self.g@[0], self.g@.last())
    }

    /// Reads g, repeating its first sample on the axis, then I, prepending 0.0.
    pub fn build(store: &Store<u64>) -> (r: Result<Currents, NcError>)
        ensures
            match currents_outcome(store@) {
                Ok((i, g)) => r is Ok && r->Ok_0.i@ == i && r->Ok_0.g@ == g && r->Ok_0.wf(),
                Err(e) => r is Err && r->Err_0@ == e,
            },
    {
        let g = extract_var_with_first_axis_value(store, "g_norm")?;
        let i = extract_var_with_axis_value(store, "I_norm", AXIS_ZERO)?;
        let g_len = g.len();
        let i_len = i.len();
        let g_span = (g[0], g[g_len - 1]);
        let i_span = (i[0], i[i_len - 1]);
        Ok(Currents { i, g, i_len, g_len, i_span, g_span })
    }
}

} // verus!
