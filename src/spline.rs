//! Validated samples for one-dimensional interpolation.
//!
//! A [`Spline`] holds the samples that an interpolation engine is initialised from, once they
//! are known to be non-empty, of equal length, and with `x` in non-decreasing order. Samples
//! are binary64 encodings, compared as IEEE 754 `<=` compares the numbers they encode.

use vstd::prelude::*;
use crate::error::{SplineError, SplineErrorView};

verus! {

/// The interpolation schemes an interpolant can use.
#[derive(Debug, Clone, Copy, PartialEq, Eq)]
pub enum SplineType {
    /// Linear interpolation.
    Linear,
    /// Polynomial interpolation through every point; suited to few points only.
    Polynomial,
    /// Cubic spline with natural boundary conditions.
    Cubic,
    /// Cubic spline with periodic boundary conditions.
    CubicPeriodic,
    /// Non-rounded Akima spline with natural boundary conditions.
    Akima,
    /// Non-rounded Akima spline with periodic boundary conditions.
    AkimaPeriodic,
}

/// The sign bit of a binary64 encoding.
pub const SIGN_BIT: u64 = 0x8000_0000_0000_0000;

/// The encoding of +∞; larger magnitudes encode NaNs.
pub const INFINITY_BITS: u64 = 0x7ff0_0000_0000_0000;

/// Whether `a` encodes a NaN: all exponent bits set and a non-zero significand.
pub open spec fn is_nan(a: u64) -> bool {
    a % SIGN_BIT > INFINITY_BITS
}

/// IEEE 754 `<=` on the numbers that `a` and `b` encode: false where either is a NaN, and
/// -0.0 equals +0.0.
pub open spec fn binary64_le(a: u64, b: u64) -> bool {
    let (ma, mb) = (a % SIGN_BIT, b % SIGN_BIT);
    let (na, nb) = (a >= SIGN_BIT, b >= SIGN_BIT);
    &&& !is_nan(a)
    &&& !is_nan(b)
    &&& {
        ||| ma == 0 && mb == 0
        ||| !na && !nb && ma <= mb
        ||| na && nb && ma >= mb
        ||| na && !nb
    }
}

/// Each sample is `<=` the next.
pub open spec fn is_sorted(x: Seq<u64>) -> bool {
    forall|i: int| 0 <= i && i + 1 < x.len() ==> #[trigger] binary64_le(x[i], x[i + 1])
}

/// Why `x` and `y` cannot be interpolated, checked in this order: `x` empty, `y` empty,
/// lengths differ, `x` not sorted. `None` where they can.
pub open spec fn dataset_problem(x: Seq<u64>, y: Seq<u64>) -> Option<SplineErrorView> {
    if x.len() == 0 {
        Some(SplineErrorView::EmptyDataset("x"@))
    } else if y.len() == 0 {
        Some(SplineErrorView::EmptyDataset("y"@))
    } else if x.len() != y.len() {
        Some(SplineErrorView::DatasetMismatch)
    } else if !is_sorted(x) {
        Some(SplineErrorView::UnsortedDataset)
    } else {
        None
    }
}

fn le(a: u64, b: u64) -> (r: bool)
    ensures
        r == binary64_le(a, b),
{
    let ma = a % SIGN_BIT;
    let mb = b % SIGN_BIT;
    let na = a >= SIGN_BIT;
    let nb = b >= SIGN_BIT;
    if ma > INFINITY_BITS || mb > INFINITY_BITS {
        false
    } else {
        (ma == 0 && mb == 0) || (!na && !nb && ma <= mb) || (na && nb && ma >= mb) || (na && !nb)
    }
}

fn sorted(x: &Vec<u64>) -> (r: bool)
    ensures
        r == is_sorted(x@),
{
    if x.len() <= 1 {
        return true;
    }
    let last: usize = x.len() - 1;
    let mut i: usize = 0;
    while i < last
        invariant
            last == x@.len() - 1,
            i <= last,
            forall|k: int| 0 <= k < i && k + 1 < x@.len() ==> #[trigger] binary64_le(x@[k], x@[k + 1]),
        decreases x@.len() - i,
    {
        if !le(x[i], x[i + 1]) {
            return false;
        }
        i = i + 1;
    }
    true
}

/// Samples `x`, `y` ready for interpolation, with their length and spans.
#[derive(Debug)]
pub struct Spline {
    /// The interpolation scheme.
    pub spline_type: SplineType,
    /// The `x` samples, in non-decreasing order.
    pub xdata: Vec<u64>,
    /// The `y` samples.
    pub ydata: Vec<u64>,
    /// Number of samples.
    pub size: usize,
    /// First and last `x` sample.
    pub xspan: (u64, u64),
    /// First and last `y` sample.
    pub yspan: (u64, u64),
}

impl Spline {
    /// The samples can be interpolated, and the size and spans are theirs.
    pub open spec fn wf(&self) -> bool {
        &&& dataset_problem(self.xdata@, self.ydata@) is None
        &&& self.size == self.xdata@.len()
        &&& self.xspan == (self.xdata@[0], self.xdata@.last())
        &&& self.yspan == (self.ydata@[0], self.ydata@.last())
    }

    /// Checks that `x` and `y` can be interpolated.
    pub fn check_data(x: &Vec<u64>, y: &Vec<u64>) -> (r: Result<(), SplineError>)
        ensures
            match dataset_problem(x@, y@) {
                Some(e) => r is Err && r->Err_0@ == e,
                None => r is Ok,
            },
    {
        if x.len() == 0 {
            return Err(SplineError::EmptyDataset("x".to_owned()));
        }
        if y.len() == 0 {
            return Err(SplineError::EmptyDataset("y".to_owned()));
        }
        if x.len() != y.len() {
            return Err(SplineError::DatasetMismatch);
        }
        if !sorted(x) {
            return Err(SplineError::UnsortedDataset);
        }
        Ok(())
    }

    /// Validates the samples and records their size and spans.
    pub fn build(spline_type: SplineType, xdata: Vec<u64>, ydata: Vec<u64>) -> (r: Result<
        Spline,
        SplineError,
    >)
        ensures
            match dataset_problem(xdata@, ydata@) {
                Some(e) => r is Err && r->Err_0@ == e,
                None => r is Ok && r->Ok_0.spline_type == spline_type && r->Ok_0.xdata@ == xdata@
                    && r->Ok_0.ydata@ == ydata@ && r->Ok_0.wf(),
            },
    {
        Spline::check_data(&xdata, &ydata)?;
        let size = xdata.len();
        let xspan = (xdata[0], xdata[size - 1]);
        let yspan = (ydata[0], ydata[size - 1]);
        Ok(Spline { spline_type, xdata, ydata, size, xspan, yspan })
    }
}

} // verus!
