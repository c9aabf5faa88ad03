//! Error types of the library.

use vstd::prelude::*;

verus! {

/// Failures while opening an equilibrium store or extracting its variables.
#[derive(Debug)]
pub enum NcError {
    /// The store itself refused to open; `source` is its own description of the failure.
    LibraryError { source: String, reason: String },
    /// The given path does not name an existing file.
    FileNotFound(String),
    /// No variable of that name exists.
    VariableNotFound(String),
    /// The variable exists but holds no elements.
    EmptyVariable(String),
    /// A scalar was requested, but the variable has dimensions.
    NotScalar(String),
    /// A one-dimensional array was requested, but the variable is not one-dimensional.
    Not1D(String),
    /// A two-dimensional array was requested, but the variable is not two-dimensional.
    Not2D(String),
    /// Every shape check passed, but reading the values failed.
    GetValuesError { source: String, name: String },
}

/// Mathematical form of [`NcError`], with texts as character sequences.
pub enum NcErrorView {
    LibraryError { source: Seq<char>, reason: Seq<char> },
    FileNotFound(Seq<char>),
    VariableNotFound(Seq<char>),
    EmptyVariable(Seq<char>),
    NotScalar(Seq<char>),
    Not1D(Seq<char>),
    Not2D(Seq<char>),
    GetValuesError { source: Seq<char>, name: Seq<char> },
}

impl View for NcError {
    type V = NcErrorView;

    open spec fn view(&self) -> NcErrorView {
        match self {
            NcError::LibraryError { source, reason } => NcErrorView::LibraryError {
                source: source@,
                reason: reason@,
            },
            NcError::FileNotFound(p) => NcErrorView::FileNotFound(p@),
            NcError::VariableNotFound(n) => NcErrorView::VariableNotFound(n@),
            NcError::EmptyVariable(n) => NcErrorView::EmptyVariable(n@),
            NcError::NotScalar(n) => NcErrorView::NotScalar(n@),
            NcError::Not1D(n) => NcErrorView::Not1D(n@),
            NcError::Not2D(n) => NcErrorView::Not2D(n@),
            NcError::GetValuesError { source, name } => NcErrorView::GetValuesError {
                source: source@,
                name: name@,
            },
        }
    }
}

/// Failures while validating or initialising an interpolant.
#[derive(Debug)]
pub enum SplineError {
    /// The named dataset (`x` or `y`) is empty.
    EmptyDataset(String),
    /// The `x` dataset is not sorted in non-decreasing order.
    UnsortedDataset,
    /// The `x` and `y` datasets differ in length.
    DatasetMismatch,
    /// The interpolation engine could not allocate an interpolant.
    EngineAllocFailed,
    /// The interpolation engine rejected the data during initialisation.
    EngineInitFailed(String),
}

/// Mathematical form of [`SplineError`].
pub enum SplineErrorView {
    EmptyDataset(Seq<char>),
    UnsortedDataset,
    DatasetMismatch,
    EngineAllocFailed,
    EngineInitFailed(Seq<char>),
}

impl View for SplineError {
    type V = SplineErrorView;

    open spec fn view(&self) -> SplineErrorView {
        match self {
            SplineError::EmptyDataset(which) => SplineErrorView::EmptyDataset(which@),
            SplineError::UnsortedDataset => SplineErrorView::UnsortedDataset,
            SplineError::DatasetMismatch => SplineErrorView::DatasetMismatch,
            SplineError::EngineAllocFailed => SplineErrorView::EngineAllocFailed,
            SplineError::EngineInitFailed(code) => SplineErrorView::EngineInitFailed(code@),
        }
    }
}

} // verus!
