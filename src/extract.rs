//! Extraction of validated scalars and arrays from a [`Store`], and axis extrapolation.
//!
//! Each extraction makes its checks in one fixed order (the variable exists, it is not empty,
//! it has the requested rank, its values could be read), so the error always names the first
//! structural problem.

use vstd::prelude::*;
use crate::error::{NcError, NcErrorView};
use crate::store::{element_count, find_var, lemma_find_var_bounds, Store, VarView, Variable};

verus! {

/// The error for a variable `name` whose rank differs from the requested `rank`.
pub open spec fn rank_error(rank: nat, name: Seq<char>) -> NcErrorView {
    if rank == 0 {
        NcErrorView::NotScalar(name)
    } else if rank == 1 {
        NcErrorView::Not1D(name)
    } else {
        NcErrorView::Not2D(name)
    }
}

/// What reading `name` from `vars` as an array of `rank` dimensions gives: its values in
/// row-major order, or the first structural problem.
pub open spec fn read_outcome<T>(vars: Seq<VarView<T>>, name: Seq<char>, rank: nat) -> Result<
    Seq<T>,
    NcErrorView,
> {
    match find_var(vars, name) {
        None => Err(NcErrorView::VariableNotFound(name)),
        Some(i) => {
            let v = vars[i];
            if element_count(v.dims) == 0 {
                Err(NcErrorView::EmptyVariable(name))
            } else if v.dims.len() != rank {
                Err(rank_error(rank, name))
            } else {
                match v.values {
                    Ok(values) => Ok(values),
                    Err(reason) => Err(NcErrorView::GetValuesError { source: reason, name }),
                }
            }
        }
    }
}

/// Looks up the variable called `name`.
pub fn extract_variable<'a, T>(store: &'a Store<T>, name: &str) -> (r: Result<
    &'a Variable<T>,
    NcError,
>)
    ensures
        match find_var(store@, name@) {
            Some(i) => r is Ok && 0 <= i < store@.len() && r->Ok_0@ == store@[i] && r->Ok_0@.name
                == name@,
            None => r is Err && r->Err_0@ == NcErrorView::VariableNotFound(name@),
        },
{
    proof {
        lemma_find_var_bounds(store@, name@);
    }
    match store.find(name) {
        Some(i) => Ok(store.variable(i)),
        None => Err(NcError::VariableNotFound(name.to_owned())),
    }
}

/// Fails with `EmptyVariable` where the variable holds no elements.
pub fn check_if_empty<T>(var: &Variable<T>) -> (r: Result<(), NcError>)
    ensures
        r is Ok <==> element_count(var@.dims) != 0,
        r is Err ==> r->Err_0@ == NcErrorView::EmptyVariable(var@.name),
{
    if var.len() == 0 {
        Err(NcError::EmptyVariable(var.name().clone()))
    } else {
        Ok(())
    }
}

/// Copies `src` into a new buffer.
fn copy_values<T: Copy>(src: &Vec<T>) -> (r: Vec<T>)
    ensures
        r@ == src@,
{
    let mut out: Vec<T> = Vec::with_capacity(src.len());
    let mut i: usize = 0;
    while i < src.len()
        invariant
            0 <= i <= src@.len(),
            out@ == src@.take(i as int),
        decreases src@.len() - i,
    {
        out.push(src[i]);
        i = i + 1;
        assert(out@ =~= src@.take(i as int));
    }
    assert(src@.take(i as int) =~= src@);
    out
}

/// Checks that `name` exists, is not empty and has `rank` dimensions, then reads its values.
fn read_checked<'a, T: Copy>(store: &'a Store<T>, name: &str, rank: usize) -> (r: Result<
    (&'a Variable<T>, Vec<T>),
    NcError,
>)
    ensures
        match read_outcome(store@, name@, rank as nat) {
            Ok(values) => r is Ok && r->Ok_0.1@ == values && r->Ok_0.0@ == store@[find_var(
                store@,
                name@,
            )->Some_0] && r->Ok_0.0@.wf(),
            Err(e) => r is Err && r->Err_0@ == e,
        },
{
    let var = extract_variable(store, name)?;
    check_if_empty(var)?;
    if var.rank() != rank {
        let n = var.name().clone();
        return Err(
            if rank == 0 {
                NcError::NotScalar(n)
            } else if rank == 1 {
                NcError::Not1D(n)
            } else {
                NcError::Not2D(n)
            },
        );
    }
    match var.values() {
        Ok(values) => Ok((var, copy_values(values))),
        Err(reason) => Err(NcError::GetValuesError { source: reason.clone(), name: var.name().clone() }),
    }
}

/// Reads a scalar (rank 0) variable.
pub fn extract_scalar<T: Copy>(store: &Store<T>, name: &str) -> (r: Result<T, NcError>)
    ensures
        match read_outcome(store@, name@, 0) {
            Ok(values) => r is Ok && r->Ok_0 == values[0],
            Err(e) => r is Err && r->Err_0@ == e,
        },
{
    let (_, values) = read_checked(store, name, 0)?;
    assert(element_count(Seq::<usize>::empty()) == 1);
    Ok(values[0])
}

/// Reads a one-dimensional variable.
pub fn extract_1d_var<T: Copy>(store: &Store<T>, name: &str) -> (r: Result<Vec<T>, NcError>)
    ensures
        match read_outcome(store@, name@, 1) {
            Ok(values) => r is Ok && r->Ok_0@ == values && values.len() >= 1,
            Err(e) => r is Err && r->Err_0@ == e,
        },
{
    let (_, values) = read_checked(store, name, 1)?;
    Ok(values)
}

/// Reads a two-dimensional variable: its extents in declaration order and its values in
/// row-major order.
pub fn extract_2d_var<T: Copy>(store: &Store<T>, name: &str) -> (r: Result<
    ((usize, usize), Vec<T>),
    NcError,
>)
    ensures
        match read_outcome(store@, name@, 2) {
            Ok(values) => {
                let dims = store@[find_var(store@, name@)->Some_0].dims;
                &&& r is Ok
                &&& r->Ok_0.0 == (dims[0], dims[1])
                &&& r->Ok_0.1@ == values
                &&& values.len() == dims[0] * dims[1]
                &&& 1 <= dims[0] && 1 <= dims[1]
                &&& dims[0] * dims[1] <= isize::MAX
            },
            Err(e) => r is Err && r->Err_0@ == e,
        },
{
    let (var, values) = read_checked(store, name, 2)?;
    let dims = var.dims();
    let shape = (dims[0], dims[1]);
    proof {
        let d = dims@;
        assert(d.len() == 2);
        assert(d.drop_last().drop_last() =~= Seq::<usize>::empty());
        assert(d.drop_last().last() == d[0]);
        assert(element_count(d.drop_last().drop_last()) == 1);
        assert(element_count(d.drop_last()) == 1 * (d[0] as int));
        assert(element_count(d) == (d[0] as int) * (d[1] as int));
        assert(d[0] != 0) by {
            if d[0] == 0 {
                assert(0 * (d[1] as int) == 0);
            }
        }
        assert(d[1] != 0) by {
            if d[1] == 0 {
                assert((d[0] as int) * 0 == 0);
            }
        }
    }
    Ok((shape, values))
}

/// `arr` with `value` prepended at index 0.
pub fn with_given_axis_value<T: Copy>(arr: &Vec<T>, value: T) -> (r: Vec<T>)
    ensures
        r@ == seq![value] + arr@,
{
    let mut out: Vec<T> = Vec::with_capacity(arr.len());
    out.push(value);
    let mut i: usize = 0;
    while i < arr.len()
        invariant
            0 <= i <= arr@.len(),
            out@ == seq![value] + arr@.take(i as int),
        decreases arr@.len() - i,
    {
        out.push(arr[i]);
        i = i + 1;
        assert(out@ =~= seq![value] + arr@.take(i as int));
    }
    assert(arr@.take(i as int) =~= arr@);
    out
}

/// `arr` with a copy of its first element prepended at index 0.
pub fn with_first_axis_value<T: Copy>(arr: &Vec<T>) -> (r: Vec<T>)
    requires
        arr@.len() >= 1,
    ensures
        r@ == seq![arr@[0]] + arr@,
{
    with_given_axis_value(arr, arr[0])
}

/// Reads a one-dimensional variable and prepends `element` at index 0, the value at the
/// magnetic axis.
pub fn extract_var_with_axis_value<T: Copy>(store: &Store<T>, name: &str, element: T) -> (r: Result<
    Vec<T>,
    NcError,
>)
    ensures
        match read_outcome(store@, name@, 1) {
            Ok(values) => r is Ok && r->Ok_0@ == seq![element] + values,
            Err(e) => r is Err && r->Err_0@ == e,
        },
{
    let arr = extract_1d_var(store, name)?;
    Ok(with_given_axis_value(&arr, element))
}

/// Reads a one-dimensional variable and prepends a copy of its first value (the one closest
/// to the magnetic axis) at index 0.
pub fn extract_var_with_first_axis_value<T: Copy>(store: &Store<T>, name: &str) -> (r: Result<
    Vec<T>,
    NcError,
>)
    ensures
        match read_outcome(store@, name@, 1) {
            Ok(values) => r is Ok && values.len() >= 1 && r->Ok_0@ == seq![values[0]] + values,
            Err(e) => r is Err && r->Err_0@ == e,
        },
{
    let arr = extract_1d_var(store, name)?;
    Ok(with_first_axis_value(&arr))
}

} // verus!
