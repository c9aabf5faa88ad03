//! In-memory snapshot of a named-variable array store.

use vstd::prelude::*;

verus! {

/// Number of elements described by the extents `dims`: their product, 1 for a scalar.
pub open spec fn element_count(dims: Seq<usize>) -> int
    decreases dims.len(),
{
    if dims.len() == 0 {
        1
    } else {
        element_count(dims.drop_last()) * dims.last()
    }
}

/// Mathematical form of a [`Variable`].
pub struct VarView<T> {
    pub name: Seq<char>,
    /// Extents in declaration order; their number is the rank.
    pub dims: Seq<usize>,
    /// The values in row-major order, or the reason why reading them failed.
    pub values: Result<Seq<T>, Seq<char>>,
}

impl<T> VarView<T> {
    /// The extents fit a Rust buffer, and values that were read are as many as they describe.
    pub open spec fn wf(self) -> bool {
        &&& element_count(self.dims) <= isize::MAX
        &&& (self.values matches Ok(v) ==> v.len() == element_count(self.dims))
    }
}

/// Index of the first variable called `name`.
pub open spec fn find_var<T>(vars: Seq<VarView<T>>, name: Seq<char>) -> Option<int>
    decreases vars.len(),
{
    if vars.len() == 0 {
        None
    } else {
        match find_var(vars.drop_last(), name) {
            Some(i) => Some(i),
            None => if vars.last().name == name {
                Some(vars.len() - 1)
            } else {
                None
            },
        }
    }
}

/// The index found names a variable called `name`; where none is found, no variable is.
pub proof fn lemma_find_var_bounds<T>(vars: Seq<VarView<T>>, name: Seq<char>)
    ensures
        find_var(vars, name) matches Some(i) ==> 0 <= i < vars.len() && vars[i].name == name,
        find_var(vars, name) is None ==> forall|k: int|
            0 <= k < vars.len() ==> #[trigger] vars[k].name != name,
    decreases vars.len(),
{
    if vars.len() > 0 {
        lemma_find_var_bounds(vars.drop_last(), name);
        assert forall|k: int| 0 <= k < vars.len() - 1 implies #[trigger] vars[k].name
            == vars.drop_last()[k].name by {}
    }
}

proof fn lemma_zero_extent(dims: Seq<usize>, k: int)
    requires
        0 <= k < dims.len(),
        dims[k] == 0,
    ensures
        element_count(dims) == 0,
    decreases dims.len(),
{
    if k < dims.len() - 1 {
        assert(dims.drop_last()[k] == dims[k]);
        lemma_zero_extent(dims.drop_last(), k);
        assert(element_count(dims) == 0 * (dims.last() as int));
    } else {
        assert(element_count(dims) == element_count(dims.drop_last()) * 0);
    }
}

proof fn lemma_prefix_count(dims: Seq<usize>, i: int)
    requires
        0 <= i <= dims.len(),
        forall|k: int| 0 <= k < dims.len() ==> #[trigger] dims[k] >= 1,
    ensures
        1 <= element_count(dims.take(i)) <= element_count(dims),
    decreases dims.len() - i,
{
    if i == dims.len() {
        assert(dims.take(i) =~= dims);
        lemma_count_positive(dims);
    } else {
        lemma_prefix_count(dims, i + 1);
        assert(dims.take(i + 1).drop_last() =~= dims.take(i));
        let a = element_count(dims.take(i));
        let d = dims[i] as int;
        lemma_count_positive(dims.take(i));
        assert(a <= a * d) by (nonlinear_arith)
            requires
                a >= 1,
                d >= 1,
        ;
    }
}

proof fn lemma_count_positive(dims: Seq<usize>)
    requires
        forall|k: int| 0 <= k < dims.len() ==> #[trigger] dims[k] >= 1,
    ensures
        element_count(dims) >= 1,
    decreases dims.len(),
{
    if dims.len() > 0 {
        let p = dims.drop_last();
        assert forall|k: int| 0 <= k < p.len() implies #[trigger] p[k] >= 1 by {
            assert(p[k] == dims[k]);
        }
        lemma_count_positive(p);
        let a = element_count(p);
        let d = dims.last() as int;
        assert(a * d >= 1) by (nonlinear_arith)
            requires
                a >= 1,
                d >= 1,
        ;
    }
}

/// Number of elements described by `dims`.
fn count_elements(dims: &Vec<usize>) -> (r: usize)
    requires
        element_count(dims@) <= usize::MAX,
    ensures
        r == element_count(dims@),
{
    let mut k: usize = 0;
    while k < dims.len()
        invariant
            0 <= k <= dims.len(),
            forall|j: int| 0 <= j < k ==> #[trigger] dims@[j] >= 1,
        decreases dims.len() - k,
    {
        if dims[k] == 0 {
            proof {
                lemma_zero_extent(dims@, k as int);
            }
            return 0;
        }
        k = k + 1;
    }
    let mut acc: usize = 1;
    let mut i: usize = 0;
    while i < dims.len()
        invariant
            0 <= i <= dims.len(),
            forall|j: int| 0 <= j < dims.len() ==> #[trigger] dims@[j] >= 1,
            element_count(dims@) <= usize::MAX,
            acc == element_count(dims@.take(i as int)),
        decreases dims.len() - i,
    {
        proof {
            lemma_prefix_count(dims@, i + 1);
            assert(dims@.take(i + 1).drop_last() =~= dims@.take(i as int));
        }
        acc = acc * dims[i];
        i = i + 1;
    }
    assert(dims@.take(i as int) =~= dims@);
    acc
}

/// One named variable of a store: its extents and its values, or why they could not be read.
#[derive(Debug)]
pub struct Variable<T> {
    name: String,
    dims: Vec<usize>,
    len: usize,
    values: Result<Vec<T>, String>,
}

impl<T> View for Variable<T> {
    type V = VarView<T>;

    closed spec fn view(&self) -> VarView<T> {
        VarView {
            name: self.name@,
            dims: self.dims@,
            values: match self.values {
                Ok(v) => Ok(v@),
                Err(reason) => Err(reason@),
            },
        }
    }
}

impl<T> Variable<T> {
    #[verifier::type_invariant]
    spec fn inv(self) -> bool {
        &&& self@.wf()
        &&& self.len == element_count(self.dims@)
    }

    /// A variable whose values were read; they are given in row-major order.
    pub fn new(name: String, dims: Vec<usize>, values: Vec<T>) -> (r: Self)
        requires
            values@.len() == element_count(dims@),
            element_count(dims@) <= isize::MAX,
        ensures
            r@ == (VarView { name: name@, dims: dims@, values: Ok(values@) }),
    {
        let len = values.len();
        Variable { name, dims, len, values: Ok(values) }
    }

    /// A variable whose values could not be read, for the given reason.
    pub fn unreadable(name: String, dims: Vec<usize>, reason: String) -> (r: Self)
        requires
            element_count(dims@) <= isize::MAX,
        ensures
            r@ == (VarView::<T> { name: name@, dims: dims@, values: Err(reason@) }),
    {
        let len = count_elements(&dims);
        Variable { name, dims, len, values: Err(reason) }
    }

    pub fn name(&self) -> (r: &String)
        ensures
            r@ == self@.name,
    {
        &self.name
    }

    /// Number of elements: the product of the extents, 1 for a scalar.
    pub fn len(&self) -> (r: usize)
        ensures
            r == element_count(self@.dims),
            self@.wf(),
    {
        proof {
            use_type_invariant(self);
        }
        self.len
    }

    /// Number of dimensions: 0 for a scalar.
    pub fn rank(&self) -> (r: usize)
        ensures
            r == self@.dims.len(),
    {
        self.dims.len()
    }

    /// The extents, in declaration order.
    pub fn dims(&self) -> (r: &Vec<usize>)
        ensures
            r@ == self@.dims,
            self@.wf(),
    {
        proof {
            use_type_invariant(self);
        }
        &self.dims
    }

    /// The values in row-major order, or the reason why they could not be read.
    pub fn values(&self) -> (r: &Result<Vec<T>, String>)
        ensures
            r is Ok <==> self@.values is Ok,
            r matches Ok(v) ==> v@ == self@.values->Ok_0,
            r matches Err(reason) ==> reason@ == self@.values->Err_0,
            self@.wf(),
    {
        proof {
            use_type_invariant(self);
        }
        &self.values
    }

    fn is_named(&self, name: &String) -> (r: bool)
        ensures
            r == (self@.name == name@),
    {
        self.name == *name
    }
}

/// A snapshot of a store: its variables, in the order the store lists them.
#[derive(Debug)]
pub struct Store<T> {
    vars: Vec<Variable<T>>,
}

impl<T> View for Store<T> {
    type V = Seq<VarView<T>>;

    closed spec fn view(&self) -> Seq<VarView<T>> {
        self.vars@.map_values(|v: Variable<T>| v@)
    }
}

impl<T> Store<T> {
    /// A store with no variables.
    pub fn new() -> (r: Self)
        ensures
            r@ == Seq::<VarView<T>>::empty(),
    {
        let r = Store { vars: Vec::new() };
        assert(r@ =~= Seq::<VarView<T>>::empty());
        r
    }

    /// Appends a variable.
    pub fn add(&mut self, var: Variable<T>)
        ensures
            final(self)@ == old(self)@.push(var@),
    {
        self.vars.push(var);
        assert(self@ =~= old(self)@.push(var@));
    }

    pub fn num_vars(&self) -> (r: usize)
        ensures
            r == self@.len(),
    {
        self.vars.len()
    }

    pub fn variable(&self, i: usize) -> (r: &Variable<T>)
        requires
            i < self@.len(),
        ensures
            r@ == self@[i as int],
    {
        &self.vars[i]
    }

    /// Index of the first variable called `name`.
    pub fn find(&self, name: &str) -> (r: Option<usize>)
        ensures
            r matches Some(i) ==> find_var(self@, name@) == Some(i as int) && i < self@.len()
                && self@[i as int].name == name@,
            r is None ==> find_var(self@, name@) is None,
    {
        let key = name.to_owned();
        let mut i: usize = 0;
        while i < self.vars.len()
            invariant
                0 <= i <= self@.len(),
                self@.len() == self.vars@.len(),
                key@ == name@,
                find_var(self@.take(i as int), name@) is None,
            decreases self@.len() - i,
        {
            proof {
                assert(self@.take(i + 1).drop_last() =~= self@.take(i as int));
            }
            if self.vars[i].is_named(&key) {
                proof {
                    lemma_find_var_prefix(self@, name@, i as int);
                    lemma_find_var_bounds(self@, name@);
                }
                return Some(i);
            }
            i = i + 1;
        }
        assert(self@.take(i as int) =~= self@);
        None
    }
}

proof fn lemma_find_var_prefix<T>(vars: Seq<VarView<T>>, name: Seq<char>, i: int)
    requires
        0 <= i < vars.len(),
        find_var(vars.take(i), name) is None,
        vars[i].name == name,
    ensures
        find_var(vars, name) == Some(i),
    decreases vars.len(),
{
    if i < vars.len() - 1 {
        assert(vars.drop_last().take(i) =~= vars.take(i));
        lemma_find_var_prefix(vars.drop_last(), name, i);
    } else {
        assert(vars.drop_last() =~= vars.take(i));
    }
}

} // verus!
