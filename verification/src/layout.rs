//! Tensor shapes and layouts.
use vstd::prelude::*;

verus! {

/// The product of a sequence of dimensions; 1 for the empty sequence.
pub open spec fn product(dims: Seq<usize>) -> nat
    decreases dims.len(),
{
    if dims.len() == 0 {
        1
    } else {
        product(dims.drop_last()) * dims.last() as nat
    }
}

/// The dimensions of a tensor, outermost first.
#[derive(Clone, Debug, PartialEq, Eq)]
pub struct Shape {
    pub dims: Vec<usize>,
}

impl View for Shape {
    type V = Seq<usize>;

    open spec fn view(&self) -> Seq<usize> {
        self.dims@
    }
}

impl Shape {
    /// The number of elements, as a mathematical number.
    pub open spec fn count(&self) -> nat {
        product(self@)
    }

    /// Whether multiplying the dimensions from the outermost inwards stays within `usize`.
    pub open spec fn countable(&self) -> bool {
        forall|i: int| 0 <= i <= self@.len() ==> #[trigger] product(self@.take(i)) <= usize::MAX
    }

    /// The total number of elements.
    pub fn elem_count(&self) -> (n: usize)
        requires
            self.countable(),
        ensures
            n == self.count(),
    {
        let mut n: usize = 1;
        let mut i: usize = 0;
        assert(self@.take(0) =~= seq![]);
        while i < self.dims.len()
            invariant
                i <= self@.len(),
                self.countable(),
                n == product(self@.take(i as int)),
            decreases self.dims.len() - i,
        {
            assert(self@.take(i + 1).drop_last() =~= self@.take(i as int));
            assert(product(self@.take(i + 1)) <= usize::MAX);
            n = n * self.dims[i];
            i = i + 1;
        }
        assert(self@.take(self@.len() as int) =~= self@);
        n
    }
}

/// The shape of a vector of `n` elements.
pub open spec fn vector_dims(n: usize) -> Seq<usize> {
    seq![n]
}

impl Shape {
    /// The shape of a vector of `n` elements.
    pub fn vector(n: usize) -> (r: Self)
        ensures
            r@ == vector_dims(n),
    {
        let r = Shape { dims: vec![n] };
        assert(r@ =~= vector_dims(n));
        r
    }
}

impl From<usize> for Shape {
    fn from(n: usize) -> (r: Self)
        ensures
            r@ == vector_dims(n),
    {
        Shape::vector(n)
    }
}

impl vstd::std_specs::convert::FromSpecImpl<usize> for Shape {
    open spec fn obeys_from_spec() -> bool {
        false
    }

    open spec fn from_spec(n: usize) -> Self {
        arbitrary()
    }
}

pub proof fn lemma_vector_count(n: usize)
    ensures
        product(vector_dims(n)) == n,
{
    let init = vector_dims(n).drop_last();
    assert(product(init) == 1);
    assert(vector_dims(n).last() == n);
    assert(1 * (n as nat) == n) by (nonlinear_arith);
}

/// Where the elements of a tensor lie in its buffer.
#[derive(Clone, Debug, PartialEq, Eq)]
pub struct Layout {
    pub shape: Shape,
    pub stride: Vec<usize>,
    pub start_offset: usize,
}

impl Layout {
    /// How many elements the layout shows.
    pub open spec fn count(&self) -> nat {
        self.shape.count()
    }

    /// How far apart neighbours along dimension `i` lie. A dimension for which no stride is given is
    /// repeated, as one of stride zero.
    pub open spec fn stride_of(&self, i: int) -> nat {
        if 0 <= i < self.stride@.len() {
            self.stride@[i] as nat
        } else {
            0
        }
    }

    /// How far the element with the row-major number `j` within the first `n` dimensions lies from
    /// the first element: the sum of index times stride over these dimensions.
    pub open spec fn steps(&self, n: nat, j: nat) -> nat
        decreases n,
    {
        if n == 0 {
            0
        } else {
            let d = self.shape@[n - 1] as nat;
            self.steps((n - 1) as nat, j / d) + (j % d) * self.stride_of(n - 1)
        }
    }

    /// The position in the buffer of the element with the row-major number `j`.
    pub open spec fn position(&self, j: nat) -> nat {
        self.start_offset as nat + self.steps(self.shape@.len(), j)
    }

    /// How many elements a buffer must have to hold all that the layout shows: the last element in
    /// row-major order lies farthest.
    pub open spec fn reach(&self) -> nat {
        if self.count() == 0 {
            0
        } else {
            self.position((self.count() - 1) as nat) + 1
        }
    }

    /// Whether the layout shows a buffer in order, from its start on.
    pub open spec fn is_contiguous(&self) -> bool {
        &&& self.start_offset == 0
        &&& self.stride@.len() == self.shape@.len()
        &&& forall|i: int|
            0 <= i < self.shape@.len() ==> #[trigger] self.stride@[i] == product(
                self.shape@.skip(i + 1),
            )
    }

    /// A layout with the given parts.
    pub fn new(shape: Shape, stride: Vec<usize>, start_offset: usize) -> (r: Self)
        ensures
            r.shape == shape,
            r.stride == stride,
            r.start_offset == start_offset,
    {
        Layout { shape, stride, start_offset }
    }

    /// The row-major layout of a buffer that holds exactly the elements of `shape`: the stride of
    /// a dimension is the product of the dimensions inside it.
    pub fn contiguous(shape: Shape) -> (r: Self)
        requires
            forall|i: int| 0 <= i <= shape@.len() ==> #[trigger] product(shape@.skip(i)) <= usize::MAX,
        ensures
            r.shape == shape,
            r.is_contiguous(),
    {
        let n: usize = shape.dims.len();
        let mut stride: Vec<usize> = vec![0; n];
        let mut inner: usize = 1;
        let mut i: usize = n;
        assert(shape@.skip(n as int) =~= seq![]);
        while i > 0
            invariant
                i <= n == shape@.len() == stride@.len(),
                forall|j: int| 0 <= j <= shape@.len() ==> #[trigger] product(shape@.skip(j)) <= usize::MAX,
                inner == product(shape@.skip(i as int)),
                forall|j: int| i <= j < n ==> #[trigger] stride@[j] == product(shape@.skip(j + 1)),
            decreases i,
        {
            i = i - 1;
            stride.set(i, inner);
            proof {
                assert(shape@.skip(i + 1) =~= shape@.skip(i as int).drop_first());
                lemma_product_first(shape@.skip(i as int));
                assert(product(shape@.skip(i as int)) <= usize::MAX);
            }
            inner = shape.dims[i] * inner;
        }
        Layout { shape, stride, start_offset: 0 }
    }

    /// The position in the buffer of the element with the row-major number `j`.
    pub fn position_of(&self, j: usize) -> (r: usize)
        requires
            j < self.count(),
            self.position(j as nat) <= usize::MAX,
        ensures
            r == self.position(j as nat),
    {
        let mut at: usize = self.start_offset;
        let mut rest: usize = j;
        let mut i: usize = self.shape.dims.len();
        assert(self.shape@.take(i as int) =~= self.shape@);
        while i > 0
            invariant
                i <= self.shape@.len(),
                rest < product(self.shape@.take(i as int)),
                at + self.steps(i as nat, rest as nat) == self.position(j as nat) <= usize::MAX,
            decreases i,
        {
            let d: usize = self.shape.dims[i - 1];
            proof {
                let outer = product(self.shape@.take(i - 1));
                assert(self.shape@.take(i as int).drop_last() =~= self.shape@.take(i - 1));
                lemma_digit(outer, d as nat, rest as nat);
            }
            let stride: usize = if i - 1 < self.stride.len() {
                self.stride[i - 1]
            } else {
                0
            };
            let index: usize = rest % d;
            at = at + index * stride;
            rest = rest / d;
            i = i - 1;
        }
        at
    }

    /// How many elements a buffer must have to hold all that the layout shows.
    pub fn required_len(&self) -> (r: usize)
        requires
            self.shape.countable(),
            self.reach() <= usize::MAX,
        ensures
            r == self.reach(),
    {
        let n: usize = self.shape.elem_count();
        if n == 0 {
            0
        } else {
            self.position_of(n - 1) + 1
        }
    }

    /// The shape.
    pub fn shape(&self) -> (r: &Shape)
        ensures
            *r == self.shape,
    {
        &self.shape
    }
}

/// A row-major number below `outer * d` is an index below `d` and a number below `outer`; the largest
/// has the largest of both.
pub proof fn lemma_digit(outer: nat, d: nat, j: nat)
    requires
        j < outer * d,
    ensures
        d > 0,
        outer > 0,
        j / d <= outer - 1,
        j % d <= d - 1,
        ((outer * d - 1) as nat) / d == outer - 1,
        ((outer * d - 1) as nat) % d == d - 1,
        (j / d) * d + j % d == j,
{
    assert(d > 0 && outer > 0) by (nonlinear_arith)
        requires
            j < outer * d,
    ;
    assert(j / d <= outer - 1) by (nonlinear_arith)
        requires
            j < outer * d,
            d > 0,
    ;
    vstd::arithmetic::div_mod::lemma_fundamental_div_mod(j as int, d as int);
    assert((j / d) * d == d * (j / d)) by (nonlinear_arith);
    assert(outer * d - 1 == (outer - 1) * d + (d - 1)) by (nonlinear_arith);
    vstd::arithmetic::div_mod::lemma_fundamental_div_mod_converse(
        outer * d - 1,
        d as int,
        outer - 1,
        d - 1,
    );
}

impl Layout {
    /// No element within the first `n` dimensions lies farther than the last one.
    pub proof fn lemma_steps_bound(&self, n: nat, j: nat)
        requires
            n <= self.shape@.len(),
            j < product(self.shape@.take(n as int)),
        ensures
            self.steps(n, j) <= self.steps(n, (product(self.shape@.take(n as int)) - 1) as nat),
        decreases n,
    {
        if n > 0 {
            let d = self.shape@[n - 1] as nat;
            let outer = product(self.shape@.take(n - 1));
            let stride = self.stride_of(n - 1);
            assert(self.shape@.take(n as int).drop_last() =~= self.shape@.take(n - 1));
            lemma_digit(outer, d, j);
            self.lemma_steps_bound((n - 1) as nat, j / d);
            let index = j % d;
            assert(index * stride <= (d - 1) * stride) by (nonlinear_arith)
                requires
                    index <= d - 1,
            ;
        }
    }

    /// Every element that a layout shows lies below its reach, and the last one just below it.
    pub proof fn lemma_reach(&self, j: nat)
        requires
            j < self.count(),
        ensures
            self.position(j) < self.reach(),
            self.position((self.count() - 1) as nat) + 1 == self.reach(),
    {
        assert(self.shape@.take(self.shape@.len() as int) =~= self.shape@);
        self.lemma_steps_bound(self.shape@.len(), j);
    }

    /// Within the first `n` dimensions of a contiguous layout, elements lie as far apart as the
    /// dimensions inside are large.
    pub proof fn lemma_contiguous_steps(&self, n: nat, j: nat)
        requires
            self.is_contiguous(),
            n <= self.shape@.len(),
            j < product(self.shape@.take(n as int)),
        ensures
            self.steps(n, j) == j * product(self.shape@.skip(n as int)),
        decreases n,
    {
        let inner = product(self.shape@.skip(n as int));
        if n == 0 {
            assert(product(self.shape@.take(0)) == 1);
            assert(0 * inner == 0) by (nonlinear_arith);
        } else {
            let d = self.shape@[n - 1] as nat;
            let outer = product(self.shape@.take(n - 1));
            assert(self.shape@.take(n as int).drop_last() =~= self.shape@.take(n - 1));
            lemma_digit(outer, d, j);
            self.lemma_contiguous_steps((n - 1) as nat, j / d);
            assert(self.shape@.skip(n - 1).drop_first() =~= self.shape@.skip(n as int));
            lemma_product_first(self.shape@.skip(n - 1));
            assert(self.stride@[n - 1] == inner);
            let (q, i) = (j / d, j % d);
            assert(q * (d * inner) + i * inner == j * inner) by (nonlinear_arith)
                requires
                    q * d + i == j,
            ;
        }
    }

    /// A contiguous layout shows the elements of a buffer in order.
    pub proof fn lemma_contiguous_position(&self, j: nat)
        requires
            self.is_contiguous(),
            j < self.count(),
        ensures
            self.position(j) == j,
            self.reach() == self.count(),
    {
        let n = self.shape@.len();
        let last = (self.count() - 1) as nat;
        assert(self.shape@.take(n as int) =~= self.shape@);
        assert(self.shape@.skip(n as int) =~= seq![]);
        self.lemma_contiguous_steps(n, j);
        self.lemma_contiguous_steps(n, last);
        assert(j * 1 == j && last * 1 == last) by (nonlinear_arith);
    }
}

pub proof fn lemma_product_first(dims: Seq<usize>)
    requires
        dims.len() > 0,
    ensures
        product(dims) == dims[0] as nat * product(dims.drop_first()),
    decreases dims.len(),
{
    let d = dims[0] as nat;
    let last = dims.last() as nat;
    if dims.len() == 1 {
        assert(product(dims.drop_last()) == 1);
        assert(product(dims.drop_first()) == 1);
        assert(1 * d == d * 1) by (nonlinear_arith);
    } else {
        let init = dims.drop_last();
        lemma_product_first(init);
        assert(dims.drop_first().drop_last() =~= init.drop_first());
        let inner = product(init.drop_first());
        assert(dims.drop_first().last() == last);
        assert(product(dims.drop_first()) == inner * last);
        assert((d * inner) * last == d * (inner * last)) by (nonlinear_arith);
    }
}

} // verus!
