//! Shapes and layouts: how many elements there are, and where they lie.
use crate::cpu_storage::{pick_slice, CpuStorage};
use crate::layout::{product, Layout, Shape};
use vstd::prelude::*;

verus! {

/// A shape without dimensions has one element.
pub proof fn law_scalar_count(s: &Shape, n: usize)
    requires
        s.dims@.len() == 0,
        call_ensures(Shape::elem_count, (s,), n),
    ensures
        n == 1,
{
}

/// One more dimension multiplies the number of elements by its size, wherever the shapes come from.
pub proof fn law_counts_multiply(outer: &Shape, s: &Shape, d: usize, n: usize, m: usize)
    requires
        s.dims@ == outer.dims@.push(d),
        call_ensures(Shape::elem_count, (outer,), n),
        call_ensures(Shape::elem_count, (s,), m),
    ensures
        m == n * d,
{
    assert(s.dims@.drop_last() =~= outer.dims@);
}

/// A vector of `n` elements has one dimension, of size `n`, and `n` elements.
pub proof fn law_vector(n: usize, s: Shape, m: usize)
    requires
        call_ensures(Shape::vector, (n,), s) || call_ensures(<Shape as From<usize>>::from, (n,), s),
        call_ensures(Shape::elem_count, (&s,), m),
    ensures
        s.dims@ == seq![n],
        m == n,
{
    crate::layout::lemma_vector_count(n);
}

/// A layout is made of its parts.
pub proof fn law_layout_parts(shape: Shape, stride: Vec<usize>, start: usize, l: Layout)
    requires
        call_ensures(Layout::new, (shape, stride, start), l),
    ensures
        l.shape == shape,
        l.stride == stride,
        l.start_offset == start,
        forall|s: &Shape| #[trigger] call_ensures(Layout::shape, (&l,), s) ==> *s == shape,
{
}

/// A contiguous layout starts at the first element; neighbours along the last dimension lie side by
/// side, and neighbours along any other as far apart as the next dimension reaches.
pub proof fn law_contiguous_strides(shape: Shape, l: Layout)
    requires
        call_ensures(Layout::contiguous, (shape,), l),
    ensures
        l.shape == shape,
        l.start_offset == 0,
        l.stride@.len() == shape.dims@.len(),
        shape.dims@.len() > 0 ==> l.stride@.last() == 1,
        forall|i: int|
            0 <= i < shape.dims@.len() - 1 ==> #[trigger] l.stride@[i] == l.stride@[i + 1]
                * shape.dims@[i + 1],
{
    let dims = shape.dims@;
    let n = dims.len();
    if n > 0 {
        assert(dims.skip(n as int) =~= seq![]);
        assert(l.stride@[n - 1] == product(dims.skip(n as int)));
    }
    assert forall|i: int| 0 <= i < n - 1 implies #[trigger] l.stride@[i] == l.stride@[i + 1] * dims[i + 1] by {
        let rest = dims.skip(i + 1);
        crate::layout::lemma_product_first(rest);
        assert(rest.drop_first() =~= dims.skip(i + 2));
        assert(l.stride@[i + 1] == product(dims.skip(i + 1 + 1)));
        let (d, p) = (dims[i + 1] as nat, product(dims.skip(i + 2)));
        assert(d * p == p * d) by (nonlinear_arith);
    }
}

/// In a contiguous layout every element lies where its row-major number says.
pub proof fn law_contiguous_positions(shape: Shape, l: Layout, n: usize, j: usize, p: usize)
    requires
        call_ensures(Layout::contiguous, (shape,), l),
        call_ensures(Shape::elem_count, (&shape,), n),
        call_ensures(Layout::position_of, (&l, j), p),
        j < n,
    ensures
        p == j,
{
    l.lemma_contiguous_position(j as nat);
}

/// The only element of a layout without dimensions lies at its start.
pub proof fn law_scalar_position(l: &Layout, p: usize)
    requires
        l.shape.dims@.len() == 0,
        call_ensures(Layout::position_of, (l, 0), p),
    ensures
        p == l.start_offset,
{
}

/// One more dimension, of size `d` and stride `s`, makes `d` elements of every element, `s` apart:
/// element `j * d + k` lies `k` strides behind where element `j` lay.
pub proof fn law_positions_step(
    outer: &Layout,
    l: &Layout,
    d: usize,
    s: usize,
    j: usize,
    k: usize,
    number: usize,
    p: usize,
    q: usize,
)
    requires
        outer.shape.dims@.len() == outer.stride@.len(),
        forall|i: int| 0 <= i < outer.shape.dims@.len() ==> 0 < outer.shape.dims@[i],
        l.shape.dims@ == outer.shape.dims@.push(d),
        l.stride@ == outer.stride@.push(s),
        l.start_offset == outer.start_offset,
        k < d,
        number == j * d + k,
        call_ensures(Layout::position_of, (outer, j), p),
        call_ensures(Layout::position_of, (l, number), q),
    ensures
        q == p + k * s,
{
    let n = outer.shape.dims@.len();
    vstd::arithmetic::div_mod::lemma_fundamental_div_mod_converse(
        number as int,
        d as int,
        j as int,
        k as int,
    );
    lemma_steps_alike(*outer, *l, n, j as nat);
}

/// One more dimension, of size `d`, for which no stride is given, repeats every element `d` times.
pub proof fn law_positions_repeat(
    outer: &Layout,
    l: &Layout,
    d: usize,
    j: usize,
    k: usize,
    number: usize,
    p: usize,
    q: usize,
)
    requires
        outer.shape.dims@.len() == outer.stride@.len(),
        forall|i: int| 0 <= i < outer.shape.dims@.len() ==> 0 < outer.shape.dims@[i],
        l.shape.dims@ == outer.shape.dims@.push(d),
        l.stride@ == outer.stride@,
        l.start_offset == outer.start_offset,
        k < d,
        number == j * d + k,
        call_ensures(Layout::position_of, (outer, j), p),
        call_ensures(Layout::position_of, (l, number), q),
    ensures
        q == p,
{
    let n = outer.shape.dims@.len();
    vstd::arithmetic::div_mod::lemma_fundamental_div_mod_converse(
        number as int,
        d as int,
        j as int,
        k as int,
    );
    lemma_steps_alike(*outer, *l, n, j as nat);
    assert(k * 0 == 0) by (nonlinear_arith);
}

proof fn lemma_steps_alike(a: Layout, b: Layout, n: nat, j: nat)
    requires
        n <= a.shape@.len(),
        n <= b.shape@.len(),
        forall|i: int| 0 <= i < n ==> 0 < #[trigger] a.shape@[i],
        forall|i: int| 0 <= i < n ==> #[trigger] a.shape@[i] == b.shape@[i],
        forall|i: int| 0 <= i < n ==> #[trigger] a.stride_of(i) == b.stride_of(i),
    ensures
        a.steps(n, j) == b.steps(n, j),
    decreases n,
{
    if n > 0 {
        let d = a.shape@[n - 1] as nat;
        assert(b.shape@[n - 1] == a.shape@[n - 1]);
        lemma_steps_alike(a, b, (n - 1) as nat, j / d);
        let stride = a.stride_of(n - 1);
        assert(a.steps(n, j) == a.steps((n - 1) as nat, j / d) + (j % d) * stride);
        assert(b.steps(n, j) == b.steps((n - 1) as nat, j / d) + (j % d) * stride);
    }
}

/// A buffer must have all elements that a layout shows, and need have no more: every element lies
/// within the length required, and the last one at its end.
pub proof fn law_required_length(l: &Layout, n: usize, required: usize, j: usize, p: usize)
    requires
        call_ensures(Shape::elem_count, (&l.shape,), n),
        call_ensures(Layout::required_len, (l,), required),
        call_ensures(Layout::position_of, (l, j), p),
        j < n,
    ensures
        p < required,
        j == n - 1 ==> p + 1 == required,
{
    l.lemma_reach(j as nat);
}

/// A layout that shows nothing requires nothing.
pub proof fn law_empty_layout(l: &Layout, required: usize)
    requires
        call_ensures(Shape::elem_count, (&l.shape,), 0),
        call_ensures(Layout::required_len, (l,), required),
    ensures
        required == 0,
{
}

/// The elements that a layout shows are taken from where they lie, in row-major order.
pub proof fn law_gathered<T: Copy>(v: &[T], l: &Layout, n: usize, out: Vec<T>, j: usize, p: usize)
    requires
        call_ensures(pick_slice::<T>, (v, l), out),
        call_ensures(Shape::elem_count, (&l.shape,), n),
        call_ensures(Layout::position_of, (l, j), p),
        j < n,
    ensures
        out@.len() == n,
        out@[j as int] == v@[p as int],
{
}

/// A typed buffer of the elements that a layout shows is of the same type, and has them from where they
/// lie, in row-major order.
pub proof fn law_buffer_gathered(l: &Layout, n: usize, j: usize, p: usize, r: CpuStorage)
    requires
        call_ensures(Shape::elem_count, (&l.shape,), n),
        call_ensures(Layout::position_of, (l, j), p),
        j < n,
    ensures
        forall|v: Vec<u8>| #[trigger]
            call_ensures(CpuStorage::visible, (&CpuStorage::U8(v), l), r) ==> (
            r matches CpuStorage::U8(out) && out@.len() == n && out@[j as int] == v@[p as int]),
        forall|v: Vec<u32>| #[trigger]
            call_ensures(CpuStorage::visible, (&CpuStorage::U32(v), l), r) ==> (
            r matches CpuStorage::U32(out) && out@.len() == n && out@[j as int] == v@[p as int]),
        forall|v: Vec<i16>| #[trigger]
            call_ensures(CpuStorage::visible, (&CpuStorage::I16(v), l), r) ==> (
            r matches CpuStorage::I16(out) && out@.len() == n && out@[j as int] == v@[p as int]),
        forall|v: Vec<i32>| #[trigger]
            call_ensures(CpuStorage::visible, (&CpuStorage::I32(v), l), r) ==> (
            r matches CpuStorage::I32(out) && out@.len() == n && out@[j as int] == v@[p as int]),
        forall|v: Vec<i64>| #[trigger]
            call_ensures(CpuStorage::visible, (&CpuStorage::I64(v), l), r) ==> (
            r matches CpuStorage::I64(out) && out@.len() == n && out@[j as int] == v@[p as int]),
        forall|v: Vec<u16>| #[trigger]
            call_ensures(CpuStorage::visible, (&CpuStorage::BF16(v), l), r) ==> (
            r matches CpuStorage::BF16(out) && out@.len() == n && out@[j as int] == v@[p as int]),
        forall|v: Vec<u16>| #[trigger]
            call_ensures(CpuStorage::visible, (&CpuStorage::F16(v), l), r) ==> (
            r matches CpuStorage::F16(out) && out@.len() == n && out@[j as int] == v@[p as int]),
        forall|v: Vec<u32>| #[trigger]
            call_ensures(CpuStorage::visible, (&CpuStorage::F32(v), l), r) ==> (
            r matches CpuStorage::F32(out) && out@.len() == n && out@[j as int] == v@[p as int]),
        forall|v: Vec<u64>| #[trigger]
            call_ensures(CpuStorage::visible, (&CpuStorage::F64(v), l), r) ==> (
            r matches CpuStorage::F64(out) && out@.len() == n && out@[j as int] == v@[p as int]),
        forall|v: Vec<u8>| #[trigger]
            call_ensures(CpuStorage::visible, (&CpuStorage::F8E4M3(v), l), r) ==> (
            r matches CpuStorage::F8E4M3(out) && out@.len() == n && out@[j as int] == v@[p as int]),
        forall|v: Vec<u8>| #[trigger]
            call_ensures(CpuStorage::visible, (&CpuStorage::F6E2M3(v), l), r) ==> (
            r matches CpuStorage::F6E2M3(out) && out@.len() == n && out@[j as int] == v@[p as int]),
        forall|v: Vec<u8>| #[trigger]
            call_ensures(CpuStorage::visible, (&CpuStorage::F6E3M2(v), l), r) ==> (
            r matches CpuStorage::F6E3M2(out) && out@.len() == n && out@[j as int] == v@[p as int]),
        forall|v: Vec<u8>| #[trigger]
            call_ensures(CpuStorage::visible, (&CpuStorage::F4(v), l), r) ==> (
            r matches CpuStorage::F4(out) && out@.len() == n && out@[j as int] == v@[p as int]),
        forall|v: Vec<u8>| #[trigger]
            call_ensures(CpuStorage::visible, (&CpuStorage::F8E8M0(v), l), r) ==> (
            r matches CpuStorage::F8E8M0(out) && out@.len() == n && out@[j as int] == v@[p as int]),
{
}

} // verus!
