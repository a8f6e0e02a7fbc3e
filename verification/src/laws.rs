//! What holds of the backend as a whole.
pub mod bytes;
pub mod devices;
pub mod inferences;
pub mod layouts;
pub mod operations;
pub mod products;
pub mod storages;
pub mod texts;

use crate::backend::CpuBackend;
use crate::cpu_storage::{byte_elems, elem_at, elem_bytes, pick, CpuData, CpuStorage};
use crate::device::{npu_name_text, OpenVinoDevice};
use crate::dtype::DType;
use crate::element::{
    le_bytes, le_value, lemma_le_bytes_len, lemma_le_bytes_of_value, lemma_le_value_bound,
    lemma_le_value_of_bytes, lemma_le_value_of_zeros, Element,
};
use crate::error::{Error, OpenVinoResult, Result};
use crate::inference::{reports, InferenceJob};
use crate::layout::Layout;
use crate::matmul::native_element;
use crate::runtime::{Call, Request};
use crate::storage::{answers, updates, OpenVinoStorage};
use crate::text::{decimal, lemma_decimal_injective, lemma_decimal_not_empty};
use crate::utils::holds;
use vstd::prelude::*;

verus! {

/// `n` elements take `n` times the width of one.
pub proof fn lemma_elem_bytes_len<T: Element>(s: Seq<T>)
    ensures
        elem_bytes(s).len() == s.len() * T::width(),
    decreases s.len(),
{
    if s.len() == 0 {
        assert(0 * T::width() == 0) by (nonlinear_arith);
    } else {
        lemma_elem_bytes_len(s.drop_last());
        lemma_le_bytes_len(s.last().pattern(), T::width());
        assert((s.len() - 1) * T::width() + T::width() == s.len() * T::width()) by (nonlinear_arith);
    }
}

/// The bytes of the element at position `i` stand in the window that belongs to it.
pub proof fn lemma_elem_window<T: Element>(s: Seq<T>, i: int)
    requires
        0 <= i < s.len(),
    ensures
        0 <= i * T::width(),
        i * T::width() + T::width() <= elem_bytes(s).len(),
        elem_bytes(s).subrange(i * T::width(), i * T::width() + T::width()) == le_bytes(
            s[i].pattern(),
            T::width(),
        ),
    decreases s.len(),
{
    let w = T::width() as int;
    let init = s.drop_last();
    let last = le_bytes(s.last().pattern(), T::width());
    lemma_elem_bytes_len(s);
    lemma_elem_bytes_len(init);
    lemma_le_bytes_len(s.last().pattern(), T::width());
    assert(0 <= i * w) by (nonlinear_arith)
        requires
            0 <= i,
            0 <= w,
    ;
    assert(i * w + w <= s.len() * w) by (nonlinear_arith)
        requires
            i + 1 <= s.len(),
            0 <= w,
    ;
    if i == s.len() - 1 {
        assert(elem_bytes(s).subrange(i * w, i * w + w) =~= last);
    } else {
        lemma_elem_window(init, i);
        assert(elem_bytes(s).subrange(i * w, i * w + w) =~= elem_bytes(init).subrange(
            i * w,
            i * w + w,
        ));
    }
}

/// Elements that were written as bytes are read back as they were.
pub proof fn lemma_elems_round_trip<T: Element>(s: Seq<T>)
    ensures
        byte_elems::<T>(elem_bytes(s), s.len()) == s,
{
    assert forall|i: int| 0 <= i < s.len() implies elem_at::<T>(elem_bytes(s), i) == s[i] by {
        lemma_elem_window(s, i);
        s[i].lemma_pattern();
        lemma_le_value_of_bytes(s[i].pattern(), T::width());
    }
    assert(byte_elems::<T>(elem_bytes(s), s.len()) =~= s);
}

/// Bytes that were read as elements are written back as they were.
pub proof fn lemma_bytes_round_trip<T: Element>(b: Seq<u8>, n: nat)
    requires
        n * T::width() <= b.len(),
    ensures
        elem_bytes(byte_elems::<T>(b, n)) == b.take((n * T::width()) as int),
    decreases n,
{
    let w = T::width() as int;
    let s = byte_elems::<T>(b, n);
    if n == 0 {
        assert(0 * w == 0) by (nonlinear_arith);
        assert(b.take(0) =~= elem_bytes(s));
    } else {
        let m = (n - 1) as nat;
        assert(m * w + w == n * w) by (nonlinear_arith)
            requires
                n == m + 1,
        ;
        lemma_bytes_round_trip::<T>(b, m);
        assert(s.drop_last() =~= byte_elems::<T>(b, m));
        let window = b.subrange(m * w, m * w + w);
        lemma_le_value_bound(window);
        T::lemma_from_pattern(le_value(window));
        lemma_le_bytes_of_value(window);
        assert(b.take(m * w) + window =~= b.take(n * w));
    }
}

/// Elements that are read from bytes that are all zero have the pattern zero.
pub proof fn lemma_zero_elems<T: Element>(b: Seq<u8>, n: nat)
    requires
        n * T::width() <= b.len(),
        forall|i: int| 0 <= i < b.len() ==> b[i] == 0,
    ensures
        forall|i: int| 0 <= i < n ==> #[trigger] byte_elems::<T>(b, n)[i] == T::from_pattern(0),
{
    assert forall|i: int| 0 <= i < n implies #[trigger] byte_elems::<T>(b, n)[i] == T::from_pattern(
        0,
    ) by {
        let w = T::width() as int;
        assert(0 <= i * w && i * w + w <= n * w) by (nonlinear_arith)
            requires
                0 <= i,
                i + 1 <= n,
                0 <= w,
        ;
        lemma_le_value_of_zeros(b.subrange(i * w, i * w + w));
    }
}

impl CpuData {
    /// Bytes that are all zero hold zeros, whatever the element type.
    pub proof fn lemma_zero_bytes(b: Seq<u8>, dtype: DType, n: nat)
        requires
            holds(b.len(), dtype, n),
            forall|i: int| 0 <= i < b.len() ==> b[i] == 0,
        ensures
            CpuData::from_bytes(b, dtype, n) == CpuData::zeros(dtype, n),
    {
        match dtype {
            DType::U32 => {
                lemma_zero_elems::<u32>(b, n);
                assert(byte_elems::<u32>(b, n) =~= Seq::new(n, |i: int| 0));
            },
            DType::I16 => {
                lemma_zero_elems::<i16>(b, n);
                assert(byte_elems::<i16>(b, n) =~= Seq::new(n, |i: int| 0));
            },
            DType::I32 => {
                lemma_zero_elems::<i32>(b, n);
                assert(byte_elems::<i32>(b, n) =~= Seq::new(n, |i: int| 0));
            },
            DType::I64 => {
                lemma_zero_elems::<i64>(b, n);
                assert(byte_elems::<i64>(b, n) =~= Seq::new(n, |i: int| 0));
            },
            DType::BF16 | DType::F16 => {
                lemma_zero_elems::<u16>(b, n);
                assert(byte_elems::<u16>(b, n) =~= Seq::new(n, |i: int| 0));
            },
            DType::F32 => {
                lemma_zero_elems::<u32>(b, n);
                assert(byte_elems::<u32>(b, n) =~= Seq::new(n, |i: int| 0));
            },
            DType::F64 => {
                lemma_zero_elems::<u64>(b, n);
                assert(byte_elems::<u64>(b, n) =~= Seq::new(n, |i: int| 0));
            },
            _ => {
                let w = dtype.width();
                assert(n * w == n) by (nonlinear_arith)
                    requires
                        w == 1,
                ;
                assert(b.take(n as int) =~= Seq::new(n, |i: int| 0));
            },
        }
    }

    /// A buffer of `n` elements takes `n` times the width of its element type.
    pub proof fn lemma_bytes_len(self)
        ensures
            self.to_bytes().len() == self.len() * self.dtype().width(),
    {
        match self {
            CpuData::U32(s) => lemma_elem_bytes_len(s),
            CpuData::I16(s) => lemma_elem_bytes_len(s),
            CpuData::I32(s) => lemma_elem_bytes_len(s),
            CpuData::I64(s) => lemma_elem_bytes_len(s),
            CpuData::BF16(s) => lemma_elem_bytes_len(s),
            CpuData::F16(s) => lemma_elem_bytes_len(s),
            CpuData::F32(s) => lemma_elem_bytes_len(s),
            CpuData::F64(s) => lemma_elem_bytes_len(s),
            _ => {
                let n = self.len();
                let w = self.dtype().width();
                assert(n * w == n) by (nonlinear_arith)
                    requires
                        w == 1,
                ;
            },
        }
    }

    /// What the CPU hands over comes back to the CPU unchanged: the bytes of a typed buffer, read
    /// with its element type and element count, are that buffer.
    pub proof fn lemma_round_trip(self)
        ensures
            CpuData::from_bytes(self.to_bytes(), self.dtype(), self.len()) == self,
    {
        match self {
            CpuData::U8(s) => assert(s.take(s.len() as int) =~= s),
            CpuData::U32(s) => lemma_elems_round_trip(s),
            CpuData::I16(s) => lemma_elems_round_trip(s),
            CpuData::I32(s) => lemma_elems_round_trip(s),
            CpuData::I64(s) => lemma_elems_round_trip(s),
            CpuData::BF16(s) => lemma_elems_round_trip(s),
            CpuData::F16(s) => lemma_elems_round_trip(s),
            CpuData::F32(s) => lemma_elems_round_trip(s),
            CpuData::F64(s) => lemma_elems_round_trip(s),
            CpuData::F8E4M3(s) => assert(s.take(s.len() as int) =~= s),
            CpuData::F6E2M3(s) => assert(s.take(s.len() as int) =~= s),
            CpuData::F6E3M2(s) => assert(s.take(s.len() as int) =~= s),
            CpuData::F4(s) => assert(s.take(s.len() as int) =~= s),
            CpuData::F8E8M0(s) => assert(s.take(s.len() as int) =~= s),
        }
    }

    /// Reading raw bytes as a typed buffer loses nothing of the part that is read: writing the
    /// buffer gives those bytes again.
    pub proof fn lemma_bytes_kept(b: Seq<u8>, dtype: DType, n: nat)
        requires
            holds(b.len(), dtype, n),
        ensures
            CpuData::from_bytes(b, dtype, n).to_bytes() == b.take((n * dtype.width()) as int),
            CpuData::from_bytes(b, dtype, n).dtype() == dtype,
            CpuData::from_bytes(b, dtype, n).len() == n,
    {
        match dtype {
            DType::U32 => lemma_bytes_round_trip::<u32>(b, n),
            DType::I16 => lemma_bytes_round_trip::<i16>(b, n),
            DType::I32 => lemma_bytes_round_trip::<i32>(b, n),
            DType::I64 => lemma_bytes_round_trip::<i64>(b, n),
            DType::BF16 => lemma_bytes_round_trip::<u16>(b, n),
            DType::F16 => lemma_bytes_round_trip::<u16>(b, n),
            DType::F32 => lemma_bytes_round_trip::<u32>(b, n),
            DType::F64 => lemma_bytes_round_trip::<u64>(b, n),
            _ => {
                let w = dtype.width();
                assert(n * w == n) by (nonlinear_arith)
                    requires
                        w == 1,
                ;
            },
        }
    }

    /// Two buffers of one element type with the same bytes hold the same elements.
    pub proof fn lemma_bytes_injective(a: CpuData, b: CpuData)
        requires
            a.dtype() == b.dtype(),
            a.to_bytes() == b.to_bytes(),
        ensures
            a == b,
    {
        a.lemma_bytes_len();
        b.lemma_bytes_len();
        a.lemma_round_trip();
        b.lemma_round_trip();
        let w = a.dtype().width();
        assert(a.len() == b.len()) by (nonlinear_arith)
            requires
                a.len() * w == b.len() * w,
                w > 0,
        ;
    }
}

/// The round trip from the CPU to the device and back: a storage that holds the elements of `d` gives
/// `d` when the full buffer is read, for every element type with a size.
pub proof fn lemma_full_read<R>(s: OpenVinoStorage<R>, d: CpuData, device: OpenVinoDevice<R>)
    requires
        s.stores(d, device),
        d.dtype().size() > 0,
    ensures
        CpuData::from_bytes(s.data(), s.elem_type(), s.whole_elems(s.elem_type().size())) == d,
{
    let n = d.len();
    let w = d.dtype().size();
    d.lemma_bytes_len();
    d.lemma_round_trip();
    assert((n * w) / w == n) by (nonlinear_arith)
        requires
            w > 0,
    ;
}

/// The round trip for every element type: a storage that holds the elements of `d` gives `d` to an
/// operation whose layout counts as many elements.
pub proof fn lemma_counted_read<R>(
    s: OpenVinoStorage<R>,
    d: CpuData,
    device: OpenVinoDevice<R>,
    l: Layout,
)
    requires
        s.stores(d, device),
        l.count() == d.len(),
    ensures
        s.covers(&l),
        s.elems(&l) == d,
{
    d.lemma_bytes_len();
    d.lemma_round_trip();
}

/// The full buffer of a storage that holds the elements of `d` is `d`, for every element type: it is
/// what an operation that falls back to the CPU hands to its kernel.
pub proof fn lemma_whole_read<R>(s: OpenVinoStorage<R>, d: CpuData, device: OpenVinoDevice<R>)
    requires
        s.stores(d, device),
    ensures
        s.whole() == d,
{
    let n = d.len();
    let w = d.dtype().width();
    d.lemma_bytes_len();
    d.lemma_round_trip();
    assert((n * w) / w == n) by (nonlinear_arith)
        requires
            w > 0,
    ;
}

/// A storage of zero bytes, as a device makes it for `n` elements, holds `n` zeros, for every element
/// type with a size.
pub proof fn lemma_zeros_read<R>(s: OpenVinoStorage<R>, n: nat)
    requires
        s.elem_type().size() > 0,
        s.data() == Seq::new(n * s.elem_type().size(), |i: int| 0u8),
    ensures
        s.whole() == CpuData::zeros(s.elem_type(), n),
{
    let w = s.elem_type().size();
    assert((n * w) / w == n) by (nonlinear_arith)
        requires
            w > 0,
    ;
    CpuData::lemma_zero_bytes(s.data(), s.elem_type(), n);
}

/// An operation that falls back to the CPU is transparent: what is read from its result is what the
/// CPU kernel returned.
pub proof fn lemma_fallback_is_transparent<R>(
    k: Result<CpuStorage>,
    r: Result<OpenVinoStorage<R>>,
    device: OpenVinoDevice<R>,
)
    requires
        answers(k, r, device),
    ensures
        k is Ok <==> r is Ok,
        k matches Ok(cpu) ==> (r matches Ok(s) && s.whole() == cpu@ && s.on() == device),
        k matches Err(e) ==> r == Err::<OpenVinoStorage<R>, Error>(e),
{
    if let Ok(cpu) = k {
        lemma_whole_read(r->Ok_0, cpu@, device);
    }
}

/// An in-place operation is transparent as well: after it, the storage holds what the CPU kernel
/// returned, if the kernel kept the element type; if the kernel failed, it holds what it held before.
pub proof fn lemma_update_is_transparent<R>(
    k: Result<CpuStorage>,
    old_s: OpenVinoStorage<R>,
    new_s: OpenVinoStorage<R>,
    r: Result<()>,
)
    requires
        updates(k, old_s, new_s, r),
        k matches Ok(cpu) ==> cpu@.dtype() == old_s.elem_type(),
    ensures
        k matches Ok(cpu) ==> new_s.whole() == cpu@,
        k is Err ==> new_s.whole() == old_s.whole(),
{
    if let Ok(cpu) = k {
        lemma_whole_read(new_s, cpu@, new_s.on());
    }
}

/// Of a layout, only the number of elements matters for [`OpenVinoStorage::to_cpu`], which takes the
/// first elements of the buffer.
pub proof fn lemma_to_cpu_only_counts<R>(s: OpenVinoStorage<R>, a: Layout, b: Layout)
    requires
        a.count() == b.count(),
    ensures
        s.covers(&a) == s.covers(&b),
        s.elems(&a) == s.elems(&b),
{
}

/// The elements that a layout shows are of the type of the buffer, and as many as the layout counts.
pub proof fn lemma_visible_shape(d: CpuData, l: Layout)
    ensures
        d.visible(l).dtype() == d.dtype(),
        d.visible(l).len() == l.count(),
{
}

/// A contiguous layout that counts all elements of a buffer shows the buffer as it is.
pub proof fn lemma_contiguous_shows_all(d: CpuData, l: Layout)
    requires
        l.is_contiguous(),
        l.count() == d.len(),
    ensures
        l.reach() == d.len(),
        d.visible(l) == d,
{
    assert forall|j: nat| j < l.count() implies #[trigger] l.position(j) == j by {
        l.lemma_contiguous_position(j);
    }
    if l.count() > 0 {
        l.lemma_contiguous_position(0);
    }
    match d {
        CpuData::U8(s) => assert(pick(s, l) =~= s),
        CpuData::U32(s) => assert(pick(s, l) =~= s),
        CpuData::I16(s) => assert(pick(s, l) =~= s),
        CpuData::I32(s) => assert(pick(s, l) =~= s),
        CpuData::I64(s) => assert(pick(s, l) =~= s),
        CpuData::BF16(s) => assert(pick(s, l) =~= s),
        CpuData::F16(s) => assert(pick(s, l) =~= s),
        CpuData::F32(s) => assert(pick(s, l) =~= s),
        CpuData::F64(s) => assert(pick(s, l) =~= s),
        CpuData::F8E4M3(s) => assert(pick(s, l) =~= s),
        CpuData::F6E2M3(s) => assert(pick(s, l) =~= s),
        CpuData::F6E3M2(s) => assert(pick(s, l) =~= s),
        CpuData::F4(s) => assert(pick(s, l) =~= s),
        CpuData::F8E8M0(s) => assert(pick(s, l) =~= s),
    }
}

/// A copy is contiguous: through a contiguous layout of as many elements, it shows what the storage it
/// was made from shows through `l`.
pub proof fn lemma_copy_shows_alike<R>(
    s: OpenVinoStorage<R>,
    copy: OpenVinoStorage<R>,
    l: Layout,
    contiguous: Layout,
)
    requires
        copy.stores(s.visible(&l), s.on()),
        contiguous.is_contiguous(),
        contiguous.count() == l.count(),
    ensures
        copy.elem_type() == s.elem_type(),
        copy.whole() == s.visible(&l),
        copy.spans(&contiguous),
        copy.visible(&contiguous) == s.visible(&l),
{
    let d = s.visible(&l);
    lemma_visible_shape(s.whole(), l);
    lemma_whole_read(copy, d, s.on());
    lemma_contiguous_shows_all(d, contiguous);
    d.lemma_bytes_len();
}

/// A product lies on the device of the left operand. A product by OpenVINO has its element type too;
/// a product by the CPU makes no call to the runtime.
pub proof fn lemma_product_on_device<K: CpuBackend>(
    lhs: OpenVinoStorage,
    rhs: OpenVinoStorage,
    bmnk: (usize, usize, usize, usize),
    lhs_l: Layout,
    rhs_l: Layout,
    calls: Seq<Call>,
    r: Result<OpenVinoStorage>,
)
    requires
        lhs.multiplies::<K>(&rhs, bmnk, &lhs_l, &rhs_l, calls, r),
    ensures
        r matches Ok(s) ==> s.on() == lhs.on(),
        native_element(lhs.elem_type()) is Some ==> (r matches Ok(s) ==> s.elem_type()
            == lhs.elem_type()),
        native_element(lhs.elem_type()) is None ==> calls.len() == 0,
{
}

/// A device is the same as itself and as its clones, and which devices are the same does not depend on
/// the order in which they are named; devices that are the same as a third are the same.
pub proof fn lemma_same_device_is_an_equivalence<R>(
    a: OpenVinoDevice<R>,
    b: OpenVinoDevice<R>,
    c: OpenVinoDevice<R>,
)
    ensures
        a.is_same(&a),
        forall|copy: OpenVinoDevice<R>|
            call_ensures(OpenVinoDevice::<R>::clone, (&a,), copy) ==> #[trigger] a.is_same(&copy)
                && copy.is_same(&a),
        a.is_same(&b) <==> b.is_same(&a),
        a.is_same(&b) && b.is_same(&c) ==> a.is_same(&c),
{
}

/// Equal names and ordinals do not make two devices the same: they must share their runtime.
pub proof fn lemma_same_device_shares_the_runtime<R>(a: OpenVinoDevice<R>, b: OpenVinoDevice<R>)
    requires
        a.name() == b.name(),
        a.ordinal() == b.ordinal(),
    ensures
        a.is_same(&b) <==> a.runtime_id() == b.runtime_id(),
{
}

/// Different NPUs have different names.
pub proof fn lemma_npu_names_differ(a: nat, b: nat)
    requires
        npu_name_text(a) == npu_name_text(b),
    ensures
        a == b,
{
    reveal_strlit("NPU");
    reveal_strlit("NPU.");
    if a > 0 && b > 0 {
        assert(decimal(a) =~= npu_name_text(a).skip(4));
        assert(decimal(b) =~= npu_name_text(b).skip(4));
        lemma_decimal_injective(a, b);
    } else if a > 0 {
        lemma_decimal_not_empty(a);
        assert(npu_name_text(a).len() > 4);
    } else if b > 0 {
        lemma_decimal_not_empty(b);
        assert(npu_name_text(b).len() > 4);
    }
}

/// A job succeeds only by its calls: without them there are no outputs.
pub proof fn lemma_success_needs_the_calls(
    device: OpenVinoDevice,
    job: InferenceJob,
    calls: Seq<Call>,
    outputs: Vec<openvino::Tensor>,
)
    requires
        device.infers(job, calls, Ok(outputs)),
    ensures
        job.finished_with(device.name(), calls, outputs@),
{
    let r: Result<Vec<openvino::Tensor>> = Ok(outputs);
    if device.is_poisoned(r) {
        device.lemma_poisoned(r);
    }
}

/// The first call to the runtime that fails is the last one, and the job reports its failure.
pub proof fn lemma_first_failure_ends_the_job(
    job: InferenceJob,
    device: Seq<char>,
    calls: Seq<Call>,
    r: OpenVinoResult<Vec<openvino::Tensor>>,
    p: int,
)
    requires
        job.runs(device, calls, r),
        0 <= p < calls.len(),
        calls[p].reply is Failed,
    ensures
        p == calls.len() - 1,
        r matches Err(e) && reports(e, calls[p].reply->Failed_0),
{
    if p < calls.len() - 1 {
        assert(calls.drop_last()[p] == calls[p]);
    }
}

/// When the model is run, every input of the job has been set, in order, with the bytes of the job, and
/// it is set on the very run.
pub proof fn lemma_inputs_are_set_before_the_run(
    job: InferenceJob,
    device: Seq<char>,
    calls: Seq<Call>,
    r: OpenVinoResult<Vec<openvino::Tensor>>,
    p: int,
    i: int,
)
    requires
        job.runs(device, calls, r),
        0 <= p < calls.len(),
        calls[p].request is Infer,
        0 <= i < job.inputs@.len(),
    ensures
        ({
            let first = p - job.inputs@.len();
            &&& 0 <= first
            &&& calls[first + i].request == Request::SetTensor {
                run: job.run_state(device, i as nat, 0),
                name: job.inputs@[i].name@,
                tensor: job.inputs@[i].desc(),
            }
            &&& !(calls[first + i].reply is Failed)
        }),
        calls[p].request == (Request::Infer { run: job.run_state(device, job.inputs@.len(), 0) }),
{
    let n = job.inputs@.len();
    let q = p - n + i;
    assert(calls[p].request == job.request_at(device, p)) by {
        if p < calls.len() - 1 {
            assert(calls.drop_last()[p] == calls[p]);
        }
    }
    assert(p == job.run_position());
    assert(calls.drop_last()[q] == calls[q]);
}

/// Outputs are fetched only after the model was run, each of them once, in order, and from the run
/// that has exactly the inputs of the job and was made once.
pub proof fn lemma_outputs_follow_the_run(
    job: InferenceJob,
    device: Seq<char>,
    calls: Seq<Call>,
    r: OpenVinoResult<Vec<openvino::Tensor>>,
    p: int,
)
    requires
        job.runs(device, calls, r),
        0 <= p < calls.len(),
        calls[p].request is GetOutput,
    ensures
        ({
            let run = job.run_position();
            &&& 0 <= run < p
            &&& calls[run].request == Request::Infer {
                run: job.run_state(device, job.inputs@.len(), 0),
            }
            &&& !(calls[run].reply is Failed)
            &&& calls[p].request == Request::GetOutput {
                run: job.run_state(device, job.inputs@.len(), 1),
                index: (p - run - 2) as nat,
            }
        }),
{
    let run = job.run_position();
    assert(calls[p].request == job.request_at(device, p)) by {
        if p < calls.len() - 1 {
            assert(calls.drop_last()[p] == calls[p]);
        }
    }
    assert(p > run + 1);
    assert(calls.drop_last()[run] == calls[run]);
}

} // verus!
