//! Storages: what is written to them is read from them.
use crate::cpu_storage::{byte_elems, elem_bytes, pick, CpuData, CpuStorage};
use crate::device::OpenVinoDevice;
use crate::dtype::DType;
use crate::element::{le_value, lemma_le_bytes_of_value, lemma_le_value_bound, Element};
use crate::error::{Error, OpenVinoError, Result};
use crate::laws::{lemma_elem_bytes_len, lemma_elem_window, lemma_whole_read};
use crate::layout::{Layout, Shape};
use crate::storage::{answers, updates, OpenVinoStorage};
use crate::text::decimal;
use crate::utils::{cpu_storage_to_bytes, holds};
use vstd::prelude::*;

verus! {

/// Whether reading the full buffer of a storage, by whichever function, gives the elements of `cpu`.
pub open spec fn reads_back<R>(s: OpenVinoStorage<R>, cpu: CpuStorage) -> bool {
    &&& forall|r: Result<CpuStorage>| #[trigger]
        call_ensures(OpenVinoStorage::<R>::whole_cpu, (&s,), r) ==> (r matches Ok(c) && c@ == cpu@)
    &&& forall|r: Result<CpuStorage>| #[trigger]
        call_ensures(OpenVinoStorage::<R>::to_cpu_storage, (&s,), r) ==> (r matches Ok(c) && c@ == cpu@)
}

/// Whether `r` carries what a CPU kernel returned: its buffer, which is read back from a storage on the
/// given device, or its error.
pub open spec fn carries<R>(
    k: Result<CpuStorage>,
    r: Result<OpenVinoStorage<R>>,
    device: OpenVinoDevice<R>,
) -> bool {
    match k {
        Ok(cpu) => r matches Ok(s) && reads_back(s, cpu) && s.on() == device && forall|d: DType|
            #[trigger] call_ensures(CpuStorage::dtype, (&cpu,), d) ==> s.elem_type() == d,
        Err(e) => r == Err::<OpenVinoStorage<R>, Error>(e),
    }
}

/// Whether a storage that was `before` and is `after` took what a CPU kernel returned: the bytes of its
/// buffer, or, with its error, nothing.
pub open spec fn takes<R>(
    k: Result<CpuStorage>,
    before: OpenVinoStorage<R>,
    after: OpenVinoStorage<R>,
    r: Result<()>,
) -> bool {
    &&& after.elem_type() == before.elem_type()
    &&& after.on() == before.on()
    &&& match k {
        Ok(cpu) => {
            &&& r is Ok
            &&& forall|b: Result<Vec<u8>>| #[trigger]
                call_ensures(cpu_storage_to_bytes, (&cpu,), b) ==> (b matches Ok(v) && after.data()
                    == v@)
            &&& forall|d: DType| #[trigger]
                call_ensures(CpuStorage::dtype, (&cpu,), d) && d == before.elem_type() ==> reads_back(
                    after,
                    cpu,
                )
        },
        Err(e) => r == Err::<(), Error>(e) && after.data() == before.data(),
    }
}

pub proof fn lemma_carries<R>(
    k: Result<CpuStorage>,
    r: Result<OpenVinoStorage<R>>,
    device: OpenVinoDevice<R>,
)
    requires
        answers(k, r, device),
    ensures
        carries(k, r, device),
{
    if let Ok(cpu) = k {
        lemma_whole_read(r->Ok_0, cpu@, device);
    }
}

pub proof fn lemma_takes<R>(
    k: Result<CpuStorage>,
    before: OpenVinoStorage<R>,
    after: OpenVinoStorage<R>,
    r: Result<()>,
)
    requires
        updates(k, before, after, r),
    ensures
        takes(k, before, after, r),
{
    if let Ok(cpu) = k {
        if cpu@.dtype() == before.elem_type() {
            lemma_whole_read(after, cpu@, after.on());
        }
    }
}

/// What is moved to a device is read back from it unchanged.
pub proof fn law_round_trip<R>(
    device: &OpenVinoDevice<R>,
    cpu: CpuStorage,
    s: OpenVinoStorage<R>,
)
    requires
        call_ensures(OpenVinoDevice::<R>::storage_from_cpu_storage, (device, &cpu), Ok(s))
            || call_ensures(OpenVinoDevice::<R>::storage_from_cpu_storage_owned, (device, cpu), Ok(s)),
    ensures
        reads_back(s, cpu),
        s.on() == *device,
{
    lemma_whole_read(s, cpu@, *device);
}

/// A storage tells its bytes, its element type and its device.
pub proof fn law_storages_tell<R>(
    s: &OpenVinoStorage<R>,
    bytes: &[u8],
    dtype: DType,
    device: &OpenVinoDevice<R>,
    name: &'static str,
    shown: String,
)
    requires
        call_ensures(OpenVinoStorage::<R>::bytes, (s,), bytes),
        call_ensures(OpenVinoStorage::<R>::dtype, (s,), dtype),
        call_ensures(OpenVinoStorage::<R>::device, (s,), device),
        call_ensures(DType::name, (&dtype,), name),
        call_ensures(OpenVinoStorage::<R>::debug_string, (s,), shown),
    ensures
        bytes@ == s.data(),
        dtype == s.elem_type(),
        *device == s.on(),
        shown@ == "OpenVinoStorage(dtype="@ + name@ + ")"@,
{
}

/// The full buffer of a storage is read as elements of its type that have its bytes, but for a last
/// element that is not whole.
pub proof fn law_full_read<R>(
    s: &OpenVinoStorage<R>,
    w: usize,
    cpu: CpuStorage,
    dtype: DType,
    bytes: Vec<u8>,
)
    requires
        call_ensures(OpenVinoStorage::<R>::whole_cpu, (s,), Ok(cpu)) || call_ensures(
            OpenVinoStorage::<R>::to_cpu_storage,
            (s,),
            Ok(cpu),
        ),
        call_ensures(DType::buffer_width, (&s.elem_type(),), w),
        call_ensures(CpuStorage::dtype, (&cpu,), dtype),
        call_ensures(cpu_storage_to_bytes, (&cpu,), Ok(bytes)),
    ensures
        dtype == s.elem_type(),
        bytes@.is_prefix_of(s.data()),
        bytes@.len() % w as nat == 0,
        s.data().len() - bytes@.len() < w,
{
    let len = s.data().len();
    let n = len / w as nat;
    vstd::arithmetic::div_mod::lemma_fundamental_div_mod(len as int, w as int);
    assert(n * w == w * n) by (nonlinear_arith);
    CpuData::lemma_bytes_kept(s.data(), s.elem_type(), n);
    assert(bytes@ =~= s.data().subrange(0, bytes@.len() as int));
    vstd::arithmetic::div_mod::lemma_mod_multiples_basic(n as int, w as int);
}

/// The full read never fails.
pub proof fn law_full_read_succeeds<R>(s: &OpenVinoStorage<R>, r: Result<CpuStorage>)
    requires
        call_ensures(OpenVinoStorage::<R>::whole_cpu, (s,), r) || call_ensures(
            OpenVinoStorage::<R>::to_cpu_storage,
            (s,),
            r,
        ),
    ensures
        r is Ok,
{
}

/// The first elements of a storage, as many as a layout counts: a buffer of its type with the first
/// bytes, or the report that there are too few.
pub proof fn law_counted_read<R>(
    s: &OpenVinoStorage<R>,
    l: &Layout,
    n: usize,
    w: usize,
    r: Result<CpuStorage>,
)
    requires
        call_ensures(OpenVinoStorage::<R>::to_cpu, (s, l), r),
        call_ensures(Shape::elem_count, (&l.shape,), n),
        call_ensures(DType::buffer_width, (&s.elem_type(),), w),
    ensures
        n * w <= s.data().len() ==> (r matches Ok(cpu) && {
            &&& forall|d: DType| #[trigger]
                call_ensures(CpuStorage::dtype, (&cpu,), d) ==> d == s.elem_type()
            &&& forall|b: Result<Vec<u8>>| #[trigger]
                call_ensures(cpu_storage_to_bytes, (&cpu,), b) ==> (b matches Ok(v) && v@
                    == s.data().take(n * w))
        }),
        n * w > s.data().len() ==> (r matches Err(Error::OpenVino(OpenVinoError::Message(t))) && t@
            == "buffer too small: need "@ + decimal((n * w) as nat) + " bytes for "@ + decimal(n as nat)
            + " elements of size "@ + decimal(w as nat) + ", got "@ + decimal(s.data().len())),
{
    if n * w <= s.data().len() {
        CpuData::lemma_bytes_kept(s.data(), s.elem_type(), n as nat);
    }
}

/// A storage whose contents were replaced holds the bytes of the new buffer, with its element type, on
/// the device that it was on.
pub proof fn law_replaced<R>(
    s: &mut OpenVinoStorage<R>,
    cpu: CpuStorage,
    bytes: Vec<u8>,
    dtype: DType,
    r: Result<()>,
)
    requires
        call_ensures(OpenVinoStorage::<R>::replace_storage_from_cpu, (s, cpu), r),
        call_ensures(cpu_storage_to_bytes, (&cpu,), Ok(bytes)),
        call_ensures(CpuStorage::dtype, (&cpu,), dtype),
    ensures
        r is Ok,
        final(s).data() == bytes@,
        final(s).elem_type() == dtype,
        final(s).on() == old(s).on(),
        reads_back(*final(s), cpu),
{
    lemma_whole_read(*final(s), cpu@, old(s).on());
}

proof fn lemma_gathered_window<T: Element>(b: Seq<u8>, n: nat, l: Layout, j: nat)
    requires
        n * T::width() <= b.len(),
        l.reach() <= n,
        j < l.count(),
    ensures
        ({
            let w = T::width() as int;
            let out = elem_bytes(pick(byte_elems::<T>(b, n), l));
            let p = l.position(j);
            &&& out.len() == l.count() * w
            &&& 0 <= j * w
            &&& j * w + w <= out.len()
            &&& 0 <= p * w
            &&& p * w + w <= b.len()
            &&& out.subrange(j * w, j * w + w) == b.subrange(p * w, p * w + w)
        }),
{
    let w = T::width() as int;
    let s = pick(byte_elems::<T>(b, n), l);
    let p = l.position(j);
    l.lemma_reach(j);
    lemma_elem_bytes_len(s);
    lemma_elem_window(s, j as int);
    assert(0 <= p * w && p * w + w <= n * w) by (nonlinear_arith)
        requires
            p + 1 <= n,
            0 <= w,
    ;
    let window = b.subrange(p * w, p * w + w);
    lemma_le_value_bound(window);
    T::lemma_from_pattern(le_value(window));
    lemma_le_bytes_of_value(window);
}

/// The bytes of the element that a layout shows at a place are those of the buffer at its position.
proof fn lemma_gathered_bytes(b: Seq<u8>, dtype: DType, n: nat, l: Layout, j: nat, k: int)
    requires
        holds(b.len(), dtype, n),
        l.reach() <= n,
        j < l.count(),
        0 <= k < dtype.width(),
    ensures
        ({
            let w = dtype.width() as int;
            let out = CpuData::from_bytes(b, dtype, n).visible(l).to_bytes();
            &&& out.len() == l.count() * w
            &&& 0 <= j * w + k < out.len()
            &&& 0 <= l.position(j) * w + k < b.len()
            &&& out[j * w + k] == b[l.position(j) * w + k]
        }),
{
    let w = dtype.width() as int;
    let p = l.position(j);
    let out = CpuData::from_bytes(b, dtype, n).visible(l).to_bytes();
    l.lemma_reach(j);
    match dtype {
        DType::U32 => lemma_gathered_window::<u32>(b, n, l, j),
        DType::I16 => lemma_gathered_window::<i16>(b, n, l, j),
        DType::I32 => lemma_gathered_window::<i32>(b, n, l, j),
        DType::I64 => lemma_gathered_window::<i64>(b, n, l, j),
        DType::BF16 => lemma_gathered_window::<u16>(b, n, l, j),
        DType::F16 => lemma_gathered_window::<u16>(b, n, l, j),
        DType::F32 => lemma_gathered_window::<u32>(b, n, l, j),
        DType::F64 => lemma_gathered_window::<u64>(b, n, l, j),
        _ => {
            let c = l.count();
            assert(j * w == j && p * w == p && n * w == n && c * w == c) by (nonlinear_arith)
                requires
                    w == 1,
            ;
            assert(out.subrange(j * w, j * w + w) =~= b.subrange(p * w, p * w + w));
        },
    }
    let (x, y) = (out.subrange(j * w, j * w + w), b.subrange(p * w, p * w + w));
    assert(x[k] == out[j * w + k]);
    assert(y[k] == b[p * w + k]);
}

/// A copy has the bytes of the elements that a layout shows: those of element `j` are the bytes of the
/// storage at the position of element `j`.
pub proof fn law_copy<R>(
    s: &OpenVinoStorage<R>,
    l: &Layout,
    n: usize,
    w: usize,
    required: usize,
    j: usize,
    p: usize,
    k: int,
    r: Result<OpenVinoStorage<R>>,
)
    requires
        call_ensures(OpenVinoStorage::<R>::try_clone, (s, l), r),
        call_ensures(Shape::elem_count, (&l.shape,), n),
        call_ensures(DType::buffer_width, (&s.elem_type(),), w),
        call_ensures(Layout::required_len, (l,), required),
        required * w <= s.data().len(),
        call_ensures(Layout::position_of, (l, j), p),
        j < n,
        0 <= k < w,
    ensures
        r matches Ok(t) && {
            &&& t.data().len() == n * w
            &&& t.data()[j * w + k] == s.data()[p * w + k]
            &&& t.elem_type() == s.elem_type()
            &&& t.on() == s.on()
        },
{
    let len = s.data().len();
    let whole = len / w as nat;
    lemma_fits(len, w as nat, required as nat);
    lemma_gathered_bytes(s.data(), s.elem_type(), whole, *l, j as nat, k);
    CpuData::lemma_bytes_kept(s.data(), s.elem_type(), whole);
}

proof fn lemma_fits(len: nat, w: nat, n: nat)
    requires
        w > 0,
        n * w <= len,
    ensures
        n <= len / w,
        (len / w) * w <= len,
{
    assert(n <= len / w && (len / w) * w <= len) by (nonlinear_arith)
        requires
            w > 0,
            n * w <= len,
    ;
}

/// A copy through a layout that shows nothing is empty.
pub proof fn law_empty_copy<R>(s: &OpenVinoStorage<R>, l: &Layout, r: Result<OpenVinoStorage<R>>)
    requires
        call_ensures(OpenVinoStorage::<R>::try_clone, (s, l), r),
        call_ensures(Shape::elem_count, (&l.shape,), 0),
    ensures
        r matches Ok(t) && t.data().len() == 0 && t.elem_type() == s.elem_type() && t.on() == s.on(),
{
    let w = s.elem_type().width();
    assert(0 * w == 0) by (nonlinear_arith);
    s.whole().visible(*l).lemma_bytes_len();
    crate::laws::lemma_visible_shape(s.whole(), *l);
    lemma_fits(s.data().len(), w, 0);
    CpuData::lemma_bytes_kept(s.data(), s.elem_type(), s.data().len() / w);
}

/// A layout that reaches past the end of a storage is reported, with the number of elements that it
/// requires.
pub proof fn law_copy_past_the_end<R>(
    s: &OpenVinoStorage<R>,
    l: &Layout,
    w: usize,
    required: usize,
    r: Result<OpenVinoStorage<R>>,
    gathered: Result<CpuStorage>,
)
    requires
        call_ensures(OpenVinoStorage::<R>::try_clone, (s, l), r),
        call_ensures(OpenVinoStorage::<R>::visible_cpu, (s, l), gathered),
        call_ensures(DType::buffer_width, (&s.elem_type(),), w),
        call_ensures(Layout::required_len, (l,), required),
        required * w > s.data().len(),
    ensures
        ({
            let text = "buffer too small: need "@ + decimal((required * w) as nat) + " bytes for "@
                + decimal(required as nat) + " elements of size "@ + decimal(w as nat) + ", got "@
                + decimal(s.data().len());
            &&& r matches Err(Error::OpenVino(OpenVinoError::Message(t))) && t@ == text
            &&& gathered matches Err(Error::OpenVino(OpenVinoError::Message(t))) && t@ == text
        }),
{
}

/// The elements that a layout shows have the bytes of a copy through it, and its element type.
pub proof fn law_gathered_like_a_copy<R>(
    s: &OpenVinoStorage<R>,
    l: &Layout,
    copy: OpenVinoStorage<R>,
    cpu: CpuStorage,
    bytes: Vec<u8>,
    dtype: DType,
)
    requires
        call_ensures(OpenVinoStorage::<R>::visible_cpu, (s, l), Ok(cpu)),
        call_ensures(OpenVinoStorage::<R>::try_clone, (s, l), Ok(copy)),
        call_ensures(cpu_storage_to_bytes, (&cpu,), Ok(bytes)),
        call_ensures(CpuStorage::dtype, (&cpu,), dtype),
    ensures
        bytes@ == copy.data(),
        dtype == s.elem_type(),
{
    lemma_spanned(s, l, copy);
    let w = s.elem_type().width();
    lemma_fits(s.data().len(), w, l.reach());
    CpuData::lemma_bytes_kept(s.data(), s.elem_type(), s.data().len() / w);
    crate::laws::lemma_visible_shape(s.whole(), *l);
}

proof fn lemma_spanned<R>(s: &OpenVinoStorage<R>, l: &Layout, copy: OpenVinoStorage<R>)
    requires
        call_ensures(OpenVinoStorage::<R>::try_clone, (s, l), Ok(copy)),
    ensures
        s.spans(l),
        copy.stores(s.visible(l), s.on()),
{
}

} // verus!
