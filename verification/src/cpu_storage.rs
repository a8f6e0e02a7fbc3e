//! Typed CPU buffers.
//!
//! Integers are held as such. A floating-point element is held by its bit pattern: an unsigned
//! integer of the element's width.
use crate::dtype::DType;
use crate::element::{le_bytes, le_value, Element};
use crate::layout::Layout;
use vstd::prelude::*;

verus! {

/// A typed buffer in host memory.
#[derive(Clone, Debug, PartialEq, Eq)]
pub enum CpuStorage {
    U8(Vec<u8>),
    U32(Vec<u32>),
    I16(Vec<i16>),
    I32(Vec<i32>),
    I64(Vec<i64>),
    BF16(Vec<u16>),
    F16(Vec<u16>),
    F32(Vec<u32>),
    F64(Vec<u64>),
    F8E4M3(Vec<u8>),
    F6E2M3(Vec<u8>),
    F6E3M2(Vec<u8>),
    F4(Vec<u8>),
    F8E8M0(Vec<u8>),
}

/// What a typed buffer holds.
pub enum CpuData {
    U8(Seq<u8>),
    U32(Seq<u32>),
    I16(Seq<i16>),
    I32(Seq<i32>),
    I64(Seq<i64>),
    BF16(Seq<u16>),
    F16(Seq<u16>),
    F32(Seq<u32>),
    F64(Seq<u64>),
    F8E4M3(Seq<u8>),
    F6E2M3(Seq<u8>),
    F6E3M2(Seq<u8>),
    F4(Seq<u8>),
    F8E8M0(Seq<u8>),
}

impl View for CpuStorage {
    type V = CpuData;

    open spec fn view(&self) -> CpuData {
        match self {
            CpuStorage::U8(v) => CpuData::U8(v@),
            CpuStorage::U32(v) => CpuData::U32(v@),
            CpuStorage::I16(v) => CpuData::I16(v@),
            CpuStorage::I32(v) => CpuData::I32(v@),
            CpuStorage::I64(v) => CpuData::I64(v@),
            CpuStorage::BF16(v) => CpuData::BF16(v@),
            CpuStorage::F16(v) => CpuData::F16(v@),
            CpuStorage::F32(v) => CpuData::F32(v@),
            CpuStorage::F64(v) => CpuData::F64(v@),
            CpuStorage::F8E4M3(v) => CpuData::F8E4M3(v@),
            CpuStorage::F6E2M3(v) => CpuData::F6E2M3(v@),
            CpuStorage::F6E3M2(v) => CpuData::F6E3M2(v@),
            CpuStorage::F4(v) => CpuData::F4(v@),
            CpuStorage::F8E8M0(v) => CpuData::F8E8M0(v@),
        }
    }
}

impl CpuStorage {
    /// The element type.
    pub fn dtype(&self) -> (r: DType)
        ensures
            r == self@.dtype(),
    {
        match self {
            CpuStorage::U8(_) => DType::U8,
            CpuStorage::U32(_) => DType::U32,
            CpuStorage::I16(_) => DType::I16,
            CpuStorage::I32(_) => DType::I32,
            CpuStorage::I64(_) => DType::I64,
            CpuStorage::BF16(_) => DType::BF16,
            CpuStorage::F16(_) => DType::F16,
            CpuStorage::F32(_) => DType::F32,
            CpuStorage::F64(_) => DType::F64,
            CpuStorage::F8E4M3(_) => DType::F8E4M3,
            CpuStorage::F6E2M3(_) => DType::F6E2M3,
            CpuStorage::F6E3M2(_) => DType::F6E3M2,
            CpuStorage::F4(_) => DType::F4,
            CpuStorage::F8E8M0(_) => DType::F8E8M0,
        }
    }
}

impl CpuStorage {
    /// The elements that a layout shows, in row-major order.
    pub fn visible(&self, l: &Layout) -> (r: CpuStorage)
        requires
            l.shape.countable(),
            l.reach() <= self@.len(),
        ensures
            r@ == self@.visible(*l),
    {
        match self {
            CpuStorage::U8(v) => CpuStorage::U8(pick_slice(v.as_slice(), l)),
            CpuStorage::U32(v) => CpuStorage::U32(pick_slice(v.as_slice(), l)),
            CpuStorage::I16(v) => CpuStorage::I16(pick_slice(v.as_slice(), l)),
            CpuStorage::I32(v) => CpuStorage::I32(pick_slice(v.as_slice(), l)),
            CpuStorage::I64(v) => CpuStorage::I64(pick_slice(v.as_slice(), l)),
            CpuStorage::BF16(v) => CpuStorage::BF16(pick_slice(v.as_slice(), l)),
            CpuStorage::F16(v) => CpuStorage::F16(pick_slice(v.as_slice(), l)),
            CpuStorage::F32(v) => CpuStorage::F32(pick_slice(v.as_slice(), l)),
            CpuStorage::F64(v) => CpuStorage::F64(pick_slice(v.as_slice(), l)),
            CpuStorage::F8E4M3(v) => CpuStorage::F8E4M3(pick_slice(v.as_slice(), l)),
            CpuStorage::F6E2M3(v) => CpuStorage::F6E2M3(pick_slice(v.as_slice(), l)),
            CpuStorage::F6E3M2(v) => CpuStorage::F6E3M2(pick_slice(v.as_slice(), l)),
            CpuStorage::F4(v) => CpuStorage::F4(pick_slice(v.as_slice(), l)),
            CpuStorage::F8E8M0(v) => CpuStorage::F8E8M0(pick_slice(v.as_slice(), l)),
        }
    }
}

/// The elements of `s` that the layout `l` shows, in row-major order.
pub open spec fn pick<T>(s: Seq<T>, l: Layout) -> Seq<T> {
    Seq::new(l.count(), |j: int| s[l.position(j as nat) as int])
}

/// The elements of a slice that a layout shows, in row-major order.
pub fn pick_slice<T: Copy>(v: &[T], l: &Layout) -> (out: Vec<T>)
    requires
        l.shape.countable(),
        l.reach() <= v@.len(),
    ensures
        out@ == pick(v@, *l),
{
    let len: usize = v.len();
    let n: usize = l.shape.elem_count();
    let mut out: Vec<T> = Vec::new();
    let mut j: usize = 0;
    while j < n
        invariant
            j <= n == l.count(),
            l.reach() <= len == v@.len(),
            out@.len() == j,
            forall|i: int| 0 <= i < j ==> #[trigger] out@[i] == v@[l.position(i as nat) as int],
        decreases n - j,
    {
        proof {
            l.lemma_reach(j as nat);
        }
        out.push(v[l.position_of(j)]);
        j = j + 1;
    }
    assert(out@ =~= pick(v@, *l));
    out
}

/// The bytes of the elements of `s`, one element after the other.
pub open spec fn elem_bytes<T: Element>(s: Seq<T>) -> Seq<u8>
    decreases s.len(),
{
    if s.len() == 0 {
        seq![]
    } else {
        elem_bytes(s.drop_last()) + le_bytes(s.last().pattern(), T::width())
    }
}

/// The element at position `i` of the buffer `b`.
pub open spec fn elem_at<T: Element>(b: Seq<u8>, i: int) -> T {
    T::from_pattern(le_value(b.subrange(i * T::width(), i * T::width() + T::width())))
}

/// The first `n` elements of the buffer `b`.
pub open spec fn byte_elems<T: Element>(b: Seq<u8>, n: nat) -> Seq<T> {
    Seq::new(n, |i: int| elem_at::<T>(b, i))
}

impl CpuData {
    /// The element type.
    pub open spec fn dtype(self) -> DType {
        match self {
            CpuData::U8(_) => DType::U8,
            CpuData::U32(_) => DType::U32,
            CpuData::I16(_) => DType::I16,
            CpuData::I32(_) => DType::I32,
            CpuData::I64(_) => DType::I64,
            CpuData::BF16(_) => DType::BF16,
            CpuData::F16(_) => DType::F16,
            CpuData::F32(_) => DType::F32,
            CpuData::F64(_) => DType::F64,
            CpuData::F8E4M3(_) => DType::F8E4M3,
            CpuData::F6E2M3(_) => DType::F6E2M3,
            CpuData::F6E3M2(_) => DType::F6E3M2,
            CpuData::F4(_) => DType::F4,
            CpuData::F8E8M0(_) => DType::F8E8M0,
        }
    }

    /// The number of elements.
    pub open spec fn len(self) -> nat {
        match self {
            CpuData::U8(s) => s.len(),
            CpuData::U32(s) => s.len(),
            CpuData::I16(s) => s.len(),
            CpuData::I32(s) => s.len(),
            CpuData::I64(s) => s.len(),
            CpuData::BF16(s) => s.len(),
            CpuData::F16(s) => s.len(),
            CpuData::F32(s) => s.len(),
            CpuData::F64(s) => s.len(),
            CpuData::F8E4M3(s) => s.len(),
            CpuData::F6E2M3(s) => s.len(),
            CpuData::F6E3M2(s) => s.len(),
            CpuData::F4(s) => s.len(),
            CpuData::F8E8M0(s) => s.len(),
        }
    }

    /// The elements that the layout `l` shows, in row-major order.
    pub open spec fn visible(self, l: Layout) -> CpuData {
        match self {
            CpuData::U8(s) => CpuData::U8(pick(s, l)),
            CpuData::U32(s) => CpuData::U32(pick(s, l)),
            CpuData::I16(s) => CpuData::I16(pick(s, l)),
            CpuData::I32(s) => CpuData::I32(pick(s, l)),
            CpuData::I64(s) => CpuData::I64(pick(s, l)),
            CpuData::BF16(s) => CpuData::BF16(pick(s, l)),
            CpuData::F16(s) => CpuData::F16(pick(s, l)),
            CpuData::F32(s) => CpuData::F32(pick(s, l)),
            CpuData::F64(s) => CpuData::F64(pick(s, l)),
            CpuData::F8E4M3(s) => CpuData::F8E4M3(pick(s, l)),
            CpuData::F6E2M3(s) => CpuData::F6E2M3(pick(s, l)),
            CpuData::F6E3M2(s) => CpuData::F6E3M2(pick(s, l)),
            CpuData::F4(s) => CpuData::F4(pick(s, l)),
            CpuData::F8E8M0(s) => CpuData::F8E8M0(pick(s, l)),
        }
    }

    /// The buffer of `n` elements of type `dtype` whose bits are all zero, which is zero in every
    /// type.
    pub open spec fn zeros(dtype: DType, n: nat) -> CpuData {
        match dtype {
            DType::U8 => CpuData::U8(Seq::new(n, |i: int| 0)),
            DType::U32 => CpuData::U32(Seq::new(n, |i: int| 0)),
            DType::I16 => CpuData::I16(Seq::new(n, |i: int| 0)),
            DType::I32 => CpuData::I32(Seq::new(n, |i: int| 0)),
            DType::I64 => CpuData::I64(Seq::new(n, |i: int| 0)),
            DType::BF16 => CpuData::BF16(Seq::new(n, |i: int| 0)),
            DType::F16 => CpuData::F16(Seq::new(n, |i: int| 0)),
            DType::F32 => CpuData::F32(Seq::new(n, |i: int| 0)),
            DType::F64 => CpuData::F64(Seq::new(n, |i: int| 0)),
            DType::F8E4M3 => CpuData::F8E4M3(Seq::new(n, |i: int| 0)),
            DType::F6E2M3 => CpuData::F6E2M3(Seq::new(n, |i: int| 0)),
            DType::F6E3M2 => CpuData::F6E3M2(Seq::new(n, |i: int| 0)),
            DType::F4 => CpuData::F4(Seq::new(n, |i: int| 0)),
            DType::F8E8M0 => CpuData::F8E8M0(Seq::new(n, |i: int| 0)),
        }
    }

    /// The raw bytes of the buffer.
    pub open spec fn to_bytes(self) -> Seq<u8> {
        match self {
            CpuData::U8(s) => s,
            CpuData::U32(s) => elem_bytes(s),
            CpuData::I16(s) => elem_bytes(s),
            CpuData::I32(s) => elem_bytes(s),
            CpuData::I64(s) => elem_bytes(s),
            CpuData::BF16(s) => elem_bytes(s),
            CpuData::F16(s) => elem_bytes(s),
            CpuData::F32(s) => elem_bytes(s),
            CpuData::F64(s) => elem_bytes(s),
            CpuData::F8E4M3(s) => s,
            CpuData::F6E2M3(s) => s,
            CpuData::F6E3M2(s) => s,
            CpuData::F4(s) => s,
            CpuData::F8E8M0(s) => s,
        }
    }

    /// The first `n` elements of type `dtype` that the raw bytes `b` hold.
    pub open spec fn from_bytes(b: Seq<u8>, dtype: DType, n: nat) -> CpuData {
        match dtype {
            DType::U8 => CpuData::U8(b.take(n as int)),
            DType::U32 => CpuData::U32(byte_elems(b, n)),
            DType::I16 => CpuData::I16(byte_elems(b, n)),
            DType::I32 => CpuData::I32(byte_elems(b, n)),
            DType::I64 => CpuData::I64(byte_elems(b, n)),
            DType::BF16 => CpuData::BF16(byte_elems(b, n)),
            DType::F16 => CpuData::F16(byte_elems(b, n)),
            DType::F32 => CpuData::F32(byte_elems(b, n)),
            DType::F64 => CpuData::F64(byte_elems(b, n)),
            DType::F8E4M3 => CpuData::F8E4M3(b.take(n as int)),
            DType::F6E2M3 => CpuData::F6E2M3(b.take(n as int)),
            DType::F6E3M2 => CpuData::F6E3M2(b.take(n as int)),
            DType::F4 => CpuData::F4(b.take(n as int)),
            DType::F8E8M0 => CpuData::F8E8M0(b.take(n as int)),
        }
    }
}

} // verus!
