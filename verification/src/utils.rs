//! Helpers for converting between raw byte buffers and [`CpuStorage`].
//!
//! The OpenVINO backend keeps tensor data as raw bytes in host memory so that it can hand them to
//! the inference engine. These helpers handle the conversion to and from the typed [`CpuStorage`].
use crate::cpu_storage::{byte_elems, elem_bytes, CpuData, CpuStorage};
use crate::dtype::DType;
use crate::element::Element;
use crate::error::{Error, OpenVinoError, Result};
use crate::layout::Layout;
use crate::text::{decimal, push_decimal};
use vstd::prelude::*;
use vstd::string::StringExecFns;

verus! {

/// The text of the error for a buffer of `len` bytes that should hold `count` elements of `size`
/// bytes.
pub open spec fn short_buffer_text(count: nat, size: nat, len: nat) -> Seq<char> {
    "buffer too small: need "@ + decimal(count * size) + " bytes for "@ + decimal(count)
        + " elements of size "@ + decimal(size) + ", got "@ + decimal(len)
}

/// Whether `e` reports that `len` bytes cannot hold `count` elements of `size` bytes.
pub open spec fn is_short_buffer(e: Error, count: nat, size: nat, len: nat) -> bool {
    e matches Error::OpenVino(OpenVinoError::Message(s)) && s@ == short_buffer_text(count, size, len)
}

/// Whether the conversion of `len` bytes to `count` elements of type `dtype` is defined: the
/// number of bytes asked for is a `usize`, and a raw-byte type, of which the length is not
/// checked, finds its bytes.
pub open spec fn convertible(len: nat, dtype: DType, count: nat) -> bool {
    &&& count * dtype.width() <= usize::MAX
    &&& dtype.is_raw() ==> count <= len
}

/// Whether `len` bytes hold `count` elements of type `dtype`.
pub open spec fn holds(len: nat, dtype: DType, count: nat) -> bool {
    count * dtype.width() <= len
}

/// Checks that `bytes` can hold `elem_count` elements of `elem_size` bytes.
pub fn check_len(bytes: &[u8], elem_count: usize, elem_size: usize) -> (r: Result<()>)
    requires
        elem_count * elem_size <= usize::MAX,
    ensures
        r is Ok <==> elem_count * elem_size <= bytes@.len(),
        r matches Err(e) ==> is_short_buffer(e, elem_count as nat, elem_size as nat, bytes@.len()),
{
    let needed: usize = elem_count * elem_size;
    let len: usize = bytes.len();
    if len < needed {
        let mut s = String::from_str("buffer too small: need ");
        push_decimal(&mut s, needed);
        s.append(" bytes for ");
        push_decimal(&mut s, elem_count);
        s.append(" elements of size ");
        push_decimal(&mut s, elem_size);
        s.append(", got ");
        push_decimal(&mut s, len);
        return Err(Error::OpenVino(OpenVinoError::Message(s)));
    }
    Ok(())
}

/// Reinterpret a typed slice as bytes.
pub fn bytecast<T: Element>(v: &[T]) -> (out: Vec<u8>)
    ensures
        out@ == elem_bytes(v@),
{
    let mut out: Vec<u8> = Vec::new();
    let mut i: usize = 0;
    while i < v.len()
        invariant
            i <= v@.len(),
            out@ == elem_bytes(v@.take(i as int)),
        decreases v.len() - i,
    {
        assert(v@.take(i + 1).drop_last() =~= v@.take(i as int));
        v[i].push_to(&mut out);
        i = i + 1;
    }
    assert(v@.take(v@.len() as int) =~= v@);
    out
}

/// Reinterpret raw bytes as a `Vec<T>` of `count` elements.
pub fn cast_slice<T: Element>(bytes: &[u8], count: usize) -> (out: Vec<T>)
    requires
        count * T::width() <= bytes@.len(),
    ensures
        out@ == byte_elems::<T>(bytes@, count as nat),
{
    let len: usize = bytes.len();
    let size: usize = T::size();
    let mut out: Vec<T> = Vec::new();
    let mut i: usize = 0;
    let mut at: usize = 0;
    while i < count
        invariant
            i <= count,
            size == T::width(),
            at == i * T::width(),
            count * T::width() <= len == bytes@.len(),
            out@ == byte_elems::<T>(bytes@, i as nat),
        decreases count - i,
    {
        assert(i * T::width() + T::width() == (i + 1) * T::width()) by (nonlinear_arith);
        assert((i + 1) * T::width() <= count * T::width()) by (nonlinear_arith)
            requires
                i + 1 <= count,
        ;
        out.push(T::read_from(bytes, at));
        at = at + size;
        i = i + 1;
        assert(out@ =~= byte_elems::<T>(bytes@, i as nat));
    }
    out
}

/// Passes a bit pattern through the eight-bit float type: `float8::F8E4M3::from_bits` makes a value
/// of it, and `float8::F8E4M3::to_bits` gives back the pattern that the value was made from.
#[verifier::external_body]
fn f8e4m3_bits(bits: u8) -> (r: u8)
    ensures
        r == bits,
{
    float8::F8E4M3::from_bits(bits).to_bits()
}

/// Passes the first `count` bit patterns through the eight-bit float type.
fn f8e4m3_slice(bytes: &[u8], count: usize) -> (out: Vec<u8>)
    requires
        count <= bytes@.len(),
    ensures
        out@ == bytes@.take(count as int),
{
    let mut out: Vec<u8> = Vec::new();
    let mut i: usize = 0;
    while i < count
        invariant
            i <= count <= bytes@.len(),
            out@ == bytes@.take(i as int),
        decreases count - i,
    {
        out.push(f8e4m3_bits(bytes[i]));
        i = i + 1;
        assert(out@ =~= bytes@.take(i as int));
    }
    out
}

/// Copies the first `count` bytes.
fn leading(bytes: &[u8], count: usize) -> (out: Vec<u8>)
    requires
        count <= bytes@.len(),
    ensures
        out@ == bytes@.take(count as int),
{
    let out = vstd::slice::slice_to_vec(vstd::slice::slice_subrange(bytes, 0, count));
    assert(out@ =~= bytes@.take(count as int));
    out
}

/// Copy the contents of a [`CpuStorage`] into a flat `Vec<u8>`.
pub fn cpu_storage_to_bytes(s: &CpuStorage) -> (r: Result<Vec<u8>>)
    ensures
        r matches Ok(bytes) && bytes@ == s@.to_bytes(),
{
    match s {
        CpuStorage::U8(v) => Ok(leading(v.as_slice(), v.len())),
        CpuStorage::U32(v) => Ok(bytecast(v.as_slice())),
        CpuStorage::I16(v) => Ok(bytecast(v.as_slice())),
        CpuStorage::I32(v) => Ok(bytecast(v.as_slice())),
        CpuStorage::I64(v) => Ok(bytecast(v.as_slice())),
        CpuStorage::BF16(v) => Ok(bytecast(v.as_slice())),
        CpuStorage::F16(v) => Ok(bytecast(v.as_slice())),
        CpuStorage::F32(v) => Ok(bytecast(v.as_slice())),
        CpuStorage::F64(v) => Ok(bytecast(v.as_slice())),
        // One byte per element.
        CpuStorage::F8E4M3(v) => Ok(f8e4m3_slice(v.as_slice(), v.len())),
        // Raw-byte types: copy as-is.
        CpuStorage::F6E2M3(v)
        | CpuStorage::F6E3M2(v)
        | CpuStorage::F4(v)
        | CpuStorage::F8E8M0(v) => Ok(leading(v.as_slice(), v.len())),
    }
}

/// Reconstruct a [`CpuStorage`] from raw bytes, dtype, and a (possibly non-contiguous) layout. The
/// bytes are interpreted as a *contiguous* buffer in memory layout order; `layout` is used only to
/// determine the element count.
pub fn bytes_to_cpu_storage(bytes: &[u8], dtype: DType, layout: &Layout) -> (r: Result<CpuStorage>)
    requires
        layout.shape.countable(),
        convertible(bytes@.len(), dtype, layout.count()),
    ensures
        r is Ok <==> holds(bytes@.len(), dtype, layout.count()),
        r matches Ok(cpu) ==> cpu@ == CpuData::from_bytes(bytes@, dtype, layout.count()),
        r matches Err(e) ==> is_short_buffer(e, layout.count(), dtype.width(), bytes@.len()),
{
    let elem_count: usize = layout.shape().elem_count();
    match dtype {
        DType::U8 => {
            check_len(bytes, elem_count, 1)?;
            Ok(CpuStorage::U8(leading(bytes, elem_count)))
        },
        DType::U32 => {
            check_len(bytes, elem_count, 4)?;
            Ok(CpuStorage::U32(cast_slice::<u32>(bytes, elem_count)))
        },
        DType::I16 => {
            check_len(bytes, elem_count, 2)?;
            Ok(CpuStorage::I16(cast_slice::<i16>(bytes, elem_count)))
        },
        DType::I32 => {
            check_len(bytes, elem_count, 4)?;
            Ok(CpuStorage::I32(cast_slice::<i32>(bytes, elem_count)))
        },
        DType::I64 => {
            check_len(bytes, elem_count, 8)?;
            Ok(CpuStorage::I64(cast_slice::<i64>(bytes, elem_count)))
        },
        DType::BF16 => {
            check_len(bytes, elem_count, 2)?;
            Ok(CpuStorage::BF16(cast_slice::<u16>(bytes, elem_count)))
        },
        DType::F16 => {
            check_len(bytes, elem_count, 2)?;
            Ok(CpuStorage::F16(cast_slice::<u16>(bytes, elem_count)))
        },
        DType::F32 => {
            check_len(bytes, elem_count, 4)?;
            Ok(CpuStorage::F32(cast_slice::<u32>(bytes, elem_count)))
        },
        DType::F64 => {
            check_len(bytes, elem_count, 8)?;
            Ok(CpuStorage::F64(cast_slice::<u64>(bytes, elem_count)))
        },
        DType::F8E4M3 => {
            check_len(bytes, elem_count, 1)?;
            Ok(CpuStorage::F8E4M3(f8e4m3_slice(bytes, elem_count)))
        },
        DType::F6E2M3 => Ok(CpuStorage::F6E2M3(leading(bytes, elem_count))),
        DType::F6E3M2 => Ok(CpuStorage::F6E3M2(leading(bytes, elem_count))),
        DType::F4 => Ok(CpuStorage::F4(leading(bytes, elem_count))),
        DType::F8E8M0 => Ok(CpuStorage::F8E8M0(leading(bytes, elem_count))),
    }
}

} // verus!
