//! The bytes of typed buffers: element by element, lowest byte first, signed elements in two's
//! complement.
use crate::backend::WithDType;
use crate::cpu_storage::{elem_bytes, CpuData, CpuStorage};
use crate::dtype::DType;
use crate::element::{le_bytes, le_value, Element};
use crate::error::{Error, OpenVinoError, Result};
use crate::laws::{lemma_elem_bytes_len, lemma_elem_window};
use crate::layout::{Layout, Shape};
use crate::text::decimal;
use crate::utils::{bytecast, bytes_to_cpu_storage, cast_slice, check_len, cpu_storage_to_bytes};
use vstd::prelude::*;

verus! {

/// Adding a multiple of 256 units leaves the digit with that unit as it is.
proof fn lemma_wrapped_digit(n: int, unit: int, m: int)
    requires
        unit > 0,
    ensures
        (n + m * 256 * unit) / unit % 256 == n / unit % 256,
{
    let j = m * 256;
    let q = n / unit;
    vstd::arithmetic::div_mod::lemma_hoist_over_denominator(n, j, unit as nat);
    assert((n + j * unit) / unit == q + j);
    vstd::arithmetic::div_mod::lemma_mod_multiples_vanish(m, q, 256);
    assert(256 * m + q == q + j) by (nonlinear_arith)
        requires
            j == m * 256,
    ;
}

/// The first 2 digits of a number to the base 256.
proof fn lemma_digits_2(p: nat)
    ensures
        le_bytes(p, 2) == seq![(p % 256) as u8, (p / 0x100 % 256) as u8],
{
    reveal_with_fuel(le_bytes, 3);
    assert(le_bytes(p, 2) =~= seq![(p % 256) as u8, (p / 0x100 % 256) as u8]);
}

/// The first 4 digits of a number to the base 256.
proof fn lemma_digits_4(p: nat)
    ensures
        le_bytes(p, 4) == seq![(p % 256) as u8, (p / 0x100 % 256) as u8, (p / 0x1_0000 % 256) as u8, (p / 0x100_0000 % 256) as u8],
{
    reveal_with_fuel(le_bytes, 5);
    assert(p / 256 / 256 == p / 0x1_0000);
    assert(p / 256 / 256 / 256 == p / 0x100_0000);
    assert(le_bytes(p, 4) =~= seq![(p % 256) as u8, (p / 0x100 % 256) as u8, (p / 0x1_0000 % 256) as u8, (p / 0x100_0000 % 256) as u8]);
}

/// The first 8 digits of a number to the base 256.
proof fn lemma_digits_8(p: nat)
    ensures
        le_bytes(p, 8) == seq![(p % 256) as u8, (p / 0x100 % 256) as u8, (p / 0x1_0000 % 256) as u8, (p / 0x100_0000 % 256) as u8, (p / 0x1_0000_0000 % 256) as u8, (p / 0x100_0000_0000 % 256) as u8, (p / 0x1_0000_0000_0000 % 256) as u8, (p / 0x100_0000_0000_0000 % 256) as u8],
{
    reveal_with_fuel(le_bytes, 9);
    assert(p / 256 / 256 == p / 0x1_0000);
    assert(p / 256 / 256 / 256 == p / 0x100_0000);
    assert(p / 256 / 256 / 256 / 256 == p / 0x1_0000_0000);
    assert(p / 256 / 256 / 256 / 256 / 256 == p / 0x100_0000_0000);
    assert(p / 256 / 256 / 256 / 256 / 256 / 256 == p / 0x1_0000_0000_0000);
    assert(p / 256 / 256 / 256 / 256 / 256 / 256 / 256 == p / 0x100_0000_0000_0000);
    assert(le_bytes(p, 8) =~= seq![(p % 256) as u8, (p / 0x100 % 256) as u8, (p / 0x1_0000 % 256) as u8, (p / 0x100_0000 % 256) as u8, (p / 0x1_0000_0000 % 256) as u8, (p / 0x100_0000_0000 % 256) as u8, (p / 0x1_0000_0000_0000 % 256) as u8, (p / 0x100_0000_0000_0000 % 256) as u8]);
}

/// The digits of the pattern of a `u16` to the base 256 are those of the number itself.
proof fn lemma_u16_digits(x: u16)
    ensures
        le_bytes(x.pattern(), 2) == seq![(x % 256) as u8, (x / 0x100 % 256) as u8],
{
    let p = x.pattern();
    let n = x as int;
    lemma_digits_2(p);
    assert(le_bytes(p, 2) =~= seq![(x % 256) as u8, (x / 0x100 % 256) as u8]);
}

/// A `u16` is written as its digits to the base 256, lowest first.
pub proof fn law_u16_written(x: u16, out: &mut Vec<u8>)
    requires
        call_ensures(<u16 as Element>::push_to, (x, out), ()),
    ensures
        final(out)@ == old(out)@ + seq![(x % 256) as u8, (x / 0x100 % 256) as u8],
{
    lemma_u16_digits(x);
}

/// A `u16` is read from the bytes as which it is written.
pub proof fn law_u16_read(bytes: &[u8], at: usize, x: u16)
    requires
        call_ensures(<u16 as Element>::read_from, (bytes, at), x),
        at + 2 <= bytes@.len(),
    ensures
        bytes@.subrange(at as int, at + 2) == seq![(x % 256) as u8, (x / 0x100 % 256) as u8],
        x as int == bytes@[at + 0] + 0x100 * bytes@[at + 1],
{
    let window = bytes@.subrange(at as int, at + 2);
    crate::element::lemma_le_value_bound(window);
    u16::lemma_from_pattern(le_value(window));
    crate::element::lemma_le_bytes_of_value(window);
    lemma_u16_digits(x);
    reveal_with_fuel(le_value, 3);
    let w1 = window.drop_first();
    assert(w1[0] == bytes@[at + 1]);
    let w2 = w1.drop_first();
    assert(w2.len() == 0);
}

/// The bytes of a slice of `u16` elements are those of its elements, in order.
pub proof fn law_u16_slice_written(v: &[u16], b: Vec<u8>)
    requires
        call_ensures(bytecast::<u16>, (v,), b),
    ensures
        b@.len() == 2 * v@.len(),
        forall|i: int| #![trigger v@[i]] 0 <= i < v@.len() ==> {
        &&& b@[2 * i + 0] as int == v@[i] as int % 256
        &&& b@[2 * i + 1] as int == v@[i] as int / 0x100 % 256
        },
{
    lemma_u16_bytes(v@);
}

proof fn lemma_u16_elem(s: Seq<u16>, i: int)
    requires
        0 <= i < s.len(),
    ensures
        elem_bytes(s).len() == 2 * s.len(),
        ({
        &&& elem_bytes(s)[2 * i + 0] as int == s[i] as int % 256
        &&& elem_bytes(s)[2 * i + 1] as int == s[i] as int / 0x100 % 256
        }),
{
    lemma_elem_bytes_len(s);
    let (n, w) = (s.len(), <u16 as Element>::width());
    assert(n * w == 2 * n) by (nonlinear_arith)
        requires
            w == 2,
    ;
    lemma_elem_window(s, i);
    lemma_u16_digits(s[i]);
    let window = elem_bytes(s).subrange(i * 2, i * 2 + 2);
    let x = s[i];
    assert(window == seq![(x % 256) as u8, (x / 0x100 % 256) as u8]);
    assert(window[0] == elem_bytes(s)[2 * i + 0]);
    assert(window[1] == elem_bytes(s)[2 * i + 1]);
}

/// The bytes of `u16` elements, in order.
pub proof fn lemma_u16_bytes(s: Seq<u16>)
    ensures
        elem_bytes(s).len() == 2 * s.len(),
        forall|i: int| #![trigger s[i]] 0 <= i < s.len() ==> {
        &&& elem_bytes(s)[2 * i + 0] as int == s[i] as int % 256
        &&& elem_bytes(s)[2 * i + 1] as int == s[i] as int / 0x100 % 256
        },
{
    lemma_elem_bytes_len(s);
    let (n, w) = (s.len(), <u16 as Element>::width());
    assert(n * w == 2 * n) by (nonlinear_arith)
        requires
            w == 2,
    ;
    assert forall|i: int| #![trigger s[i]] 0 <= i < s.len() implies {
        &&& elem_bytes(s)[2 * i + 0] as int == s[i] as int % 256
        &&& elem_bytes(s)[2 * i + 1] as int == s[i] as int / 0x100 % 256
    } by {
        lemma_u16_elem(s, i);
    }
}

/// Elements that are read from a slice have the bytes of the slice, from its start on.
pub proof fn law_u16_slice_read(bytes: &[u8], count: usize, v: Vec<u16>)
    requires
        call_ensures(cast_slice::<u16>, (bytes, count), v),
        2 * count <= bytes@.len(),
    ensures
        v@.len() == count,
        forall|i: int| #![trigger v@[i]] 0 <= i < count ==> {
        &&& bytes@[2 * i + 0] as int == v@[i] as int % 256
        &&& bytes@[2 * i + 1] as int == v@[i] as int / 0x100 % 256
        },
{
    crate::laws::lemma_bytes_round_trip::<u16>(bytes@, count as nat);
    lemma_u16_bytes(v@);
    assert forall|i: int| #![trigger v@[i]] 0 <= i < count implies {
        &&& bytes@[2 * i + 0] as int == v@[i] as int % 256
        &&& bytes@[2 * i + 1] as int == v@[i] as int / 0x100 % 256
    } by {
        let b = elem_bytes(v@);
        assert(b =~= bytes@.take(2 * count));
        assert(b[2 * i + 0] == bytes@[2 * i + 0]);
        assert(b[2 * i + 1] == bytes@[2 * i + 1]);
    }
}

/// The digits of the pattern of a `u32` to the base 256 are those of the number itself.
proof fn lemma_u32_digits(x: u32)
    ensures
        le_bytes(x.pattern(), 4) == seq![(x % 256) as u8, (x / 0x100 % 256) as u8, (x / 0x1_0000 % 256) as u8, (x / 0x100_0000 % 256) as u8],
{
    let p = x.pattern();
    let n = x as int;
    lemma_digits_4(p);
    assert(le_bytes(p, 4) =~= seq![(x % 256) as u8, (x / 0x100 % 256) as u8, (x / 0x1_0000 % 256) as u8, (x / 0x100_0000 % 256) as u8]);
}

/// A `u32` is written as its digits to the base 256, lowest first.
pub proof fn law_u32_written(x: u32, out: &mut Vec<u8>)
    requires
        call_ensures(<u32 as Element>::push_to, (x, out), ()),
    ensures
        final(out)@ == old(out)@ + seq![(x % 256) as u8, (x / 0x100 % 256) as u8, (x / 0x1_0000 % 256) as u8, (x / 0x100_0000 % 256) as u8],
{
    lemma_u32_digits(x);
}

/// A `u32` is read from the bytes as which it is written.
pub proof fn law_u32_read(bytes: &[u8], at: usize, x: u32)
    requires
        call_ensures(<u32 as Element>::read_from, (bytes, at), x),
        at + 4 <= bytes@.len(),
    ensures
        bytes@.subrange(at as int, at + 4) == seq![(x % 256) as u8, (x / 0x100 % 256) as u8, (x / 0x1_0000 % 256) as u8, (x / 0x100_0000 % 256) as u8],
        x as int == bytes@[at + 0] + 0x100 * bytes@[at + 1] + 0x1_0000 * bytes@[at + 2] + 0x100_0000 * bytes@[at + 3],
{
    let window = bytes@.subrange(at as int, at + 4);
    crate::element::lemma_le_value_bound(window);
    u32::lemma_from_pattern(le_value(window));
    crate::element::lemma_le_bytes_of_value(window);
    lemma_u32_digits(x);
    reveal_with_fuel(le_value, 5);
    let w1 = window.drop_first();
    assert(w1[0] == bytes@[at + 1] && w1[1] == bytes@[at + 2] && w1[2] == bytes@[at + 3]);
    let w2 = w1.drop_first();
    assert(w2[0] == bytes@[at + 2] && w2[1] == bytes@[at + 3]);
    let w3 = w2.drop_first();
    assert(w3[0] == bytes@[at + 3]);
    let w4 = w3.drop_first();
    assert(w4.len() == 0);
}

/// The bytes of a slice of `u32` elements are those of its elements, in order.
pub proof fn law_u32_slice_written(v: &[u32], b: Vec<u8>)
    requires
        call_ensures(bytecast::<u32>, (v,), b),
    ensures
        b@.len() == 4 * v@.len(),
        forall|i: int| #![trigger v@[i]] 0 <= i < v@.len() ==> {
        &&& b@[4 * i + 0] as int == v@[i] as int % 256
        &&& b@[4 * i + 1] as int == v@[i] as int / 0x100 % 256
        &&& b@[4 * i + 2] as int == v@[i] as int / 0x1_0000 % 256
        &&& b@[4 * i + 3] as int == v@[i] as int / 0x100_0000 % 256
        },
{
    lemma_u32_bytes(v@);
}

proof fn lemma_u32_elem(s: Seq<u32>, i: int)
    requires
        0 <= i < s.len(),
    ensures
        elem_bytes(s).len() == 4 * s.len(),
        ({
        &&& elem_bytes(s)[4 * i + 0] as int == s[i] as int % 256
        &&& elem_bytes(s)[4 * i + 1] as int == s[i] as int / 0x100 % 256
        &&& elem_bytes(s)[4 * i + 2] as int == s[i] as int / 0x1_0000 % 256
        &&& elem_bytes(s)[4 * i + 3] as int == s[i] as int / 0x100_0000 % 256
        }),
{
    lemma_elem_bytes_len(s);
    let (n, w) = (s.len(), <u32 as Element>::width());
    assert(n * w == 4 * n) by (nonlinear_arith)
        requires
            w == 4,
    ;
    lemma_elem_window(s, i);
    lemma_u32_digits(s[i]);
    let window = elem_bytes(s).subrange(i * 4, i * 4 + 4);
    let x = s[i];
    assert(window == seq![(x % 256) as u8, (x / 0x100 % 256) as u8, (x / 0x1_0000 % 256) as u8, (x / 0x100_0000 % 256) as u8]);
    assert(window[0] == elem_bytes(s)[4 * i + 0]);
    assert(window[1] == elem_bytes(s)[4 * i + 1]);
    assert(window[2] == elem_bytes(s)[4 * i + 2]);
    assert(window[3] == elem_bytes(s)[4 * i + 3]);
}

/// The bytes of `u32` elements, in order.
pub proof fn lemma_u32_bytes(s: Seq<u32>)
    ensures
        elem_bytes(s).len() == 4 * s.len(),
        forall|i: int| #![trigger s[i]] 0 <= i < s.len() ==> {
        &&& elem_bytes(s)[4 * i + 0] as int == s[i] as int % 256
        &&& elem_bytes(s)[4 * i + 1] as int == s[i] as int / 0x100 % 256
        &&& elem_bytes(s)[4 * i + 2] as int == s[i] as int / 0x1_0000 % 256
        &&& elem_bytes(s)[4 * i + 3] as int == s[i] as int / 0x100_0000 % 256
        },
{
    lemma_elem_bytes_len(s);
    let (n, w) = (s.len(), <u32 as Element>::width());
    assert(n * w == 4 * n) by (nonlinear_arith)
        requires
            w == 4,
    ;
    assert forall|i: int| #![trigger s[i]] 0 <= i < s.len() implies {
        &&& elem_bytes(s)[4 * i + 0] as int == s[i] as int % 256
        &&& elem_bytes(s)[4 * i + 1] as int == s[i] as int / 0x100 % 256
        &&& elem_bytes(s)[4 * i + 2] as int == s[i] as int / 0x1_0000 % 256
        &&& elem_bytes(s)[4 * i + 3] as int == s[i] as int / 0x100_0000 % 256
    } by {
        lemma_u32_elem(s, i);
    }
}

/// Elements that are read from a slice have the bytes of the slice, from its start on.
pub proof fn law_u32_slice_read(bytes: &[u8], count: usize, v: Vec<u32>)
    requires
        call_ensures(cast_slice::<u32>, (bytes, count), v),
        4 * count <= bytes@.len(),
    ensures
        v@.len() == count,
        forall|i: int| #![trigger v@[i]] 0 <= i < count ==> {
        &&& bytes@[4 * i + 0] as int == v@[i] as int % 256
        &&& bytes@[4 * i + 1] as int == v@[i] as int / 0x100 % 256
        &&& bytes@[4 * i + 2] as int == v@[i] as int / 0x1_0000 % 256
        &&& bytes@[4 * i + 3] as int == v@[i] as int / 0x100_0000 % 256
        },
{
    crate::laws::lemma_bytes_round_trip::<u32>(bytes@, count as nat);
    lemma_u32_bytes(v@);
    assert forall|i: int| #![trigger v@[i]] 0 <= i < count implies {
        &&& bytes@[4 * i + 0] as int == v@[i] as int % 256
        &&& bytes@[4 * i + 1] as int == v@[i] as int / 0x100 % 256
        &&& bytes@[4 * i + 2] as int == v@[i] as int / 0x1_0000 % 256
        &&& bytes@[4 * i + 3] as int == v@[i] as int / 0x100_0000 % 256
    } by {
        let b = elem_bytes(v@);
        assert(b =~= bytes@.take(4 * count));
        assert(b[4 * i + 0] == bytes@[4 * i + 0]);
        assert(b[4 * i + 1] == bytes@[4 * i + 1]);
        assert(b[4 * i + 2] == bytes@[4 * i + 2]);
        assert(b[4 * i + 3] == bytes@[4 * i + 3]);
    }
}

/// The digits of the pattern of a `u64` to the base 256 are those of the number itself.
proof fn lemma_u64_digits(x: u64)
    ensures
        le_bytes(x.pattern(), 8) == seq![(x % 256) as u8, (x / 0x100 % 256) as u8, (x / 0x1_0000 % 256) as u8, (x / 0x100_0000 % 256) as u8, (x / 0x1_0000_0000 % 256) as u8, (x / 0x100_0000_0000 % 256) as u8, (x / 0x1_0000_0000_0000 % 256) as u8, (x / 0x100_0000_0000_0000 % 256) as u8],
{
    let p = x.pattern();
    let n = x as int;
    lemma_digits_8(p);
    assert(le_bytes(p, 8) =~= seq![(x % 256) as u8, (x / 0x100 % 256) as u8, (x / 0x1_0000 % 256) as u8, (x / 0x100_0000 % 256) as u8, (x / 0x1_0000_0000 % 256) as u8, (x / 0x100_0000_0000 % 256) as u8, (x / 0x1_0000_0000_0000 % 256) as u8, (x / 0x100_0000_0000_0000 % 256) as u8]);
}

/// A `u64` is written as its digits to the base 256, lowest first.
pub proof fn law_u64_written(x: u64, out: &mut Vec<u8>)
    requires
        call_ensures(<u64 as Element>::push_to, (x, out), ()),
    ensures
        final(out)@ == old(out)@ + seq![(x % 256) as u8, (x / 0x100 % 256) as u8, (x / 0x1_0000 % 256) as u8, (x / 0x100_0000 % 256) as u8, (x / 0x1_0000_0000 % 256) as u8, (x / 0x100_0000_0000 % 256) as u8, (x / 0x1_0000_0000_0000 % 256) as u8, (x / 0x100_0000_0000_0000 % 256) as u8],
{
    lemma_u64_digits(x);
}

/// A `u64` is read from the bytes as which it is written.
pub proof fn law_u64_read(bytes: &[u8], at: usize, x: u64)
    requires
        call_ensures(<u64 as Element>::read_from, (bytes, at), x),
        at + 8 <= bytes@.len(),
    ensures
        bytes@.subrange(at as int, at + 8) == seq![(x % 256) as u8, (x / 0x100 % 256) as u8, (x / 0x1_0000 % 256) as u8, (x / 0x100_0000 % 256) as u8, (x / 0x1_0000_0000 % 256) as u8, (x / 0x100_0000_0000 % 256) as u8, (x / 0x1_0000_0000_0000 % 256) as u8, (x / 0x100_0000_0000_0000 % 256) as u8],
        x as int == bytes@[at + 0] + 0x100 * bytes@[at + 1] + 0x1_0000 * bytes@[at + 2] + 0x100_0000 * bytes@[at + 3] + 0x1_0000_0000 * bytes@[at + 4] + 0x100_0000_0000 * bytes@[at + 5] + 0x1_0000_0000_0000 * bytes@[at + 6] + 0x100_0000_0000_0000 * bytes@[at + 7],
{
    let window = bytes@.subrange(at as int, at + 8);
    crate::element::lemma_le_value_bound(window);
    u64::lemma_from_pattern(le_value(window));
    crate::element::lemma_le_bytes_of_value(window);
    lemma_u64_digits(x);
    reveal_with_fuel(le_value, 9);
    let w1 = window.drop_first();
    assert(w1[0] == bytes@[at + 1] && w1[1] == bytes@[at + 2] && w1[2] == bytes@[at + 3] && w1[3] == bytes@[at + 4] && w1[4] == bytes@[at + 5] && w1[5] == bytes@[at + 6] && w1[6] == bytes@[at + 7]);
    let w2 = w1.drop_first();
    assert(w2[0] == bytes@[at + 2] && w2[1] == bytes@[at + 3] && w2[2] == bytes@[at + 4] && w2[3] == bytes@[at + 5] && w2[4] == bytes@[at + 6] && w2[5] == bytes@[at + 7]);
    let w3 = w2.drop_first();
    assert(w3[0] == bytes@[at + 3] && w3[1] == bytes@[at + 4] && w3[2] == bytes@[at + 5] && w3[3] == bytes@[at + 6] && w3[4] == bytes@[at + 7]);
    let w4 = w3.drop_first();
    assert(w4[0] == bytes@[at + 4] && w4[1] == bytes@[at + 5] && w4[2] == bytes@[at + 6] && w4[3] == bytes@[at + 7]);
    let w5 = w4.drop_first();
    assert(w5[0] == bytes@[at + 5] && w5[1] == bytes@[at + 6] && w5[2] == bytes@[at + 7]);
    let w6 = w5.drop_first();
    assert(w6[0] == bytes@[at + 6] && w6[1] == bytes@[at + 7]);
    let w7 = w6.drop_first();
    assert(w7[0] == bytes@[at + 7]);
    let w8 = w7.drop_first();
    assert(w8.len() == 0);
}

/// The bytes of a slice of `u64` elements are those of its elements, in order.
pub proof fn law_u64_slice_written(v: &[u64], b: Vec<u8>)
    requires
        call_ensures(bytecast::<u64>, (v,), b),
    ensures
        b@.len() == 8 * v@.len(),
        forall|i: int| #![trigger v@[i]] 0 <= i < v@.len() ==> {
        &&& b@[8 * i + 0] as int == v@[i] as int % 256
        &&& b@[8 * i + 1] as int == v@[i] as int / 0x100 % 256
        &&& b@[8 * i + 2] as int == v@[i] as int / 0x1_0000 % 256
        &&& b@[8 * i + 3] as int == v@[i] as int / 0x100_0000 % 256
        &&& b@[8 * i + 4] as int == v@[i] as int / 0x1_0000_0000 % 256
        &&& b@[8 * i + 5] as int == v@[i] as int / 0x100_0000_0000 % 256
        &&& b@[8 * i + 6] as int == v@[i] as int / 0x1_0000_0000_0000 % 256
        &&& b@[8 * i + 7] as int == v@[i] as int / 0x100_0000_0000_0000 % 256
        },
{
    lemma_u64_bytes(v@);
}

proof fn lemma_u64_elem(s: Seq<u64>, i: int)
    requires
        0 <= i < s.len(),
    ensures
        elem_bytes(s).len() == 8 * s.len(),
        ({
        &&& elem_bytes(s)[8 * i + 0] as int == s[i] as int % 256
        &&& elem_bytes(s)[8 * i + 1] as int == s[i] as int / 0x100 % 256
        &&& elem_bytes(s)[8 * i + 2] as int == s[i] as int / 0x1_0000 % 256
        &&& elem_bytes(s)[8 * i + 3] as int == s[i] as int / 0x100_0000 % 256
        &&& elem_bytes(s)[8 * i + 4] as int == s[i] as int / 0x1_0000_0000 % 256
        &&& elem_bytes(s)[8 * i + 5] as int == s[i] as int / 0x100_0000_0000 % 256
        &&& elem_bytes(s)[8 * i + 6] as int == s[i] as int / 0x1_0000_0000_0000 % 256
        &&& elem_bytes(s)[8 * i + 7] as int == s[i] as int / 0x100_0000_0000_0000 % 256
        }),
{
    lemma_elem_bytes_len(s);
    let (n, w) = (s.len(), <u64 as Element>::width());
    assert(n * w == 8 * n) by (nonlinear_arith)
        requires
            w == 8,
    ;
    lemma_elem_window(s, i);
    lemma_u64_digits(s[i]);
    let window = elem_bytes(s).subrange(i * 8, i * 8 + 8);
    let x = s[i];
    assert(window == seq![(x % 256) as u8, (x / 0x100 % 256) as u8, (x / 0x1_0000 % 256) as u8, (x / 0x100_0000 % 256) as u8, (x / 0x1_0000_0000 % 256) as u8, (x / 0x100_0000_0000 % 256) as u8, (x / 0x1_0000_0000_0000 % 256) as u8, (x / 0x100_0000_0000_0000 % 256) as u8]);
    assert(window[0] == elem_bytes(s)[8 * i + 0]);
    assert(window[1] == elem_bytes(s)[8 * i + 1]);
    assert(window[2] == elem_bytes(s)[8 * i + 2]);
    assert(window[3] == elem_bytes(s)[8 * i + 3]);
    assert(window[4] == elem_bytes(s)[8 * i + 4]);
    assert(window[5] == elem_bytes(s)[8 * i + 5]);
    assert(window[6] == elem_bytes(s)[8 * i + 6]);
    assert(window[7] == elem_bytes(s)[8 * i + 7]);
}

/// The bytes of `u64` elements, in order.
pub proof fn lemma_u64_bytes(s: Seq<u64>)
    ensures
        elem_bytes(s).len() == 8 * s.len(),
        forall|i: int| #![trigger s[i]] 0 <= i < s.len() ==> {
        &&& elem_bytes(s)[8 * i + 0] as int == s[i] as int % 256
        &&& elem_bytes(s)[8 * i + 1] as int == s[i] as int / 0x100 % 256
        &&& elem_bytes(s)[8 * i + 2] as int == s[i] as int / 0x1_0000 % 256
        &&& elem_bytes(s)[8 * i + 3] as int == s[i] as int / 0x100_0000 % 256
        &&& elem_bytes(s)[8 * i + 4] as int == s[i] as int / 0x1_0000_0000 % 256
        &&& elem_bytes(s)[8 * i + 5] as int == s[i] as int / 0x100_0000_0000 % 256
        &&& elem_bytes(s)[8 * i + 6] as int == s[i] as int / 0x1_0000_0000_0000 % 256
        &&& elem_bytes(s)[8 * i + 7] as int == s[i] as int / 0x100_0000_0000_0000 % 256
        },
{
    lemma_elem_bytes_len(s);
    let (n, w) = (s.len(), <u64 as Element>::width());
    assert(n * w == 8 * n) by (nonlinear_arith)
        requires
            w == 8,
    ;
    assert forall|i: int| #![trigger s[i]] 0 <= i < s.len() implies {
        &&& elem_bytes(s)[8 * i + 0] as int == s[i] as int % 256
        &&& elem_bytes(s)[8 * i + 1] as int == s[i] as int / 0x100 % 256
        &&& elem_bytes(s)[8 * i + 2] as int == s[i] as int / 0x1_0000 % 256
        &&& elem_bytes(s)[8 * i + 3] as int == s[i] as int / 0x100_0000 % 256
        &&& elem_bytes(s)[8 * i + 4] as int == s[i] as int / 0x1_0000_0000 % 256
        &&& elem_bytes(s)[8 * i + 5] as int == s[i] as int / 0x100_0000_0000 % 256
        &&& elem_bytes(s)[8 * i + 6] as int == s[i] as int / 0x1_0000_0000_0000 % 256
        &&& elem_bytes(s)[8 * i + 7] as int == s[i] as int / 0x100_0000_0000_0000 % 256
    } by {
        lemma_u64_elem(s, i);
    }
}

/// Elements that are read from a slice have the bytes of the slice, from its start on.
pub proof fn law_u64_slice_read(bytes: &[u8], count: usize, v: Vec<u64>)
    requires
        call_ensures(cast_slice::<u64>, (bytes, count), v),
        8 * count <= bytes@.len(),
    ensures
        v@.len() == count,
        forall|i: int| #![trigger v@[i]] 0 <= i < count ==> {
        &&& bytes@[8 * i + 0] as int == v@[i] as int % 256
        &&& bytes@[8 * i + 1] as int == v@[i] as int / 0x100 % 256
        &&& bytes@[8 * i + 2] as int == v@[i] as int / 0x1_0000 % 256
        &&& bytes@[8 * i + 3] as int == v@[i] as int / 0x100_0000 % 256
        &&& bytes@[8 * i + 4] as int == v@[i] as int / 0x1_0000_0000 % 256
        &&& bytes@[8 * i + 5] as int == v@[i] as int / 0x100_0000_0000 % 256
        &&& bytes@[8 * i + 6] as int == v@[i] as int / 0x1_0000_0000_0000 % 256
        &&& bytes@[8 * i + 7] as int == v@[i] as int / 0x100_0000_0000_0000 % 256
        },
{
    crate::laws::lemma_bytes_round_trip::<u64>(bytes@, count as nat);
    lemma_u64_bytes(v@);
    assert forall|i: int| #![trigger v@[i]] 0 <= i < count implies {
        &&& bytes@[8 * i + 0] as int == v@[i] as int % 256
        &&& bytes@[8 * i + 1] as int == v@[i] as int / 0x100 % 256
        &&& bytes@[8 * i + 2] as int == v@[i] as int / 0x1_0000 % 256
        &&& bytes@[8 * i + 3] as int == v@[i] as int / 0x100_0000 % 256
        &&& bytes@[8 * i + 4] as int == v@[i] as int / 0x1_0000_0000 % 256
        &&& bytes@[8 * i + 5] as int == v@[i] as int / 0x100_0000_0000 % 256
        &&& bytes@[8 * i + 6] as int == v@[i] as int / 0x1_0000_0000_0000 % 256
        &&& bytes@[8 * i + 7] as int == v@[i] as int / 0x100_0000_0000_0000 % 256
    } by {
        let b = elem_bytes(v@);
        assert(b =~= bytes@.take(8 * count));
        assert(b[8 * i + 0] == bytes@[8 * i + 0]);
        assert(b[8 * i + 1] == bytes@[8 * i + 1]);
        assert(b[8 * i + 2] == bytes@[8 * i + 2]);
        assert(b[8 * i + 3] == bytes@[8 * i + 3]);
        assert(b[8 * i + 4] == bytes@[8 * i + 4]);
        assert(b[8 * i + 5] == bytes@[8 * i + 5]);
        assert(b[8 * i + 6] == bytes@[8 * i + 6]);
        assert(b[8 * i + 7] == bytes@[8 * i + 7]);
    }
}

/// The digits of the pattern of a `i16` to the base 256 are those of the number itself.
proof fn lemma_i16_digits(x: i16)
    ensures
        le_bytes(x.pattern(), 2) == seq![(x % 256) as u8, (x / 0x100 % 256) as u8],
{
    let p = x.pattern();
    let n = x as int;
    lemma_digits_2(p);
    if x < 0 {
        lemma_wrapped_digit(n, 1, 0x100);
        lemma_wrapped_digit(n, 0x100, 0x1);
    }
    assert(le_bytes(p, 2) =~= seq![(x % 256) as u8, (x / 0x100 % 256) as u8]);
}

/// A `i16` is written as its digits to the base 256, lowest first.
pub proof fn law_i16_written(x: i16, out: &mut Vec<u8>)
    requires
        call_ensures(<i16 as Element>::push_to, (x, out), ()),
    ensures
        final(out)@ == old(out)@ + seq![(x % 256) as u8, (x / 0x100 % 256) as u8],
{
    lemma_i16_digits(x);
}

/// A `i16` is read from the bytes as which it is written.
pub proof fn law_i16_read(bytes: &[u8], at: usize, x: i16)
    requires
        call_ensures(<i16 as Element>::read_from, (bytes, at), x),
        at + 2 <= bytes@.len(),
    ensures
        bytes@.subrange(at as int, at + 2) == seq![(x % 256) as u8, (x / 0x100 % 256) as u8],
        x as int == ({
            let p = bytes@[at + 0] + 0x100 * bytes@[at + 1];
            if p < 0x8000 {
                p
            } else {
                p - 0x1_0000
            }
        }),
{
    let window = bytes@.subrange(at as int, at + 2);
    crate::element::lemma_le_value_bound(window);
    i16::lemma_from_pattern(le_value(window));
    crate::element::lemma_le_bytes_of_value(window);
    lemma_i16_digits(x);
    reveal_with_fuel(le_value, 3);
    let w1 = window.drop_first();
    assert(w1[0] == bytes@[at + 1]);
    let w2 = w1.drop_first();
    assert(w2.len() == 0);
}

/// The bytes of a slice of `i16` elements are those of its elements, in order.
pub proof fn law_i16_slice_written(v: &[i16], b: Vec<u8>)
    requires
        call_ensures(bytecast::<i16>, (v,), b),
    ensures
        b@.len() == 2 * v@.len(),
        forall|i: int| #![trigger v@[i]] 0 <= i < v@.len() ==> {
        &&& b@[2 * i + 0] as int == v@[i] as int % 256
        &&& b@[2 * i + 1] as int == v@[i] as int / 0x100 % 256
        },
{
    lemma_i16_bytes(v@);
}

proof fn lemma_i16_elem(s: Seq<i16>, i: int)
    requires
        0 <= i < s.len(),
    ensures
        elem_bytes(s).len() == 2 * s.len(),
        ({
        &&& elem_bytes(s)[2 * i + 0] as int == s[i] as int % 256
        &&& elem_bytes(s)[2 * i + 1] as int == s[i] as int / 0x100 % 256
        }),
{
    lemma_elem_bytes_len(s);
    let (n, w) = (s.len(), <i16 as Element>::width());
    assert(n * w == 2 * n) by (nonlinear_arith)
        requires
            w == 2,
    ;
    lemma_elem_window(s, i);
    lemma_i16_digits(s[i]);
    let window = elem_bytes(s).subrange(i * 2, i * 2 + 2);
    let x = s[i];
    assert(window == seq![(x % 256) as u8, (x / 0x100 % 256) as u8]);
    assert(window[0] == elem_bytes(s)[2 * i + 0]);
    assert(window[1] == elem_bytes(s)[2 * i + 1]);
}

/// The bytes of `i16` elements, in order.
pub proof fn lemma_i16_bytes(s: Seq<i16>)
    ensures
        elem_bytes(s).len() == 2 * s.len(),
        forall|i: int| #![trigger s[i]] 0 <= i < s.len() ==> {
        &&& elem_bytes(s)[2 * i + 0] as int == s[i] as int % 256
        &&& elem_bytes(s)[2 * i + 1] as int == s[i] as int / 0x100 % 256
        },
{
    lemma_elem_bytes_len(s);
    let (n, w) = (s.len(), <i16 as Element>::width());
    assert(n * w == 2 * n) by (nonlinear_arith)
        requires
            w == 2,
    ;
    assert forall|i: int| #![trigger s[i]] 0 <= i < s.len() implies {
        &&& elem_bytes(s)[2 * i + 0] as int == s[i] as int % 256
        &&& elem_bytes(s)[2 * i + 1] as int == s[i] as int / 0x100 % 256
    } by {
        lemma_i16_elem(s, i);
    }
}

/// Elements that are read from a slice have the bytes of the slice, from its start on.
pub proof fn law_i16_slice_read(bytes: &[u8], count: usize, v: Vec<i16>)
    requires
        call_ensures(cast_slice::<i16>, (bytes, count), v),
        2 * count <= bytes@.len(),
    ensures
        v@.len() == count,
        forall|i: int| #![trigger v@[i]] 0 <= i < count ==> {
        &&& bytes@[2 * i + 0] as int == v@[i] as int % 256
        &&& bytes@[2 * i + 1] as int == v@[i] as int / 0x100 % 256
        },
{
    crate::laws::lemma_bytes_round_trip::<i16>(bytes@, count as nat);
    lemma_i16_bytes(v@);
    assert forall|i: int| #![trigger v@[i]] 0 <= i < count implies {
        &&& bytes@[2 * i + 0] as int == v@[i] as int % 256
        &&& bytes@[2 * i + 1] as int == v@[i] as int / 0x100 % 256
    } by {
        let b = elem_bytes(v@);
        assert(b =~= bytes@.take(2 * count));
        assert(b[2 * i + 0] == bytes@[2 * i + 0]);
        assert(b[2 * i + 1] == bytes@[2 * i + 1]);
    }
}

/// The digits of the pattern of a `i32` to the base 256 are those of the number itself.
proof fn lemma_i32_digits(x: i32)
    ensures
        le_bytes(x.pattern(), 4) == seq![(x % 256) as u8, (x / 0x100 % 256) as u8, (x / 0x1_0000 % 256) as u8, (x / 0x100_0000 % 256) as u8],
{
    let p = x.pattern();
    let n = x as int;
    lemma_digits_4(p);
    if x < 0 {
        lemma_wrapped_digit(n, 1, 0x1000000);
        lemma_wrapped_digit(n, 0x100, 0x10000);
        lemma_wrapped_digit(n, 0x1_0000, 0x100);
        lemma_wrapped_digit(n, 0x100_0000, 0x1);
    }
    assert(le_bytes(p, 4) =~= seq![(x % 256) as u8, (x / 0x100 % 256) as u8, (x / 0x1_0000 % 256) as u8, (x / 0x100_0000 % 256) as u8]);
}

/// A `i32` is written as its digits to the base 256, lowest first.
pub proof fn law_i32_written(x: i32, out: &mut Vec<u8>)
    requires
        call_ensures(<i32 as Element>::push_to, (x, out), ()),
    ensures
        final(out)@ == old(out)@ + seq![(x % 256) as u8, (x / 0x100 % 256) as u8, (x / 0x1_0000 % 256) as u8, (x / 0x100_0000 % 256) as u8],
{
    lemma_i32_digits(x);
}

/// A `i32` is read from the bytes as which it is written.
pub proof fn law_i32_read(bytes: &[u8], at: usize, x: i32)
    requires
        call_ensures(<i32 as Element>::read_from, (bytes, at), x),
        at + 4 <= bytes@.len(),
    ensures
        bytes@.subrange(at as int, at + 4) == seq![(x % 256) as u8, (x / 0x100 % 256) as u8, (x / 0x1_0000 % 256) as u8, (x / 0x100_0000 % 256) as u8],
        x as int == ({
            let p = bytes@[at + 0] + 0x100 * bytes@[at + 1] + 0x1_0000 * bytes@[at + 2] + 0x100_0000 * bytes@[at + 3];
            if p < 0x8000_0000 {
                p
            } else {
                p - 0x1_0000_0000
            }
        }),
{
    let window = bytes@.subrange(at as int, at + 4);
    crate::element::lemma_le_value_bound(window);
    i32::lemma_from_pattern(le_value(window));
    crate::element::lemma_le_bytes_of_value(window);
    lemma_i32_digits(x);
    reveal_with_fuel(le_value, 5);
    let w1 = window.drop_first();
    assert(w1[0] == bytes@[at + 1] && w1[1] == bytes@[at + 2] && w1[2] == bytes@[at + 3]);
    let w2 = w1.drop_first();
    assert(w2[0] == bytes@[at + 2] && w2[1] == bytes@[at + 3]);
    let w3 = w2.drop_first();
    assert(w3[0] == bytes@[at + 3]);
    let w4 = w3.drop_first();
    assert(w4.len() == 0);
}

/// The bytes of a slice of `i32` elements are those of its elements, in order.
pub proof fn law_i32_slice_written(v: &[i32], b: Vec<u8>)
    requires
        call_ensures(bytecast::<i32>, (v,), b),
    ensures
        b@.len() == 4 * v@.len(),
        forall|i: int| #![trigger v@[i]] 0 <= i < v@.len() ==> {
        &&& b@[4 * i + 0] as int == v@[i] as int % 256
        &&& b@[4 * i + 1] as int == v@[i] as int / 0x100 % 256
        &&& b@[4 * i + 2] as int == v@[i] as int / 0x1_0000 % 256
        &&& b@[4 * i + 3] as int == v@[i] as int / 0x100_0000 % 256
        },
{
    lemma_i32_bytes(v@);
}

proof fn lemma_i32_elem(s: Seq<i32>, i: int)
    requires
        0 <= i < s.len(),
    ensures
        elem_bytes(s).len() == 4 * s.len(),
        ({
        &&& elem_bytes(s)[4 * i + 0] as int == s[i] as int % 256
        &&& elem_bytes(s)[4 * i + 1] as int == s[i] as int / 0x100 % 256
        &&& elem_bytes(s)[4 * i + 2] as int == s[i] as int / 0x1_0000 % 256
        &&& elem_bytes(s)[4 * i + 3] as int == s[i] as int / 0x100_0000 % 256
        }),
{
    lemma_elem_bytes_len(s);
    let (n, w) = (s.len(), <i32 as Element>::width());
    assert(n * w == 4 * n) by (nonlinear_arith)
        requires
            w == 4,
    ;
    lemma_elem_window(s, i);
    lemma_i32_digits(s[i]);
    let window = elem_bytes(s).subrange(i * 4, i * 4 + 4);
    let x = s[i];
    assert(window == seq![(x % 256) as u8, (x / 0x100 % 256) as u8, (x / 0x1_0000 % 256) as u8, (x / 0x100_0000 % 256) as u8]);
    assert(window[0] == elem_bytes(s)[4 * i + 0]);
    assert(window[1] == elem_bytes(s)[4 * i + 1]);
    assert(window[2] == elem_bytes(s)[4 * i + 2]);
    assert(window[3] == elem_bytes(s)[4 * i + 3]);
}

/// The bytes of `i32` elements, in order.
pub proof fn lemma_i32_bytes(s: Seq<i32>)
    ensures
        elem_bytes(s).len() == 4 * s.len(),
        forall|i: int| #![trigger s[i]] 0 <= i < s.len() ==> {
        &&& elem_bytes(s)[4 * i + 0] as int == s[i] as int % 256
        &&& elem_bytes(s)[4 * i + 1] as int == s[i] as int / 0x100 % 256
        &&& elem_bytes(s)[4 * i + 2] as int == s[i] as int / 0x1_0000 % 256
        &&& elem_bytes(s)[4 * i + 3] as int == s[i] as int / 0x100_0000 % 256
        },
{
    lemma_elem_bytes_len(s);
    let (n, w) = (s.len(), <i32 as Element>::width());
    assert(n * w == 4 * n) by (nonlinear_arith)
        requires
            w == 4,
    ;
    assert forall|i: int| #![trigger s[i]] 0 <= i < s.len() implies {
        &&& elem_bytes(s)[4 * i + 0] as int == s[i] as int % 256
        &&& elem_bytes(s)[4 * i + 1] as int == s[i] as int / 0x100 % 256
        &&& elem_bytes(s)[4 * i + 2] as int == s[i] as int / 0x1_0000 % 256
        &&& elem_bytes(s)[4 * i + 3] as int == s[i] as int / 0x100_0000 % 256
    } by {
        lemma_i32_elem(s, i);
    }
}

/// Elements that are read from a slice have the bytes of the slice, from its start on.
pub proof fn law_i32_slice_read(bytes: &[u8], count: usize, v: Vec<i32>)
    requires
        call_ensures(cast_slice::<i32>, (bytes, count), v),
        4 * count <= bytes@.len(),
    ensures
        v@.len() == count,
        forall|i: int| #![trigger v@[i]] 0 <= i < count ==> {
        &&& bytes@[4 * i + 0] as int == v@[i] as int % 256
        &&& bytes@[4 * i + 1] as int == v@[i] as int / 0x100 % 256
        &&& bytes@[4 * i + 2] as int == v@[i] as int / 0x1_0000 % 256
        &&& bytes@[4 * i + 3] as int == v@[i] as int / 0x100_0000 % 256
        },
{
    crate::laws::lemma_bytes_round_trip::<i32>(bytes@, count as nat);
    lemma_i32_bytes(v@);
    assert forall|i: int| #![trigger v@[i]] 0 <= i < count implies {
        &&& bytes@[4 * i + 0] as int == v@[i] as int % 256
        &&& bytes@[4 * i + 1] as int == v@[i] as int / 0x100 % 256
        &&& bytes@[4 * i + 2] as int == v@[i] as int / 0x1_0000 % 256
        &&& bytes@[4 * i + 3] as int == v@[i] as int / 0x100_0000 % 256
    } by {
        let b = elem_bytes(v@);
        assert(b =~= bytes@.take(4 * count));
        assert(b[4 * i + 0] == bytes@[4 * i + 0]);
        assert(b[4 * i + 1] == bytes@[4 * i + 1]);
        assert(b[4 * i + 2] == bytes@[4 * i + 2]);
        assert(b[4 * i + 3] == bytes@[4 * i + 3]);
    }
}

/// The digits of the pattern of a `i64` to the base 256 are those of the number itself.
proof fn lemma_i64_digits(x: i64)
    ensures
        le_bytes(x.pattern(), 8) == seq![(x % 256) as u8, (x / 0x100 % 256) as u8, (x / 0x1_0000 % 256) as u8, (x / 0x100_0000 % 256) as u8, (x / 0x1_0000_0000 % 256) as u8, (x / 0x100_0000_0000 % 256) as u8, (x / 0x1_0000_0000_0000 % 256) as u8, (x / 0x100_0000_0000_0000 % 256) as u8],
{
    let p = x.pattern();
    let n = x as int;
    lemma_digits_8(p);
    if x < 0 {
        lemma_wrapped_digit(n, 1, 0x100000000000000);
        lemma_wrapped_digit(n, 0x100, 0x1000000000000);
        lemma_wrapped_digit(n, 0x1_0000, 0x10000000000);
        lemma_wrapped_digit(n, 0x100_0000, 0x100000000);
        lemma_wrapped_digit(n, 0x1_0000_0000, 0x1000000);
        lemma_wrapped_digit(n, 0x100_0000_0000, 0x10000);
        lemma_wrapped_digit(n, 0x1_0000_0000_0000, 0x100);
        lemma_wrapped_digit(n, 0x100_0000_0000_0000, 0x1);
    }
    assert(le_bytes(p, 8) =~= seq![(x % 256) as u8, (x / 0x100 % 256) as u8, (x / 0x1_0000 % 256) as u8, (x / 0x100_0000 % 256) as u8, (x / 0x1_0000_0000 % 256) as u8, (x / 0x100_0000_0000 % 256) as u8, (x / 0x1_0000_0000_0000 % 256) as u8, (x / 0x100_0000_0000_0000 % 256) as u8]);
}

/// A `i64` is written as its digits to the base 256, lowest first.
pub proof fn law_i64_written(x: i64, out: &mut Vec<u8>)
    requires
        call_ensures(<i64 as Element>::push_to, (x, out), ()),
    ensures
        final(out)@ == old(out)@ + seq![(x % 256) as u8, (x / 0x100 % 256) as u8, (x / 0x1_0000 % 256) as u8, (x / 0x100_0000 % 256) as u8, (x / 0x1_0000_0000 % 256) as u8, (x / 0x100_0000_0000 % 256) as u8, (x / 0x1_0000_0000_0000 % 256) as u8, (x / 0x100_0000_0000_0000 % 256) as u8],
{
    lemma_i64_digits(x);
}

/// A `i64` is read from the bytes as which it is written.
pub proof fn law_i64_read(bytes: &[u8], at: usize, x: i64)
    requires
        call_ensures(<i64 as Element>::read_from, (bytes, at), x),
        at + 8 <= bytes@.len(),
    ensures
        bytes@.subrange(at as int, at + 8) == seq![(x % 256) as u8, (x / 0x100 % 256) as u8, (x / 0x1_0000 % 256) as u8, (x / 0x100_0000 % 256) as u8, (x / 0x1_0000_0000 % 256) as u8, (x / 0x100_0000_0000 % 256) as u8, (x / 0x1_0000_0000_0000 % 256) as u8, (x / 0x100_0000_0000_0000 % 256) as u8],
        x as int == ({
            let p = bytes@[at + 0] + 0x100 * bytes@[at + 1] + 0x1_0000 * bytes@[at + 2] + 0x100_0000 * bytes@[at + 3] + 0x1_0000_0000 * bytes@[at + 4] + 0x100_0000_0000 * bytes@[at + 5] + 0x1_0000_0000_0000 * bytes@[at + 6] + 0x100_0000_0000_0000 * bytes@[at + 7];
            if p < 0x8000_0000_0000_0000 {
                p
            } else {
                p - 0x1_0000_0000_0000_0000
            }
        }),
{
    let window = bytes@.subrange(at as int, at + 8);
    crate::element::lemma_le_value_bound(window);
    i64::lemma_from_pattern(le_value(window));
    crate::element::lemma_le_bytes_of_value(window);
    lemma_i64_digits(x);
    reveal_with_fuel(le_value, 9);
    let w1 = window.drop_first();
    assert(w1[0] == bytes@[at + 1] && w1[1] == bytes@[at + 2] && w1[2] == bytes@[at + 3] && w1[3] == bytes@[at + 4] && w1[4] == bytes@[at + 5] && w1[5] == bytes@[at + 6] && w1[6] == bytes@[at + 7]);
    let w2 = w1.drop_first();
    assert(w2[0] == bytes@[at + 2] && w2[1] == bytes@[at + 3] && w2[2] == bytes@[at + 4] && w2[3] == bytes@[at + 5] && w2[4] == bytes@[at + 6] && w2[5] == bytes@[at + 7]);
    let w3 = w2.drop_first();
    assert(w3[0] == bytes@[at + 3] && w3[1] == bytes@[at + 4] && w3[2] == bytes@[at + 5] && w3[3] == bytes@[at + 6] && w3[4] == bytes@[at + 7]);
    let w4 = w3.drop_first();
    assert(w4[0] == bytes@[at + 4] && w4[1] == bytes@[at + 5] && w4[2] == bytes@[at + 6] && w4[3] == bytes@[at + 7]);
    let w5 = w4.drop_first();
    assert(w5[0] == bytes@[at + 5] && w5[1] == bytes@[at + 6] && w5[2] == bytes@[at + 7]);
    let w6 = w5.drop_first();
    assert(w6[0] == bytes@[at + 6] && w6[1] == bytes@[at + 7]);
    let w7 = w6.drop_first();
    assert(w7[0] == bytes@[at + 7]);
    let w8 = w7.drop_first();
    assert(w8.len() == 0);
}

/// The bytes of a slice of `i64` elements are those of its elements, in order.
pub proof fn law_i64_slice_written(v: &[i64], b: Vec<u8>)
    requires
        call_ensures(bytecast::<i64>, (v,), b),
    ensures
        b@.len() == 8 * v@.len(),
        forall|i: int| #![trigger v@[i]] 0 <= i < v@.len() ==> {
        &&& b@[8 * i + 0] as int == v@[i] as int % 256
        &&& b@[8 * i + 1] as int == v@[i] as int / 0x100 % 256
        &&& b@[8 * i + 2] as int == v@[i] as int / 0x1_0000 % 256
        &&& b@[8 * i + 3] as int == v@[i] as int / 0x100_0000 % 256
        &&& b@[8 * i + 4] as int == v@[i] as int / 0x1_0000_0000 % 256
        &&& b@[8 * i + 5] as int == v@[i] as int / 0x100_0000_0000 % 256
        &&& b@[8 * i + 6] as int == v@[i] as int / 0x1_0000_0000_0000 % 256
        &&& b@[8 * i + 7] as int == v@[i] as int / 0x100_0000_0000_0000 % 256
        },
{
    lemma_i64_bytes(v@);
}

proof fn lemma_i64_elem(s: Seq<i64>, i: int)
    requires
        0 <= i < s.len(),
    ensures
        elem_bytes(s).len() == 8 * s.len(),
        ({
        &&& elem_bytes(s)[8 * i + 0] as int == s[i] as int % 256
        &&& elem_bytes(s)[8 * i + 1] as int == s[i] as int / 0x100 % 256
        &&& elem_bytes(s)[8 * i + 2] as int == s[i] as int / 0x1_0000 % 256
        &&& elem_bytes(s)[8 * i + 3] as int == s[i] as int / 0x100_0000 % 256
        &&& elem_bytes(s)[8 * i + 4] as int == s[i] as int / 0x1_0000_0000 % 256
        &&& elem_bytes(s)[8 * i + 5] as int == s[i] as int / 0x100_0000_0000 % 256
        &&& elem_bytes(s)[8 * i + 6] as int == s[i] as int / 0x1_0000_0000_0000 % 256
        &&& elem_bytes(s)[8 * i + 7] as int == s[i] as int / 0x100_0000_0000_0000 % 256
        }),
{
    lemma_elem_bytes_len(s);
    let (n, w) = (s.len(), <i64 as Element>::width());
    assert(n * w == 8 * n) by (nonlinear_arith)
        requires
            w == 8,
    ;
    lemma_elem_window(s, i);
    lemma_i64_digits(s[i]);
    let window = elem_bytes(s).subrange(i * 8, i * 8 + 8);
    let x = s[i];
    assert(window == seq![(x % 256) as u8, (x / 0x100 % 256) as u8, (x / 0x1_0000 % 256) as u8, (x / 0x100_0000 % 256) as u8, (x / 0x1_0000_0000 % 256) as u8, (x / 0x100_0000_0000 % 256) as u8, (x / 0x1_0000_0000_0000 % 256) as u8, (x / 0x100_0000_0000_0000 % 256) as u8]);
    assert(window[0] == elem_bytes(s)[8 * i + 0]);
    assert(window[1] == elem_bytes(s)[8 * i + 1]);
    assert(window[2] == elem_bytes(s)[8 * i + 2]);
    assert(window[3] == elem_bytes(s)[8 * i + 3]);
    assert(window[4] == elem_bytes(s)[8 * i + 4]);
    assert(window[5] == elem_bytes(s)[8 * i + 5]);
    assert(window[6] == elem_bytes(s)[8 * i + 6]);
    assert(window[7] == elem_bytes(s)[8 * i + 7]);
}

/// The bytes of `i64` elements, in order.
pub proof fn lemma_i64_bytes(s: Seq<i64>)
    ensures
        elem_bytes(s).len() == 8 * s.len(),
        forall|i: int| #![trigger s[i]] 0 <= i < s.len() ==> {
        &&& elem_bytes(s)[8 * i + 0] as int == s[i] as int % 256
        &&& elem_bytes(s)[8 * i + 1] as int == s[i] as int / 0x100 % 256
        &&& elem_bytes(s)[8 * i + 2] as int == s[i] as int / 0x1_0000 % 256
        &&& elem_bytes(s)[8 * i + 3] as int == s[i] as int / 0x100_0000 % 256
        &&& elem_bytes(s)[8 * i + 4] as int == s[i] as int / 0x1_0000_0000 % 256
        &&& elem_bytes(s)[8 * i + 5] as int == s[i] as int / 0x100_0000_0000 % 256
        &&& elem_bytes(s)[8 * i + 6] as int == s[i] as int / 0x1_0000_0000_0000 % 256
        &&& elem_bytes(s)[8 * i + 7] as int == s[i] as int / 0x100_0000_0000_0000 % 256
        },
{
    lemma_elem_bytes_len(s);
    let (n, w) = (s.len(), <i64 as Element>::width());
    assert(n * w == 8 * n) by (nonlinear_arith)
        requires
            w == 8,
    ;
    assert forall|i: int| #![trigger s[i]] 0 <= i < s.len() implies {
        &&& elem_bytes(s)[8 * i + 0] as int == s[i] as int % 256
        &&& elem_bytes(s)[8 * i + 1] as int == s[i] as int / 0x100 % 256
        &&& elem_bytes(s)[8 * i + 2] as int == s[i] as int / 0x1_0000 % 256
        &&& elem_bytes(s)[8 * i + 3] as int == s[i] as int / 0x100_0000 % 256
        &&& elem_bytes(s)[8 * i + 4] as int == s[i] as int / 0x1_0000_0000 % 256
        &&& elem_bytes(s)[8 * i + 5] as int == s[i] as int / 0x100_0000_0000 % 256
        &&& elem_bytes(s)[8 * i + 6] as int == s[i] as int / 0x1_0000_0000_0000 % 256
        &&& elem_bytes(s)[8 * i + 7] as int == s[i] as int / 0x100_0000_0000_0000 % 256
    } by {
        lemma_i64_elem(s, i);
    }
}

/// Elements that are read from a slice have the bytes of the slice, from its start on.
pub proof fn law_i64_slice_read(bytes: &[u8], count: usize, v: Vec<i64>)
    requires
        call_ensures(cast_slice::<i64>, (bytes, count), v),
        8 * count <= bytes@.len(),
    ensures
        v@.len() == count,
        forall|i: int| #![trigger v@[i]] 0 <= i < count ==> {
        &&& bytes@[8 * i + 0] as int == v@[i] as int % 256
        &&& bytes@[8 * i + 1] as int == v@[i] as int / 0x100 % 256
        &&& bytes@[8 * i + 2] as int == v@[i] as int / 0x1_0000 % 256
        &&& bytes@[8 * i + 3] as int == v@[i] as int / 0x100_0000 % 256
        &&& bytes@[8 * i + 4] as int == v@[i] as int / 0x1_0000_0000 % 256
        &&& bytes@[8 * i + 5] as int == v@[i] as int / 0x100_0000_0000 % 256
        &&& bytes@[8 * i + 6] as int == v@[i] as int / 0x1_0000_0000_0000 % 256
        &&& bytes@[8 * i + 7] as int == v@[i] as int / 0x100_0000_0000_0000 % 256
        },
{
    crate::laws::lemma_bytes_round_trip::<i64>(bytes@, count as nat);
    lemma_i64_bytes(v@);
    assert forall|i: int| #![trigger v@[i]] 0 <= i < count implies {
        &&& bytes@[8 * i + 0] as int == v@[i] as int % 256
        &&& bytes@[8 * i + 1] as int == v@[i] as int / 0x100 % 256
        &&& bytes@[8 * i + 2] as int == v@[i] as int / 0x1_0000 % 256
        &&& bytes@[8 * i + 3] as int == v@[i] as int / 0x100_0000 % 256
        &&& bytes@[8 * i + 4] as int == v@[i] as int / 0x1_0000_0000 % 256
        &&& bytes@[8 * i + 5] as int == v@[i] as int / 0x100_0000_0000 % 256
        &&& bytes@[8 * i + 6] as int == v@[i] as int / 0x1_0000_0000_0000 % 256
        &&& bytes@[8 * i + 7] as int == v@[i] as int / 0x100_0000_0000_0000 % 256
    } by {
        let b = elem_bytes(v@);
        assert(b =~= bytes@.take(8 * count));
        assert(b[8 * i + 0] == bytes@[8 * i + 0]);
        assert(b[8 * i + 1] == bytes@[8 * i + 1]);
        assert(b[8 * i + 2] == bytes@[8 * i + 2]);
        assert(b[8 * i + 3] == bytes@[8 * i + 3]);
        assert(b[8 * i + 4] == bytes@[8 * i + 4]);
        assert(b[8 * i + 5] == bytes@[8 * i + 5]);
        assert(b[8 * i + 6] == bytes@[8 * i + 6]);
        assert(b[8 * i + 7] == bytes@[8 * i + 7]);
    }
}

/// A buffer of `U8` elements becomes its bytes as they are.
pub proof fn law_u8_buffer_written(v: Vec<u8>, r: Result<Vec<u8>>)
    requires
        call_ensures(cpu_storage_to_bytes, (&CpuStorage::U8(v),), r),
    ensures
        r matches Ok(b) && b@ == v@,
{
}

/// A buffer of `U32` elements becomes the bytes of its elements, in order.
pub proof fn law_u32_buffer_written(v: Vec<u32>, r: Result<Vec<u8>>)
    requires
        call_ensures(cpu_storage_to_bytes, (&CpuStorage::U32(v),), r),
    ensures
        r matches Ok(b) && b@.len() == 4 * v@.len() && forall|i: int| #![trigger v@[i]] 0 <= i < v@.len() ==> {
            &&& b@[4 * i + 0] as int == v@[i] as int % 256
            &&& b@[4 * i + 1] as int == v@[i] as int / 0x100 % 256
            &&& b@[4 * i + 2] as int == v@[i] as int / 0x1_0000 % 256
            &&& b@[4 * i + 3] as int == v@[i] as int / 0x100_0000 % 256
        },
{
    lemma_u32_bytes(v@);
}

/// A buffer of `I16` elements becomes the bytes of its elements, in order.
pub proof fn law_i16_buffer_written(v: Vec<i16>, r: Result<Vec<u8>>)
    requires
        call_ensures(cpu_storage_to_bytes, (&CpuStorage::I16(v),), r),
    ensures
        r matches Ok(b) && b@.len() == 2 * v@.len() && forall|i: int| #![trigger v@[i]] 0 <= i < v@.len() ==> {
            &&& b@[2 * i + 0] as int == v@[i] as int % 256
            &&& b@[2 * i + 1] as int == v@[i] as int / 0x100 % 256
        },
{
    lemma_i16_bytes(v@);
}

/// A buffer of `I32` elements becomes the bytes of its elements, in order.
pub proof fn law_i32_buffer_written(v: Vec<i32>, r: Result<Vec<u8>>)
    requires
        call_ensures(cpu_storage_to_bytes, (&CpuStorage::I32(v),), r),
    ensures
        r matches Ok(b) && b@.len() == 4 * v@.len() && forall|i: int| #![trigger v@[i]] 0 <= i < v@.len() ==> {
            &&& b@[4 * i + 0] as int == v@[i] as int % 256
            &&& b@[4 * i + 1] as int == v@[i] as int / 0x100 % 256
            &&& b@[4 * i + 2] as int == v@[i] as int / 0x1_0000 % 256
            &&& b@[4 * i + 3] as int == v@[i] as int / 0x100_0000 % 256
        },
{
    lemma_i32_bytes(v@);
}

/// A buffer of `I64` elements becomes the bytes of its elements, in order.
pub proof fn law_i64_buffer_written(v: Vec<i64>, r: Result<Vec<u8>>)
    requires
        call_ensures(cpu_storage_to_bytes, (&CpuStorage::I64(v),), r),
    ensures
        r matches Ok(b) && b@.len() == 8 * v@.len() && forall|i: int| #![trigger v@[i]] 0 <= i < v@.len() ==> {
            &&& b@[8 * i + 0] as int == v@[i] as int % 256
            &&& b@[8 * i + 1] as int == v@[i] as int / 0x100 % 256
            &&& b@[8 * i + 2] as int == v@[i] as int / 0x1_0000 % 256
            &&& b@[8 * i + 3] as int == v@[i] as int / 0x100_0000 % 256
            &&& b@[8 * i + 4] as int == v@[i] as int / 0x1_0000_0000 % 256
            &&& b@[8 * i + 5] as int == v@[i] as int / 0x100_0000_0000 % 256
            &&& b@[8 * i + 6] as int == v@[i] as int / 0x1_0000_0000_0000 % 256
            &&& b@[8 * i + 7] as int == v@[i] as int / 0x100_0000_0000_0000 % 256
        },
{
    lemma_i64_bytes(v@);
}

/// A buffer of `BF16` elements becomes the bytes of its elements, in order.
pub proof fn law_bf16_buffer_written(v: Vec<u16>, r: Result<Vec<u8>>)
    requires
        call_ensures(cpu_storage_to_bytes, (&CpuStorage::BF16(v),), r),
    ensures
        r matches Ok(b) && b@.len() == 2 * v@.len() && forall|i: int| #![trigger v@[i]] 0 <= i < v@.len() ==> {
            &&& b@[2 * i + 0] as int == v@[i] as int % 256
            &&& b@[2 * i + 1] as int == v@[i] as int / 0x100 % 256
        },
{
    lemma_u16_bytes(v@);
}

/// A buffer of `F16` elements becomes the bytes of its elements, in order.
pub proof fn law_f16_buffer_written(v: Vec<u16>, r: Result<Vec<u8>>)
    requires
        call_ensures(cpu_storage_to_bytes, (&CpuStorage::F16(v),), r),
    ensures
        r matches Ok(b) && b@.len() == 2 * v@.len() && forall|i: int| #![trigger v@[i]] 0 <= i < v@.len() ==> {
            &&& b@[2 * i + 0] as int == v@[i] as int % 256
            &&& b@[2 * i + 1] as int == v@[i] as int / 0x100 % 256
        },
{
    lemma_u16_bytes(v@);
}

/// A buffer of `F32` elements becomes the bytes of its elements, in order.
pub proof fn law_f32_buffer_written(v: Vec<u32>, r: Result<Vec<u8>>)
    requires
        call_ensures(cpu_storage_to_bytes, (&CpuStorage::F32(v),), r),
    ensures
        r matches Ok(b) && b@.len() == 4 * v@.len() && forall|i: int| #![trigger v@[i]] 0 <= i < v@.len() ==> {
            &&& b@[4 * i + 0] as int == v@[i] as int % 256
            &&& b@[4 * i + 1] as int == v@[i] as int / 0x100 % 256
            &&& b@[4 * i + 2] as int == v@[i] as int / 0x1_0000 % 256
            &&& b@[4 * i + 3] as int == v@[i] as int / 0x100_0000 % 256
        },
{
    lemma_u32_bytes(v@);
}

/// A buffer of `F64` elements becomes the bytes of its elements, in order.
pub proof fn law_f64_buffer_written(v: Vec<u64>, r: Result<Vec<u8>>)
    requires
        call_ensures(cpu_storage_to_bytes, (&CpuStorage::F64(v),), r),
    ensures
        r matches Ok(b) && b@.len() == 8 * v@.len() && forall|i: int| #![trigger v@[i]] 0 <= i < v@.len() ==> {
            &&& b@[8 * i + 0] as int == v@[i] as int % 256
            &&& b@[8 * i + 1] as int == v@[i] as int / 0x100 % 256
            &&& b@[8 * i + 2] as int == v@[i] as int / 0x1_0000 % 256
            &&& b@[8 * i + 3] as int == v@[i] as int / 0x100_0000 % 256
            &&& b@[8 * i + 4] as int == v@[i] as int / 0x1_0000_0000 % 256
            &&& b@[8 * i + 5] as int == v@[i] as int / 0x100_0000_0000 % 256
            &&& b@[8 * i + 6] as int == v@[i] as int / 0x1_0000_0000_0000 % 256
            &&& b@[8 * i + 7] as int == v@[i] as int / 0x100_0000_0000_0000 % 256
        },
{
    lemma_u64_bytes(v@);
}

/// A buffer of `F8E4M3` elements becomes its bytes as they are.
pub proof fn law_f8e4m3_buffer_written(v: Vec<u8>, r: Result<Vec<u8>>)
    requires
        call_ensures(cpu_storage_to_bytes, (&CpuStorage::F8E4M3(v),), r),
    ensures
        r matches Ok(b) && b@ == v@,
{
}

/// A buffer of `F6E2M3` elements becomes its bytes as they are.
pub proof fn law_f6e2m3_buffer_written(v: Vec<u8>, r: Result<Vec<u8>>)
    requires
        call_ensures(cpu_storage_to_bytes, (&CpuStorage::F6E2M3(v),), r),
    ensures
        r matches Ok(b) && b@ == v@,
{
}

/// A buffer of `F6E3M2` elements becomes its bytes as they are.
pub proof fn law_f6e3m2_buffer_written(v: Vec<u8>, r: Result<Vec<u8>>)
    requires
        call_ensures(cpu_storage_to_bytes, (&CpuStorage::F6E3M2(v),), r),
    ensures
        r matches Ok(b) && b@ == v@,
{
}

/// A buffer of `F4` elements becomes its bytes as they are.
pub proof fn law_f4_buffer_written(v: Vec<u8>, r: Result<Vec<u8>>)
    requires
        call_ensures(cpu_storage_to_bytes, (&CpuStorage::F4(v),), r),
    ensures
        r matches Ok(b) && b@ == v@,
{
}

/// A buffer of `F8E8M0` elements becomes its bytes as they are.
pub proof fn law_f8e8m0_buffer_written(v: Vec<u8>, r: Result<Vec<u8>>)
    requires
        call_ensures(cpu_storage_to_bytes, (&CpuStorage::F8E8M0(v),), r),
    ensures
        r matches Ok(b) && b@ == v@,
{
}

/// What a typed buffer is seen to hold is what its vector holds.
pub proof fn law_buffers_hold_their_vectors()
    ensures
        forall|v: Vec<u8>| #[trigger] CpuStorage::U8(v).view() == CpuData::U8(v@),
        forall|v: Vec<u32>| #[trigger] CpuStorage::U32(v).view() == CpuData::U32(v@),
        forall|v: Vec<i16>| #[trigger] CpuStorage::I16(v).view() == CpuData::I16(v@),
        forall|v: Vec<i32>| #[trigger] CpuStorage::I32(v).view() == CpuData::I32(v@),
        forall|v: Vec<i64>| #[trigger] CpuStorage::I64(v).view() == CpuData::I64(v@),
        forall|v: Vec<u16>| #[trigger] CpuStorage::BF16(v).view() == CpuData::BF16(v@),
        forall|v: Vec<u16>| #[trigger] CpuStorage::F16(v).view() == CpuData::F16(v@),
        forall|v: Vec<u32>| #[trigger] CpuStorage::F32(v).view() == CpuData::F32(v@),
        forall|v: Vec<u64>| #[trigger] CpuStorage::F64(v).view() == CpuData::F64(v@),
        forall|v: Vec<u8>| #[trigger] CpuStorage::F8E4M3(v).view() == CpuData::F8E4M3(v@),
        forall|v: Vec<u8>| #[trigger] CpuStorage::F6E2M3(v).view() == CpuData::F6E2M3(v@),
        forall|v: Vec<u8>| #[trigger] CpuStorage::F6E3M2(v).view() == CpuData::F6E3M2(v@),
        forall|v: Vec<u8>| #[trigger] CpuStorage::F4(v).view() == CpuData::F4(v@),
        forall|v: Vec<u8>| #[trigger] CpuStorage::F8E8M0(v).view() == CpuData::F8E8M0(v@),
{
}

/// The element type of a buffer.
pub proof fn law_buffer_types(d: DType)
    ensures
        forall|v: Vec<u8>|
            #[trigger] call_ensures(CpuStorage::dtype, (&CpuStorage::U8(v),), d) ==> d == DType::U8,
        forall|v: Vec<u32>|
            #[trigger] call_ensures(CpuStorage::dtype, (&CpuStorage::U32(v),), d) ==> d == DType::U32,
        forall|v: Vec<i16>|
            #[trigger] call_ensures(CpuStorage::dtype, (&CpuStorage::I16(v),), d) ==> d == DType::I16,
        forall|v: Vec<i32>|
            #[trigger] call_ensures(CpuStorage::dtype, (&CpuStorage::I32(v),), d) ==> d == DType::I32,
        forall|v: Vec<i64>|
            #[trigger] call_ensures(CpuStorage::dtype, (&CpuStorage::I64(v),), d) ==> d == DType::I64,
        forall|v: Vec<u16>|
            #[trigger] call_ensures(CpuStorage::dtype, (&CpuStorage::BF16(v),), d) ==> d == DType::BF16,
        forall|v: Vec<u16>|
            #[trigger] call_ensures(CpuStorage::dtype, (&CpuStorage::F16(v),), d) ==> d == DType::F16,
        forall|v: Vec<u32>|
            #[trigger] call_ensures(CpuStorage::dtype, (&CpuStorage::F32(v),), d) ==> d == DType::F32,
        forall|v: Vec<u64>|
            #[trigger] call_ensures(CpuStorage::dtype, (&CpuStorage::F64(v),), d) ==> d == DType::F64,
        forall|v: Vec<u8>|
            #[trigger] call_ensures(CpuStorage::dtype, (&CpuStorage::F8E4M3(v),), d) ==> d == DType::F8E4M3,
        forall|v: Vec<u8>|
            #[trigger] call_ensures(CpuStorage::dtype, (&CpuStorage::F6E2M3(v),), d) ==> d == DType::F6E2M3,
        forall|v: Vec<u8>|
            #[trigger] call_ensures(CpuStorage::dtype, (&CpuStorage::F6E3M2(v),), d) ==> d == DType::F6E3M2,
        forall|v: Vec<u8>|
            #[trigger] call_ensures(CpuStorage::dtype, (&CpuStorage::F4(v),), d) ==> d == DType::F4,
        forall|v: Vec<u8>|
            #[trigger] call_ensures(CpuStorage::dtype, (&CpuStorage::F8E8M0(v),), d) ==> d == DType::F8E8M0,
{
}

/// The size of an element of each type, and the bytes that it takes in a buffer.
pub proof fn law_sizes(n: usize)
    ensures
        call_ensures(DType::size_in_bytes, (&DType::U8,), n) ==> n == 1,
        call_ensures(DType::size_in_bytes, (&DType::U32,), n) ==> n == 4,
        call_ensures(DType::size_in_bytes, (&DType::I16,), n) ==> n == 2,
        call_ensures(DType::size_in_bytes, (&DType::I32,), n) ==> n == 4,
        call_ensures(DType::size_in_bytes, (&DType::I64,), n) ==> n == 8,
        call_ensures(DType::size_in_bytes, (&DType::BF16,), n) ==> n == 2,
        call_ensures(DType::size_in_bytes, (&DType::F16,), n) ==> n == 2,
        call_ensures(DType::size_in_bytes, (&DType::F32,), n) ==> n == 4,
        call_ensures(DType::size_in_bytes, (&DType::F64,), n) ==> n == 8,
        call_ensures(DType::size_in_bytes, (&DType::F8E4M3,), n) ==> n == 1,
        call_ensures(DType::size_in_bytes, (&DType::F6E2M3,), n) ==> n == 0,
        call_ensures(DType::size_in_bytes, (&DType::F6E3M2,), n) ==> n == 0,
        call_ensures(DType::size_in_bytes, (&DType::F4,), n) ==> n == 0,
        call_ensures(DType::size_in_bytes, (&DType::F8E8M0,), n) ==> n == 1,
        call_ensures(DType::buffer_width, (&DType::U8,), n) ==> n == 1,
        call_ensures(DType::buffer_width, (&DType::U32,), n) ==> n == 4,
        call_ensures(DType::buffer_width, (&DType::I16,), n) ==> n == 2,
        call_ensures(DType::buffer_width, (&DType::I32,), n) ==> n == 4,
        call_ensures(DType::buffer_width, (&DType::I64,), n) ==> n == 8,
        call_ensures(DType::buffer_width, (&DType::BF16,), n) ==> n == 2,
        call_ensures(DType::buffer_width, (&DType::F16,), n) ==> n == 2,
        call_ensures(DType::buffer_width, (&DType::F32,), n) ==> n == 4,
        call_ensures(DType::buffer_width, (&DType::F64,), n) ==> n == 8,
        call_ensures(DType::buffer_width, (&DType::F8E4M3,), n) ==> n == 1,
        call_ensures(DType::buffer_width, (&DType::F6E2M3,), n) ==> n == 1,
        call_ensures(DType::buffer_width, (&DType::F6E3M2,), n) ==> n == 1,
        call_ensures(DType::buffer_width, (&DType::F4,), n) ==> n == 1,
        call_ensures(DType::buffer_width, (&DType::F8E8M0,), n) ==> n == 1,
{
}

/// The name of each element type.
pub proof fn law_type_names(s: &'static str)
    ensures
        call_ensures(DType::name, (&DType::U8,), s) ==> s@ == "U8"@,
        call_ensures(DType::name, (&DType::U32,), s) ==> s@ == "U32"@,
        call_ensures(DType::name, (&DType::I16,), s) ==> s@ == "I16"@,
        call_ensures(DType::name, (&DType::I32,), s) ==> s@ == "I32"@,
        call_ensures(DType::name, (&DType::I64,), s) ==> s@ == "I64"@,
        call_ensures(DType::name, (&DType::BF16,), s) ==> s@ == "BF16"@,
        call_ensures(DType::name, (&DType::F16,), s) ==> s@ == "F16"@,
        call_ensures(DType::name, (&DType::F32,), s) ==> s@ == "F32"@,
        call_ensures(DType::name, (&DType::F64,), s) ==> s@ == "F64"@,
        call_ensures(DType::name, (&DType::F8E4M3,), s) ==> s@ == "F8E4M3"@,
        call_ensures(DType::name, (&DType::F6E2M3,), s) ==> s@ == "F6E2M3"@,
        call_ensures(DType::name, (&DType::F6E3M2,), s) ==> s@ == "F6E3M2"@,
        call_ensures(DType::name, (&DType::F4,), s) ==> s@ == "F4"@,
        call_ensures(DType::name, (&DType::F8E8M0,), s) ==> s@ == "F8E8M0"@,
{
}

/// Bytes that are read as a typed buffer: a buffer of the type asked for that has the first bytes, as
/// many as its elements take, or the report that there are too few.
pub proof fn law_buffer_read(
    bytes: &[u8],
    dtype: DType,
    layout: &Layout,
    n: usize,
    w: usize,
    r: Result<CpuStorage>,
)
    requires
        call_ensures(bytes_to_cpu_storage, (bytes, dtype, layout), r),
        call_ensures(Shape::elem_count, (&layout.shape,), n),
        call_ensures(DType::buffer_width, (&dtype,), w),
    ensures
        n * w <= bytes@.len() ==> (r matches Ok(cpu) && {
            &&& forall|d: DType| #[trigger] call_ensures(CpuStorage::dtype, (&cpu,), d) ==> d == dtype
            &&& forall|b: Result<Vec<u8>>| #[trigger]
                call_ensures(cpu_storage_to_bytes, (&cpu,), b) ==> (b matches Ok(v) && v@
                    == bytes@.take(n * w))
        }),
        n * w > bytes@.len() ==> (r matches Err(Error::OpenVino(OpenVinoError::Message(s))) && s@
            == "buffer too small: need "@ + decimal((n * w) as nat) + " bytes for "@ + decimal(n as nat)
            + " elements of size "@ + decimal(w as nat) + ", got "@ + decimal(bytes@.len())),
{
    if n * w <= bytes@.len() {
        CpuData::lemma_bytes_kept(bytes@, dtype, n as nat);
    }
}

/// The check of a length: it fails if and only if the bytes are too few, and says so.
pub proof fn law_length_check(bytes: &[u8], n: usize, w: usize, r: Result<()>)
    requires
        call_ensures(check_len, (bytes, n, w), r),
    ensures
        n * w <= bytes@.len() ==> r is Ok,
        n * w > bytes@.len() ==> (r matches Err(Error::OpenVino(OpenVinoError::Message(s))) && s@
            == "buffer too small: need "@ + decimal((n * w) as nat) + " bytes for "@ + decimal(n as nat)
            + " elements of size "@ + decimal(w as nat) + ", got "@ + decimal(bytes@.len())),
{
}

/// A slice becomes a buffer of its own type with its elements, each at its place.
pub proof fn law_slices_become_buffers(r: CpuStorage)
    ensures
        forall|data: &[u8]| #[trigger]
            call_ensures(<u8 as WithDType>::to_cpu_storage, (data,), r) ==> (r matches CpuStorage::U8(v)
                && v@.len() == data@.len() && forall|i: int| 0 <= i < data@.len() ==> v@[i] == #[trigger] data@[i]),
        forall|data: &[u32]| #[trigger]
            call_ensures(<u32 as WithDType>::to_cpu_storage, (data,), r) ==> (r matches CpuStorage::U32(v)
                && v@.len() == data@.len() && forall|i: int| 0 <= i < data@.len() ==> v@[i] == #[trigger] data@[i]),
        forall|data: &[i16]| #[trigger]
            call_ensures(<i16 as WithDType>::to_cpu_storage, (data,), r) ==> (r matches CpuStorage::I16(v)
                && v@.len() == data@.len() && forall|i: int| 0 <= i < data@.len() ==> v@[i] == #[trigger] data@[i]),
        forall|data: &[i32]| #[trigger]
            call_ensures(<i32 as WithDType>::to_cpu_storage, (data,), r) ==> (r matches CpuStorage::I32(v)
                && v@.len() == data@.len() && forall|i: int| 0 <= i < data@.len() ==> v@[i] == #[trigger] data@[i]),
        forall|data: &[i64]| #[trigger]
            call_ensures(<i64 as WithDType>::to_cpu_storage, (data,), r) ==> (r matches CpuStorage::I64(v)
                && v@.len() == data@.len() && forall|i: int| 0 <= i < data@.len() ==> v@[i] == #[trigger] data@[i]),
{
}

} // verus!
