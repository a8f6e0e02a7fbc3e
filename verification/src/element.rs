//! Tensor elements and their bytes in a raw buffer.
//!
//! A buffer holds the bytes of each element in little-endian order, which is the memory order of
//! every host that OpenVINO runs on.
use vstd::prelude::*;

verus! {

/// How many values `width` bytes can tell apart.
pub open spec fn capacity(width: nat) -> nat
    decreases width,
{
    if width == 0 {
        1
    } else {
        256 * capacity((width - 1) as nat)
    }
}

/// The number `x` as `width` bytes, lowest first.
pub open spec fn le_bytes(x: nat, width: nat) -> Seq<u8>
    decreases width,
{
    if width == 0 {
        seq![]
    } else {
        seq![(x % 256) as u8] + le_bytes(x / 256, (width - 1) as nat)
    }
}

/// The number that the bytes `b` stand for, lowest first.
pub open spec fn le_value(b: Seq<u8>) -> nat
    decreases b.len(),
{
    if b.len() == 0 {
        0
    } else {
        (b[0] + 256 * le_value(b.drop_first())) as nat
    }
}

pub proof fn lemma_le_bytes_len(x: nat, width: nat)
    ensures
        le_bytes(x, width).len() == width,
    decreases width,
{
    if width > 0 {
        lemma_le_bytes_len(x / 256, (width - 1) as nat);
    }
}

pub proof fn lemma_le_value_bound(b: Seq<u8>)
    ensures
        le_value(b) < capacity(b.len()),
    decreases b.len(),
{
    if b.len() > 0 {
        lemma_le_value_bound(b.drop_first());
    }
}

/// Reading the bytes of a number gives the number back.
pub proof fn lemma_le_value_of_bytes(x: nat, width: nat)
    requires
        x < capacity(width),
    ensures
        le_value(le_bytes(x, width)) == x,
    decreases width,
{
    if width > 0 {
        let rest = le_bytes(x / 256, (width - 1) as nat);
        lemma_le_bytes_len(x / 256, (width - 1) as nat);
        lemma_le_value_of_bytes(x / 256, (width - 1) as nat);
        assert(le_bytes(x, width).drop_first() =~= rest);
    }
}

/// Writing the number that some bytes stand for gives the bytes back.
pub proof fn lemma_le_bytes_of_value(b: Seq<u8>)
    ensures
        le_bytes(le_value(b), b.len()) == b,
    decreases b.len(),
{
    if b.len() > 0 {
        let rest = b.drop_first();
        lemma_le_bytes_of_value(rest);
        let x = le_value(b);
        assert(x % 256 == b[0]);
        assert(x / 256 == le_value(rest));
        assert(seq![b[0]] + rest =~= b);
    }
}

proof fn lemma_capacities()
    ensures
        capacity(1) == 0x100,
        capacity(2) == 0x1_0000,
        capacity(4) == 0x1_0000_0000,
        capacity(8) == 0x1_0000_0000_0000_0000,
{
    reveal_with_fuel(capacity, 9);
}

proof fn lemma_capacity_monotone(a: nat, b: nat)
    requires
        a <= b,
    ensures
        capacity(a) <= capacity(b),
    decreases b,
{
    if a < b {
        lemma_capacity_monotone(a, (b - 1) as nat);
    }
}

fn push_le(out: &mut Vec<u8>, x: u64, width: usize)
    ensures
        final(out)@ == old(out)@ + le_bytes(x as nat, width as nat),
{
    let mut rest: u64 = x;
    let mut i: usize = 0;
    while i < width
        invariant
            i <= width,
            out@ + le_bytes(rest as nat, (width - i) as nat) == old(out)@ + le_bytes(
                x as nat,
                width as nat,
            ),
        decreases width - i,
    {
        let ghost before = out@;
        let ghost tail = le_bytes((rest / 256) as nat, (width - i - 1) as nat);
        out.push((rest % 256) as u8);
        rest = rest / 256;
        i = i + 1;
        assert(out@ + tail =~= before + (seq![out@.last()] + tail));
    }
    assert(out@ + le_bytes(rest as nat, 0) =~= out@);
}

fn read_le(bytes: &[u8], at: usize, width: usize) -> (x: u64)
    requires
        width <= 8,
        at + width <= bytes@.len(),
    ensures
        x as nat == le_value(bytes@.subrange(at as int, at + width)),
{
    let ghost window = bytes@.subrange(at as int, at + width);
    let len: usize = bytes.len();
    let mut x: u64 = 0;
    let mut i: usize = width;
    assert(window.skip(width as int) =~= seq![]);
    while i > 0
        invariant
            i <= width <= 8,
            at + width <= len == bytes@.len(),
            window == bytes@.subrange(at as int, at + width),
            x as nat == le_value(window.skip(i as int)),
        decreases i,
    {
        proof {
            let rest = window.skip(i as int);
            assert(window.skip(i - 1).drop_first() =~= rest);
            assert(window.skip(i - 1)[0] == bytes@[at + i - 1]);
            lemma_le_value_bound(window.skip(i - 1));
            lemma_capacity_monotone(window.skip(i - 1).len(), 8);
            lemma_capacities();
        }
        x = bytes[at + i - 1] as u64 + 256 * x;
        i = i - 1;
    }
    assert(window.skip(0) =~= window);
    x
}

/// Bytes that are all zero stand for zero.
pub proof fn lemma_le_value_of_zeros(b: Seq<u8>)
    requires
        forall|i: int| 0 <= i < b.len() ==> b[i] == 0,
    ensures
        le_value(b) == 0,
    decreases b.len(),
{
    if b.len() > 0 {
        assert(forall|i: int| 0 <= i < b.len() - 1 ==> b.drop_first()[i] == b[i + 1]);
        lemma_le_value_of_zeros(b.drop_first());
    }
}

/// A value of more than one byte that a typed CPU buffer can hold.
pub trait Element: Copy {
    /// How many bytes one element takes.
    spec fn width() -> nat;

    /// The element as a number below `capacity(width())`.
    spec fn pattern(self) -> nat;

    /// The element with the given pattern.
    spec fn from_pattern(p: nat) -> Self;

    proof fn lemma_pattern(self)
        ensures
            self.pattern() < capacity(Self::width()),
            Self::from_pattern(self.pattern()) == self,
    ;

    proof fn lemma_from_pattern(p: nat)
        requires
            p < capacity(Self::width()),
        ensures
            Self::from_pattern(p).pattern() == p,
    ;

    fn size() -> (w: usize)
        ensures
            w == Self::width(),
    ;

    fn push_to(self, out: &mut Vec<u8>)
        ensures
            final(out)@ == old(out)@ + le_bytes(self.pattern(), Self::width()),
    ;

    fn read_from(bytes: &[u8], at: usize) -> (x: Self)
        requires
            at + Self::width() <= bytes@.len(),
        ensures
            x == Self::from_pattern(le_value(bytes@.subrange(at as int, at + Self::width()))),
    ;
}

impl Element for u16 {
    open spec fn width() -> nat {
        2
    }

    open spec fn pattern(self) -> nat {
        self as nat
    }

    open spec fn from_pattern(p: nat) -> Self {
        p as u16
    }

    proof fn lemma_pattern(self) {
        lemma_capacities();
    }

    proof fn lemma_from_pattern(p: nat) {
        lemma_capacities();
    }

    fn size() -> (w: usize) {
        2
    }

    fn push_to(self, out: &mut Vec<u8>) {
        push_le(out, self as u64, 2);
    }

    fn read_from(bytes: &[u8], at: usize) -> (x: Self) {
        proof {
            lemma_le_value_bound(bytes@.subrange(at as int, at + 2));
            lemma_capacities();
        }
        read_le(bytes, at, 2) as u16
    }
}

impl Element for u32 {
    open spec fn width() -> nat {
        4
    }

    open spec fn pattern(self) -> nat {
        self as nat
    }

    open spec fn from_pattern(p: nat) -> Self {
        p as u32
    }

    proof fn lemma_pattern(self) {
        lemma_capacities();
    }

    proof fn lemma_from_pattern(p: nat) {
        lemma_capacities();
    }

    fn size() -> (w: usize) {
        4
    }

    fn push_to(self, out: &mut Vec<u8>) {
        push_le(out, self as u64, 4);
    }

    fn read_from(bytes: &[u8], at: usize) -> (x: Self) {
        proof {
            lemma_le_value_bound(bytes@.subrange(at as int, at + 4));
            lemma_capacities();
        }
        read_le(bytes, at, 4) as u32
    }
}

impl Element for u64 {
    open spec fn width() -> nat {
        8
    }

    open spec fn pattern(self) -> nat {
        self as nat
    }

    open spec fn from_pattern(p: nat) -> Self {
        p as u64
    }

    proof fn lemma_pattern(self) {
        lemma_capacities();
    }

    proof fn lemma_from_pattern(p: nat) {
        lemma_capacities();
    }

    fn size() -> (w: usize) {
        8
    }

    fn push_to(self, out: &mut Vec<u8>) {
        push_le(out, self as u64, 8);
    }

    fn read_from(bytes: &[u8], at: usize) -> (x: Self) {
        proof {
            lemma_le_value_bound(bytes@.subrange(at as int, at + 8));
            lemma_capacities();
        }
        read_le(bytes, at, 8) as u64
    }
}

/// The pattern of a signed element is its two's complement.
impl Element for i16 {
    open spec fn width() -> nat {
        2
    }

    open spec fn pattern(self) -> nat {
        if self < 0 {
            (self + 0x1_0000) as nat
        } else {
            self as nat
        }
    }

    open spec fn from_pattern(p: nat) -> Self {
        if p >= 0x8000 {
            (p - 0x1_0000) as i16
        } else {
            p as i16
        }
    }

    proof fn lemma_pattern(self) {
        lemma_capacities();
    }

    proof fn lemma_from_pattern(p: nat) {
        lemma_capacities();
    }

    fn size() -> (w: usize) {
        2
    }

    fn push_to(self, out: &mut Vec<u8>) {
        let p: i128 = if self < 0 {
            self as i128 + 0x1_0000
        } else {
            self as i128
        };
        push_le(out, p as u64, 2);
    }

    fn read_from(bytes: &[u8], at: usize) -> (x: Self) {
        proof {
            lemma_le_value_bound(bytes@.subrange(at as int, at + 2));
            lemma_capacities();
        }
        let p: i128 = read_le(bytes, at, 2) as i128;
        if p >= 0x8000 {
            (p - 0x1_0000) as i16
        } else {
            p as i16
        }
    }
}

/// The pattern of a signed element is its two's complement.
impl Element for i32 {
    open spec fn width() -> nat {
        4
    }

    open spec fn pattern(self) -> nat {
        if self < 0 {
            (self + 0x1_0000_0000) as nat
        } else {
            self as nat
        }
    }

    open spec fn from_pattern(p: nat) -> Self {
        if p >= 0x8000_0000 {
            (p - 0x1_0000_0000) as i32
        } else {
            p as i32
        }
    }

    proof fn lemma_pattern(self) {
        lemma_capacities();
    }

    proof fn lemma_from_pattern(p: nat) {
        lemma_capacities();
    }

    fn size() -> (w: usize) {
        4
    }

    fn push_to(self, out: &mut Vec<u8>) {
        let p: i128 = if self < 0 {
            self as i128 + 0x1_0000_0000
        } else {
            self as i128
        };
        push_le(out, p as u64, 4);
    }

    fn read_from(bytes: &[u8], at: usize) -> (x: Self) {
        proof {
            lemma_le_value_bound(bytes@.subrange(at as int, at + 4));
            lemma_capacities();
        }
        let p: i128 = read_le(bytes, at, 4) as i128;
        if p >= 0x8000_0000 {
            (p - 0x1_0000_0000) as i32
        } else {
            p as i32
        }
    }
}

/// The pattern of a signed element is its two's complement.
impl Element for i64 {
    open spec fn width() -> nat {
        8
    }

    open spec fn pattern(self) -> nat {
        if self < 0 {
            (self + 0x1_0000_0000_0000_0000) as nat
        } else {
            self as nat
        }
    }

    open spec fn from_pattern(p: nat) -> Self {
        if p >= 0x8000_0000_0000_0000 {
            (p - 0x1_0000_0000_0000_0000) as i64
        } else {
            p as i64
        }
    }

    proof fn lemma_pattern(self) {
        lemma_capacities();
    }

    proof fn lemma_from_pattern(p: nat) {
        lemma_capacities();
    }

    fn size() -> (w: usize) {
        8
    }

    fn push_to(self, out: &mut Vec<u8>) {
        let p: i128 = if self < 0 {
            self as i128 + 0x1_0000_0000_0000_0000
        } else {
            self as i128
        };
        push_le(out, p as u64, 8);
    }

    fn read_from(bytes: &[u8], at: usize) -> (x: Self) {
        proof {
            lemma_le_value_bound(bytes@.subrange(at as int, at + 8));
            lemma_capacities();
        }
        let p: i128 = read_le(bytes, at, 8) as i128;
        if p >= 0x8000_0000_0000_0000 {
            (p - 0x1_0000_0000_0000_0000) as i64
        } else {
            p as i64
        }
    }
}

} // verus!
