//! Element types of a tensor.
use vstd::prelude::*;

verus! {

/// The element type of a tensor.
#[derive(Clone, Copy, Debug, PartialEq, Eq, Structural)]
pub enum DType {
    U8,
    U32,
    I16,
    I32,
    I64,
    BF16,
    F16,
    F32,
    F64,
    /// Eight-bit float, four exponent and three mantissa bits.
    F8E4M3,
    /// Six-bit float, two exponent and three mantissa bits.
    F6E2M3,
    /// Six-bit float, three exponent and two mantissa bits.
    F6E3M2,
    /// Four-bit float.
    F4,
    /// Eight-bit float, exponent only.
    F8E8M0,
}

impl DType {
    /// The nominal size of one element; a type of fewer than eight bits has none.
    pub open spec fn size(self) -> nat {
        match self {
            DType::U8 | DType::F8E4M3 | DType::F8E8M0 => 1,
            DType::I16 | DType::BF16 | DType::F16 => 2,
            DType::U32 | DType::I32 | DType::F32 => 4,
            DType::I64 | DType::F64 => 8,
            DType::F6E2M3 | DType::F6E3M2 | DType::F4 => 0,
        }
    }

    /// How many bytes one element takes in a buffer of this backend: its size, or one raw byte for
    /// a type of fewer than eight bits.
    pub open spec fn width(self) -> nat {
        match self {
            DType::F6E2M3 | DType::F6E3M2 | DType::F4 => 1,
            _ => self.size(),
        }
    }

    /// Whether elements are uninterpreted bytes that are copied as they are.
    pub open spec fn is_raw(self) -> bool {
        self is F6E2M3 || self is F6E3M2 || self is F4 || self is F8E8M0
    }

    /// How many bytes one element takes in a buffer of this backend.
    pub fn buffer_width(&self) -> (r: usize)
        ensures
            r == self.width(),
            r > 0,
    {
        let size: usize = self.size_in_bytes();
        if size == 0 {
            1
        } else {
            size
        }
    }

    /// The size used by each element in bytes, i.e. 1 for `U8`, 4 for `F32`; zero for the types of
    /// fewer than eight bits.
    pub fn size_in_bytes(&self) -> (r: usize)
        ensures
            r == self.size(),
    {
        match self {
            DType::U8 => 1,
            DType::U32 => 4,
            DType::I16 => 2,
            DType::I32 => 4,
            DType::I64 => 8,
            DType::BF16 => 2,
            DType::F16 => 2,
            DType::F32 => 4,
            DType::F64 => 8,
            DType::F8E4M3 => 1,
            DType::F6E2M3 => 0,
            DType::F6E3M2 => 0,
            DType::F4 => 0,
            DType::F8E8M0 => 1,
        }
    }

    /// The name of the variant.
    pub open spec fn name_text(self) -> Seq<char> {
        match self {
            DType::U8 => "U8"@,
            DType::U32 => "U32"@,
            DType::I16 => "I16"@,
            DType::I32 => "I32"@,
            DType::I64 => "I64"@,
            DType::BF16 => "BF16"@,
            DType::F16 => "F16"@,
            DType::F32 => "F32"@,
            DType::F64 => "F64"@,
            DType::F8E4M3 => "F8E4M3"@,
            DType::F6E2M3 => "F6E2M3"@,
            DType::F6E3M2 => "F6E3M2"@,
            DType::F4 => "F4"@,
            DType::F8E8M0 => "F8E8M0"@,
        }
    }

    /// The name of the variant.
    pub fn name(&self) -> (r: &'static str)
        ensures
            r@ == self.name_text(),
    {
        match self {
            DType::U8 => "U8",
            DType::U32 => "U32",
            DType::I16 => "I16",
            DType::I32 => "I32",
            DType::I64 => "I64",
            DType::BF16 => "BF16",
            DType::F16 => "F16",
            DType::F32 => "F32",
            DType::F64 => "F64",
            DType::F8E4M3 => "F8E4M3",
            DType::F6E2M3 => "F6E2M3",
            DType::F6E3M2 => "F6E3M2",
            DType::F4 => "F4",
            DType::F8E8M0 => "F8E8M0",
        }
    }
}

} // verus!
