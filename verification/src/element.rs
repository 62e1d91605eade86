//! The element types that ONNX Runtime reports for values of a session.
use crate::tensor::DType;
use vstd::prelude::*;

verus! {

/// Element type of a native value.
#[derive(Clone, Copy, Debug, PartialEq, Eq, Structural)]
pub enum ElementType {
    /// An IEEE 754 single-precision number.
    Float32,
    /// An unsigned 8-bit integer.
    Uint8,
    /// A signed 8-bit integer.
    Int8,
    /// An unsigned 16-bit integer.
    Uint16,
    /// A signed 16-bit integer.
    Int16,
    /// A signed 32-bit integer.
    Int32,
    /// A signed 64-bit integer.
    Int64,
    /// A string.
    String,
    /// A Boolean.
    Bool,
    /// An IEEE 754 half-precision number.
    Float16,
    /// An IEEE 754 double-precision number.
    Float64,
    /// An unsigned 32-bit integer.
    Uint32,
    /// An unsigned 64-bit integer.
    Uint64,
    /// The upper half of a single-precision number.
    Bfloat16,
    /// Two single-precision numbers.
    Complex64,
    /// Two double-precision numbers.
    Complex128,
    /// An 8-bit number with four exponent bits and no infinities.
    Float8E4M3FN,
    /// An 8-bit number with four exponent bits, no infinities and one zero.
    Float8E4M3FNUZ,
    /// An 8-bit number with five exponent bits.
    Float8E5M2,
    /// An 8-bit number with five exponent bits, no infinities and one zero.
    Float8E5M2FNUZ,
    /// An unsigned 4-bit integer.
    Uint4,
    /// A signed 4-bit integer.
    Int4,
    /// No element type.
    Undefined,
}

impl ElementType {
    /// The type as it reads in messages.
    pub open spec fn name(self) -> Seq<char> {
        match self {
            ElementType::Float32 => "Float32"@,
            ElementType::Uint8 => "Uint8"@,
            ElementType::Int8 => "Int8"@,
            ElementType::Uint16 => "Uint16"@,
            ElementType::Int16 => "Int16"@,
            ElementType::Int32 => "Int32"@,
            ElementType::Int64 => "Int64"@,
            ElementType::String => "String"@,
            ElementType::Bool => "Bool"@,
            ElementType::Float16 => "Float16"@,
            ElementType::Float64 => "Float64"@,
            ElementType::Uint32 => "Uint32"@,
            ElementType::Uint64 => "Uint64"@,
            ElementType::Bfloat16 => "Bfloat16"@,
            ElementType::Complex64 => "Complex64"@,
            ElementType::Complex128 => "Complex128"@,
            ElementType::Float8E4M3FN => "Float8E4M3FN"@,
            ElementType::Float8E4M3FNUZ => "Float8E4M3FNUZ"@,
            ElementType::Float8E5M2 => "Float8E5M2"@,
            ElementType::Float8E5M2FNUZ => "Float8E5M2FNUZ"@,
            ElementType::Uint4 => "Uint4"@,
            ElementType::Int4 => "Int4"@,
            ElementType::Undefined => "Undefined"@,
        }
    }

    /// The type as it reads in messages.
    pub fn text(self) -> (r: &'static str)
        ensures
            r@ == self.name(),
    {
        match self {
            ElementType::Float32 => "Float32",
            ElementType::Uint8 => "Uint8",
            ElementType::Int8 => "Int8",
            ElementType::Uint16 => "Uint16",
            ElementType::Int16 => "Int16",
            ElementType::Int32 => "Int32",
            ElementType::Int64 => "Int64",
            ElementType::String => "String",
            ElementType::Bool => "Bool",
            ElementType::Float16 => "Float16",
            ElementType::Float64 => "Float64",
            ElementType::Uint32 => "Uint32",
            ElementType::Uint64 => "Uint64",
            ElementType::Bfloat16 => "Bfloat16",
            ElementType::Complex64 => "Complex64",
            ElementType::Complex128 => "Complex128",
            ElementType::Float8E4M3FN => "Float8E4M3FN",
            ElementType::Float8E4M3FNUZ => "Float8E4M3FNUZ",
            ElementType::Float8E5M2 => "Float8E5M2",
            ElementType::Float8E5M2FNUZ => "Float8E5M2FNUZ",
            ElementType::Uint4 => "Uint4",
            ElementType::Int4 => "Int4",
            ElementType::Undefined => "Undefined",
        }
    }

    /// The tensor type with these elements, if tensors can have them.
    pub open spec fn tensor_type(self) -> Option<DType> {
        match self {
            ElementType::Float32 => Some(DType::F32),
            ElementType::Uint8 => Some(DType::U8),
            ElementType::Int8 => Some(DType::I8),
            ElementType::Uint16 => Some(DType::U16),
            ElementType::Int16 => Some(DType::I16),
            ElementType::Int32 => Some(DType::I32),
            ElementType::Int64 => Some(DType::I64),
            ElementType::Bool => Some(DType::Bool),
            ElementType::Float16 => Some(DType::F16),
            ElementType::Float64 => Some(DType::F64),
            ElementType::Uint32 => Some(DType::U32),
            ElementType::Uint64 => Some(DType::U64),
            ElementType::Bfloat16 => Some(DType::BF16),
            _ => None,
        }
    }

    /// The tensor type with these elements, if tensors can have them.
    pub fn dtype(self) -> (r: Option<DType>)
        ensures
            r == self.tensor_type(),
    {
        match self {
            ElementType::Float32 => Some(DType::F32),
            ElementType::Uint8 => Some(DType::U8),
            ElementType::Int8 => Some(DType::I8),
            ElementType::Uint16 => Some(DType::U16),
            ElementType::Int16 => Some(DType::I16),
            ElementType::Int32 => Some(DType::I32),
            ElementType::Int64 => Some(DType::I64),
            ElementType::Bool => Some(DType::Bool),
            ElementType::Float16 => Some(DType::F16),
            ElementType::Float64 => Some(DType::F64),
            ElementType::Uint32 => Some(DType::U32),
            ElementType::Uint64 => Some(DType::U64),
            ElementType::Bfloat16 => Some(DType::BF16),
            _ => None,
        }
    }

    /// The bytes of one element; `None` where it has no size of its own or is less
    /// than a byte.
    pub open spec fn whole_bytes(self) -> Option<usize> {
        match self {
            ElementType::Uint8
            | ElementType::Int8
            | ElementType::Bool
            | ElementType::Float8E4M3FN
            | ElementType::Float8E4M3FNUZ
            | ElementType::Float8E5M2
            | ElementType::Float8E5M2FNUZ => Some(1),
            ElementType::Uint16
            | ElementType::Int16
            | ElementType::Float16
            | ElementType::Bfloat16 => Some(2),
            ElementType::Float32
            | ElementType::Int32
            | ElementType::Uint32 => Some(4),
            ElementType::Int64
            | ElementType::Float64
            | ElementType::Uint64
            | ElementType::Complex64 => Some(8),
            ElementType::Complex128 => Some(16),
            _ => None,
        }
    }

    /// The bytes of one element; `None` where it has no size of its own or is less
    /// than a byte.
    pub fn width(self) -> (r: Option<usize>)
        ensures
            r == self.whole_bytes(),
    {
        match self {
            ElementType::Uint8
            | ElementType::Int8
            | ElementType::Bool
            | ElementType::Float8E4M3FN
            | ElementType::Float8E4M3FNUZ
            | ElementType::Float8E5M2
            | ElementType::Float8E5M2FNUZ => Some(1),
            ElementType::Uint16
            | ElementType::Int16
            | ElementType::Float16
            | ElementType::Bfloat16 => Some(2),
            ElementType::Float32
            | ElementType::Int32
            | ElementType::Uint32 => Some(4),
            ElementType::Int64
            | ElementType::Float64
            | ElementType::Uint64
            | ElementType::Complex64 => Some(8),
            ElementType::Complex128 => Some(16),
            _ => None,
        }
    }

    /// The native type of a tensor's elements.
    pub open spec fn native_type(dtype: DType) -> ElementType {
        match dtype {
            DType::F32 => ElementType::Float32,
            DType::U8 => ElementType::Uint8,
            DType::I8 => ElementType::Int8,
            DType::U16 => ElementType::Uint16,
            DType::I16 => ElementType::Int16,
            DType::I32 => ElementType::Int32,
            DType::I64 => ElementType::Int64,
            DType::Bool => ElementType::Bool,
            DType::F16 => ElementType::Float16,
            DType::F64 => ElementType::Float64,
            DType::U32 => ElementType::Uint32,
            DType::U64 => ElementType::Uint64,
            DType::BF16 => ElementType::Bfloat16,
        }
    }

    /// The native type of a tensor's elements.
    pub fn of(dtype: DType) -> (r: ElementType)
        ensures
            r == ElementType::native_type(dtype),
    {
        match dtype {
            DType::F32 => ElementType::Float32,
            DType::U8 => ElementType::Uint8,
            DType::I8 => ElementType::Int8,
            DType::U16 => ElementType::Uint16,
            DType::I16 => ElementType::Int16,
            DType::I32 => ElementType::Int32,
            DType::I64 => ElementType::Int64,
            DType::Bool => ElementType::Bool,
            DType::F16 => ElementType::Float16,
            DType::F64 => ElementType::Float64,
            DType::U32 => ElementType::Uint32,
            DType::U64 => ElementType::Uint64,
            DType::BF16 => ElementType::Bfloat16,
        }
    }
}

/// A tensor's native element type stands for that tensor type and no other, and
/// its elements are whole bytes.
pub proof fn law_native_types_are_exact(dtype: DType)
    ensures
        ElementType::native_type(dtype).tensor_type() == Some(dtype),
        ElementType::native_type(dtype).whole_bytes() is Some,
{
}

} // verus!
