//! Dense, contiguous, row-major tensors: types, views and owned storage.
//!
//! Floating-point elements are carried as their bit patterns, so that copies
//! keep every payload and no arithmetic is done on them here.
use crate::error::{failure, optional_items, Error, ErrorView, Fault, NamedFault};
use crate::text::{first_index, same};
use vstd::prelude::*;
use vstd::slice::*;
use vstd::string::*;

verus! {

/// An IEEE 754 single-precision number.
#[derive(Clone, Copy, Debug)]
pub struct Float32 {
    /// The bit pattern.
    pub bits: u32,
}

impl Float32 {
    /// The bit pattern without its sign.
    pub open spec fn magnitude(self) -> int {
        self.bits as int % 0x8000_0000
    }

    /// Whether the number equals `other`: signed zeros are equal, and what is
    /// not a number equals nothing.
    pub open spec fn same_number(self, other: Float32) -> bool {
        &&& self.magnitude() <= 0x7f80_0000
        &&& other.magnitude() <= 0x7f80_0000
        &&& self.bits == other.bits || (self.magnitude() == 0 && other.magnitude() == 0)
    }
}

impl PartialEq for Float32 {
    fn eq(&self, other: &Self) -> (same: bool) {
        let a: u32 = self.bits % 0x8000_0000;
        let b: u32 = other.bits % 0x8000_0000;
        a <= 0x7f80_0000 && b <= 0x7f80_0000 && (self.bits == other.bits || (a == 0 && b == 0))
    }
}

impl vstd::std_specs::cmp::PartialEqSpecImpl for Float32 {
    open spec fn obeys_eq_spec() -> bool {
        true
    }

    open spec fn eq_spec(&self, other: &Self) -> bool {
        self.same_number(*other)
    }
}

/// An IEEE 754 double-precision number.
#[derive(Clone, Copy, Debug)]
pub struct Float64 {
    /// The bit pattern.
    pub bits: u64,
}

impl Float64 {
    /// The bit pattern without its sign.
    pub open spec fn magnitude(self) -> int {
        self.bits as int % 0x8000_0000_0000_0000
    }

    /// Whether the number equals `other`: signed zeros are equal, and what is
    /// not a number equals nothing.
    pub open spec fn same_number(self, other: Float64) -> bool {
        &&& self.magnitude() <= 0x7ff0_0000_0000_0000
        &&& other.magnitude() <= 0x7ff0_0000_0000_0000
        &&& self.bits == other.bits || (self.magnitude() == 0 && other.magnitude() == 0)
    }
}

impl PartialEq for Float64 {
    fn eq(&self, other: &Self) -> (same: bool) {
        let a: u64 = self.bits % 0x8000_0000_0000_0000;
        let b: u64 = other.bits % 0x8000_0000_0000_0000;
        a <= 0x7ff0_0000_0000_0000 && b <= 0x7ff0_0000_0000_0000 && (self.bits == other.bits || (a == 0 && b == 0))
    }
}

impl vstd::std_specs::cmp::PartialEqSpecImpl for Float64 {
    open spec fn obeys_eq_spec() -> bool {
        true
    }

    open spec fn eq_spec(&self, other: &Self) -> bool {
        self.same_number(*other)
    }
}

/// An IEEE 754 half-precision number.
#[derive(Clone, Copy, Debug)]
pub struct Float16 {
    /// The bit pattern.
    pub bits: u16,
}

impl Float16 {
    /// The bit pattern without its sign.
    pub open spec fn magnitude(self) -> int {
        self.bits as int % 0x8000
    }

    /// Whether the number equals `other`: signed zeros are equal, and what is
    /// not a number equals nothing.
    pub open spec fn same_number(self, other: Float16) -> bool {
        &&& self.magnitude() <= 0x7c00
        &&& other.magnitude() <= 0x7c00
        &&& self.bits == other.bits || (self.magnitude() == 0 && other.magnitude() == 0)
    }
}

impl PartialEq for Float16 {
    fn eq(&self, other: &Self) -> (same: bool) {
        let a: u16 = self.bits % 0x8000;
        let b: u16 = other.bits % 0x8000;
        a <= 0x7c00 && b <= 0x7c00 && (self.bits == other.bits || (a == 0 && b == 0))
    }
}

impl vstd::std_specs::cmp::PartialEqSpecImpl for Float16 {
    open spec fn obeys_eq_spec() -> bool {
        true
    }

    open spec fn eq_spec(&self, other: &Self) -> bool {
        self.same_number(*other)
    }
}

/// A number in the upper half of a single-precision pattern.
#[derive(Clone, Copy, Debug)]
pub struct BFloat16 {
    /// The bit pattern.
    pub bits: u16,
}

impl BFloat16 {
    /// The bit pattern without its sign.
    pub open spec fn magnitude(self) -> int {
        self.bits as int % 0x8000
    }

    /// Whether the number equals `other`: signed zeros are equal, and what is
    /// not a number equals nothing.
    pub open spec fn same_number(self, other: BFloat16) -> bool {
        &&& self.magnitude() <= 0x7f80
        &&& other.magnitude() <= 0x7f80
        &&& self.bits == other.bits || (self.magnitude() == 0 && other.magnitude() == 0)
    }
}

impl PartialEq for BFloat16 {
    fn eq(&self, other: &Self) -> (same: bool) {
        let a: u16 = self.bits % 0x8000;
        let b: u16 = other.bits % 0x8000;
        a <= 0x7f80 && b <= 0x7f80 && (self.bits == other.bits || (a == 0 && b == 0))
    }
}

impl vstd::std_specs::cmp::PartialEqSpecImpl for BFloat16 {
    open spec fn obeys_eq_spec() -> bool {
        true
    }

    open spec fn eq_spec(&self, other: &Self) -> bool {
        self.same_number(*other)
    }
}

/// Supported dense tensor element types.
#[derive(Clone, Copy, Debug, PartialEq, Eq, Structural)]
pub enum DType {
    /// Elements of type `Float32`.
    F32,
    /// Elements of type `Float64`.
    F64,
    /// Elements of type `Float16`.
    F16,
    /// Elements of type `BFloat16`.
    BF16,
    /// Elements of type `i64`.
    I64,
    /// Elements of type `i32`.
    I32,
    /// Elements of type `i16`.
    I16,
    /// Elements of type `i8`.
    I8,
    /// Elements of type `u64`.
    U64,
    /// Elements of type `u32`.
    U32,
    /// Elements of type `u16`.
    U16,
    /// Elements of type `u8`.
    U8,
    /// Elements of type `bool`.
    Bool,
}

impl DType {
    /// The type as it reads in messages.
    pub open spec fn name(self) -> Seq<char> {
        match self {
            DType::F32 => "F32"@,
            DType::F64 => "F64"@,
            DType::F16 => "F16"@,
            DType::BF16 => "BF16"@,
            DType::I64 => "I64"@,
            DType::I32 => "I32"@,
            DType::I16 => "I16"@,
            DType::I8 => "I8"@,
            DType::U64 => "U64"@,
            DType::U32 => "U32"@,
            DType::U16 => "U16"@,
            DType::U8 => "U8"@,
            DType::Bool => "Bool"@,
        }
    }

    /// The type as it reads in messages.
    pub fn text(self) -> (r: &'static str)
        ensures
            r@ == self.name(),
    {
        match self {
            DType::F32 => "F32",
            DType::F64 => "F64",
            DType::F16 => "F16",
            DType::BF16 => "BF16",
            DType::I64 => "I64",
            DType::I32 => "I32",
            DType::I16 => "I16",
            DType::I8 => "I8",
            DType::U64 => "U64",
            DType::U32 => "U32",
            DType::U16 => "U16",
            DType::U8 => "U8",
            DType::Bool => "Bool",
        }
    }
}

/// Typed elements, independent of who stores them.
pub enum Elements {
    F32(Seq<Float32>),
    F64(Seq<Float64>),
    F16(Seq<Float16>),
    BF16(Seq<BFloat16>),
    I64(Seq<i64>),
    I32(Seq<i32>),
    I16(Seq<i16>),
    I8(Seq<i8>),
    U64(Seq<u64>),
    U32(Seq<u32>),
    U16(Seq<u16>),
    U8(Seq<u8>),
    Bool(Seq<bool>),
}

impl Elements {
    /// Element type.
    pub open spec fn dtype(self) -> DType {
        match self {
            Elements::F32(_) => DType::F32,
            Elements::F64(_) => DType::F64,
            Elements::F16(_) => DType::F16,
            Elements::BF16(_) => DType::BF16,
            Elements::I64(_) => DType::I64,
            Elements::I32(_) => DType::I32,
            Elements::I16(_) => DType::I16,
            Elements::I8(_) => DType::I8,
            Elements::U64(_) => DType::U64,
            Elements::U32(_) => DType::U32,
            Elements::U16(_) => DType::U16,
            Elements::U8(_) => DType::U8,
            Elements::Bool(_) => DType::Bool,
        }
    }

    /// Number of elements.
    pub open spec fn len(self) -> nat {
        match self {
            Elements::F32(x) => x.len(),
            Elements::F64(x) => x.len(),
            Elements::F16(x) => x.len(),
            Elements::BF16(x) => x.len(),
            Elements::I64(x) => x.len(),
            Elements::I32(x) => x.len(),
            Elements::I16(x) => x.len(),
            Elements::I8(x) => x.len(),
            Elements::U64(x) => x.len(),
            Elements::U32(x) => x.len(),
            Elements::U16(x) => x.len(),
            Elements::U8(x) => x.len(),
            Elements::Bool(x) => x.len(),
        }
    }

    /// `n` zero elements: for Booleans, `n` times `false`.
    pub open spec fn zeros(dtype: DType, n: nat) -> Elements {
        match dtype {
            DType::F32 => Elements::F32(Seq::new(n, |i: int| Float32 { bits: 0 })),
            DType::F64 => Elements::F64(Seq::new(n, |i: int| Float64 { bits: 0 })),
            DType::F16 => Elements::F16(Seq::new(n, |i: int| Float16 { bits: 0 })),
            DType::BF16 => Elements::BF16(Seq::new(n, |i: int| BFloat16 { bits: 0 })),
            DType::I64 => Elements::I64(Seq::new(n, |i: int| 0i64)),
            DType::I32 => Elements::I32(Seq::new(n, |i: int| 0i32)),
            DType::I16 => Elements::I16(Seq::new(n, |i: int| 0i16)),
            DType::I8 => Elements::I8(Seq::new(n, |i: int| 0i8)),
            DType::U64 => Elements::U64(Seq::new(n, |i: int| 0u64)),
            DType::U32 => Elements::U32(Seq::new(n, |i: int| 0u32)),
            DType::U16 => Elements::U16(Seq::new(n, |i: int| 0u16)),
            DType::U8 => Elements::U8(Seq::new(n, |i: int| 0u8)),
            DType::Bool => Elements::Bool(Seq::new(n, |i: int| false)),
        }
    }
}

/// Borrowed, contiguous tensor elements.
#[derive(Clone, Copy, Debug)]
pub enum TensorData<'a> {
    /// Borrowed `Float32` elements.
    F32(&'a [Float32]),
    /// Borrowed `Float64` elements.
    F64(&'a [Float64]),
    /// Borrowed `Float16` elements.
    F16(&'a [Float16]),
    /// Borrowed `BFloat16` elements.
    BF16(&'a [BFloat16]),
    /// Borrowed `i64` elements.
    I64(&'a [i64]),
    /// Borrowed `i32` elements.
    I32(&'a [i32]),
    /// Borrowed `i16` elements.
    I16(&'a [i16]),
    /// Borrowed `i8` elements.
    I8(&'a [i8]),
    /// Borrowed `u64` elements.
    U64(&'a [u64]),
    /// Borrowed `u32` elements.
    U32(&'a [u32]),
    /// Borrowed `u16` elements.
    U16(&'a [u16]),
    /// Borrowed `u8` elements.
    U8(&'a [u8]),
    /// Borrowed `bool` elements.
    Bool(&'a [bool]),
}

/// Exclusively borrowed, contiguous tensor elements.
#[derive(Debug)]
pub enum TensorDataMut<'a> {
    /// Mutable `Float32` elements.
    F32(&'a mut [Float32]),
    /// Mutable `Float64` elements.
    F64(&'a mut [Float64]),
    /// Mutable `Float16` elements.
    F16(&'a mut [Float16]),
    /// Mutable `BFloat16` elements.
    BF16(&'a mut [BFloat16]),
    /// Mutable `i64` elements.
    I64(&'a mut [i64]),
    /// Mutable `i32` elements.
    I32(&'a mut [i32]),
    /// Mutable `i16` elements.
    I16(&'a mut [i16]),
    /// Mutable `i8` elements.
    I8(&'a mut [i8]),
    /// Mutable `u64` elements.
    U64(&'a mut [u64]),
    /// Mutable `u32` elements.
    U32(&'a mut [u32]),
    /// Mutable `u16` elements.
    U16(&'a mut [u16]),
    /// Mutable `u8` elements.
    U8(&'a mut [u8]),
    /// Mutable `bool` elements.
    Bool(&'a mut [bool]),
}

/// Owned, contiguous tensor elements stored on the CPU.
#[derive(Debug, PartialEq)]
pub enum TensorBuffer {
    /// Owned `Float32` elements.
    F32(Vec<Float32>),
    /// Owned `Float64` elements.
    F64(Vec<Float64>),
    /// Owned `Float16` elements.
    F16(Vec<Float16>),
    /// Owned `BFloat16` elements.
    BF16(Vec<BFloat16>),
    /// Owned `i64` elements.
    I64(Vec<i64>),
    /// Owned `i32` elements.
    I32(Vec<i32>),
    /// Owned `i16` elements.
    I16(Vec<i16>),
    /// Owned `i8` elements.
    I8(Vec<i8>),
    /// Owned `u64` elements.
    U64(Vec<u64>),
    /// Owned `u32` elements.
    U32(Vec<u32>),
    /// Owned `u16` elements.
    U16(Vec<u16>),
    /// Owned `u8` elements.
    U8(Vec<u8>),
    /// Owned `bool` elements.
    Bool(Vec<bool>),
}

fn overwrite<T: Copy>(target: &mut [T], source: &[T])
    requires
        old(target)@.len() == source@.len(),
    ensures
        final(target)@ == source@,
{
    let n: usize = source.len();
    for i in 0..n
        invariant
            n == source@.len(),
            target@.len() == n,
            forall|j: int| 0 <= j < i ==> target@[j] == source@[j],
    {
        target[i] = source[i];
    }
    assert(target@ =~= source@);
}

impl<'a> TensorData<'a> {
    /// The elements.
    pub open spec fn contents(self) -> Elements {
        match self {
            TensorData::F32(x) => Elements::F32(x@),
            TensorData::F64(x) => Elements::F64(x@),
            TensorData::F16(x) => Elements::F16(x@),
            TensorData::BF16(x) => Elements::BF16(x@),
            TensorData::I64(x) => Elements::I64(x@),
            TensorData::I32(x) => Elements::I32(x@),
            TensorData::I16(x) => Elements::I16(x@),
            TensorData::I8(x) => Elements::I8(x@),
            TensorData::U64(x) => Elements::U64(x@),
            TensorData::U32(x) => Elements::U32(x@),
            TensorData::U16(x) => Elements::U16(x@),
            TensorData::U8(x) => Elements::U8(x@),
            TensorData::Bool(x) => Elements::Bool(x@),
        }
    }

    /// Element type of these elements.
    pub fn dtype(&self) -> (r: DType)
        ensures
            r == self.contents().dtype(),
    {
        match self {
            TensorData::F32(_) => DType::F32,
            TensorData::F64(_) => DType::F64,
            TensorData::F16(_) => DType::F16,
            TensorData::BF16(_) => DType::BF16,
            TensorData::I64(_) => DType::I64,
            TensorData::I32(_) => DType::I32,
            TensorData::I16(_) => DType::I16,
            TensorData::I8(_) => DType::I8,
            TensorData::U64(_) => DType::U64,
            TensorData::U32(_) => DType::U32,
            TensorData::U16(_) => DType::U16,
            TensorData::U8(_) => DType::U8,
            TensorData::Bool(_) => DType::Bool,
        }
    }

    /// Number of elements, not bytes.
    pub fn len(&self) -> (n: usize)
        ensures
            n == self.contents().len(),
    {
        match self {
            TensorData::F32(x) => x.len(),
            TensorData::F64(x) => x.len(),
            TensorData::F16(x) => x.len(),
            TensorData::BF16(x) => x.len(),
            TensorData::I64(x) => x.len(),
            TensorData::I32(x) => x.len(),
            TensorData::I16(x) => x.len(),
            TensorData::I8(x) => x.len(),
            TensorData::U64(x) => x.len(),
            TensorData::U32(x) => x.len(),
            TensorData::U16(x) => x.len(),
            TensorData::U8(x) => x.len(),
            TensorData::Bool(x) => x.len(),
        }
    }

    /// Whether there are no elements.
    pub fn is_empty(&self) -> (r: bool)
        ensures
            r == (self.contents().len() == 0),
    {
        self.len() == 0
    }

    /// Copy the elements into an owned CPU buffer.
    pub fn to_owned(self) -> (r: TensorBuffer)
        ensures
            r.contents() == self.contents(),
    {
        match self {
            TensorData::F32(x) => TensorBuffer::F32(slice_to_vec(x)),
            TensorData::F64(x) => TensorBuffer::F64(slice_to_vec(x)),
            TensorData::F16(x) => TensorBuffer::F16(slice_to_vec(x)),
            TensorData::BF16(x) => TensorBuffer::BF16(slice_to_vec(x)),
            TensorData::I64(x) => TensorBuffer::I64(slice_to_vec(x)),
            TensorData::I32(x) => TensorBuffer::I32(slice_to_vec(x)),
            TensorData::I16(x) => TensorBuffer::I16(slice_to_vec(x)),
            TensorData::I8(x) => TensorBuffer::I8(slice_to_vec(x)),
            TensorData::U64(x) => TensorBuffer::U64(slice_to_vec(x)),
            TensorData::U32(x) => TensorBuffer::U32(slice_to_vec(x)),
            TensorData::U16(x) => TensorBuffer::U16(slice_to_vec(x)),
            TensorData::U8(x) => TensorBuffer::U8(slice_to_vec(x)),
            TensorData::Bool(x) => TensorBuffer::Bool(slice_to_vec(x)),
        }
    }
}

impl<'a> TensorDataMut<'a> {
    /// The elements.
    pub open spec fn contents(self) -> Elements {
        match self {
            TensorDataMut::F32(x) => Elements::F32(x@),
            TensorDataMut::F64(x) => Elements::F64(x@),
            TensorDataMut::F16(x) => Elements::F16(x@),
            TensorDataMut::BF16(x) => Elements::BF16(x@),
            TensorDataMut::I64(x) => Elements::I64(x@),
            TensorDataMut::I32(x) => Elements::I32(x@),
            TensorDataMut::I16(x) => Elements::I16(x@),
            TensorDataMut::I8(x) => Elements::I8(x@),
            TensorDataMut::U64(x) => Elements::U64(x@),
            TensorDataMut::U32(x) => Elements::U32(x@),
            TensorDataMut::U16(x) => Elements::U16(x@),
            TensorDataMut::U8(x) => Elements::U8(x@),
            TensorDataMut::Bool(x) => Elements::Bool(x@),
        }
    }

    /// Element type of these elements.
    pub fn dtype(&self) -> (r: DType)
        ensures
            r == self.contents().dtype(),
    {
        match self {
            TensorDataMut::F32(_) => DType::F32,
            TensorDataMut::F64(_) => DType::F64,
            TensorDataMut::F16(_) => DType::F16,
            TensorDataMut::BF16(_) => DType::BF16,
            TensorDataMut::I64(_) => DType::I64,
            TensorDataMut::I32(_) => DType::I32,
            TensorDataMut::I16(_) => DType::I16,
            TensorDataMut::I8(_) => DType::I8,
            TensorDataMut::U64(_) => DType::U64,
            TensorDataMut::U32(_) => DType::U32,
            TensorDataMut::U16(_) => DType::U16,
            TensorDataMut::U8(_) => DType::U8,
            TensorDataMut::Bool(_) => DType::Bool,
        }
    }

    /// Number of elements, not bytes.
    pub fn len(&self) -> (n: usize)
        ensures
            n == self.contents().len(),
    {
        match self {
            TensorDataMut::F32(x) => x.len(),
            TensorDataMut::F64(x) => x.len(),
            TensorDataMut::F16(x) => x.len(),
            TensorDataMut::BF16(x) => x.len(),
            TensorDataMut::I64(x) => x.len(),
            TensorDataMut::I32(x) => x.len(),
            TensorDataMut::I16(x) => x.len(),
            TensorDataMut::I8(x) => x.len(),
            TensorDataMut::U64(x) => x.len(),
            TensorDataMut::U32(x) => x.len(),
            TensorDataMut::U16(x) => x.len(),
            TensorDataMut::U8(x) => x.len(),
            TensorDataMut::Bool(x) => x.len(),
        }
    }

    /// Whether there are no elements.
    pub fn is_empty(&self) -> (r: bool)
        ensures
            r == (self.contents().len() == 0),
    {
        self.len() == 0
    }

    /// Copy elements after checking that types and lengths match. Nothing is
    /// written where they do not.
    pub fn copy_from(&mut self, source: TensorData<'_>) -> (r: Result<(), Error>)
        ensures
            failure(r) == copy_fault(old(self).contents(), source.contents()),
            final(self).contents() == if r is Ok {
                source.contents()
            } else {
                old(self).contents()
            },
            match (*old(self), *final(self)) {
                (TensorDataMut::F32(a), TensorDataMut::F32(b)) => final(a)@ == final(b)@,
                (TensorDataMut::F64(a), TensorDataMut::F64(b)) => final(a)@ == final(b)@,
                (TensorDataMut::F16(a), TensorDataMut::F16(b)) => final(a)@ == final(b)@,
                (TensorDataMut::BF16(a), TensorDataMut::BF16(b)) => final(a)@ == final(b)@,
                (TensorDataMut::I64(a), TensorDataMut::I64(b)) => final(a)@ == final(b)@,
                (TensorDataMut::I32(a), TensorDataMut::I32(b)) => final(a)@ == final(b)@,
                (TensorDataMut::I16(a), TensorDataMut::I16(b)) => final(a)@ == final(b)@,
                (TensorDataMut::I8(a), TensorDataMut::I8(b)) => final(a)@ == final(b)@,
                (TensorDataMut::U64(a), TensorDataMut::U64(b)) => final(a)@ == final(b)@,
                (TensorDataMut::U32(a), TensorDataMut::U32(b)) => final(a)@ == final(b)@,
                (TensorDataMut::U16(a), TensorDataMut::U16(b)) => final(a)@ == final(b)@,
                (TensorDataMut::U8(a), TensorDataMut::U8(b)) => final(a)@ == final(b)@,
                (TensorDataMut::Bool(a), TensorDataMut::Bool(b)) => final(a)@ == final(b)@,
                _ => false,
            },
    {
        if self.len() != source.len() {
            return Err(Error::Fault(Fault::OutputBufferLength));
        }
        match (self, source) {
            (TensorDataMut::F32(x), TensorData::F32(y)) => overwrite(x, y),
            (TensorDataMut::F64(x), TensorData::F64(y)) => overwrite(x, y),
            (TensorDataMut::F16(x), TensorData::F16(y)) => overwrite(x, y),
            (TensorDataMut::BF16(x), TensorData::BF16(y)) => overwrite(x, y),
            (TensorDataMut::I64(x), TensorData::I64(y)) => overwrite(x, y),
            (TensorDataMut::I32(x), TensorData::I32(y)) => overwrite(x, y),
            (TensorDataMut::I16(x), TensorData::I16(y)) => overwrite(x, y),
            (TensorDataMut::I8(x), TensorData::I8(y)) => overwrite(x, y),
            (TensorDataMut::U64(x), TensorData::U64(y)) => overwrite(x, y),
            (TensorDataMut::U32(x), TensorData::U32(y)) => overwrite(x, y),
            (TensorDataMut::U16(x), TensorData::U16(y)) => overwrite(x, y),
            (TensorDataMut::U8(x), TensorData::U8(y)) => overwrite(x, y),
            (TensorDataMut::Bool(x), TensorData::Bool(y)) => overwrite(x, y),
            _ => {
                return Err(Error::Fault(Fault::OutputBufferType));
            },
        }
        Ok(())
    }
}

/// Why elements cannot be copied over others: first their lengths are compared,
/// then their types.
pub open spec fn copy_fault(target: Elements, source: Elements) -> Option<ErrorView> {
    if target.len() != source.len() {
        Some(ErrorView::Fault(Fault::OutputBufferLength))
    } else if target.dtype() != source.dtype() {
        Some(ErrorView::Fault(Fault::OutputBufferType))
    } else {
        None
    }
}

impl Clone for TensorBuffer {
    fn clone(&self) -> (r: Self)
        ensures
            r.contents() == self.contents(),
    {
        self.view().to_owned()
    }
}

impl TensorBuffer {
    /// The elements.
    pub open spec fn contents(self) -> Elements {
        match self {
            TensorBuffer::F32(x) => Elements::F32(x@),
            TensorBuffer::F64(x) => Elements::F64(x@),
            TensorBuffer::F16(x) => Elements::F16(x@),
            TensorBuffer::BF16(x) => Elements::BF16(x@),
            TensorBuffer::I64(x) => Elements::I64(x@),
            TensorBuffer::I32(x) => Elements::I32(x@),
            TensorBuffer::I16(x) => Elements::I16(x@),
            TensorBuffer::I8(x) => Elements::I8(x@),
            TensorBuffer::U64(x) => Elements::U64(x@),
            TensorBuffer::U32(x) => Elements::U32(x@),
            TensorBuffer::U16(x) => Elements::U16(x@),
            TensorBuffer::U8(x) => Elements::U8(x@),
            TensorBuffer::Bool(x) => Elements::Bool(x@),
        }
    }

    /// Element type of these elements.
    pub fn dtype(&self) -> (r: DType)
        ensures
            r == self.contents().dtype(),
    {
        match self {
            TensorBuffer::F32(_) => DType::F32,
            TensorBuffer::F64(_) => DType::F64,
            TensorBuffer::F16(_) => DType::F16,
            TensorBuffer::BF16(_) => DType::BF16,
            TensorBuffer::I64(_) => DType::I64,
            TensorBuffer::I32(_) => DType::I32,
            TensorBuffer::I16(_) => DType::I16,
            TensorBuffer::I8(_) => DType::I8,
            TensorBuffer::U64(_) => DType::U64,
            TensorBuffer::U32(_) => DType::U32,
            TensorBuffer::U16(_) => DType::U16,
            TensorBuffer::U8(_) => DType::U8,
            TensorBuffer::Bool(_) => DType::Bool,
        }
    }

    /// Number of elements, not bytes.
    pub fn len(&self) -> (n: usize)
        ensures
            n == self.contents().len(),
    {
        match self {
            TensorBuffer::F32(x) => x.len(),
            TensorBuffer::F64(x) => x.len(),
            TensorBuffer::F16(x) => x.len(),
            TensorBuffer::BF16(x) => x.len(),
            TensorBuffer::I64(x) => x.len(),
            TensorBuffer::I32(x) => x.len(),
            TensorBuffer::I16(x) => x.len(),
            TensorBuffer::I8(x) => x.len(),
            TensorBuffer::U64(x) => x.len(),
            TensorBuffer::U32(x) => x.len(),
            TensorBuffer::U16(x) => x.len(),
            TensorBuffer::U8(x) => x.len(),
            TensorBuffer::Bool(x) => x.len(),
        }
    }

    /// Whether there are no elements.
    pub fn is_empty(&self) -> (r: bool)
        ensures
            r == (self.contents().len() == 0),
    {
        self.len() == 0
    }

    /// A buffer of `n` zero elements.
    pub fn zeros(dtype: DType, n: usize) -> (r: TensorBuffer)
        ensures
            r.contents() == Elements::zeros(dtype, n as nat),
    {
        match dtype {
            DType::F32 => {
                let x: Vec<Float32> = vec![Float32 { bits: 0 }; n];
                assert(x@ =~= Elements::zeros(dtype, n as nat)->F32_0);
                TensorBuffer::F32(x)
            },
            DType::F64 => {
                let x: Vec<Float64> = vec![Float64 { bits: 0 }; n];
                assert(x@ =~= Elements::zeros(dtype, n as nat)->F64_0);
                TensorBuffer::F64(x)
            },
            DType::F16 => {
                let x: Vec<Float16> = vec![Float16 { bits: 0 }; n];
                assert(x@ =~= Elements::zeros(dtype, n as nat)->F16_0);
                TensorBuffer::F16(x)
            },
            DType::BF16 => {
                let x: Vec<BFloat16> = vec![BFloat16 { bits: 0 }; n];
                assert(x@ =~= Elements::zeros(dtype, n as nat)->BF16_0);
                TensorBuffer::BF16(x)
            },
            DType::I64 => {
                let x: Vec<i64> = vec![0i64; n];
                assert(x@ =~= Elements::zeros(dtype, n as nat)->I64_0);
                TensorBuffer::I64(x)
            },
            DType::I32 => {
                let x: Vec<i32> = vec![0i32; n];
                assert(x@ =~= Elements::zeros(dtype, n as nat)->I32_0);
                TensorBuffer::I32(x)
            },
            DType::I16 => {
                let x: Vec<i16> = vec![0i16; n];
                assert(x@ =~= Elements::zeros(dtype, n as nat)->I16_0);
                TensorBuffer::I16(x)
            },
            DType::I8 => {
                let x: Vec<i8> = vec![0i8; n];
                assert(x@ =~= Elements::zeros(dtype, n as nat)->I8_0);
                TensorBuffer::I8(x)
            },
            DType::U64 => {
                let x: Vec<u64> = vec![0u64; n];
                assert(x@ =~= Elements::zeros(dtype, n as nat)->U64_0);
                TensorBuffer::U64(x)
            },
            DType::U32 => {
                let x: Vec<u32> = vec![0u32; n];
                assert(x@ =~= Elements::zeros(dtype, n as nat)->U32_0);
                TensorBuffer::U32(x)
            },
            DType::U16 => {
                let x: Vec<u16> = vec![0u16; n];
                assert(x@ =~= Elements::zeros(dtype, n as nat)->U16_0);
                TensorBuffer::U16(x)
            },
            DType::U8 => {
                let x: Vec<u8> = vec![0u8; n];
                assert(x@ =~= Elements::zeros(dtype, n as nat)->U8_0);
                TensorBuffer::U8(x)
            },
            DType::Bool => {
                let x: Vec<bool> = vec![false; n];
                assert(x@ =~= Elements::zeros(dtype, n as nat)->Bool_0);
                TensorBuffer::Bool(x)
            },
        }
    }

    /// Borrow the elements without copying.
    pub fn view(&self) -> (r: TensorData<'_>)
        ensures
            r.contents() == self.contents(),
    {
        match self {
            TensorBuffer::F32(x) => TensorData::F32(x.as_slice()),
            TensorBuffer::F64(x) => TensorData::F64(x.as_slice()),
            TensorBuffer::F16(x) => TensorData::F16(x.as_slice()),
            TensorBuffer::BF16(x) => TensorData::BF16(x.as_slice()),
            TensorBuffer::I64(x) => TensorData::I64(x.as_slice()),
            TensorBuffer::I32(x) => TensorData::I32(x.as_slice()),
            TensorBuffer::I16(x) => TensorData::I16(x.as_slice()),
            TensorBuffer::I8(x) => TensorData::I8(x.as_slice()),
            TensorBuffer::U64(x) => TensorData::U64(x.as_slice()),
            TensorBuffer::U32(x) => TensorData::U32(x.as_slice()),
            TensorBuffer::U16(x) => TensorData::U16(x.as_slice()),
            TensorBuffer::U8(x) => TensorData::U8(x.as_slice()),
            TensorBuffer::Bool(x) => TensorData::Bool(x.as_slice()),
        }
    }

    /// Borrow the elements for mutation without copying. What the borrower leaves
    /// in them is what the buffer holds afterwards.
    pub fn view_mut(&mut self) -> (r: TensorDataMut<'_>)
        ensures
            r.contents() == old(self).contents(),
            match (r, *final(self)) {
                (TensorDataMut::F32(a), TensorBuffer::F32(b)) => final(a)@ == b@,
                (TensorDataMut::F64(a), TensorBuffer::F64(b)) => final(a)@ == b@,
                (TensorDataMut::F16(a), TensorBuffer::F16(b)) => final(a)@ == b@,
                (TensorDataMut::BF16(a), TensorBuffer::BF16(b)) => final(a)@ == b@,
                (TensorDataMut::I64(a), TensorBuffer::I64(b)) => final(a)@ == b@,
                (TensorDataMut::I32(a), TensorBuffer::I32(b)) => final(a)@ == b@,
                (TensorDataMut::I16(a), TensorBuffer::I16(b)) => final(a)@ == b@,
                (TensorDataMut::I8(a), TensorBuffer::I8(b)) => final(a)@ == b@,
                (TensorDataMut::U64(a), TensorBuffer::U64(b)) => final(a)@ == b@,
                (TensorDataMut::U32(a), TensorBuffer::U32(b)) => final(a)@ == b@,
                (TensorDataMut::U16(a), TensorBuffer::U16(b)) => final(a)@ == b@,
                (TensorDataMut::U8(a), TensorBuffer::U8(b)) => final(a)@ == b@,
                (TensorDataMut::Bool(a), TensorBuffer::Bool(b)) => final(a)@ == b@,
                _ => false,
            },
    {
        match self {
            TensorBuffer::F32(x) => TensorDataMut::F32(x.as_mut_slice()),
            TensorBuffer::F64(x) => TensorDataMut::F64(x.as_mut_slice()),
            TensorBuffer::F16(x) => TensorDataMut::F16(x.as_mut_slice()),
            TensorBuffer::BF16(x) => TensorDataMut::BF16(x.as_mut_slice()),
            TensorBuffer::I64(x) => TensorDataMut::I64(x.as_mut_slice()),
            TensorBuffer::I32(x) => TensorDataMut::I32(x.as_mut_slice()),
            TensorBuffer::I16(x) => TensorDataMut::I16(x.as_mut_slice()),
            TensorBuffer::I8(x) => TensorDataMut::I8(x.as_mut_slice()),
            TensorBuffer::U64(x) => TensorDataMut::U64(x.as_mut_slice()),
            TensorBuffer::U32(x) => TensorDataMut::U32(x.as_mut_slice()),
            TensorBuffer::U16(x) => TensorDataMut::U16(x.as_mut_slice()),
            TensorBuffer::U8(x) => TensorDataMut::U8(x.as_mut_slice()),
            TensorBuffer::Bool(x) => TensorDataMut::Bool(x.as_mut_slice()),
        }
    }
}

/// The product of the dimensions from the first to the last.
pub open spec fn product(shape: Seq<usize>) -> nat
    decreases shape.len(),
{
    if shape.len() == 0 {
        1
    } else {
        product(shape.drop_last()) * (shape.last() as nat)
    }
}

/// A dimension of size zero makes the product zero.
pub proof fn lemma_zero_dimension(shape: Seq<usize>, at: int)
    requires
        0 <= at < shape.len(),
        shape[at] == 0,
    ensures
        product(shape) == 0,
    decreases shape.len(),
{
    let left = product(shape.drop_last());
    let right = shape.last() as nat;
    if at < shape.len() - 1 {
        assert(shape.drop_last()[at] == 0);
        lemma_zero_dimension(shape.drop_last(), at);
    }
    assert(left * right == 0) by (nonlinear_arith)
        requires
            left == 0 || right == 0,
    ;
}

proof fn lemma_product_grows(shape: Seq<usize>, n: int)
    requires
        0 <= n <= shape.len(),
        forall|i: int| 0 <= i < shape.len() ==> shape[i] != 0,
    ensures
        product(shape.take(n)) <= product(shape),
    decreases shape.len() - n,
{
    if n == shape.len() {
        assert(shape.take(n) =~= shape);
    } else {
        let next = shape.take(n + 1);
        assert(next.drop_last() =~= shape.take(n));
        let left = product(shape.take(n));
        let right = next.last() as nat;
        assert(left <= left * right) by (nonlinear_arith)
            requires
                right >= 1,
        ;
        lemma_product_grows(shape, n + 1);
    }
}

/// Checked product of a tensor's dimensions.
/// Scalars (`[]`) have one element; any zero dimension makes the tensor empty.
/// Returns an error when a nonempty tensor's element count overflows `usize`.
pub fn element_count(shape: &[usize]) -> (r: Result<usize, Error>)
    ensures
        failure(r) == count_fault(shape@),
        r matches Ok(n) ==> n == product(shape@),
{
    let rank: usize = shape.len();
    for i in 0..rank
        invariant
            rank == shape@.len(),
            forall|j: int| 0 <= j < i ==> shape@[j] != 0,
    {
        if shape[i] == 0 {
            proof {
                lemma_zero_dimension(shape@, i as int);
            }
            return Ok(0);
        }
    }
    let mut n: usize = 1;
    assert(shape@.take(0) =~= Seq::<usize>::empty());
    for i in 0..rank
        invariant
            rank == shape@.len(),
            forall|j: int| 0 <= j < shape@.len() ==> shape@[j] != 0,
            n == product(shape@.take(i as int)),
    {
        proof {
            assert(shape@.take(i + 1).drop_last() =~= shape@.take(i as int));
            lemma_product_grows(shape@, i + 1);
        }
        match n.checked_mul(shape[i]) {
            Some(next) => {
                n = next;
            },
            None => {
                return Err(Error::Fault(Fault::ElementCountOverflow));
            },
        }
    }
    assert(shape@.take(shape@.len() as int) =~= shape@);
    Ok(n)
}

/// Counting fails exactly when the product of the dimensions is too large.
pub open spec fn count_fault(shape: Seq<usize>) -> Option<ErrorView> {
    if product(shape) <= usize::MAX {
        None
    } else {
        Some(ErrorView::Fault(Fault::ElementCountOverflow))
    }
}

/// Dense, contiguous, row-major tensor metadata.
#[derive(Debug, PartialEq, Eq)]
pub struct TensorSpec {
    /// Input or output name from the ONNX graph.
    pub name: String,
    /// Required element type.
    pub dtype: DType,
    /// `None` means unknown rank; `Some(vec![])` is a scalar.
    /// Within a known rank, `None` is a dynamic dimension and zero is an empty dimension.
    pub shape: Option<Vec<Option<usize>>>,
}

/// The contents of a [`TensorSpec`].
#[verifier::ext_equal]
pub struct SpecView {
    pub name: Seq<char>,
    pub dtype: DType,
    pub shape: Option<Seq<Option<usize>>>,
}

/// The contents of a tensor, whoever stores them.
#[verifier::ext_equal]
pub struct TensorModel {
    pub name: Seq<char>,
    pub shape: Seq<usize>,
    pub data: Elements,
}

impl View for TensorSpec {
    type V = SpecView;

    open spec fn view(&self) -> SpecView {
        SpecView { name: self.name@, dtype: self.dtype, shape: optional_items(self.shape) }
    }
}

impl Clone for TensorSpec {
    fn clone(&self) -> (r: Self)
        ensures
            r@ == self@,
    {
        let shape = match &self.shape {
            None => None,
            Some(dims) => Some(slice_to_vec(dims.as_slice())),
        };
        TensorSpec { name: self.name.clone(), dtype: self.dtype, shape }
    }
}

/// The concrete dimensions of a declared shape, where every one is known.
pub open spec fn fixed_dims(shape: Option<Seq<Option<usize>>>) -> Option<Seq<usize>> {
    match shape {
        None => None,
        Some(dims) => if forall|i: int| 0 <= i < dims.len() ==> dims[i] is Some {
            Some(Seq::new(dims.len(), |i: int| dims[i]->0))
        } else {
            None
        },
    }
}

impl SpecView {
    /// Whether a tensor of these dimensions fits the declared shape: any does where
    /// the rank is unknown, and any size does where a dimension is dynamic.
    pub open spec fn admits(self, shape: Seq<usize>) -> bool {
        match self.shape {
            None => true,
            Some(dims) => {
                &&& dims.len() == shape.len()
                &&& forall|i: int|
                    0 <= i < dims.len() ==> ((#[trigger] dims[i]) matches Some(n) ==> n
                        == shape[i])
            },
        }
    }

    /// Whether a tensor has the declared name, element type and shape, and exactly
    /// the elements that its shape calls for.
    pub open spec fn accepts(self, tensor: TensorModel) -> bool {
        &&& tensor.name == self.name
        &&& tensor.data.dtype() == self.dtype
        &&& self.admits(tensor.shape)
        &&& product(tensor.shape) == tensor.data.len()
    }

    /// The first thing that is wrong with a tensor.
    pub open spec fn fault(self, tensor: TensorModel) -> Option<ErrorView> {
        if tensor.name != self.name {
            Some(ErrorView::Named { fault: NamedFault::TensorName, name: tensor.name })
        } else if tensor.data.dtype() != self.dtype {
            Some(
                ErrorView::ElementType {
                    name: tensor.name,
                    expected: self.dtype,
                    actual: tensor.data.dtype(),
                },
            )
        } else if !self.admits(tensor.shape) {
            Some(
                ErrorView::Shape {
                    name: tensor.name,
                    expected: self.shape,
                    actual: tensor.shape,
                },
            )
        } else if count_fault(tensor.shape) is Some {
            count_fault(tensor.shape)
        } else if product(tensor.shape) != tensor.data.len() {
            Some(ErrorView::Named { fault: NamedFault::TensorLength, name: tensor.name })
        } else {
            None
        }
    }
}

/// A tensor is refused exactly when it does not fit its specification.
pub proof fn law_validation_is_exact(spec: SpecView, tensor: TensorModel)
    requires
        tensor.data.len() <= usize::MAX,
    ensures
        spec.fault(tensor) is None <==> spec.accepts(tensor),
{
}

impl TensorSpec {
    /// Concrete dimensions, or `None` if any dimension is dynamic.
    pub fn fixed_shape(&self) -> (r: Option<Vec<usize>>)
        ensures
            optional_items(r) == fixed_dims(self@.shape),
    {
        match &self.shape {
            None => None,
            Some(dims) => {
                let mut out: Vec<usize> = Vec::new();
                for i in 0..dims.len()
                    invariant
                        self@.shape == Some(dims@),
                        out@.len() == i,
                        forall|j: int|
                            0 <= j < i ==> #[trigger] dims@[j] is Some && out@[j] == dims@[j]->0,
                {
                    match dims[i] {
                        None => {
                            return None;
                        },
                        Some(n) => {
                            out.push(n);
                        },
                    }
                }
                assert(out@ =~= Seq::new(dims@.len(), |i: int| dims@[i]->0));
                Some(out)
            },
        }
    }

    fn admits_shape(&self, shape: &[usize]) -> (r: bool)
        ensures
            r == self@.admits(shape@),
    {
        match &self.shape {
            None => true,
            Some(dims) => {
                if dims.len() != shape.len() {
                    return false;
                }
                for i in 0..dims.len()
                    invariant
                        self@.shape == Some(dims@),
                        dims@.len() == shape@.len(),
                        forall|j: int|
                            0 <= j < i ==> ((#[trigger] dims@[j]) matches Some(n) ==> n
                                == shape@[j]),
                {
                    match dims[i] {
                        None => {},
                        Some(n) => {
                            if n != shape[i] {
                                assert(dims@[i as int] == Some(n));
                                return false;
                            }
                        },
                    }
                }
                true
            },
        }
    }

    /// Check a tensor's name, element type, dimensions, and storage length.
    pub fn validate(&self, tensor: &TensorView<'_>) -> (r: Result<(), Error>)
        ensures
            failure(r) == self@.fault(tensor.model()),
    {
        if !same(tensor.name, self.name.as_str()) {
            return Err(
                Error::Named { fault: NamedFault::TensorName, name: tensor.name.to_owned() },
            );
        }
        if tensor.data.dtype() != self.dtype {
            return Err(
                Error::ElementType {
                    name: tensor.name.to_owned(),
                    expected: self.dtype,
                    actual: tensor.data.dtype(),
                },
            );
        }
        if !self.admits_shape(tensor.shape) {
            let expected = match &self.shape {
                None => None,
                Some(dims) => Some(slice_to_vec(dims.as_slice())),
            };
            return Err(
                Error::Shape {
                    name: tensor.name.to_owned(),
                    expected,
                    actual: slice_to_vec(tensor.shape),
                },
            );
        }
        match element_count(tensor.shape) {
            Err(error) => Err(error),
            Ok(n) => {
                if n != tensor.data.len() {
                    return Err(
                        Error::Named {
                            fault: NamedFault::TensorLength,
                            name: tensor.name.to_owned(),
                        },
                    );
                }
                Ok(())
            },
        }
    }
}

/// Named tensor borrowing contiguous, row-major CPU storage.
/// Creating a view does not validate it; inference validates it against the model.
#[derive(Clone, Copy, Debug)]
pub struct TensorView<'a> {
    /// Input or output name from the ONNX graph.
    pub name: &'a str,
    /// Concrete dimensions; use `[]` for a scalar.
    pub shape: &'a [usize],
    /// Borrowed elements in row-major order.
    pub data: TensorData<'a>,
}

impl<'a> TensorView<'a> {
    /// The borrowed tensor.
    pub open spec fn model(self) -> TensorModel {
        TensorModel { name: self.name@, shape: self.shape@, data: self.data.contents() }
    }

    /// Construct a view over FP32 elements without copying or validating them.
    pub fn float32(name: &'a str, shape: &'a [usize], data: &'a [Float32]) -> (r: Self)
        ensures
            r.model() == (TensorModel {
                name: name@,
                shape: shape@,
                data: Elements::F32(data@),
            }),
    {
        TensorView { name, shape, data: TensorData::F32(data) }
    }

    /// Copy the name, shape, and elements into an owned tensor.
    pub fn to_owned(self) -> (r: Tensor)
        ensures
            r.model() == self.model(),
    {
        Tensor {
            name: self.name.to_owned(),
            shape: slice_to_vec(self.shape),
            data: self.data.to_owned(),
        }
    }

    /// Borrow the FP32 elements, or return an error for another element type.
    pub fn as_f32(&self) -> (r: Result<&'a [Float32], Error>)
        ensures
            match self.model().data {
                Elements::F32(x) => r is Ok && r->Ok_0@ == x,
                _ => failure(r) == Some(ErrorView::Fault(Fault::NotSingle)),
            },
    {
        match self.data {
            TensorData::F32(x) => Ok(x),
            _ => Err(Error::Fault(Fault::NotSingle)),
        }
    }
}

/// Named tensor exclusively borrowing contiguous, row-major CPU storage.
#[derive(Debug)]
pub struct TensorViewMut<'a> {
    /// Input or output name from the ONNX graph.
    pub name: &'a str,
    /// Concrete dimensions; use `[]` for a scalar.
    pub shape: &'a [usize],
    /// Exclusively borrowed elements in row-major order.
    pub data: TensorDataMut<'a>,
}

impl<'a> TensorViewMut<'a> {
    /// The borrowed tensor as it is now.
    pub open spec fn model(self) -> TensorModel {
        TensorModel { name: self.name@, shape: self.shape@, data: self.data.contents() }
    }

    /// Construct a mutable FP32 view without copying or validating the elements.
    pub fn float32(name: &'a str, shape: &'a [usize], data: &'a mut [Float32]) -> (r: Self)
        ensures
            r.model() == (TensorModel {
                name: name@,
                shape: shape@,
                data: Elements::F32(old(data)@),
            }),
            match r.data {
                TensorDataMut::F32(x) => final(data)@ == final(x)@,
                _ => false,
            },
    {
        TensorViewMut { name, shape, data: TensorDataMut::F32(data) }
    }

    /// Mutably borrow FP32 elements, or return an error for another element type.
    pub fn as_f32_mut(&mut self) -> (r: Result<&mut [Float32], Error>)
        ensures
            final(self).name@ == old(self).name@,
            final(self).shape@ == old(self).shape@,
            match (*old(self)).data {
                TensorDataMut::F32(x) => match (r, (*final(self)).data) {
                    (Ok(y), TensorDataMut::F32(z)) => {
                        &&& y@ == x@
                        &&& final(y)@ == z@
                        &&& final(x)@ == final(z)@
                    },
                    _ => false,
                },
                _ => {
                    &&& failure(r) == Some(ErrorView::Fault(Fault::NotSingle))
                    &&& *final(self) == *old(self)
                },
            },
    {
        match &mut self.data {
            TensorDataMut::F32(x) => Ok(x),
            _ => Err(Error::Fault(Fault::NotSingle)),
        }
    }
}

/// Owned, named tensor with contiguous, row-major CPU storage.
#[derive(Debug, PartialEq)]
pub struct Tensor {
    /// Input or output name from the ONNX graph.
    pub name: String,
    /// Concrete dimensions; an empty shape denotes a scalar.
    pub shape: Vec<usize>,
    /// Owned elements in row-major order.
    pub data: TensorBuffer,
}

impl Clone for Tensor {
    fn clone(&self) -> (r: Self)
        ensures
            r.model() == self.model(),
    {
        self.view().to_owned()
    }
}

impl Tensor {
    /// The tensor.
    pub open spec fn model(self) -> TensorModel {
        TensorModel { name: self.name@, shape: self.shape@, data: self.data.contents() }
    }

    /// Borrow the tensor without copying its metadata or elements.
    pub fn view(&self) -> (r: TensorView<'_>)
        ensures
            r.model() == self.model(),
    {
        TensorView {
            name: self.name.as_str(),
            shape: self.shape.as_slice(),
            data: self.data.view(),
        }
    }

    /// Borrow the tensor for element mutation without copying. What the borrower
    /// leaves in the elements is what the tensor holds afterwards.
    pub fn view_mut(&mut self) -> (r: TensorViewMut<'_>)
        ensures
            r.model() == old(self).model(),
            final(self).name@ == old(self).name@,
            final(self).shape@ == old(self).shape@,
            match (r.data, final(self).data) {
                (TensorDataMut::F32(a), TensorBuffer::F32(b)) => final(a)@ == b@,
                (TensorDataMut::F64(a), TensorBuffer::F64(b)) => final(a)@ == b@,
                (TensorDataMut::F16(a), TensorBuffer::F16(b)) => final(a)@ == b@,
                (TensorDataMut::BF16(a), TensorBuffer::BF16(b)) => final(a)@ == b@,
                (TensorDataMut::I64(a), TensorBuffer::I64(b)) => final(a)@ == b@,
                (TensorDataMut::I32(a), TensorBuffer::I32(b)) => final(a)@ == b@,
                (TensorDataMut::I16(a), TensorBuffer::I16(b)) => final(a)@ == b@,
                (TensorDataMut::I8(a), TensorBuffer::I8(b)) => final(a)@ == b@,
                (TensorDataMut::U64(a), TensorBuffer::U64(b)) => final(a)@ == b@,
                (TensorDataMut::U32(a), TensorBuffer::U32(b)) => final(a)@ == b@,
                (TensorDataMut::U16(a), TensorBuffer::U16(b)) => final(a)@ == b@,
                (TensorDataMut::U8(a), TensorBuffer::U8(b)) => final(a)@ == b@,
                (TensorDataMut::Bool(a), TensorBuffer::Bool(b)) => final(a)@ == b@,
                _ => false,
            },
    {
        TensorViewMut {
            name: self.name.as_str(),
            shape: self.shape.as_slice(),
            data: self.data.view_mut(),
        }
    }
}

/// The tensors behind views.
pub open spec fn view_models(views: Seq<TensorView<'_>>) -> Seq<TensorModel> {
    Seq::new(views.len(), |i: int| views[i].model())
}

/// The tensors behind mutable views, as they are now.
pub open spec fn target_models(views: Seq<TensorViewMut<'_>>) -> Seq<TensorModel> {
    Seq::new(views.len(), |i: int| views[i].model())
}

/// The contents of owned tensors.
pub open spec fn tensor_models(tensors: Seq<Tensor>) -> Seq<TensorModel> {
    Seq::new(tensors.len(), |i: int| tensors[i].model())
}

/// The names of tensors.
pub open spec fn tensor_names(tensors: Seq<TensorModel>) -> Seq<Seq<char>> {
    Seq::new(tensors.len(), |i: int| tensors[i].name)
}

/// Whether tensor `i` has the name of an earlier one.
pub open spec fn repeated(tensors: Seq<TensorModel>, i: int) -> bool {
    exists|j: int| 0 <= j < i && (#[trigger] tensors[j]).name == tensors[i].name
}

/// Whether a buffer has the shape, element type and length of a produced tensor.
pub open spec fn same_layout(target: TensorModel, source: TensorModel) -> bool {
    &&& target.shape == source.shape
    &&& target.data.dtype() == source.data.dtype()
    &&& target.data.len() == source.data.len()
}

/// What is wrong with output buffer `i`.
pub open spec fn target_fault(
    source: Seq<TensorModel>,
    targets: Seq<TensorModel>,
    i: int,
) -> Option<ErrorView> {
    let name = targets[i].name;
    if repeated(targets, i) {
        Some(ErrorView::Named { fault: NamedFault::DuplicateOutput, name })
    } else {
        match first_index(tensor_names(source), name, 0) {
            None => Some(ErrorView::Named { fault: NamedFault::UnknownOutput, name }),
            Some(at) => if same_layout(targets[i], source[at]) {
                None
            } else {
                Some(ErrorView::Named { fault: NamedFault::OutputMismatch, name })
            },
        }
    }
}

/// What is wrong with the first faulty output buffer from `i` on.
pub open spec fn targets_fault_from(
    source: Seq<TensorModel>,
    targets: Seq<TensorModel>,
    i: int,
) -> Option<ErrorView>
    decreases targets.len() - i,
{
    if i < 0 || i >= targets.len() {
        None
    } else if target_fault(source, targets, i) is Some {
        target_fault(source, targets, i)
    } else {
        targets_fault_from(source, targets, i + 1)
    }
}

/// Why produced tensors cannot be copied to output buffers.
pub open spec fn targets_fault(
    source: Seq<TensorModel>,
    targets: Seq<TensorModel>,
) -> Option<ErrorView> {
    if source.len() != targets.len() {
        Some(ErrorView::Fault(Fault::OutputCount))
    } else {
        targets_fault_from(source, targets, 0)
    }
}

/// An output buffer with the elements of the produced tensor of its name.
pub open spec fn filled_target(source: Seq<TensorModel>, target: TensorModel) -> TensorModel {
    match first_index(tensor_names(source), target.name, 0) {
        None => target,
        Some(at) => TensorModel { data: source[at].data, ..target },
    }
}

/// Output buffers after a copy: all filled where none is faulty, all as they were
/// otherwise.
pub open spec fn copied_targets(
    source: Seq<TensorModel>,
    targets: Seq<TensorModel>,
) -> Seq<TensorModel> {
    if targets_fault(source, targets) is Some {
        targets
    } else {
        Seq::new(targets.len(), |i: int| filled_target(source, targets[i]))
    }
}

proof fn lemma_no_fault(source: Seq<TensorModel>, targets: Seq<TensorModel>, from: int, i: int)
    requires
        0 <= from <= i < targets.len(),
        targets_fault_from(source, targets, from) is None,
    ensures
        target_fault(source, targets, i) is None,
    decreases i - from,
{
    if from < i {
        lemma_no_fault(source, targets, from + 1, i);
    }
}

/// Whether two shapes are the same.
pub fn same_dims(a: &[usize], b: &[usize]) -> (r: bool)
    ensures
        r == (a@ == b@),
{
    if a.len() != b.len() {
        return false;
    }
    for i in 0..a.len()
        invariant
            a@.len() == b@.len(),
            forall|j: int| 0 <= j < i ==> a@[j] == b@[j],
    {
        if a[i] != b[i] {
            return false;
        }
    }
    assert(a@ =~= b@);
    true
}

fn find_tensor(tensors: &[Tensor], name: &str) -> (r: Option<usize>)
    ensures
        match r {
            None => first_index(tensor_names(tensor_models(tensors@)), name@, 0) is None,
            Some(i) => first_index(tensor_names(tensor_models(tensors@)), name@, 0) == Some(
                i as int,
            ) && i < tensors@.len(),
        },
{
    let ghost names = tensor_names(tensor_models(tensors@));
    for i in 0..tensors.len()
        invariant
            names == tensor_names(tensor_models(tensors@)),
            first_index(names, name@, 0) == first_index(names, name@, i as int),
    {
        if same(tensors[i].name.as_str(), name) {
            return Some(i);
        }
    }
    None
}

fn check_target(source: &[Tensor], targets: &[TensorViewMut<'_>], i: usize) -> (r: Result<
    (),
    Error,
>)
    requires
        i < targets@.len(),
    ensures
        failure(r) == target_fault(tensor_models(source@), target_models(targets@), i as int),
{
    let ghost sources = tensor_models(source@);
    let ghost models = target_models(targets@);
    let name = targets[i].name;
    for j in 0..i
        invariant
            i < targets@.len(),
            models == target_models(targets@),
            name@ == models[i as int].name,
            forall|k: int| 0 <= k < j ==> (#[trigger] models[k]).name != name@,
    {
        if same(targets[j].name, name) {
            assert(models[j as int].name == name@);
            return Err(
                Error::Named { fault: NamedFault::DuplicateOutput, name: name.to_owned() },
            );
        }
    }
    match find_tensor(source, name) {
        None => Err(Error::Named { fault: NamedFault::UnknownOutput, name: name.to_owned() }),
        Some(at) => {
            if same_dims(targets[i].shape, source[at].shape.as_slice()) && targets[i].data.dtype()
                == source[at].data.dtype() && targets[i].data.len() == source[at].data.len() {
                Ok(())
            } else {
                Err(Error::Named { fault: NamedFault::OutputMismatch, name: name.to_owned() })
            }
        },
    }
}

/// Copy produced tensors to the output buffers of their names. All buffers are
/// checked before the first is written.
pub fn copy_outputs(source: &[Tensor], targets: &mut [TensorViewMut<'_>]) -> (r: Result<
    (),
    Error,
>)
    ensures
        failure(r) == targets_fault(tensor_models(source@), target_models(old(targets)@)),
        target_models(final(targets)@) == copied_targets(
            tensor_models(source@),
            target_models(old(targets)@),
        ),
        final(targets)@.len() == old(targets)@.len(),
        forall|i: int|
            0 <= i < old(targets)@.len() ==> match (
                (#[trigger] old(targets)@[i]).data,
                final(targets)@[i].data,
            ) {
                (TensorDataMut::F32(a), TensorDataMut::F32(b)) => final(a)@ == final(b)@,
                (TensorDataMut::F64(a), TensorDataMut::F64(b)) => final(a)@ == final(b)@,
                (TensorDataMut::F16(a), TensorDataMut::F16(b)) => final(a)@ == final(b)@,
                (TensorDataMut::BF16(a), TensorDataMut::BF16(b)) => final(a)@ == final(b)@,
                (TensorDataMut::I64(a), TensorDataMut::I64(b)) => final(a)@ == final(b)@,
                (TensorDataMut::I32(a), TensorDataMut::I32(b)) => final(a)@ == final(b)@,
                (TensorDataMut::I16(a), TensorDataMut::I16(b)) => final(a)@ == final(b)@,
                (TensorDataMut::I8(a), TensorDataMut::I8(b)) => final(a)@ == final(b)@,
                (TensorDataMut::U64(a), TensorDataMut::U64(b)) => final(a)@ == final(b)@,
                (TensorDataMut::U32(a), TensorDataMut::U32(b)) => final(a)@ == final(b)@,
                (TensorDataMut::U16(a), TensorDataMut::U16(b)) => final(a)@ == final(b)@,
                (TensorDataMut::U8(a), TensorDataMut::U8(b)) => final(a)@ == final(b)@,
                (TensorDataMut::Bool(a), TensorDataMut::Bool(b)) => final(a)@ == final(b)@,
                _ => false,
            },
{
    let ghost sources = tensor_models(source@);
    let ghost models = target_models(targets@);
    let count: usize = targets.len();
    if source.len() != count {
        return Err(Error::Fault(Fault::OutputCount));
    }
    for i in 0..count
        invariant
            count == targets@.len(),
            targets@ == old(targets)@,
            sources == tensor_models(source@),
            models == target_models(targets@),
            source@.len() == count,
            targets_fault_from(sources, models, 0) == targets_fault_from(sources, models, i as int),
    {
        match check_target(source, targets, i) {
            Err(error) => {
                return Err(error);
            },
            Ok(()) => {},
        }
    }
    for i in 0..count
        invariant
            count == targets@.len(),
            count == old(targets)@.len(),
            sources == tensor_models(source@),
            models == target_models(old(targets)@),
            targets_fault_from(sources, models, 0) is None,
            forall|j: int| i <= j < count ==> targets@[j] == old(targets)@[j],
            forall|j: int|
                0 <= j < i ==> (#[trigger] targets@[j]).model() == filled_target(
                    sources,
                    models[j],
                ),
            forall|j: int|
                0 <= j < i ==> match ((#[trigger] old(targets)@[j]).data, targets@[j].data) {
                (TensorDataMut::F32(a), TensorDataMut::F32(b)) => final(a)@ == final(b)@,
                (TensorDataMut::F64(a), TensorDataMut::F64(b)) => final(a)@ == final(b)@,
                (TensorDataMut::F16(a), TensorDataMut::F16(b)) => final(a)@ == final(b)@,
                (TensorDataMut::BF16(a), TensorDataMut::BF16(b)) => final(a)@ == final(b)@,
                (TensorDataMut::I64(a), TensorDataMut::I64(b)) => final(a)@ == final(b)@,
                (TensorDataMut::I32(a), TensorDataMut::I32(b)) => final(a)@ == final(b)@,
                (TensorDataMut::I16(a), TensorDataMut::I16(b)) => final(a)@ == final(b)@,
                (TensorDataMut::I8(a), TensorDataMut::I8(b)) => final(a)@ == final(b)@,
                (TensorDataMut::U64(a), TensorDataMut::U64(b)) => final(a)@ == final(b)@,
                (TensorDataMut::U32(a), TensorDataMut::U32(b)) => final(a)@ == final(b)@,
                (TensorDataMut::U16(a), TensorDataMut::U16(b)) => final(a)@ == final(b)@,
                (TensorDataMut::U8(a), TensorDataMut::U8(b)) => final(a)@ == final(b)@,
                (TensorDataMut::Bool(a), TensorDataMut::Bool(b)) => final(a)@ == final(b)@,
                    _ => false,
                },
    {
        proof {
            lemma_no_fault(sources, models, 0, i as int);
        }
        let ghost before = targets@;
        let target = &mut targets[i];
        match find_tensor(source, target.name) {
            Some(at) => {
                let copied = target.data.copy_from(source[at].data.view());
                assert(copied is Ok);
            },
            None => {},
        }
    }
    assert(target_models(targets@) =~= copied_targets(sources, models));
    Ok(())
}

} // verus!
