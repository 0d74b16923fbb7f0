//! Wire-format tags of buffer elements and of transforms.
use vstd::prelude::*;

verus! {

/// The engine's code of the one-component unsigned-integer format; the code
/// of an `n`-component one is this plus `n - 1`.
pub const UINT_BASE: i32 = 0x5001;

/// The engine's code of the one-component float format; the code of an
/// `n`-component one is this plus `n - 1`.
pub const FLOAT_BASE: i32 = 0x9001;

/// Layout of one buffer element: a vector of 32-bit components.
#[derive(Debug, Clone, Copy, PartialEq, Eq, Structural)]
pub enum Format {
    u32x1,
    u32x2,
    u32x3,
    u32x4,
    f32x1,
    f32x2,
    f32x3,
    f32x4,
    f32x5,
    f32x6,
    f32x7,
    f32x8,
    f32x9,
    f32x10,
    f32x11,
    f32x12,
    f32x13,
    f32x14,
    f32x15,
    f32x16,
}

impl Format {
    /// Whether the components are unsigned integers (else they are floats).
    pub open spec fn is_unsigned(self) -> bool {
        self == Format::u32x1 || self == Format::u32x2 || self == Format::u32x3 || self
            == Format::u32x4
    }

    /// The number of 32-bit components of one element.
    pub open spec fn components(self) -> nat {
        match self {
            Format::u32x1 | Format::f32x1 => 1,
            Format::u32x2 | Format::f32x2 => 2,
            Format::u32x3 | Format::f32x3 => 3,
            Format::u32x4 | Format::f32x4 => 4,
            Format::f32x5 => 5,
            Format::f32x6 => 6,
            Format::f32x7 => 7,
            Format::f32x8 => 8,
            Format::f32x9 => 9,
            Format::f32x10 => 10,
            Format::f32x11 => 11,
            Format::f32x12 => 12,
            Format::f32x13 => 13,
            Format::f32x14 => 14,
            Format::f32x15 => 15,
            Format::f32x16 => 16,
        }
    }

    /// The engine's code for this format.
    pub open spec fn code(self) -> int {
        if self.is_unsigned() {
            UINT_BASE + self.components() - 1
        } else {
            FLOAT_BASE + self.components() - 1
        }
    }

    /// The number of 32-bit components of one element.
    pub fn component_count(self) -> (n: u32)
        ensures
            n == self.components(),
            1 <= n <= 16,
    {
        match self {
            Format::u32x1 | Format::f32x1 => 1,
            Format::u32x2 | Format::f32x2 => 2,
            Format::u32x3 | Format::f32x3 => 3,
            Format::u32x4 | Format::f32x4 => 4,
            Format::f32x5 => 5,
            Format::f32x6 => 6,
            Format::f32x7 => 7,
            Format::f32x8 => 8,
            Format::f32x9 => 9,
            Format::f32x10 => 10,
            Format::f32x11 => 11,
            Format::f32x12 => 12,
            Format::f32x13 => 13,
            Format::f32x14 => 14,
            Format::f32x15 => 15,
            Format::f32x16 => 16,
        }
    }

    /// The size in bytes of one element.
    pub fn byte_size(self) -> (n: usize)
        ensures
            n == 4 * self.components(),
    {
        let n: u32 = self.component_count();
        4 * (n as usize)
    }
}

impl From<Format> for i32 {
    fn from(format: Format) -> (code: i32) {
        let n: i32 = format.component_count() as i32;
        match format {
            Format::u32x1 | Format::u32x2 | Format::u32x3 | Format::u32x4 => UINT_BASE + n - 1,
            _ => FLOAT_BASE + n - 1,
        }
    }
}

impl vstd::std_specs::convert::FromSpecImpl<Format> for i32 {
    open spec fn obeys_from_spec() -> bool {
        true
    }

    open spec fn from_spec(format: Format) -> i32 {
        format.code() as i32
    }
}

/// An element type that knows the format tag under which the engine reads it.
pub trait TypeFormat {
    const FORMAT: Format;
}

/// Layout of a transform matrix.
#[derive(Debug, Clone, Copy, PartialEq, Eq, Structural)]
pub enum MatrixFormat {
    float3x4RowMajor,
    float3x4ColumnMajor,
    float4x4ColumnMajor,
}

impl MatrixFormat {
    /// The engine's code for this layout.
    pub open spec fn code(self) -> i32 {
        match self {
            MatrixFormat::float3x4RowMajor => 0x9134,
            MatrixFormat::float3x4ColumnMajor => 0x9234,
            MatrixFormat::float4x4ColumnMajor => 0x9244,
        }
    }

    /// The number of 32-bit components of one matrix.
    pub open spec fn components(self) -> nat {
        match self {
            MatrixFormat::float3x4RowMajor => 12,
            MatrixFormat::float3x4ColumnMajor => 12,
            MatrixFormat::float4x4ColumnMajor => 16,
        }
    }

    /// The number of 32-bit components of one matrix.
    pub fn component_count(self) -> (n: u32)
        ensures
            n == self.components(),
    {
        match self {
            MatrixFormat::float3x4RowMajor => 12,
            MatrixFormat::float3x4ColumnMajor => 12,
            MatrixFormat::float4x4ColumnMajor => 16,
        }
    }
}

impl From<MatrixFormat> for i32 {
    fn from(format: MatrixFormat) -> (code: i32) {
        match format {
            MatrixFormat::float3x4RowMajor => 0x9134,
            MatrixFormat::float3x4ColumnMajor => 0x9234,
            MatrixFormat::float4x4ColumnMajor => 0x9244,
        }
    }
}

impl vstd::std_specs::convert::FromSpecImpl<MatrixFormat> for i32 {
    open spec fn obeys_from_spec() -> bool {
        true
    }

    open spec fn from_spec(format: MatrixFormat) -> i32 {
        format.code()
    }
}

} // verus!
