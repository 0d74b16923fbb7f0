//! The engine context.
use vstd::prelude::*;
use crate::error::ErrorKind;

verus! {

/// The bit of the floating-point control word that flushes results too
/// small to be normal to zero.
pub const FLUSH_ZERO_ON: u32 = 0x8000;

/// The bit of the floating-point control word that reads operands too small
/// to be normal as zero.
pub const DENORMALS_ZERO_ON: u32 = 0x0040;

/// The floating-point control word `csr` with both flush-to-zero bits set
/// and every other bit as it was.
pub fn set_flush_to_zero_mode(csr: u32) -> (updated: u32)
    ensures
        updated == csr | FLUSH_ZERO_ON | DENORMALS_ZERO_ON,
        updated & FLUSH_ZERO_ON == FLUSH_ZERO_ON,
        updated & DENORMALS_ZERO_ON == DENORMALS_ZERO_ON,
        updated & !(FLUSH_ZERO_ON | DENORMALS_ZERO_ON) == csr & !(FLUSH_ZERO_ON
            | DENORMALS_ZERO_ON),
{
    let updated: u32 = csr | FLUSH_ZERO_ON | DENORMALS_ZERO_ON;
    assert(updated & 0x8000 == 0x8000 && updated & 0x0040 == 0x0040 && updated & !(0x8000u32
        | 0x0040u32) == csr & !(0x8000u32 | 0x0040u32)) by (bit_vector)
        requires
            updated == csr | 0x8000 | 0x0040,
    ;
    updated
}

/// Opaque handle of the engine context.
#[derive(Debug, Clone, Copy, PartialEq, Eq, Structural)]
pub struct Device {
    raw: usize,
}

impl Device {
    /// The engine's handle value.
    pub closed spec fn raw(&self) -> usize {
        self.raw
    }

    /// Wraps the handle `raw` of a context that the engine has just opened,
    /// `open_error` being the error code it reported for the opening. A
    /// context that did not open cleanly cannot be had.
    pub fn new(raw: usize, open_error: i32) -> (d: Device)
        requires
            ErrorKind::of_code(open_error) == ErrorKind::NoError,
        ensures
            d.raw() == raw,
    {
        Device { raw }
    }

    /// The engine's handle value.
    pub fn as_raw(&self) -> (raw: usize)
        ensures
            raw == self.raw(),
    {
        self.raw
    }

    /// Reads the error code `code` that the engine holds for this context:
    /// no error, or the kind of the last one.
    pub fn last_error(&self, code: i32) -> (r: Result<(), ErrorKind>)
        ensures
            code == 0 ==> r is Ok,
            code != 0 ==> (r matches Err(kind) && kind == ErrorKind::of_code(code)),
    {
        match code {
            0 => Ok(()),
            _ => Err(ErrorKind::from_i32(code)),
        }
    }
}

} // verus!
