//! The kinds of error that the engine reports.
use vstd::prelude::*;
use vstd::string::StringExecFns;

verus! {

/// An error kind, one for each error code of the engine.
#[derive(Debug, Clone, Copy, PartialEq, Eq, Structural)]
pub enum ErrorKind {
    NoError,
    Unknown,
    InvalidArgument,
    InvalidOperation,
    OutOfMemory,
    UnsupportedCPU,
    Cancelled,
}

impl ErrorKind {
    /// The engine's code for this kind.
    pub open spec fn code(self) -> i32 {
        match self {
            ErrorKind::NoError => 0,
            ErrorKind::Unknown => 1,
            ErrorKind::InvalidArgument => 2,
            ErrorKind::InvalidOperation => 3,
            ErrorKind::OutOfMemory => 4,
            ErrorKind::UnsupportedCPU => 5,
            ErrorKind::Cancelled => 6,
        }
    }

    /// The kind that a code of the engine stands for; a code that the engine
    /// is not known to use stands for [`ErrorKind::Unknown`].
    pub open spec fn of_code(err: i32) -> ErrorKind {
        if err == 0 {
            ErrorKind::NoError
        } else if err == 2 {
            ErrorKind::InvalidArgument
        } else if err == 3 {
            ErrorKind::InvalidOperation
        } else if err == 4 {
            ErrorKind::OutOfMemory
        } else if err == 5 {
            ErrorKind::UnsupportedCPU
        } else if err == 6 {
            ErrorKind::Cancelled
        } else {
            ErrorKind::Unknown
        }
    }

    /// The name of this kind in messages.
    pub open spec fn name(self) -> Seq<char> {
        match self {
            ErrorKind::NoError => "none"@,
            ErrorKind::Unknown => "unknown"@,
            ErrorKind::InvalidArgument => "invalid argument"@,
            ErrorKind::InvalidOperation => "invalid operation"@,
            ErrorKind::OutOfMemory => "out of memory"@,
            ErrorKind::UnsupportedCPU => "unsupported CPU"@,
            ErrorKind::Cancelled => "cancelled"@,
        }
    }

    /// Reads an error code of the engine.
    pub fn from_i32(err: i32) -> (kind: ErrorKind)
        ensures
            kind == ErrorKind::of_code(err),
    {
        match err {
            0 => ErrorKind::NoError,
            1 => ErrorKind::Unknown,
            2 => ErrorKind::InvalidArgument,
            3 => ErrorKind::InvalidOperation,
            4 => ErrorKind::OutOfMemory,
            5 => ErrorKind::UnsupportedCPU,
            6 => ErrorKind::Cancelled,
            _ => ErrorKind::Unknown,
        }
    }

    /// The name of this kind in messages.
    pub fn as_str(&self) -> (s: &'static str)
        ensures
            s@ == self.name(),
    {
        match self {
            ErrorKind::NoError => "none",
            ErrorKind::InvalidArgument => "invalid argument",
            ErrorKind::InvalidOperation => "invalid operation",
            ErrorKind::OutOfMemory => "out of memory",
            ErrorKind::UnsupportedCPU => "unsupported CPU",
            ErrorKind::Cancelled => "cancelled",
            _ => "unknown",
        }
    }

    /// The name of this kind in messages, as an owned string.
    pub fn to_string(&self) -> (s: String)
        ensures
            s@ == self.name(),
    {
        self.as_str().to_owned()
    }
}

/// The line that reports an error of the engine: the kind that `error`
/// stands for, then the engine's own message.
pub open spec fn error_report(error: i32, message: Seq<char>) -> Seq<char> {
    "Embree error "@ + ErrorKind::of_code(error).name() + ": "@ + message
}

/// Writes [`error_report`].
pub fn format_error(error: i32, message: &str) -> (line: String)
    ensures
        line@ == error_report(error, message@),
{
    let kind = ErrorKind::from_i32(error);
    String::from_str("Embree error ").concat(kind.as_str()).concat(": ").concat(message)
}

/// The error kinds mirror the engine's codes one to one: each kind is read
/// back from its own code.
pub proof fn lemma_error_code_round_trip(kind: ErrorKind)
    ensures
        ErrorKind::of_code(kind.code()) == kind,
{
}

/// A code outside the engine's range reads as [`ErrorKind::Unknown`].
pub proof fn lemma_unrecognised_code_is_unknown(err: i32)
    requires
        err < 0 || err > 6,
    ensures
        ErrorKind::of_code(err) == ErrorKind::Unknown,
{
}

} // verus!
