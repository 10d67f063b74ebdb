//! The error kinds that array construction and access report.
use vstd::prelude::*;

verus! {

/// Why an operation on an array failed.
///
/// An operation either succeeds in full or fails with exactly one of these.
#[derive(Clone, Copy, Debug, PartialEq, Eq, Hash, Structural)]
pub enum VortexError {
    /// A logical type is not the one that the operation requires.
    MismatchedTypes,
    /// The validity that was supplied contradicts the nullability of the type.
    InvalidValidity,
    /// No encoding is registered under the code that was looked up.
    UnknownEncoding,
    /// An index or a range lies outside the array or buffer it addresses.
    OutOfRange,
    /// A length does not fit the 32-bit field that stores it.
    NumericOverflow,
    /// A layout is not one that the binary-view encoding or the Arrow format
    /// takes.
    InvalidArgument,
}

pub type VortexResult<T> = Result<T, VortexError>;

impl VortexError {
    /// A short description of the error kind.
    pub fn message(&self) -> (text: &'static str)
        ensures
            text@ == (match *self {
                VortexError::MismatchedTypes => "mismatched types"@,
                VortexError::InvalidValidity => "invalid validity"@,
                VortexError::UnknownEncoding => "unknown encoding"@,
                VortexError::OutOfRange => "index out of range"@,
                VortexError::NumericOverflow => "numeric overflow"@,
                VortexError::InvalidArgument => "invalid argument"@,
            }),
    {
        match self {
            VortexError::MismatchedTypes => "mismatched types",
            VortexError::InvalidValidity => "invalid validity",
            VortexError::UnknownEncoding => "unknown encoding",
            VortexError::OutOfRange => "index out of range",
            VortexError::NumericOverflow => "numeric overflow",
            VortexError::InvalidArgument => "invalid argument",
        }
    }
}

} // verus!
