//! The ways in which a conversion can fail.

use vstd::prelude::*;

verus! {

/// Why a value of one representation has no counterpart in the other.
#[derive(Clone, Copy, Debug, PartialEq, Eq, Structural)]
pub enum ConvertError {
    /// A quantity is too large for the width it is converted to.
    Overflow,
    /// A byte string is not as long as an address (20) or a hash (32).
    InvalidLength,
    /// A receipt carries both a status code and a state root, or neither.
    AmbiguousReceiptState,
    /// A range of blocks has no usable bound, or a bound that names no block.
    InvalidFilterRange,
    /// The input has a shape for which the target has no slot.
    UnsupportedVariant,
}

impl ConvertError {
    /// A short description, for messages shown to a client.
    pub fn message(&self) -> (text: &'static str)
        ensures
            text@ == error_text(*self),
    {
        match self {
            ConvertError::Overflow => "quantity exceeds the target width",
            ConvertError::InvalidLength => "byte string is not 20 or 32 bytes long",
            ConvertError::AmbiguousReceiptState => "receipt needs exactly one of status and root",
            ConvertError::InvalidFilterRange => "block range has no usable bound",
            ConvertError::UnsupportedVariant => "input shape has no counterpart",
        }
    }
}

/// The text that [`ConvertError::message`] returns for each error.
pub open spec fn error_text(e: ConvertError) -> Seq<char> {
    match e {
        ConvertError::Overflow => "quantity exceeds the target width"@,
        ConvertError::InvalidLength => "byte string is not 20 or 32 bytes long"@,
        ConvertError::AmbiguousReceiptState => "receipt needs exactly one of status and root"@,
        ConvertError::InvalidFilterRange => "block range has no usable bound"@,
        ConvertError::UnsupportedVariant => "input shape has no counterpart"@,
    }
}

} // verus!
