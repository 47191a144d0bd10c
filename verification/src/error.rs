//! Why a text is refused as a chunk type.

use crate::text::{decimal, decimal_string};
use vstd::prelude::*;
use vstd::string::StringExecFns;

verus! {

/// The reason for which a text is no chunk type.
#[derive(Debug, Clone, Copy, PartialEq, Eq, Structural)]
pub enum ChunkTypeError {
    /// One of the four bytes is no ASCII letter; holds the first such byte.
    InvalidCharacter(u8),
    /// The text is not four bytes long; holds its length in bytes.
    InvalidLength(usize),
}

impl ChunkTypeError {
    /// The message that describes this error: a fixed phrase, then the
    /// offending byte or length as a decimal numeral.
    pub open spec fn spec_message(&self) -> Seq<char> {
        match *self {
            ChunkTypeError::InvalidCharacter(byte) => "invalid character: "@ + decimal(byte as nat),
            ChunkTypeError::InvalidLength(length) => "length must be 4, current: "@ + decimal(
                length as nat,
            ),
        }
    }

    /// Renders the error as a message for people.
    pub fn to_string(&self) -> (message: String)
        ensures
            message@ == self.spec_message(),
    {
        match *self {
            ChunkTypeError::InvalidCharacter(byte) => {
                let number = decimal_string(byte as usize);
                String::from_str("invalid character: ").concat(number.as_str())
            },
            ChunkTypeError::InvalidLength(length) => {
                let number = decimal_string(length);
                String::from_str("length must be 4, current: ").concat(number.as_str())
            },
        }
    }
}

} // verus!
