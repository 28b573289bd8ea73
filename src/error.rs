//! The errors that the codecs report.
use vstd::prelude::*;
use vstd::string::*;

verus! {

/// Why an operation refused its input.
#[derive(Debug, Clone, PartialEq, Eq)]
pub enum BinasciiError {
    /// The argument is none of bytes, buffer or text; carries the argument's type name.
    UnsupportedType(String),
    /// A text argument holds a character outside the ASCII range.
    NonAscii,
    /// Hexadecimal input of odd length.
    OddLength,
    /// Hexadecimal input with a byte that is no hexadecimal digit.
    InvalidDigit,
    /// Malformed base64 input; carries the decoder's diagnostic.
    Base64Decode(String),
}

/// The text that describes an error to a caller.
pub open spec fn message_of(e: BinasciiError) -> Seq<char> {
    match e {
        BinasciiError::UnsupportedType(name) => "argument should be bytes, buffer or ASCII string, not '"@
            + name@ + "'"@,
        BinasciiError::NonAscii => "string argument should contain only ASCII characters"@,
        BinasciiError::OddLength => "Odd-length string"@,
        BinasciiError::InvalidDigit => "Non-hexadecimal digit found"@,
        BinasciiError::Base64Decode(detail) => "error decoding base64: "@ + detail@,
    }
}

impl BinasciiError {
    /// The text that describes the error to a caller.
    pub fn message(&self) -> (r: String)
        ensures
            r@ == message_of(*self),
    {
        match self {
            BinasciiError::UnsupportedType(name) => {
                let head = String::from_str(
                    "argument should be bytes, buffer or ASCII string, not '",
                );
                head.concat(name.as_str()).concat("'")
            },
            BinasciiError::NonAscii => String::from_str(
                "string argument should contain only ASCII characters",
            ),
            BinasciiError::OddLength => String::from_str("Odd-length string"),
            BinasciiError::InvalidDigit => String::from_str("Non-hexadecimal digit found"),
            BinasciiError::Base64Decode(detail) => String::from_str(
                "error decoding base64: ",
            ).concat(detail.as_str()),
        }
    }

    /// Whether the error concerns the argument's type (the others concern its value).
    pub fn is_type_error(&self) -> (r: bool)
        ensures
            r == (*self is UnsupportedType),
    {
        match self {
            BinasciiError::UnsupportedType(_) => true,
            _ => false,
        }
    }
}

} // verus!
