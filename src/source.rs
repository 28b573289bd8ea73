//! The input layer: the values that callers hand in, and the two input kinds
//! that the codecs read them as.
use vstd::prelude::*;

use crate::error::BinasciiError;
use vstd::string::*;
use vstd::utf8::{encode_utf8, is_ascii_chars};

verus! {

/// A value as a caller hands it in.
#[derive(Debug, Clone, PartialEq, Eq)]
pub enum PyObject {
    /// An immutable byte string.
    Bytes(Vec<u8>),
    /// A mutable byte buffer.
    ByteArray(Vec<u8>),
    /// A text value.
    Str(String),
    /// An integer.
    Int(i64),
    /// A value of any other type, by its type name.
    Other(String),
}

/// The type name that errors report for a value.
pub open spec fn type_name_of(obj: PyObject) -> Seq<char> {
    match obj {
        PyObject::Bytes(_) => "bytes"@,
        PyObject::ByteArray(_) => "bytearray"@,
        PyObject::Str(_) => "str"@,
        PyObject::Int(_) => "int"@,
        PyObject::Other(name) => name@,
    }
}

impl PyObject {
    /// The name of this value's type.
    pub fn class_name(&self) -> (r: String)
        ensures
            r@ == type_name_of(*self),
    {
        match self {
            PyObject::Bytes(_) => String::from_str("bytes"),
            PyObject::ByteArray(_) => String::from_str("bytearray"),
            PyObject::Str(_) => String::from_str("str"),
            PyObject::Int(_) => String::from_str("int"),
            PyObject::Other(name) => name.clone(),
        }
    }
}

/// Input that may be bytes, a buffer or ASCII text.
#[derive(Debug, Clone, PartialEq, Eq)]
pub enum SerializedData {
    Bytes(Vec<u8>),
    Buffer(Vec<u8>),
    /// Text of ASCII characters only (see `wf`).
    Ascii(String),
}

/// Input that may be bytes or a buffer, never text.
#[derive(Debug, Clone, PartialEq, Eq)]
pub enum BytesLike {
    Bytes(Vec<u8>),
    Buffer(Vec<u8>),
}

impl SerializedData {
    /// The bytes that the input stands for.
    pub open spec fn view(&self) -> Seq<u8> {
        match self {
            SerializedData::Bytes(b) => b@,
            SerializedData::Buffer(b) => b@,
            SerializedData::Ascii(s) => encode_utf8(s@),
        }
    }

    /// Text input holds ASCII characters only.
    pub open spec fn wf(&self) -> bool {
        match self {
            SerializedData::Ascii(s) => is_ascii_chars(s@),
            _ => true,
        }
    }

    /// Classifies a caller's value: bytes and buffers as they are, text if it
    /// is all ASCII (`NonAscii` if not), anything else refused with its type name.
    pub fn try_from_object(obj: PyObject) -> (r: Result<SerializedData, BinasciiError>)
        ensures
            match obj {
                PyObject::Bytes(b) => r == Ok::<SerializedData, BinasciiError>(
                    SerializedData::Bytes(b),
                ),
                PyObject::ByteArray(b) => r == Ok::<SerializedData, BinasciiError>(
                    SerializedData::Buffer(b),
                ),
                PyObject::Str(s) => if is_ascii_chars(s@) {
                    r == Ok::<SerializedData, BinasciiError>(SerializedData::Ascii(s))
                } else {
                    r == Err::<SerializedData, BinasciiError>(BinasciiError::NonAscii)
                },
                _ => r is Err && r->Err_0 is UnsupportedType
                    && r->Err_0->UnsupportedType_0@ == type_name_of(obj),
            },
            r is Ok ==> r->Ok_0.wf(),
    {
        let name = obj.class_name();
        match obj {
            PyObject::Bytes(b) => Ok(SerializedData::Bytes(b)),
            PyObject::ByteArray(b) => Ok(SerializedData::Buffer(b)),
            PyObject::Str(s) => {
                if s.as_str().is_ascii() {
                    Ok(SerializedData::Ascii(s))
                } else {
                    Err(BinasciiError::NonAscii)
                }
            },
            _ => Err(BinasciiError::UnsupportedType(name)),
        }
    }

    /// The input's bytes, read in place.
    pub fn as_bytes(&self) -> (r: &[u8])
        ensures
            r@ == self.view(),
    {
        match self {
            SerializedData::Bytes(b) => b.as_slice(),
            SerializedData::Buffer(b) => b.as_slice(),
            SerializedData::Ascii(s) => s.as_str().as_bytes(),
        }
    }

    /// Calls `f` on the input's bytes, read in place, and returns what it returns.
    pub fn with_ref<R, F: FnOnce(&[u8]) -> R>(&self, f: F) -> (r: R)
        requires
            forall|b: &[u8]| b@ == self.view() ==> f.requires((b,)),
        ensures
            exists|b: &[u8]| b@ == self.view() && f.ensures((b,), r),
    {
        let b = self.as_bytes();
        f(b)
    }
}

impl BytesLike {
    /// The bytes that the input stands for.
    pub open spec fn view(&self) -> Seq<u8> {
        match self {
            BytesLike::Bytes(b) => b@,
            BytesLike::Buffer(b) => b@,
        }
    }

    /// Classifies a caller's value: bytes and buffers as they are, anything
    /// else (text included) refused with its type name.
    pub fn try_from_object(obj: PyObject) -> (r: Result<BytesLike, BinasciiError>)
        ensures
            match obj {
                PyObject::Bytes(b) => r == Ok::<BytesLike, BinasciiError>(BytesLike::Bytes(b)),
                PyObject::ByteArray(b) => r == Ok::<BytesLike, BinasciiError>(
                    BytesLike::Buffer(b),
                ),
                _ => r is Err && r->Err_0 is UnsupportedType
                    && r->Err_0->UnsupportedType_0@ == type_name_of(obj),
            },
    {
        let name = obj.class_name();
        match obj {
            PyObject::Bytes(b) => Ok(BytesLike::Bytes(b)),
            PyObject::ByteArray(b) => Ok(BytesLike::Buffer(b)),
            _ => Err(BinasciiError::UnsupportedType(name)),
        }
    }

    /// The input's bytes, read in place.
    pub fn as_bytes(&self) -> (r: &[u8])
        ensures
            r@ == self.view(),
    {
        match self {
            BytesLike::Bytes(b) => b.as_slice(),
            BytesLike::Buffer(b) => b.as_slice(),
        }
    }

    /// Calls `f` on the input's bytes, read in place, and returns what it returns.
    pub fn with_ref<R, F: FnOnce(&[u8]) -> R>(&self, f: F) -> (r: R)
        requires
            forall|b: &[u8]| b@ == self.view() ==> f.requires((b,)),
        ensures
            exists|b: &[u8]| b@ == self.view() && f.ensures((b,), r),
    {
        let b = self.as_bytes();
        f(b)
    }
}

} // verus!
