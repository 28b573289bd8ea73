//! The module surface: five entry points over the input layer, and the table
//! that registers them under their names.
use vstd::prelude::*;

use crate::base64_codec::{a2b_base64, b2a_base64, base64_bytes, base64_text};
use crate::checksum::{crc32, crc32_ieee};
use crate::error::BinasciiError;
use crate::hex::{hex_decode, hex_encode, hexlify, unhexlify};
use crate::source::{type_name_of, BytesLike, PyObject, SerializedData};
use vstd::string::*;
use vstd::utf8::{encode_utf8, is_ascii_chars};

verus! {

/// Encodes byte-like input as lowercase hexadecimal.
pub fn binascii_hexlify(data: BytesLike) -> (r: Vec<u8>)
    ensures
        r@ == hex_encode(data.view()),
{
    data.with_ref(hexlify)
}

/// Decodes hexadecimal input given as bytes, buffer or ASCII text.
pub fn binascii_unhexlify(data: SerializedData) -> (r: Result<Vec<u8>, BinasciiError>)
    ensures
        match hex_decode(data.view()) {
            Ok(v) => r is Ok && r->Ok_0@ == v,
            Err(e) => r == Err::<Vec<u8>, BinasciiError>(e),
        },
{
    data.with_ref(unhexlify)
}

/// The CRC-32 of the input, continued from `value` (0 when absent).
pub fn binascii_crc32(data: SerializedData, value: Option<u32>) -> (r: u32)
    ensures
        r == crc32_ieee(value.unwrap_or(0), data.view()),
        forall|rest: Seq<u8>| #[trigger]
            crc32_ieee(r, rest) == crc32_ieee(value.unwrap_or(0), data.view() + rest),
{
    crc32(data.as_bytes(), value)
}

/// Decodes standard base64 input given as bytes, buffer or ASCII text.
pub fn binascii_a2b_base64(s: SerializedData) -> (r: Result<Vec<u8>, BinasciiError>)
    requires
        s.view().len() <= usize::MAX / 2,
    ensures
        r is Ok <==> base64_bytes(s.view()) is Some,
        r is Ok ==> r->Ok_0@ == base64_bytes(s.view())->0,
        r is Err ==> r->Err_0 is Base64Decode,
{
    a2b_base64(s.as_bytes())
}

/// Encodes byte-like input as standard padded base64 text.
pub fn binascii_b2a_base64(data: BytesLike) -> (r: Vec<u8>)
    requires
        data.view().len() <= usize::MAX / 2,
    ensures
        r@ == base64_text(data.view()),
        base64_bytes(r@) == Some(data.view()),
{
    b2a_base64(data.as_bytes())
}

/// The bytes that a caller's value stands for, where an input kind accepts
/// it: bytes and buffers always, ASCII text only where `text_ok`.
pub open spec fn accepted_bytes(obj: PyObject, text_ok: bool) -> Option<Seq<u8>> {
    match obj {
        PyObject::Bytes(b) => Some(b@),
        PyObject::ByteArray(b) => Some(b@),
        PyObject::Str(s) => if text_ok && is_ascii_chars(s@) {
            Some(encode_utf8(s@))
        } else {
            None
        },
        _ => None,
    }
}

/// `e` is the error with which an input kind refuses `obj`: `NonAscii` for
/// text where text is accepted, else `UnsupportedType` with the type's name.
pub open spec fn is_refusal(obj: PyObject, text_ok: bool, e: BinasciiError) -> bool {
    if text_ok && obj is Str {
        e == BinasciiError::NonAscii
    } else {
        e is UnsupportedType && e->UnsupportedType_0@ == type_name_of(obj)
    }
}

/// Text with a character outside ASCII is refused with `NonAscii` by every
/// entry point that takes text; those that take bytes and buffers only refuse
/// it, as any text, by its type name.
pub proof fn lemma_non_ascii_text_refused(f: BuiltinFn, s: String, e: BinasciiError)
    requires
        !is_ascii_chars(s@),
    ensures
        accepted_bytes(PyObject::Str(s), f.text_ok()) is None,
        f.text_ok() ==> (is_refusal(PyObject::Str(s), f.text_ok(), e) <==> e
            == BinasciiError::NonAscii),
        !f.text_ok() ==> (is_refusal(PyObject::Str(s), f.text_ok(), e) <==> (e is UnsupportedType
            && e->UnsupportedType_0@ == "str"@)),
{
}

/// A value that is neither bytes, buffer nor text is refused by every entry
/// point with `UnsupportedType`, naming the value's type.
pub proof fn lemma_unsupported_type_refused(f: BuiltinFn, obj: PyObject, e: BinasciiError)
    requires
        obj is Int || obj is Other,
    ensures
        accepted_bytes(obj, f.text_ok()) is None,
        is_refusal(obj, f.text_ok(), e) <==> (e is UnsupportedType && e->UnsupportedType_0@
            == type_name_of(obj)),
{
}

/// The entry points of the module.
#[derive(Debug, Clone, Copy, PartialEq, Eq)]
pub enum BuiltinFn {
    Hexlify,
    Unhexlify,
    Crc32,
    A2bBase64,
    B2aBase64,
}

impl BuiltinFn {
    /// Whether the entry point takes ASCII text besides bytes and buffers.
    pub open spec fn text_ok(self) -> bool {
        self is Unhexlify || self is Crc32 || self is A2bBase64
    }

    /// Whether the entry point takes ASCII text besides bytes and buffers.
    pub fn accepts_text(&self) -> (r: bool)
        ensures
            r == self.text_ok(),
    {
        match self {
            BuiltinFn::Unhexlify | BuiltinFn::Crc32 | BuiltinFn::A2bBase64 => true,
            _ => false,
        }
    }

    /// Holds where `r` is a byte string of the bytes `b`.
    pub open spec fn is_bytes_of(r: Result<PyObject, BinasciiError>, b: Seq<u8>) -> bool {
        r is Ok && r->Ok_0 is Bytes && r->Ok_0->Bytes_0@ == b
    }

    /// Calls the entry point on a caller's value, with the seed `value` of a
    /// checksum. A value that the entry point's input kind refuses gives that
    /// refusal; otherwise the entry point's result, bytes as a byte string and
    /// a checksum as an integer.
    pub fn call(self, data: PyObject, value: Option<u32>) -> (r: Result<PyObject, BinasciiError>)
        requires
            value is Some ==> self is Crc32,
            (self is A2bBase64 || self is B2aBase64) && accepted_bytes(data, true) is Some
                ==> accepted_bytes(data, true)->0.len() <= usize::MAX / 2,
        ensures
            match accepted_bytes(data, self.text_ok()) {
                None => r is Err && is_refusal(data, self.text_ok(), r->Err_0),
                Some(b) => match self {
                    BuiltinFn::Hexlify => Self::is_bytes_of(r, hex_encode(b)),
                    BuiltinFn::Unhexlify => match hex_decode(b) {
                        Ok(v) => Self::is_bytes_of(r, v),
                        Err(e) => r == Err::<PyObject, BinasciiError>(e),
                    },
                    BuiltinFn::Crc32 => r == Ok::<PyObject, BinasciiError>(
                        PyObject::Int(crc32_ieee(value.unwrap_or(0), b) as i64),
                    ),
                    BuiltinFn::A2bBase64 => (r is Ok <==> base64_bytes(b) is Some) && (r is Ok
                        ==> Self::is_bytes_of(r, base64_bytes(b)->0)) && (r is Err
                        ==> r->Err_0 is Base64Decode),
                    BuiltinFn::B2aBase64 => Self::is_bytes_of(r, base64_text(b)),
                },
            },
    {
        if self.accepts_text() {
            let s = match SerializedData::try_from_object(data) {
                Ok(s) => s,
                Err(e) => {
                    return Err(e);
                },
            };
            match self {
                BuiltinFn::Unhexlify => match binascii_unhexlify(s) {
                    Ok(v) => Ok(PyObject::Bytes(v)),
                    Err(e) => Err(e),
                },
                BuiltinFn::Crc32 => Ok(PyObject::Int(binascii_crc32(s, value) as i64)),
                _ => match binascii_a2b_base64(s) {
                    Ok(v) => Ok(PyObject::Bytes(v)),
                    Err(e) => Err(e),
                },
            }
        } else {
            let b = match BytesLike::try_from_object(data) {
                Ok(b) => b,
                Err(e) => {
                    return Err(e);
                },
            };
            match self {
                BuiltinFn::Hexlify => Ok(PyObject::Bytes(binascii_hexlify(b))),
                _ => Ok(PyObject::Bytes(binascii_b2a_base64(b))),
            }
        }
    }
}

/// The names under which the module registers its entry points, with the
/// hexadecimal ones under two names each.
pub open spec fn module_table() -> Seq<(Seq<char>, BuiltinFn)> {
    seq![
        ("hexlify"@, BuiltinFn::Hexlify),
        ("b2a_hex"@, BuiltinFn::Hexlify),
        ("unhexlify"@, BuiltinFn::Unhexlify),
        ("a2b_hex"@, BuiltinFn::Unhexlify),
        ("crc32"@, BuiltinFn::Crc32),
        ("a2b_base64"@, BuiltinFn::A2bBase64),
        ("b2a_base64"@, BuiltinFn::B2aBase64),
    ]
}

/// A module: its name and its entry points by name.
pub struct Module {
    pub name: String,
    pub functions: Vec<(String, BuiltinFn)>,
}

impl Module {
    /// The entry points by name, as text.
    pub open spec fn table(&self) -> Seq<(Seq<char>, BuiltinFn)> {
        self.functions@.map_values(|e: (String, BuiltinFn)| (e.0@, e.1))
    }

    /// The entry point registered under `name`, the first one if several are.
    pub fn lookup(&self, name: &String) -> (r: Option<BuiltinFn>)
        ensures
            r is None <==> forall|i: int| 0 <= i < self.table().len() ==> #[trigger] self.table()[i].0 != name@,
            r is Some ==> exists|i: int| 0 <= i < self.table().len() && #[trigger] self.table()[i] == (name@, r->0),
    {
        let mut i: usize = 0;
        while i < self.functions.len()
            invariant
                i <= self.functions@.len(),
                forall|j: int| 0 <= j < i ==> #[trigger] self.table()[j].0 != name@,
            decreases self.functions@.len() - i,
        {
            if self.functions[i].0 == *name {
                assert(self.table().len() == self.functions@.len());
                assert(self.table()[i as int] == (name@, self.functions@[i as int].1));
                assert(self.table()[i as int].0 == name@);
                return Some(self.functions[i].1);
            }
            i = i + 1;
        }
        None
    }
}

/// A table entry: `name` as a `String`, beside `f`.
fn entry(name: &str, f: BuiltinFn) -> (r: (String, BuiltinFn))
    ensures
        r.0@ == name@,
        r.1 == f,
{
    (String::from_str(name), f)
}

/// The `binascii` module, with its entry points registered by name.
pub fn make_module() -> (m: Module)
    ensures
        m.name@ == "binascii"@,
        m.table() == module_table(),
{
    let mut functions: Vec<(String, BuiltinFn)> = Vec::new();
    functions.push(entry("hexlify", BuiltinFn::Hexlify));
    functions.push(entry("b2a_hex", BuiltinFn::Hexlify));
    functions.push(entry("unhexlify", BuiltinFn::Unhexlify));
    functions.push(entry("a2b_hex", BuiltinFn::Unhexlify));
    functions.push(entry("crc32", BuiltinFn::Crc32));
    functions.push(entry("a2b_base64", BuiltinFn::A2bBase64));
    functions.push(entry("b2a_base64", BuiltinFn::B2aBase64));
    let m = Module { name: String::from_str("binascii"), functions };
    assert(m.table() =~= module_table());
    m
}

} // verus!
