use binascii::base64_codec::{a2b_base64, b2a_base64};
use binascii::checksum::crc32;
use binascii::error::BinasciiError;
use binascii::hex::{hexlify, unhexlify};
use binascii::module::{
    binascii_a2b_base64, binascii_b2a_base64, binascii_crc32, binascii_hexlify,
    binascii_unhexlify, make_module, BuiltinFn,
};
use binascii::source::{BytesLike, PyObject, SerializedData};

#[test]
fn hexlify_empty() {
    assert_eq!(hexlify(b""), Vec::<u8>::new());
}

#[test]
fn hexlify_zero_and_ff() {
    assert_eq!(hexlify(&[0x00, 0xff]), b"00ff".to_vec());
}

#[test]
fn hexlify_all_nibbles_lowercase() {
    assert_eq!(hexlify(&[0x01, 0x23, 0x45, 0x67, 0x89, 0xab, 0xcd, 0xef]), b"0123456789abcdef".to_vec());
}

#[test]
fn unhexlify_00ff() {
    assert_eq!(unhexlify(b"00ff"), Ok(vec![0x00, 0xff]));
}

#[test]
fn unhexlify_either_case() {
    assert_eq!(unhexlify(b"ABcdEf"), Ok(vec![0xab, 0xcd, 0xef]));
}

#[test]
fn unhexlify_odd_length() {
    assert_eq!(unhexlify(b"0"), Err(BinasciiError::OddLength));
}

#[test]
fn unhexlify_invalid_digit() {
    assert_eq!(unhexlify(b"zz"), Err(BinasciiError::InvalidDigit));
    assert_eq!(unhexlify(b"00g0"), Err(BinasciiError::InvalidDigit));
}

#[test]
fn unhexlify_odd_length_checked_first() {
    assert_eq!(unhexlify(b"zzz"), Err(BinasciiError::OddLength));
}

#[test]
fn unhexlify_empty() {
    assert_eq!(unhexlify(b""), Ok(Vec::new()));
}

#[test]
fn hex_round_trip_all_bytes() {
    let all: Vec<u8> = (0..=255u8).collect();
    let hex = hexlify(&all);
    assert_eq!(hex.len(), 512);
    assert_eq!(unhexlify(&hex), Ok(all));
}

#[test]
fn crc32_empty_is_zero() {
    assert_eq!(crc32(b"", None), 0);
}

#[test]
fn crc32_check_value() {
    assert_eq!(crc32(b"123456789", None), 0xCBF43926);
}

#[test]
fn crc32_empty_keeps_seed() {
    assert_eq!(crc32(b"", Some(0xdeadbeef)), 0xdeadbeef);
}

#[test]
fn crc32_chaining() {
    let first = crc32(b"12345", None);
    assert_eq!(crc32(b"6789", Some(first)), 0xCBF43926);
    let cd = crc32(b"cd", None);
    assert_eq!(crc32(b"ab", Some(cd)), crc32(b"cdab", None));
}

#[test]
fn base64_encode_padded() {
    assert_eq!(b2a_base64(b"hello"), b"aGVsbG8=".to_vec());
    assert_eq!(b2a_base64(b"hi"), b"aGk=".to_vec());
    assert_eq!(b2a_base64(b"abc"), b"YWJj".to_vec());
    assert_eq!(b2a_base64(b""), Vec::<u8>::new());
}

#[test]
fn base64_decode() {
    assert_eq!(a2b_base64(b"aGVsbG8="), Ok(b"hello".to_vec()));
    assert_eq!(a2b_base64(b""), Ok(Vec::new()));
}

#[test]
fn base64_decode_malformed() {
    let err = a2b_base64(b"!!!!").unwrap_err();
    assert!(matches!(err, BinasciiError::Base64Decode(_)));
    assert!(err.message().starts_with("error decoding base64: "));
    assert_eq!(err.message(), "error decoding base64: Invalid byte 33, offset 0.");
}

#[test]
fn base64_round_trip() {
    let all: Vec<u8> = (0..=255u8).rev().collect();
    for n in 0..all.len() {
        let text = b2a_base64(&all[..n]);
        assert_eq!(text.len(), 4 * ((n + 2) / 3));
        assert_eq!(a2b_base64(&text), Ok(all[..n].to_vec()));
    }
}

#[test]
fn entry_points_take_every_input_kind() {
    assert_eq!(binascii_hexlify(BytesLike::Buffer(vec![0xab])), b"ab".to_vec());
    assert_eq!(binascii_hexlify(BytesLike::Bytes(vec![0x00, 0xff])), b"00ff".to_vec());
    assert_eq!(binascii_unhexlify(SerializedData::Ascii("00ff".to_string())), Ok(vec![0x00, 0xff]));
    assert_eq!(binascii_unhexlify(SerializedData::Buffer(b"0".to_vec())), Err(BinasciiError::OddLength));
    assert_eq!(binascii_crc32(SerializedData::Ascii("123456789".to_string()), None), 0xCBF43926);
    assert_eq!(binascii_a2b_base64(SerializedData::Ascii("aGk=".to_string())), Ok(b"hi".to_vec()));
    assert_eq!(binascii_b2a_base64(BytesLike::Bytes(b"hi".to_vec())), b"aGk=".to_vec());
}

#[test]
fn with_ref_reads_the_bytes() {
    let text = SerializedData::Ascii("abc".to_string());
    assert_eq!(text.with_ref(|b| b.to_vec()), b"abc".to_vec());
    let buf = BytesLike::Buffer(vec![1, 2, 3]);
    assert_eq!(buf.with_ref(|b| b.len()), 3);
}

#[test]
fn try_from_object_classifies() {
    assert_eq!(SerializedData::try_from_object(PyObject::Bytes(vec![1])), Ok(SerializedData::Bytes(vec![1])));
    assert_eq!(SerializedData::try_from_object(PyObject::ByteArray(vec![2])), Ok(SerializedData::Buffer(vec![2])));
    assert_eq!(SerializedData::try_from_object(PyObject::Str("ok".to_string())), Ok(SerializedData::Ascii("ok".to_string())));
    assert_eq!(BytesLike::try_from_object(PyObject::ByteArray(vec![2])), Ok(BytesLike::Buffer(vec![2])));
    assert_eq!(
        BytesLike::try_from_object(PyObject::Str("ok".to_string())),
        Err(BinasciiError::UnsupportedType("str".to_string()))
    );
}

#[test]
fn non_ascii_text_refused() {
    let value = PyObject::Str("caf\u{e9}".to_string());
    assert_eq!(SerializedData::try_from_object(value.clone()), Err(BinasciiError::NonAscii));
    for f in [BuiltinFn::Unhexlify, BuiltinFn::Crc32, BuiltinFn::A2bBase64] {
        assert_eq!(f.call(value.clone(), None), Err(BinasciiError::NonAscii));
    }
    assert_eq!(
        BinasciiError::NonAscii.message(),
        "string argument should contain only ASCII characters"
    );
}

#[test]
fn unsupported_type_refused() {
    for f in [BuiltinFn::Hexlify, BuiltinFn::Unhexlify, BuiltinFn::Crc32, BuiltinFn::A2bBase64, BuiltinFn::B2aBase64] {
        let err = f.call(PyObject::Int(5), None).unwrap_err();
        assert_eq!(err, BinasciiError::UnsupportedType("int".to_string()));
        assert!(err.is_type_error());
        assert_eq!(err.message(), "argument should be bytes, buffer or ASCII string, not 'int'");
        let err = f.call(PyObject::Other("list".to_string()), None).unwrap_err();
        assert_eq!(err, BinasciiError::UnsupportedType("list".to_string()));
    }
}

#[test]
fn call_dispatches() {
    assert_eq!(BuiltinFn::Hexlify.call(PyObject::Bytes(vec![0x00, 0xff]), None), Ok(PyObject::Bytes(b"00ff".to_vec())));
    assert_eq!(BuiltinFn::Unhexlify.call(PyObject::Str("00FF".to_string()), None), Ok(PyObject::Bytes(vec![0x00, 0xff])));
    assert_eq!(BuiltinFn::Unhexlify.call(PyObject::Str("zz".to_string()), None), Err(BinasciiError::InvalidDigit));
    assert_eq!(BuiltinFn::Crc32.call(PyObject::Bytes(b"123456789".to_vec()), None), Ok(PyObject::Int(0xCBF43926)));
    let seed = crc32(b"1234", None);
    assert_eq!(BuiltinFn::Crc32.call(PyObject::ByteArray(b"56789".to_vec()), Some(seed)), Ok(PyObject::Int(0xCBF43926)));
    assert_eq!(BuiltinFn::B2aBase64.call(PyObject::ByteArray(b"hello".to_vec()), None), Ok(PyObject::Bytes(b"aGVsbG8=".to_vec())));
    assert_eq!(BuiltinFn::A2bBase64.call(PyObject::Str("aGVsbG8=".to_string()), None), Ok(PyObject::Bytes(b"hello".to_vec())));
    assert!(matches!(BuiltinFn::A2bBase64.call(PyObject::Str("a".to_string()), None), Err(BinasciiError::Base64Decode(_))));
}

#[test]
fn error_messages() {
    assert_eq!(BinasciiError::OddLength.message(), "Odd-length string");
    assert_eq!(BinasciiError::InvalidDigit.message(), "Non-hexadecimal digit found");
    assert!(!BinasciiError::OddLength.is_type_error());
}

#[test]
fn module_registers_entry_points() {
    let m = make_module();
    assert_eq!(m.name, "binascii");
    assert_eq!(m.functions.len(), 7);
    let expect = [
        ("hexlify", BuiltinFn::Hexlify),
        ("b2a_hex", BuiltinFn::Hexlify),
        ("unhexlify", BuiltinFn::Unhexlify),
        ("a2b_hex", BuiltinFn::Unhexlify),
        ("crc32", BuiltinFn::Crc32),
        ("a2b_base64", BuiltinFn::A2bBase64),
        ("b2a_base64", BuiltinFn::B2aBase64),
    ];
    for (name, f) in expect {
        assert_eq!(m.lookup(&name.to_string()), Some(f));
    }
    assert_eq!(m.lookup(&"rlecode_hqx".to_string()), None);
}
