//! Hexadecimal encoding (lowercase) and decoding (either case).
use vstd::prelude::*;

use crate::error::BinasciiError;
use itertools::Itertools;

verus! {

/// The lowercase hexadecimal digit of a nibble `n < 16`.
pub open spec fn hex_digit_of(n: int) -> u8 {
    if n < 10 {
        (n + 48) as u8
    } else {
        (n - 10 + 97) as u8
    }
}

/// The value of a hexadecimal digit of either case, if `c` is one.
pub open spec fn digit_value(c: u8) -> Option<u8> {
    if 48 <= c <= 57 {
        Some((c - 48) as u8)
    } else if 97 <= c <= 102 {
        Some((c - 97 + 10) as u8)
    } else if 65 <= c <= 70 {
        Some((c - 65 + 10) as u8)
    } else {
        None
    }
}

/// Two lowercase digits for each byte, high nibble first.
pub open spec fn hex_encode(b: Seq<u8>) -> Seq<u8> {
    Seq::new(
        2 * b.len(),
        |i: int|
            if i % 2 == 0 {
                hex_digit_of(b[i / 2] as int / 16)
            } else {
                hex_digit_of(b[i / 2] as int % 16)
            },
    )
}

/// Every byte of `s` is a hexadecimal digit.
pub open spec fn all_hex_digits(s: Seq<u8>) -> bool {
    forall|i: int| 0 <= i < s.len() ==> (#[trigger] digit_value(s[i])) is Some
}

/// The bytes that the digit pairs of `s` stand for (`s` of even length, all digits).
pub open spec fn pairs_value(s: Seq<u8>) -> Seq<u8> {
    Seq::new(
        s.len() / 2,
        |i: int| (digit_value(s[2 * i])->0 * 16 + digit_value(s[2 * i + 1])->0) as u8,
    )
}

/// What decoding `s` gives: an odd length is refused first, then any non-digit.
pub open spec fn hex_decode(s: Seq<u8>) -> Result<Seq<u8>, BinasciiError> {
    if s.len() % 2 != 0 {
        Err(BinasciiError::OddLength)
    } else if !all_hex_digits(s) {
        Err(BinasciiError::InvalidDigit)
    } else {
        Ok(pairs_value(s))
    }
}

const ZERO: u8 = 48;
const NINE: u8 = 57;
const LOWER_A: u8 = 97;
const LOWER_F: u8 = 102;
const UPPER_A: u8 = 65;
const UPPER_F: u8 = 70;

/// Decoding what encoding gives returns the original bytes.
pub proof fn lemma_hex_round_trip(b: Seq<u8>)
    ensures
        hex_decode(hex_encode(b)) == Ok::<Seq<u8>, BinasciiError>(b),
{
    let e = hex_encode(b);
    assert(e.len() % 2 == 0);
    assert forall|i: int| 0 <= i < e.len() implies (#[trigger] digit_value(e[i])) is Some by {
        let n: int = if i % 2 == 0 { b[i / 2] as int / 16 } else { b[i / 2] as int % 16 };
        assert(e[i] == hex_digit_of(n));
    }
    assert forall|i: int| 0 <= i < b.len() implies #[trigger] pairs_value(e)[i] == b[i] by {
        assert((2 * i) / 2 == i && (2 * i) % 2 == 0);
        assert((2 * i + 1) / 2 == i && (2 * i + 1) % 2 == 1);
        assert(digit_value(e[2 * i])->0 == b[i] / 16);
        assert(digit_value(e[2 * i + 1])->0 == b[i] % 16);
    }
    assert(pairs_value(e) =~= b);
}

/// The lowercase hexadecimal digit of a nibble.
fn hex_nibble(n: u8) -> (r: u8)
    requires
        n < 16,
    ensures
        r == hex_digit_of(n as int),
{
    if n <= 9 {
        ZERO + n
    } else {
        LOWER_A + (n - 10)
    }
}

/// The value of a hexadecimal digit of either case, or `None`.
fn unhex_nibble(c: u8) -> (r: Option<u8>)
    ensures
        r == digit_value(c),
{
    if ZERO <= c && c <= NINE {
        Some(c - ZERO)
    } else if LOWER_A <= c && c <= LOWER_F {
        Some(c - LOWER_A + 10)
    } else if UPPER_A <= c && c <= UPPER_F {
        Some(c - UPPER_A + 10)
    } else {
        None
    }
}

/// Encodes `bytes` as lowercase hexadecimal, two digits per byte.
pub fn hexlify(bytes: &[u8]) -> (r: Vec<u8>)
    ensures
        r@ == hex_encode(bytes@),
{
    let mut hex: Vec<u8> = Vec::new();
    let mut i: usize = 0;
    while i < bytes.len()
        invariant
            i <= bytes@.len(),
            hex@ =~= hex_encode(bytes@.subrange(0, i as int)),
        decreases bytes@.len() - i,
    {
        let b = bytes[i];
        let hi = b >> 4;
        let lo = b & 0xf;
        assert(hi == b / 16 && lo == b % 16) by (bit_vector)
            requires
                hi == b >> 4 && lo == b & 0xf,
        ;
        hex.push(hex_nibble(hi));
        hex.push(hex_nibble(lo));
        i = i + 1;
        assert(hex@ =~= hex_encode(bytes@.subrange(0, i as int)));
    }
    assert(bytes@.subrange(0, i as int) =~= bytes@);
    hex
}

/// Relies on itertools' `Itertools::tuples`: the items taken two at a time
/// in order, a last item without a partner left out.
#[verifier::external_body]
fn byte_pairs(bytes: &[u8]) -> (r: Vec<(u8, u8)>)
    ensures
        r@.len() == bytes@.len() / 2,
        forall|i: int|
            0 <= i < r@.len() ==> #[trigger] r@[i] == (bytes@[2 * i], bytes@[2 * i + 1]),
{
    bytes.iter().copied().tuples::<(u8, u8)>().collect()
}

/// Decodes hexadecimal digits of either case, two per byte.
pub fn unhexlify(hex_bytes: &[u8]) -> (r: Result<Vec<u8>, BinasciiError>)
    ensures
        match hex_decode(hex_bytes@) {
            Ok(v) => r is Ok && r->Ok_0@ == v,
            Err(e) => r == Err::<Vec<u8>, BinasciiError>(e),
        },
{
    if hex_bytes.len() % 2 != 0 {
        return Err(BinasciiError::OddLength);
    }
    let pairs = byte_pairs(hex_bytes);
    let mut unhex: Vec<u8> = Vec::new();
    let mut i: usize = 0;
    while i < pairs.len()
        invariant
            pairs@.len() == hex_bytes@.len() / 2,
            hex_bytes@.len() % 2 == 0,
            forall|k: int|
                0 <= k < pairs@.len() ==> #[trigger] pairs@[k] == (
                    hex_bytes@[2 * k],
                    hex_bytes@[2 * k + 1],
                ),
            i <= pairs@.len(),
            forall|j: int| 0 <= j < 2 * i ==> (#[trigger] digit_value(hex_bytes@[j])) is Some,
            unhex@ =~= pairs_value(hex_bytes@).subrange(0, i as int),
        decreases pairs@.len() - i,
    {
        let (c1, c2) = pairs[i];
        assert(c1 == hex_bytes@[2 * i] && c2 == hex_bytes@[2 * i + 1]);
        match (unhex_nibble(c1), unhex_nibble(c2)) {
            (Some(n1), Some(n2)) => {
                let v: u8 = n1 << 4 | n2;
                assert(v == n1 * 16 + n2) by (bit_vector)
                    requires
                        n1 < 16 && n2 < 16 && v == n1 << 4 | n2,
                ;
                unhex.push(v);
            },
            _ => {
                return Err(BinasciiError::InvalidDigit);
            },
        }
        i = i + 1;
        assert(unhex@ =~= pairs_value(hex_bytes@).subrange(0, i as int));
    }
    assert(unhex@ =~= pairs_value(hex_bytes@));
    Ok(unhex)
}

} // verus!
