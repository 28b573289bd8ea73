//! The IEEE CRC-32 checksum, with chaining over successive chunks.
use vstd::prelude::*;

verus! {

/// The IEEE CRC-32 of `data`, continued from the checksum `seed` of what
/// came before (`seed == 0` for a fresh checksum).
pub uninterp spec fn crc32_ieee(seed: u32, data: Seq<u8>) -> u32;

/// Relies on crc's `crc32::update` with `crc32::IEEE_TABLE`: the CRC-32 of
/// `data` continued from `seed`. Its body complements the seed, folds the
/// table step over the bytes and complements the result, so a result fed
/// back as the seed of a next chunk gives the checksum of both chunks, and
/// no bytes leave the seed unchanged.
#[verifier::external_body]
fn crc32_update(seed: u32, data: &[u8]) -> (r: u32)
    ensures
        r == crc32_ieee(seed, data@),
        forall|rest: Seq<u8>| #[trigger]
            crc32_ieee(r, rest) == crc32_ieee(seed, data@ + rest),
        data@.len() == 0 ==> r == seed,
{
    crc::crc32::update(seed, &crc::crc32::IEEE_TABLE, data)
}

/// The CRC-32 of `bytes` continued from `seed` (0 when absent). The result,
/// passed as the seed for a next chunk, gives the checksum of both chunks
/// together.
pub fn crc32(bytes: &[u8], seed: Option<u32>) -> (r: u32)
    ensures
        r == crc32_ieee(seed.unwrap_or(0), bytes@),
        forall|rest: Seq<u8>| #[trigger]
            crc32_ieee(r, rest) == crc32_ieee(seed.unwrap_or(0), bytes@ + rest),
        bytes@.len() == 0 ==> r == seed.unwrap_or(0),
{
    let initial: u32 = match seed {
        Some(v) => v,
        None => 0,
    };
    crc32_update(initial, bytes)
}

} // verus!
