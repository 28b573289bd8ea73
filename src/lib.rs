//! Conversions between binary data and ASCII-safe text: hexadecimal,
//! base64, and the IEEE CRC-32 checksum, over a uniform input layer that
//! accepts byte strings, byte buffers and ASCII text alike.
pub mod base64_codec;
pub mod checksum;
pub mod error;
pub mod hex;
pub mod module;
pub mod source;
