//! Compact, sortable, timestamp-first unique identifiers and their text
//! encodings.
//!
//! [`Uid`] packs 40 bits of Unix time and 24 random bits into 64 bits;
//! [`Uid128`] puts 32 bits of time before 96 random bits. Both convert to
//! and from big-endian bytes, and `Uid` to and from base16, base32, base58
//! and base64 text. Reading text never panics: whatever does not describe
//! an identifier is answered with [`Error::Decoding`].
//!
//! The encodings themselves are the work of `faster-hex`, `data-encoding`
//! and `bs58`; the clock is read through `chrono` and random bytes come
//! from `rand`. What is assumed of those crates is written above each
//! function that calls them; everything else is proved.

pub mod base16;
pub mod base32;
pub mod base58;
pub mod base64;
pub mod bytes;
pub mod crc32;
pub mod decimal;
pub mod error;
pub mod rfc4648;
mod source;
pub mod uid;
pub mod uid128;

pub use error::Error;
pub use uid::Uid;
pub use uid128::Uid128;
