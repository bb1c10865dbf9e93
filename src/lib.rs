//! A typed view of cartridge images for a 64-bit console: the byte order of a
//! dump is recognised from its first byte, the whole image is rewritten into
//! the canonical (big-endian) order, and the fixed-size header is exposed
//! through offset-based field accessors.
pub mod bytes;
pub mod endian;
pub mod error;
pub mod header;
pub mod rom;
