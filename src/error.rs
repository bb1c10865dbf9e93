use vstd::prelude::*;

verus! {

/// Why an image could not be read.
#[derive(Debug, PartialEq, Eq)]
pub enum RomError {
    /// The first byte of the image matches none of the known magics.
    UnknownMagic(u8),
    /// The header segment had the first length where the second was required.
    InvalidHeaderSize(usize, usize),
}

} // verus!
