use crate::endian::{
    endian_of, lemma_byte_swap_self_inverse, lemma_reverse_self_inverse, normalize, normalized,
    swap_pairs, Endian, BYTE_SWAPPED_FIRST, LITTLE_FIRST, NATIVE_FIRST,
};
use crate::error::RomError;
use crate::header::{InternalHeader, HEADER_SIZE};
use vstd::prelude::*;

verus! {

/// A parsed image: its header and the body that follows it, both in canonical order.
#[derive(Debug)]
pub struct ROM {
    pub header: InternalHeader,
    pub data: Vec<u8>,
}

/// Why the image `s` cannot be parsed, if it cannot.
pub open spec fn parse_error(s: Seq<u8>) -> Option<RomError> {
    if s.len() == 0 {
        Some(RomError::InvalidHeaderSize(0, HEADER_SIZE))
    } else if endian_of(s[0]) is None {
        Some(RomError::UnknownMagic(s[0]))
    } else if s.len() < HEADER_SIZE {
        Some(RomError::InvalidHeaderSize(s.len() as usize, HEADER_SIZE))
    } else {
        None
    }
}

/// The image `s` rewritten into canonical order, for the ordering that its first
/// byte announces.
pub open spec fn canonical(s: Seq<u8>) -> Seq<u8> {
    match endian_of(s[0]) {
        Some(e) => normalized(s, e),
        None => s,
    }
}

/// An image in native order: at least a header long, opening with the native magic.
pub open spec fn is_native_image(n: Seq<u8>) -> bool {
    &&& n.len() >= HEADER_SIZE
    &&& n[0] == 0x80
    &&& n[1] == 0x37
    &&& n[2] == 0x12
    &&& n[3] == 0x40
}

/// Parses a full image: recognises its byte order from the first byte, rewrites
/// the whole image into canonical order, and splits off the header.
pub fn parse(data: Vec<u8>) -> (r: Result<ROM, RomError>)
    ensures
        match r {
            Ok(rom) => {
                &&& parse_error(data@) is None
                &&& rom.header@ == canonical(data@).take(HEADER_SIZE as int)
                &&& rom.data@ == canonical(data@).skip(HEADER_SIZE as int)
                &&& rom.data@.len() == data@.len() - HEADER_SIZE
            },
            Err(e) => parse_error(data@) == Some(e),
        },
{
    let mut data = data;
    if data.len() == 0 {
        return Err(RomError::InvalidHeaderSize(0, HEADER_SIZE));
    }
    let e = match Endian::from_u8(data[0]) {
        Some(e) => e,
        None => return Err(RomError::UnknownMagic(data[0])),
    };
    normalize(&mut data, e);
    let at = if data.len() < HEADER_SIZE {
        data.len()
    } else {
        HEADER_SIZE
    };
    let body = data.split_off(at);
    match InternalHeader::new(data) {
        Ok(header) => Ok(ROM { header, data: body }),
        Err(err) => Err(err),
    }
}

/// Parsing the pair-swapped form of a native image gives the same outcome as
/// parsing the image itself: the same header and the same body.
pub proof fn lemma_byte_swapped_parses_alike(n: Seq<u8>)
    requires
        is_native_image(n),
    ensures
        parse_error(swap_pairs(n)) == parse_error(n),
        canonical(swap_pairs(n)) == canonical(n),
{
    let s = swap_pairs(n);
    assert(s[0] == BYTE_SWAPPED_FIRST);
    assert(n[0] == NATIVE_FIRST);
    lemma_byte_swap_self_inverse(n);
}

/// Parsing the reversed form of a native image gives the same outcome as parsing
/// the image itself, where the reversed form opens with the little-endian magic
/// byte, that is where the image ends with that byte.
pub proof fn lemma_reversed_parses_alike(n: Seq<u8>)
    requires
        is_native_image(n),
        n.last() == LITTLE_FIRST,
    ensures
        parse_error(n.reverse()) == parse_error(n),
        canonical(n.reverse()) == canonical(n),
{
    let s = n.reverse();
    assert(s[0] == LITTLE_FIRST);
    assert(n[0] == NATIVE_FIRST);
    lemma_reverse_self_inverse(n);
}

} // verus!
