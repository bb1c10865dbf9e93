use crate::bytes::{be_u16_at, be_u32_at, read_be_u16, read_be_u32};
use crate::error::RomError;
use vstd::prelude::*;
use vstd::slice::slice_subrange;

verus! {

/// Length of the header that opens every image.
pub const HEADER_SIZE: usize = 0x1000;

/// The header of an image in canonical order: exactly `HEADER_SIZE` bytes.
/// Fields are read from fixed offsets on demand.
#[derive(Debug)]
pub struct InternalHeader {
    data: Vec<u8>,
}

impl View for InternalHeader {
    type V = Seq<u8>;

    closed spec fn view(&self) -> Seq<u8> {
        self.data@
    }
}

impl InternalHeader {
    #[verifier::type_invariant]
    spec fn inv(&self) -> bool {
        self.data@.len() == HEADER_SIZE
    }

    /// Wraps `data` as a header; it must hold exactly `HEADER_SIZE` bytes.
    pub fn new(data: Vec<u8>) -> (r: Result<InternalHeader, RomError>)
        ensures
            match r {
                Ok(h) => data@.len() == HEADER_SIZE && h@ == data@,
                Err(e) => data@.len() != HEADER_SIZE && e == RomError::InvalidHeaderSize(
                    data@.len() as usize,
                    HEADER_SIZE,
                ),
            },
    {
        if data.len() != HEADER_SIZE {
            Err(RomError::InvalidHeaderSize(data.len(), HEADER_SIZE))
        } else {
            Ok(InternalHeader { data })
        }
    }

    fn byte(&self, off: usize) -> (r: u8)
        requires
            off < HEADER_SIZE,
        ensures
            r == self@[off as int],
            self@.len() == HEADER_SIZE,
    {
        proof {
            use_type_invariant(self);
        }
        self.data[off]
    }

    fn half(&self, off: usize) -> (r: u32)
        requires
            off + 2 <= HEADER_SIZE,
        ensures
            r as int == be_u16_at(self@, off as int),
            self@.len() == HEADER_SIZE,
    {
        proof {
            use_type_invariant(self);
        }
        let b = slice_subrange(self.data.as_slice(), off, off + 2);
        read_be_u16(b) as u32
    }

    fn word(&self, off: usize) -> (r: u64)
        requires
            off + 4 <= HEADER_SIZE,
        ensures
            r as int == be_u32_at(self@, off as int),
            self@.len() == HEADER_SIZE,
    {
        proof {
            use_type_invariant(self);
        }
        let b = slice_subrange(self.data.as_slice(), off, off + 4);
        read_be_u32(b) as u64
    }

    fn bytes(&self, start: usize, end: usize) -> (r: &[u8])
        requires
            start <= end <= HEADER_SIZE,
        ensures
            r@ == self@.subrange(start as int, end as int),
            self@.len() == HEADER_SIZE,
    {
        proof {
            use_type_invariant(self);
        }
        slice_subrange(self.data.as_slice(), start, end)
    }

    /// Byte 0x00: PI_BSB_DOM1_LAT_REG.
    pub fn pi_bsb_dom1_lat_reg(&self) -> (r: u8)
        ensures
            r == self@[0x00],
    {
        self.byte(0x00)
    }

    /// Byte 0x01: PI_BSD_DOM1_PGS_REG.
    pub fn pi_bsd_dom1_pgs_reg(&self) -> (r: u8)
        ensures
            r == self@[0x01],
    {
        self.byte(0x01)
    }

    /// Byte 0x02: PI_BSD_DOM1_PWD_REG.
    pub fn pi_bsd_dom1_pwd_reg(&self) -> (r: u8)
        ensures
            r == self@[0x02],
    {
        self.byte(0x02)
    }

    /// Byte 0x03: PI_BSB_DOM1_PGS_REG.
    pub fn pi_bsb_dom1_pgs_reg(&self) -> (r: u8)
        ensures
            r == self@[0x03],
    {
        self.byte(0x03)
    }

    /// Bytes 0x04..0x08: the clock rate.
    pub fn clock_rate(&self) -> (r: u64)
        ensures
            r as int == be_u32_at(self@, 0x04),
    {
        self.word(0x04)
    }

    /// Bytes 0x08..0x0C: the program counter at entry.
    pub fn pc(&self) -> (r: u64)
        ensures
            r as int == be_u32_at(self@, 0x08),
    {
        self.word(0x08)
    }

    /// The release word. It is read from the same bytes as `pc` (0x08..0x0C),
    /// as the layout in use does, although 0x0C..0x10 is the documented place.
    pub fn release(&self) -> (r: u64)
        ensures
            r as int == be_u32_at(self@, 0x08),
    {
        self.word(0x08)
    }

    /// Bytes 0x10..0x14: the first checksum, not validated.
    pub fn crc1(&self) -> (r: u64)
        ensures
            r as int == be_u32_at(self@, 0x10),
    {
        self.word(0x10)
    }

    /// Bytes 0x14..0x18: the second checksum, not validated.
    pub fn crc2(&self) -> (r: u64)
        ensures
            r as int == be_u32_at(self@, 0x14),
    {
        self.word(0x14)
    }

    /// Bytes 0x18..0x20: two words of unknown use.
    pub fn unknown_1(&self) -> (r: [u64; 2])
        ensures
            r@[0] as int == be_u32_at(self@, 0x18),
            r@[1] as int == be_u32_at(self@, 0x1C),
    {
        [self.word(0x18), self.word(0x1C)]
    }

    /// Bytes 0x20..0x33: the image name, ASCII padded with spaces or zeros.
    pub fn image_name(&self) -> (r: &[u8])
        ensures
            r@ == self@.subrange(0x20, 0x33),
    {
        self.bytes(0x20, 0x33)
    }

    /// Bytes 0x34..0x38: a word of unknown use.
    pub fn unknown_2(&self) -> (r: u64)
        ensures
            r as int == be_u32_at(self@, 0x34),
    {
        self.word(0x34)
    }

    /// Bytes 0x38..0x3C: the manufacturer id, undecoded (`0x4E` is Nintendo).
    pub fn manufactorer_id(&self) -> (r: u64)
        ensures
            r as int == be_u32_at(self@, 0x38),
    {
        self.word(0x38)
    }

    /// Bytes 0x3C..0x3E: the cartridge id.
    pub fn cartridge_id(&self) -> (r: u32)
        ensures
            r as int == be_u16_at(self@, 0x3C),
    {
        self.half(0x3C)
    }

    /// Bytes 0x3E..0x40: the country code, undecoded (`0x4500` is USA).
    pub fn country_code(&self) -> (r: u32)
        ensures
            r as int == be_u16_at(self@, 0x3E),
    {
        self.half(0x3E)
    }

    /// Bytes 0x40..0x1000: the boot code, always 4032 bytes.
    pub fn boot_code(&self) -> (r: &[u8])
        ensures
            r@ == self@.subrange(0x40, 0x1000),
            r@.len() == 4032,
    {
        self.bytes(0x40, HEADER_SIZE)
    }
}

} // verus!
