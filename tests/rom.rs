use n64::endian::{normalize, Endian};
use n64::error::RomError;
use n64::header::{InternalHeader, HEADER_SIZE};
use n64::rom::parse;

fn native_image(body_len: usize) -> Vec<u8> {
    let mut v: Vec<u8> = Vec::new();
    for i in 0..HEADER_SIZE + body_len {
        v.push((i % 251) as u8);
    }
    let head: [u8; 12] = [
        0x80, 0x37, 0x12, 0x40, 0x00, 0x00, 0x00, 0x0F, 0x80, 0x00, 0x10, 0x00,
    ];
    v[..12].copy_from_slice(&head);
    v
}

#[test]
fn field_extraction_from_native_header() {
    let rom = parse(native_image(16)).expect("failed to parse");
    let h = &rom.header;
    assert_eq!(h.pi_bsb_dom1_lat_reg(), 0x80);
    assert_eq!(h.pi_bsd_dom1_pgs_reg(), 0x37);
    assert_eq!(h.pi_bsd_dom1_pwd_reg(), 0x12);
    assert_eq!(h.pi_bsb_dom1_pgs_reg(), 0x40);
    assert_eq!(h.clock_rate(), 0x0000000F);
    assert_eq!(h.pc(), 0x80001000);
    assert_eq!(h.release(), 0x80001000);
}

#[test]
fn every_field_reads_its_offset_big_endian() {
    let mut v = native_image(0);
    let words: [(usize, [u8; 4]); 6] = [
        (0x10, [0xDE, 0xAD, 0xBE, 0xEF]),
        (0x14, [0x01, 0x02, 0x03, 0x04]),
        (0x18, [0x00, 0x00, 0x00, 0x01]),
        (0x1C, [0xFF, 0xFF, 0xFF, 0xFF]),
        (0x34, [0x00, 0x00, 0x00, 0x00]),
        (0x38, [0x00, 0x00, 0x00, 0x4E]),
    ];
    for (off, w) in words.iter() {
        v[*off..*off + 4].copy_from_slice(w);
    }
    v[0x3C..0x40].copy_from_slice(&[0x53, 0x4D, 0x45, 0x00]);
    v[0x20..0x33].copy_from_slice(b"SUPER MARIO 64     ");
    let h = InternalHeader::new(v[..HEADER_SIZE].to_vec()).unwrap();
    assert_eq!(h.crc1(), 0xDEADBEEF);
    assert_eq!(h.crc2(), 0x01020304);
    assert_eq!(h.unknown_1(), [1, 0xFFFFFFFF]);
    assert_eq!(h.unknown_2(), 0);
    assert_eq!(h.manufactorer_id(), 0x4E);
    assert_eq!(h.cartridge_id(), 0x534D);
    assert_eq!(h.country_code(), 0x4500);
    assert_eq!(h.image_name(), b"SUPER MARIO 64     ");
    assert_eq!(h.boot_code(), &v[0x40..0x1000]);
}

#[test]
fn byte_swapped_and_reversed_images_parse_alike() {
    let mut n = native_image(100);
    let last = n.len() - 1;
    n[last] = 0x40;
    let swapped: Vec<u8> = n.chunks(2).flat_map(|c| c.iter().rev().copied()).collect();
    let reversed: Vec<u8> = n.iter().rev().copied().collect();
    assert_eq!(swapped[0], 0x37);
    assert_eq!(reversed[0], 0x40);
    let a = parse(n.clone()).unwrap();
    for other in [swapped, reversed] {
        let b = parse(other).unwrap();
        assert_eq!(a.header.clock_rate(), b.header.clock_rate());
        assert_eq!(a.header.pc(), b.header.pc());
        assert_eq!(a.header.crc1(), b.header.crc1());
        assert_eq!(a.header.image_name(), b.header.image_name());
        assert_eq!(a.header.boot_code(), b.header.boot_code());
        assert_eq!(a.data, b.data);
    }
    assert_eq!(a.data, n[HEADER_SIZE..].to_vec());
}

#[test]
fn header_requires_exact_size() {
    for len in [0usize, 1, 4095, 4097, 8192] {
        let r = InternalHeader::new(vec![0u8; len]);
        assert!(matches!(r, Err(RomError::InvalidHeaderSize(a, 0x1000)) if a == len));
    }
    assert!(InternalHeader::new(vec![0u8; 4096]).is_ok());
}

#[test]
fn unknown_magic_is_rejected() {
    for b in [0x00u8, 0x12, 0x41, 0x7F, 0x81, 0xFF] {
        let mut v = native_image(8);
        v[0] = b;
        assert_eq!(parse(v).unwrap_err(), RomError::UnknownMagic(b));
    }
}

#[test]
fn short_images_report_header_size() {
    assert_eq!(
        parse(vec![0x80u8; 100]).unwrap_err(),
        RomError::InvalidHeaderSize(100, 0x1000)
    );
    assert_eq!(
        parse(vec![0x37u8; 4095]).unwrap_err(),
        RomError::InvalidHeaderSize(4095, 0x1000)
    );
    assert_eq!(
        parse(Vec::new()).unwrap_err(),
        RomError::InvalidHeaderSize(0, 0x1000)
    );
    assert_eq!(parse(vec![0x12u8; 3]).unwrap_err(), RomError::UnknownMagic(0x12));
}

#[test]
fn boot_code_is_always_4032_bytes() {
    for k in [0usize, 1, 7, 4096] {
        let rom = parse(native_image(k)).unwrap();
        assert_eq!(rom.header.boot_code().len(), 4032);
    }
}

#[test]
fn body_is_the_normalized_tail() {
    for k in [0usize, 1, 10, 5000] {
        let n = native_image(k);
        let rom = parse(n.clone()).unwrap();
        assert_eq!(rom.data.len(), k);
        assert_eq!(rom.data, n[HEADER_SIZE..].to_vec());
    }
    let mut n = native_image(6);
    let last = n.len() - 1;
    n[last] = 0x40;
    let reversed: Vec<u8> = n.iter().rev().copied().collect();
    let rom = parse(reversed).unwrap();
    assert_eq!(rom.data, n[HEADER_SIZE..].to_vec());
}

#[test]
fn normalizing_native_is_a_no_op() {
    let mut v = vec![1u8, 2, 3, 4, 5];
    normalize(&mut v, Endian::Native);
    assert_eq!(v, vec![1, 2, 3, 4, 5]);
}

#[test]
fn byte_swap_twice_restores() {
    let orig = vec![1u8, 2, 3, 4, 5, 6];
    let mut v = orig.clone();
    normalize(&mut v, Endian::ByteSwapped);
    assert_eq!(v, vec![2, 1, 4, 3, 6, 5]);
    normalize(&mut v, Endian::ByteSwapped);
    assert_eq!(v, orig);
}

#[test]
fn byte_swap_leaves_odd_trailing_byte() {
    let mut v = vec![1u8, 2, 3];
    normalize(&mut v, Endian::ByteSwapped);
    assert_eq!(v, vec![2, 1, 3]);
}

#[test]
fn reverse_twice_restores() {
    let orig = vec![1u8, 2, 3, 4, 5];
    let mut v = orig.clone();
    normalize(&mut v, Endian::Little);
    assert_eq!(v, vec![5, 4, 3, 2, 1]);
    normalize(&mut v, Endian::Little);
    assert_eq!(v, orig);
    let mut e: Vec<u8> = Vec::new();
    normalize(&mut e, Endian::Little);
    assert!(e.is_empty());
}

#[test]
fn classification_by_first_byte() {
    assert_eq!(Endian::from_u8(0x80), Some(Endian::Native));
    assert_eq!(Endian::from_u8(0x37), Some(Endian::ByteSwapped));
    assert_eq!(Endian::from_u8(0x40), Some(Endian::Little));
    assert_eq!(Endian::from_u8(0x12), None);
}
