use fxr_binary_reader::header::{Header, HeaderRules, FXR_MAGIC};
use fxr_binary_reader::record::{validate_record, Record, U32Field};
use fxr_binary_reader::sections::{
    Section11Entry, Section12Entry, Section1Container, Section3Entry, Section6Entry,
    Section8Entry,
};
use fxr_binary_reader::view::{parse_struct, Family, ParseError};

fn put_u32(buf: &mut Vec<u8>, at: usize, v: u32) {
    buf[at..at + 4].copy_from_slice(&v.to_le_bytes());
}

fn put_u16(buf: &mut Vec<u8>, at: usize, v: u16) {
    buf[at..at + 2].copy_from_slice(&v.to_le_bytes());
}

fn valid_header_bytes(version: u16) -> Vec<u8> {
    let mut b = vec![0u8; 144];
    put_u32(&mut b, 0x00, FXR_MAGIC);
    put_u16(&mut b, 0x06, version);
    put_u32(&mut b, 0x08, 1);
    put_u32(&mut b, 0x68, 1);
    b
}

#[test]
fn section1_container_round_trip() {
    let mut b = vec![0u8; 16];
    put_u32(&mut b, 0, 0x1122_3344);
    put_u32(&mut b, 4, 7);
    put_u32(&mut b, 8, 0xABCD);
    put_u32(&mut b, 12, 0xFFFF_FFFF);
    let c = parse_struct::<Section1Container>(&b, 0, Family::Section1).unwrap();
    assert_eq!(c.unk00, 0x1122_3344);
    assert_eq!(c.section2_count, 7);
    assert_eq!(c.section2_offset, 0xABCD);
    assert_eq!(c.unk0c, 0xFFFF_FFFF);
}

#[test]
fn section3_entry_round_trip_with_narrow_fields() {
    let mut b = vec![0u8; 96];
    put_u16(&mut b, 0, 0xBEEF);
    b[2] = 0x12;
    b[3] = 0x34;
    put_u32(&mut b, 0x20, 0x1000);
    put_u32(&mut b, 0x48, 0x2000);
    put_u32(&mut b, 0x5c, 99);
    let e = parse_struct::<Section3Entry>(&b, 0, Family::Section3).unwrap();
    assert_eq!(e.unk00, 0xBEEF);
    assert_eq!(e.unk01, 0x12);
    assert_eq!(e.unk02, 0x34);
    assert_eq!(e.section11_offset1, 0x1000);
    assert_eq!(e.section11_offset2, 0x2000);
    assert_eq!(e.unk5c, 99);
}

#[test]
fn section8_entry_round_trip_with_byte_fields() {
    let mut b = vec![0u8; 40];
    b[8] = 1;
    b[9] = 2;
    b[10] = 3;
    b[11] = 4;
    put_u32(&mut b, 8 + 8, 5);
    put_u32(&mut b, 8 + 12, 6);
    put_u32(&mut b, 8 + 24, 0x77);
    let e = parse_struct::<Section8Entry>(&b, 8, Family::Section8).unwrap();
    assert_eq!((e.unk00, e.unk01, e.unk02, e.unk03), (1, 2, 3, 4));
    assert_eq!(e.section11_count, 5);
    assert_eq!(e.section9_count, 6);
    assert_eq!(e.section9_offset, 0x77);
}

#[test]
fn header_round_trip() {
    let mut b = valid_header_bytes(5);
    put_u16(&mut b, 0x04, 0x0102);
    put_u32(&mut b, 0x0c, 4242);
    put_u32(&mut b, 0x10, 0x90);
    put_u32(&mut b, 0x14, 1);
    put_u32(&mut b, 0x80, 0x300);
    put_u32(&mut b, 0x84, 9);
    put_u32(&mut b, 0x8c, 0xDEAD);
    let h = parse_struct::<Header>(&b, 0, Family::Header).unwrap();
    assert_eq!(h.magic, FXR_MAGIC);
    assert_eq!(h.unk04, 0x0102);
    assert_eq!(h.version, 5);
    assert_eq!(h.unk08, 1);
    assert_eq!(h.ffx_id, 4242);
    assert_eq!(h.section1_offset, 0x90);
    assert_eq!(h.section1_count, 1);
    assert_eq!(h.unk68, 1);
    assert_eq!(h.section14_offset, 0x300);
    assert_eq!(h.section14_count, 9);
    assert_eq!(h.unk8c, 0xDEAD);
}

#[test]
fn record_sizes_follow_the_layouts() {
    assert_eq!(Header::size(), 144);
    assert_eq!(Section1Container::size(), 16);
    assert_eq!(Section3Entry::size(), 96);
    assert_eq!(Section6Entry::size(), 64);
    assert_eq!(Section8Entry::size(), 32);
    assert_eq!(Section11Entry::size(), 4);
}

#[test]
fn version5_header_with_clean_trailer_validates() {
    let b = valid_header_bytes(5);
    let h = parse_struct::<Header>(&b, 0, Family::Header).unwrap();
    assert_eq!(h.rules(), HeaderRules::Version5);
    assert!(validate_record(&h).is_empty());
}

#[test]
fn version5_header_with_section14_fails() {
    let mut b = valid_header_bytes(5);
    put_u32(&mut b, 0x84, 1);
    let h = parse_struct::<Header>(&b, 0, Family::Header).unwrap();
    let v = validate_record(&h);
    assert_eq!(v.len(), 1);
    assert_eq!(v[0].field, 0x84);
    assert_eq!(v[0].value, 1);
    assert_eq!((v[0].min, v[0].max), (0, 0));
}

#[test]
fn version4_header_ignores_version5_rules() {
    let mut b = valid_header_bytes(4);
    put_u32(&mut b, 0x74, 7);
    put_u32(&mut b, 0x84, 1);
    put_u32(&mut b, 0x88, 5);
    let h = parse_struct::<Header>(&b, 0, Family::Header).unwrap();
    assert_eq!(h.rules(), HeaderRules::Standard);
    assert!(validate_record(&h).is_empty());
}

#[test]
fn every_violation_is_reported() {
    let mut b = valid_header_bytes(5);
    put_u32(&mut b, 0x00, 0x0052_5847);
    put_u16(&mut b, 0x06, 5);
    put_u32(&mut b, 0x08, 2);
    put_u32(&mut b, 0x7c, 3);
    put_u32(&mut b, 0x88, 1);
    let h = parse_struct::<Header>(&b, 0, Family::Header).unwrap();
    let fields: Vec<u32> = validate_record(&h).iter().map(|c| c.field).collect();
    assert_eq!(fields, vec![0x00, 0x08, 0x7c, 0x88]);
}

#[test]
fn unsupported_version_is_a_violation() {
    let b = valid_header_bytes(3);
    let h = parse_struct::<Header>(&b, 0, Family::Header).unwrap();
    let v = validate_record(&h);
    assert_eq!(v.len(), 1);
    assert_eq!(v[0].field, 0x06);
    assert_eq!((v[0].min, v[0].max), (4, 5));
}

#[test]
fn section6_entry_constraints() {
    let mut b = vec![0u8; 64];
    let e = parse_struct::<Section6Entry>(&b, 0, Family::Section6).unwrap();
    assert!(validate_record(&e).is_empty());
    put_u32(&mut b, 0x18, 1);
    put_u32(&mut b, 0x3c, 2);
    let e = parse_struct::<Section6Entry>(&b, 0, Family::Section6).unwrap();
    let fields: Vec<u32> = validate_record(&e).iter().map(|c| c.field).collect();
    assert_eq!(fields, vec![0x18, 0x3c]);
}

#[test]
fn default_header_values() {
    let h = Header::default();
    assert_eq!(h.magic, FXR_MAGIC);
    assert_eq!(h.version, 1);
    assert_eq!(h.section1_count, 1);
    assert_eq!(h.section4_count, 0);
    assert_eq!(h.unk08, 0);
    assert_eq!(h.unk8c, 0);
}

#[test]
fn single_value_entries_expose_their_data() {
    let b = 0xCAFE_F00Du32.to_le_bytes().to_vec();
    let e = parse_struct::<Section12Entry>(&b, 0, Family::Section12).unwrap();
    assert_eq!(U32Field::data(&e), 0xCAFE_F00D);
}

#[test]
fn struct_read_on_short_buffer_is_buffer_too_small() {
    let b = vec![0u8; 10];
    match parse_struct::<Header>(&b, 0, Family::Header) {
        Err(ParseError::BufferTooSmall { label, expected, actual }) => {
            assert_eq!(label, Family::Header);
            assert_eq!(expected, 144);
            assert_eq!(actual, 10);
        },
        other => panic!("unexpected: {:?}", other.map(|_| ())),
    }
}

#[test]
fn struct_read_past_end_is_out_of_bounds() {
    let b = vec![0u8; 20];
    match parse_struct::<Section1Container>(&b, 8, Family::Section1) {
        Err(ParseError::OutOfBounds { label, offset, size, data_len }) => {
            assert_eq!(label, Family::Section1);
            assert_eq!((offset, size, data_len), (8, 16, 20));
        },
        other => panic!("unexpected: {:?}", other.map(|_| ())),
    }
    assert!(parse_struct::<Section1Container>(&b, 4, Family::Section1).is_ok());
}
