use fxr_binary_reader::fxr::parse_fxr;
use fxr_binary_reader::header::FXR_MAGIC;
use fxr_binary_reader::section1::parse_section1_tree;
use fxr_binary_reader::section4::parse_section4_tree;
use fxr_binary_reader::section6::parse_section6_nested;
use fxr_binary_reader::section7::parse_section7_nested;
use fxr_binary_reader::sections::{Section6Entry, Section7Container};
use fxr_binary_reader::view::{parse_struct, Family, ParseError};

fn put_u32(buf: &mut Vec<u8>, at: usize, v: u32) {
    buf[at..at + 4].copy_from_slice(&v.to_le_bytes());
}

fn header(len: usize, version: u16) -> Vec<u8> {
    let mut b = vec![0u8; len];
    put_u32(&mut b, 0x00, FXR_MAGIC);
    b[0x06..0x08].copy_from_slice(&version.to_le_bytes());
    put_u32(&mut b, 0x08, 1);
    put_u32(&mut b, 0x68, 1);
    b
}

fn label_of(e: &ParseError) -> Family {
    match e {
        ParseError::BufferTooSmall { label, .. } => *label,
        ParseError::OutOfBounds { label, .. } => *label,
        ParseError::SizeOverflow { label, .. } => *label,
        ParseError::ValidationFailed { label, .. } => *label,
    }
}

#[test]
fn section1_present_section2_absent() {
    // Header, then a Section1 container at 0x90 whose Section2 offset is garbage.
    let mut b = header(0x90 + 16, 5);
    put_u32(&mut b, 0x10, 0x90);
    put_u32(&mut b, 0x14, 1);
    put_u32(&mut b, 0x90 + 4, 0);
    put_u32(&mut b, 0x90 + 8, 0xFFFF_FF00);
    let fxr = parse_fxr(&b).unwrap();
    let t = fxr.section1_tree.as_ref().unwrap();
    assert_eq!(t.section1.section2_count, 0);
    assert_eq!(t.section1.section2_offset, 0xFFFF_FF00);
    assert!(t.section2.is_none());
    assert!(t.section3.is_none());
    assert!(fxr.section4_tree.is_none());
    assert_eq!(b.len(), 0x90 + 16);
}

#[test]
fn absent_families_with_garbage_offsets_parse() {
    let mut b = header(144, 5);
    for at in [0x10, 0x28, 0x70, 0x78, 0x80] {
        put_u32(&mut b, at, 0xFFFF_FFF0);
    }
    let fxr = parse_fxr(&b).unwrap();
    assert!(fxr.section1_tree.is_none());
    assert!(fxr.section4_tree.is_none());
    assert!(fxr.section12_entries.is_none());
    assert!(fxr.section13_entries.is_none());
    assert!(fxr.section14_entries.is_none());
    assert_eq!(fxr.header.version, 5);
}

#[test]
fn short_buffer_fails_with_buffer_too_small() {
    let b = vec![0u8; 10];
    match parse_fxr(&b) {
        Err(ParseError::BufferTooSmall { label, expected, actual }) => {
            assert_eq!(label, Family::Header);
            assert_eq!((expected, actual), (144, 10));
        },
        _ => panic!("expected BufferTooSmall"),
    }
}

#[test]
fn bad_magic_fails_validation() {
    let mut b = header(144, 4);
    b[0] = b'G';
    match parse_fxr(&b) {
        Err(ParseError::ValidationFailed { label, offset, violations }) => {
            assert_eq!(label, Family::Header);
            assert_eq!(offset, 0);
            assert_eq!(violations.len(), 1);
            assert_eq!(violations[0].field, 0);
        },
        _ => panic!("expected ValidationFailed"),
    }
}

#[test]
fn version5_section14_count_fails_parse() {
    let mut b = header(144 + 4, 5);
    put_u32(&mut b, 0x80, 144);
    put_u32(&mut b, 0x84, 1);
    assert!(matches!(parse_fxr(&b), Err(ParseError::ValidationFailed { label: Family::Header, .. })));
    let mut b4 = header(144 + 4, 4);
    put_u32(&mut b4, 0x80, 144);
    put_u32(&mut b4, 0x84, 1);
    put_u32(&mut b4, 144, 0x1234);
    let fxr = parse_fxr(&b4).unwrap();
    let s14 = fxr.section14_entries.unwrap();
    assert_eq!(s14.len(), 1);
    assert_eq!(s14.get(0).data, 0x1234);
}

#[test]
fn section12_and_13_arrays() {
    let mut b = header(144 + 12, 5);
    put_u32(&mut b, 0x70, 144);
    put_u32(&mut b, 0x74, 2);
    put_u32(&mut b, 0x78, 152);
    put_u32(&mut b, 0x7c, 1);
    put_u32(&mut b, 144, 10);
    put_u32(&mut b, 148, 20);
    put_u32(&mut b, 152, 30);
    let fxr = parse_fxr(&b).unwrap();
    let s12 = fxr.section12_entries.unwrap();
    assert_eq!(s12.len(), 2);
    assert_eq!(s12.offset(), 144);
    assert_eq!((s12.get(0).data, s12.get(1).data), (10, 20));
    assert_eq!(fxr.section13_entries.unwrap().get(0).data, 30);
}

#[test]
fn full_section1_tree() {
    // Section1 at 0x90, Section2 at 0xA0, two Section3 entries at 0xB0.
    let mut b = header(0xB0 + 2 * 96, 5);
    put_u32(&mut b, 0x10, 0x90);
    put_u32(&mut b, 0x14, 1);
    put_u32(&mut b, 0x94, 1);
    put_u32(&mut b, 0x98, 0xA0);
    put_u32(&mut b, 0xA4, 2);
    put_u32(&mut b, 0xA8, 0xB0);
    put_u32(&mut b, 0xB0 + 0x20, 0x1111);
    put_u32(&mut b, 0xB0 + 96 + 0x48, 0x2222);
    let t = parse_section1_tree(&b, 0x90).unwrap();
    let s2 = t.section2.unwrap();
    assert_eq!(s2.section3_offset, 0xB0);
    let s3 = t.section3.unwrap();
    assert_eq!(s3.len(), 2);
    assert_eq!(s3.get(0).section11_offset1, 0x1111);
    assert_eq!(s3.get(1).section11_offset2, 0x2222);
}

#[test]
fn section2_failure_fails_section1_tree() {
    let mut b = header(0x90 + 16, 5);
    put_u32(&mut b, 0x10, 0x90);
    put_u32(&mut b, 0x14, 1);
    put_u32(&mut b, 0x94, 1);
    put_u32(&mut b, 0x98, 0x1000);
    match parse_fxr(&b) {
        Err(ParseError::OutOfBounds { label, offset, size, data_len }) => {
            assert_eq!(label, Family::Section2);
            assert_eq!((offset, size, data_len), (0x1000, 16, 0xA0));
        },
        _ => panic!("expected OutOfBounds"),
    }
}

// Layout of a buffer holding a full Section4 tree:
//   0x000 Section4 container
//   0x030 one Section4 entry, 0x034 one Section5 entry
//   0x040 two Section6 entries (0x040, 0x080)
//   0x0C0 Section10 container, 0x0D0 Section7 container
//   0x0F8 one Section8 entry, 0x118 one Section9 entry
//   0x130 pooled Section11 values (four of them)
fn section4_buffer() -> Vec<u8> {
    let mut b = vec![0u8; 0x140];
    // Section4 container
    put_u32(&mut b, 0x08, 1); // section5_count
    put_u32(&mut b, 0x0C, 2); // section6_count
    put_u32(&mut b, 0x10, 1); // section4_count
    put_u32(&mut b, 0x18, 0x34); // section5_offset
    put_u32(&mut b, 0x20, 0x40); // section6_offset
    put_u32(&mut b, 0x28, 0x30); // section4_offset
    put_u32(&mut b, 0x30, 0xAAAA);
    put_u32(&mut b, 0x34, 0xBBBB);
    // Section6[0]: Section11 x2, Section10, Section7
    put_u32(&mut b, 0x40 + 0x08, 2);
    put_u32(&mut b, 0x40 + 0x0C, 1);
    put_u32(&mut b, 0x40 + 0x10, 1);
    put_u32(&mut b, 0x40 + 0x20, 0x130);
    put_u32(&mut b, 0x40 + 0x28, 0xC0);
    put_u32(&mut b, 0x40 + 0x30, 0xD0);
    // Section6[1]: only the same Section11 values
    put_u32(&mut b, 0x80 + 0x08, 2);
    put_u32(&mut b, 0x80 + 0x20, 0x130);
    // Section10 container: Section11 x1 at 0x134
    put_u32(&mut b, 0xC0, 0x134);
    put_u32(&mut b, 0xC8, 1);
    // Section7 container: Section11 x1 at 0x138, Section8 x1 at 0xF8
    put_u32(&mut b, 0xD0 + 0x08, 1);
    put_u32(&mut b, 0xD0 + 0x10, 0x138);
    put_u32(&mut b, 0xD0 + 0x18, 0xF8);
    put_u32(&mut b, 0xD0 + 0x20, 1);
    // Section8 entry: Section11 x1 at 0x13C, Section9 x1 at 0x118
    put_u32(&mut b, 0xF8 + 0x08, 1);
    put_u32(&mut b, 0xF8 + 0x0C, 1);
    put_u32(&mut b, 0xF8 + 0x10, 0x13C);
    put_u32(&mut b, 0xF8 + 0x18, 0x118);
    // Section9 entry: Section11 x2 at 0x138
    put_u32(&mut b, 0x118 + 0x08, 2);
    put_u32(&mut b, 0x118 + 0x10, 0x138);
    // Section11 values
    put_u32(&mut b, 0x130, 11);
    put_u32(&mut b, 0x134, 22);
    put_u32(&mut b, 0x138, 33);
    put_u32(&mut b, 0x13C, 44);
    b
}

#[test]
fn full_section4_tree() {
    let b = section4_buffer();
    let t = parse_section4_tree(&b, 0).unwrap();
    assert_eq!(t.container.section6_count, 2);
    assert_eq!(t.section4_entries.as_ref().unwrap().get(0).unk00, 0xAAAA);
    assert_eq!(t.section5_entries.as_ref().unwrap().get(0).unk00, 0xBBBB);
    assert_eq!(t.section6_entries.as_ref().unwrap().len(), 2);
    assert_eq!(t.section6.len(), 2);

    let first = &t.section6[0];
    let s11 = first.section11.as_ref().unwrap();
    assert_eq!((s11.get(0).data, s11.get(1).data), (11, 22));
    let s10 = first.section10.as_ref().unwrap();
    assert_eq!(s10.container.section11_offset, 0x134);
    assert_eq!(s10.section11.as_ref().unwrap().get(0).data, 22);
    let s7 = first.section7.as_ref().unwrap();
    assert_eq!(s7.container.section8_offset, 0xF8);
    assert_eq!(s7.nested.section11.as_ref().unwrap().get(0).data, 33);
    assert_eq!(s7.nested.section8.len(), 1);
    let s8 = &s7.nested.section8[0];
    assert_eq!(s8.section11.as_ref().unwrap().get(0).data, 44);
    assert_eq!(s8.section9_entries.as_ref().unwrap().len(), 1);
    let s9 = &s8.section9[0];
    let s9_11 = s9.section11.as_ref().unwrap();
    assert_eq!((s9_11.get(0).data, s9_11.get(1).data), (33, 44));

    // The second entry shares the first entry's Section11 values.
    let second = &t.section6[1];
    assert_eq!(second.section11.as_ref().unwrap().offset(), s11.offset());
    assert!(second.section10.is_none());
    assert!(second.section7.is_none());
}

#[test]
fn deep_failure_fails_the_whole_parse() {
    let mut b = section4_buffer();
    // Point the Section9 entry's Section11 array past the end of the buffer.
    put_u32(&mut b, 0x118 + 0x10, 0x13C);
    match parse_section4_tree(&b, 0) {
        Err(ParseError::OutOfBounds { label, offset, size, data_len }) => {
            assert_eq!(label, Family::Section11);
            assert_eq!((offset, size, data_len), (0x13C, 8, 0x140));
        },
        _ => panic!("expected OutOfBounds"),
    }
    // The same tree reached from a header fails the same way.
    let mut whole = header(0x90, 5);
    put_u32(&mut whole, 0x28, 0x90);
    put_u32(&mut whole, 0x2C, 1);
    let mut tree = b.clone();
    for at in [0x18, 0x20, 0x28] {
        let v = u32::from_le_bytes(tree[at..at + 4].try_into().unwrap());
        tree[at..at + 4].copy_from_slice(&(v + 0x90).to_le_bytes());
    }
    whole.extend_from_slice(&tree);
    let shift = |w: &mut Vec<u8>, at: usize| {
        let v = u32::from_le_bytes(w[at..at + 4].try_into().unwrap());
        w[at..at + 4].copy_from_slice(&(v + 0x90).to_le_bytes());
    };
    for at in [0x40 + 0x20, 0x40 + 0x28, 0x40 + 0x30, 0x80 + 0x20, 0xC0, 0xD0 + 0x10, 0xD0 + 0x18,
        0xF8 + 0x10, 0xF8 + 0x18, 0x118 + 0x10]
    {
        shift(&mut whole, 0x90 + at);
    }
    let e = parse_fxr(&whole).err().expect("the parse must fail");
    assert_eq!(label_of(&e), Family::Section11);
    // Without the fault the whole file parses.
    put_u32(&mut whole, 0x90 + 0x118 + 0x10, 0x90 + 0x138);
    let fxr = parse_fxr(&whole).unwrap();
    assert_eq!(fxr.section4_tree.unwrap().section6.len(), 2);
}

#[test]
fn invalid_section6_entry_fails_validation() {
    let mut b = section4_buffer();
    put_u32(&mut b, 0x80 + 0x3C, 5);
    match parse_section4_tree(&b, 0) {
        Err(ParseError::ValidationFailed { label, offset, violations }) => {
            assert_eq!(label, Family::Section6);
            assert_eq!(offset, 0x80);
            assert_eq!(violations.len(), 1);
            assert_eq!(violations[0].field, 0x3C);
            assert_eq!(violations[0].value, 5);
        },
        _ => panic!("expected ValidationFailed"),
    }
}

#[test]
fn invalid_section7_container_fails_validation() {
    let mut b = section4_buffer();
    put_u32(&mut b, 0xD0 + 0x0C, 1);
    assert!(matches!(
        parse_section4_tree(&b, 0),
        Err(ParseError::ValidationFailed { label: Family::Section7, offset: 0xD0, .. })
    ));
}

#[test]
fn section6_nested_alone() {
    let b = section4_buffer();
    let entry = parse_struct::<Section6Entry>(&b, 0x40, Family::Section6).unwrap();
    let p = parse_section6_nested(&b, &entry, 0x40).unwrap();
    assert_eq!(p.section11.unwrap().len(), 2);
    assert!(p.section10.is_some());
    assert!(p.section7.is_some());
}

#[test]
fn section7_nested_alone() {
    let b = section4_buffer();
    let c = parse_struct::<Section7Container>(&b, 0xD0, Family::Section7).unwrap();
    let n = parse_section7_nested(&b, &c).unwrap();
    assert_eq!(n.section11.unwrap().get(0).data, 33);
    assert_eq!(n.section8_entries.unwrap().len(), 1);
    assert_eq!(n.section8.len(), 1);
}
