use fxr_binary_reader::sections::{Section11Entry, Section12Entry, Section3Entry};
use fxr_binary_reader::view::{parse_named_u32_entries, parse_section_slice, Family, ParseError};
use fxr_binary_reader::walk::parse_optional_slice;

#[test]
fn shrinking_a_valid_read_stays_valid() {
    let b = vec![0u8; 16];
    for count in 0..=3u32 {
        assert!(parse_section_slice::<Section11Entry>(&b, 4, count, Family::Section11).is_ok());
    }
}

#[test]
fn growing_an_out_of_bounds_read_stays_out_of_bounds() {
    let b = vec![0u8; 16];
    match parse_section_slice::<Section11Entry>(&b, 4, 4, Family::Section11) {
        Err(ParseError::OutOfBounds { label, offset, size, data_len }) => {
            assert_eq!(label, Family::Section11);
            assert_eq!((offset, size, data_len), (4, 16, 16));
        },
        _ => panic!("expected OutOfBounds"),
    }
    for count in [5u32, 100, 1 << 20] {
        assert!(parse_section_slice::<Section11Entry>(&b, 4, count, Family::Section11).is_err());
    }
}

#[test]
fn max_count_never_succeeds() {
    let b = vec![0u8; 64];
    for offset in [0u32, 8, u32::MAX] {
        match parse_section_slice::<Section3Entry>(&b, offset, u32::MAX, Family::Section3) {
            Err(ParseError::OutOfBounds { .. }) | Err(ParseError::SizeOverflow { .. }) => {},
            _ => panic!("expected OutOfBounds or SizeOverflow"),
        }
    }
}

#[test]
fn array_entries_are_read_in_place() {
    let mut b = vec![0u8; 12];
    b[4..8].copy_from_slice(&7u32.to_le_bytes());
    b[8..12].copy_from_slice(&9u32.to_le_bytes());
    let v = parse_section_slice::<Section11Entry>(&b, 4, 2, Family::Section11).unwrap();
    assert_eq!(v.len(), 2);
    assert_eq!(v.offset(), 4);
    assert_eq!(v.entry_offset(1), 8);
    assert_eq!((v.get(0).data, v.get(1).data), (7, 9));
}

#[test]
fn zero_count_ignores_offset() {
    let b = vec![0u8; 4];
    let r = parse_optional_slice::<Section11Entry>(&b, u32::MAX, 0, Family::Section11).unwrap();
    assert!(r.is_none());
    let r = parse_optional_slice::<Section11Entry>(&b, 0, 1, Family::Section11).unwrap();
    assert_eq!(r.unwrap().len(), 1);
}

#[test]
fn named_entries_read_like_a_slice() {
    let mut b = vec![0u8; 8];
    b[4..8].copy_from_slice(&0x55u32.to_le_bytes());
    let v = parse_named_u32_entries::<Section12Entry>(&b, 4, 1, Family::Section12).unwrap();
    assert_eq!(v.get(0).data, 0x55);
    assert!(parse_named_u32_entries::<Section12Entry>(&b, 6, 1, Family::Section12).is_err());
}
