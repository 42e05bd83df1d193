use vxi11::xdr::{read_opaque_at, read_u32_at, write_bool, write_opaque, write_string, write_u32};
use vxi11::Error;

#[test]
fn u32_wire_is_big_endian() {
    let mut out: Vec<u8> = Vec::new();
    write_u32(0x01020304, &mut out);
    assert_eq!(out, vec![1, 2, 3, 4]);
    let mut zero: Vec<u8> = Vec::new();
    write_u32(0, &mut zero);
    assert_eq!(zero, vec![0, 0, 0, 0]);
    let mut max: Vec<u8> = Vec::new();
    write_u32(u32::MAX, &mut max);
    assert_eq!(max, vec![0xff, 0xff, 0xff, 0xff]);
}

#[test]
fn bool_wire_is_word_sized() {
    let mut out: Vec<u8> = Vec::new();
    write_bool(true, &mut out);
    write_bool(false, &mut out);
    assert_eq!(out, vec![0, 0, 0, 1, 0, 0, 0, 0]);
}

#[test]
fn opaque_wire_is_length_prefixed_and_padded() {
    let mut out: Vec<u8> = Vec::new();
    write_opaque(&[0xaa, 0xbb, 0xcc], &mut out);
    assert_eq!(out, vec![0, 0, 0, 3, 0xaa, 0xbb, 0xcc, 0]);

    let mut empty: Vec<u8> = Vec::new();
    write_opaque(&[], &mut empty);
    assert_eq!(empty, vec![0, 0, 0, 0]);

    let mut aligned: Vec<u8> = Vec::new();
    write_opaque(&[1, 2, 3, 4], &mut aligned);
    assert_eq!(aligned, vec![0, 0, 0, 4, 1, 2, 3, 4]);
}

#[test]
fn string_wire_is_utf8_opaque() {
    let mut out: Vec<u8> = Vec::new();
    write_string("instr", &mut out);
    assert_eq!(out, vec![0, 0, 0, 5, b'i', b'n', b's', b't', b'r', 0, 0, 0]);
}

#[test]
fn read_u32_round_trips_and_reports_offset() {
    let data = vec![0, 0, 0, 7, 0x12, 0x34, 0x56, 0x78];
    assert_eq!(read_u32_at(&data, 0).unwrap(), (7, 4));
    assert_eq!(read_u32_at(&data, 4).unwrap(), (0x12345678, 8));
    assert_eq!(read_u32_at(&data, 5), Err(Error::XdrError(5)));
    assert_eq!(read_u32_at(&[1, 2], 0), Err(Error::XdrError(0)));
}

#[test]
fn read_opaque_round_trips() {
    let mut wire: Vec<u8> = Vec::new();
    write_opaque(&[9, 8, 7, 6, 5], &mut wire);
    wire.push(0xee); // trailing byte past the array
    let (body, next) = read_opaque_at(&wire, 0).unwrap();
    assert_eq!(body, vec![9, 8, 7, 6, 5]);
    assert_eq!(next, 12);
    assert_eq!(wire[next], 0xee);
}

#[test]
fn read_opaque_rejects_truncation() {
    // Declared length runs past the input.
    assert_eq!(read_opaque_at(&[0, 0, 0, 9, 1, 2], 0), Err(Error::XdrError(0)));
    // Bytes are there but their padding is missing.
    assert_eq!(read_opaque_at(&[0, 0, 0, 1, 1], 0), Err(Error::XdrError(0)));
    // Too short for the length word itself.
    assert_eq!(read_opaque_at(&[0, 0], 0), Err(Error::XdrError(0)));
}
