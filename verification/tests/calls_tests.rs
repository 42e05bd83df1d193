use vxi11::calls::{
    CreateLinkRequest, CreateLinkResponse, DeviceReadRequest, DeviceReadResponse,
    DeviceWriteRequest, DeviceWriteResponse,
};
use vxi11::{Deserialize, Error, Serialize};

fn be(v: u32) -> Vec<u8> {
    v.to_be_bytes().to_vec()
}

#[test]
fn create_link_request_wire_form() {
    let req = CreateLinkRequest {
        client_id: 0x1234,
        lock: true,
        lock_timeout_ms: 250,
        device: "instr".to_string(),
    };
    let mut out: Vec<u8> = Vec::new();
    req.serialize(&mut out);
    let mut expected = be(0x1234);
    expected.extend_from_slice(&be(1));
    expected.extend_from_slice(&be(250));
    expected.extend_from_slice(&[0, 0, 0, 5, b'i', b'n', b's', b't', b'r', 0, 0, 0]);
    assert_eq!(out, expected);
}

#[test]
fn device_write_request_wire_form() {
    let req = DeviceWriteRequest {
        link_id: 3,
        io_timeout: 1000,
        lock_timeout: 0,
        flags: 8,
        data: vec![0xca, 0xfe],
    };
    let mut out: Vec<u8> = Vec::new();
    req.serialize(&mut out);
    let mut expected = be(3);
    expected.extend_from_slice(&be(1000));
    expected.extend_from_slice(&be(0));
    expected.extend_from_slice(&be(8));
    expected.extend_from_slice(&[0, 0, 0, 2, 0xca, 0xfe, 0, 0]);
    assert_eq!(out, expected);
}

#[test]
fn device_read_request_wire_form() {
    let req = DeviceReadRequest {
        link_id: 3,
        request_size: 1024,
        io_timeout: 1000,
        lock_timeout: 0,
        flags: 128,
        term_char: 10,
    };
    let mut out: Vec<u8> = Vec::new();
    req.serialize(&mut out);
    let mut expected = be(3);
    for v in [1024, 1000, 0, 128, 10] {
        expected.extend_from_slice(&be(v));
    }
    assert_eq!(out, expected);
}

#[test]
fn create_link_response_parses_fixed_offsets() {
    let mut wire = be(0);
    wire.extend_from_slice(&be(77));
    wire.extend_from_slice(&be(620));
    wire.extend_from_slice(&be(4096));
    let (resp, used) = CreateLinkResponse::deserialize_partial(&wire).unwrap();
    assert_eq!(used, 16);
    assert_eq!(resp.error, 0);
    assert_eq!(resp.link_id, 77);
    assert_eq!(resp.port, 620);
    assert_eq!(resp.max_recv_size, 4096);
}

#[test]
fn create_link_response_reports_the_failing_offset() {
    assert!(matches!(
        CreateLinkResponse::deserialize_partial(&[]),
        Err(Error::XdrError(0))
    ));
    assert!(matches!(
        CreateLinkResponse::deserialize_partial(&be(1)),
        Err(Error::XdrError(4))
    ));
    let mut twelve = be(1);
    twelve.extend_from_slice(&be(2));
    twelve.extend_from_slice(&be(3));
    assert!(matches!(
        CreateLinkResponse::deserialize_partial(&twelve),
        Err(Error::XdrError(12))
    ));
}

#[test]
fn device_write_response_parses() {
    let mut wire = be(0);
    wire.extend_from_slice(&be(42));
    let (resp, used) = DeviceWriteResponse::deserialize_partial(&wire).unwrap();
    assert_eq!(used, 8);
    assert_eq!(resp.error, 0);
    assert_eq!(resp.size, 42);
    assert!(matches!(
        DeviceWriteResponse::deserialize_partial(&be(0)),
        Err(Error::XdrError(4))
    ));
}

#[test]
fn device_read_response_parses_data_and_padding() {
    let mut wire = be(0);
    wire.extend_from_slice(&be(4));
    wire.extend_from_slice(&[0, 0, 0, 3, b'x', b'y', b'z', 0]);
    let (resp, used) = DeviceReadResponse::deserialize_partial(&wire).unwrap();
    assert_eq!(used, 16);
    assert_eq!(resp.error, 0);
    assert_eq!(resp.reason, 4);
    assert_eq!(resp.data, b"xyz".to_vec());
}

#[test]
fn device_read_response_rejects_truncated_data() {
    let mut wire = be(0);
    wire.extend_from_slice(&be(0));
    wire.extend_from_slice(&[0, 0, 0, 9, 1, 2]); // declares 9 bytes, has 2
    assert!(matches!(
        DeviceReadResponse::deserialize_partial(&wire),
        Err(Error::XdrError(8))
    ));
}

#[test]
fn u32_response_parses_from_the_front() {
    let wire = be(65535);
    assert_eq!(u32::deserialize(&wire), Ok(65535));
    assert!(matches!(u32::deserialize(&[1, 2, 3]), Err(Error::XdrError(0))));
}
