use trichloride::nal::{split_annexb, NalError, NalKind};

#[test]
fn three_byte_codes_round_trip() {
    let mut buf: Vec<u8> = Vec::new();
    buf.extend_from_slice(&[0, 0, 1, 0x67, 0x42, 0x00, 0x1f]);
    buf.extend_from_slice(&[0, 0, 1, 0x68, 0xce]);
    buf.extend_from_slice(&[0, 0, 1, 0x65, 0x88, 0x84]);
    let units = split_annexb(&buf).unwrap();
    assert_eq!(units.len(), 3);
    assert_eq!(units[0].payload, vec![0x67, 0x42, 0x00, 0x1f]);
    assert_eq!(units[1].payload, vec![0x68, 0xce]);
    assert_eq!(units[2].payload, vec![0x65, 0x88, 0x84]);
    assert_eq!(units[0].kind, NalKind::SequenceParameterSet);
    assert_eq!(units[1].kind, NalKind::PictureParameterSet);
    assert_eq!(units[2].kind, NalKind::Other(5));
}

#[test]
fn four_byte_codes_round_trip() {
    let mut buf: Vec<u8> = Vec::new();
    buf.extend_from_slice(&[0, 0, 0, 1, 0x41, 0x9a, 0x02]);
    buf.extend_from_slice(&[0, 0, 0, 1, 0x06, 0xff]);
    let units = split_annexb(&buf).unwrap();
    assert_eq!(units.len(), 2);
    assert_eq!(units[0].payload, vec![0x41, 0x9a, 0x02]);
    assert_eq!(units[1].payload, vec![0x06, 0xff]);
    assert_eq!(units[0].kind, NalKind::Other(1));
    assert_eq!(units[1].kind, NalKind::Other(6));
}

#[test]
fn mixed_code_lengths_round_trip() {
    let mut buf: Vec<u8> = Vec::new();
    buf.extend_from_slice(&[0, 0, 0, 1, 0x67, 0x64, 0x00, 0x1f]);
    buf.extend_from_slice(&[0, 0, 1, 0x68, 0xee]);
    buf.extend_from_slice(&[0, 0, 0, 1, 0x65, 0x12]);
    let units = split_annexb(&buf).unwrap();
    assert_eq!(units.len(), 3);
    assert_eq!(units[0].payload, vec![0x67, 0x64, 0x00, 0x1f]);
    assert_eq!(units[1].payload, vec![0x68, 0xee]);
    assert_eq!(units[2].payload, vec![0x65, 0x12]);
}

#[test]
fn payload_bytes_are_arbitrary() {
    // Payload bytes other than start-code sequences survive unchanged,
    // header byte included.
    let buf = vec![0, 0, 1, 0x65, 0xff, 0x00, 0xab, 0x00, 0x17];
    let units = split_annexb(&buf).unwrap();
    assert_eq!(units.len(), 1);
    assert_eq!(units[0].payload, vec![0x65, 0xff, 0x00, 0xab, 0x00, 0x17]);
}

#[test]
fn garbage_prefix_is_an_error() {
    let buf = vec![0xde, 0xad, 0, 0, 1, 0x65];
    assert!(matches!(split_annexb(&buf), Err(NalError::NoStartCode)));
}

#[test]
fn empty_buffer_yields_no_units() {
    let buf: Vec<u8> = Vec::new();
    let units = split_annexb(&buf).unwrap();
    assert_eq!(units.len(), 0);
}

#[test]
fn trailing_start_code_emits_no_unit() {
    let mut buf: Vec<u8> = Vec::new();
    buf.extend_from_slice(&[0, 0, 1, 0x65, 0x01]);
    buf.extend_from_slice(&[0, 0, 1]);
    let units = split_annexb(&buf).unwrap();
    assert_eq!(units.len(), 1);
    assert_eq!(units[0].payload, vec![0x65, 0x01]);
}

#[test]
fn lone_start_code_yields_no_units() {
    let units = split_annexb(&[0, 0, 0, 1]).unwrap();
    assert_eq!(units.len(), 0);
}
