use anytone_emu::response::{crc, Response};

#[test]
fn crc_of_nothing_is_zero() {
    assert_eq!(crc(&[]), 0);
}

#[test]
fn crc_adds_bytes() {
    assert_eq!(crc(&[1, 2, 3]), 6);
    assert_eq!(crc(&[0x02, 0xfa, 0x00, 0x00, 0x10]), 0x0c);
}

#[test]
fn crc_wraps_modulo_256() {
    assert_eq!(crc(&[0xff, 0x02]), 0x01);
    assert_eq!(crc(&[0x80, 0x80]), 0x00);
    assert_eq!(crc(&[0xff, 0xff, 0xff]), 0xfd);
}

#[test]
fn program_ok_is_q_x_ack() {
    let r = Response::program_ok();
    assert_eq!(r.packet, vec![0x51, 0x58, 0x06]);
}

#[test]
fn write_ack_is_single_ack_byte() {
    let r = Response::write();
    assert_eq!(r.packet, vec![0x06]);
}

#[test]
fn device_info_layout_is_exact() {
    let r = Response::device_info(b"ABCDEF", b"V1\x00\x00\x00\x00");
    let expected: Vec<u8> = vec![
        0x49, 0x44, b'A', b'B', b'C', b'D', b'E', b'F', 0x00, b'V', b'1', 0x00, 0x00, 0x00, 0x00,
        0x06,
    ];
    assert_eq!(r.packet, expected);
}

#[test]
fn device_info_pads_short_identity_with_zeros() {
    let r = Response::device_info(b"AB", b"V");
    let expected: Vec<u8> = vec![
        0x49, 0x44, b'A', b'B', 0x00, 0x00, 0x00, 0x00, 0x00, b'V', 0x00, 0x00, 0x00, 0x00, 0x00,
        0x06,
    ];
    assert_eq!(r.packet, expected);
}

#[test]
fn device_info_truncates_long_identity_to_six_bytes() {
    let r = Response::device_info(b"ABCDEFGH", b"V1234567");
    let expected: Vec<u8> = vec![
        0x49, 0x44, b'A', b'B', b'C', b'D', b'E', b'F', 0x00, b'V', b'1', b'2', b'3', b'4', b'5',
        0x06,
    ];
    assert_eq!(r.packet, expected);
}

#[test]
fn read_response_layout_is_exact() {
    let payload: [u8; 4] = [0xaa, 0xbb, 0xcc, 0xdd];
    let r = Response::read(0x01020304, &payload);
    // W, address big-endian, length, payload, additive checksum, ack
    let sum: u32 = 1 + 2 + 3 + 4 + 4 + 0xaa + 0xbb + 0xcc + 0xdd;
    let expected: Vec<u8> = vec![
        0x57, 0x01, 0x02, 0x03, 0x04, 0x04, 0xaa, 0xbb, 0xcc, 0xdd, (sum % 256) as u8, 0x06,
    ];
    assert_eq!(r.packet, expected);
}

#[test]
fn empty_read_checksum_is_sum_of_address_bytes() {
    let r = Response::read(0x02fa0000, &[]);
    // body is the four address bytes and a zero length byte
    let expected: Vec<u8> = vec![0x57, 0x02, 0xfa, 0x00, 0x00, 0x00, 0xfc, 0x06];
    assert_eq!(r.packet, expected);
    assert_eq!(r.packet[6], ((0x02u32 + 0xfa + 0x00 + 0x00) % 256) as u8);
}

#[test]
fn read_response_of_full_block_is_24_bytes() {
    let payload: [u8; 16] = [0; 16];
    let r = Response::read(0x02fa0000, &payload);
    assert_eq!(r.packet.len(), 24);
    assert_eq!(r.packet[0], 0x57);
    assert_eq!(r.packet[5], 0x10);
    assert_eq!(r.packet[22], 0x0c); // 0x02 + 0xfa + 0x10
    assert_eq!(r.packet[23], 0x06);
}
