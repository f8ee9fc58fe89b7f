//! Wire-format tests: CRC values, frame layout, round trips and checksum
//! sensitivity.

use juice_box::modbus::{calculate_crc16, DecodeError, ModbusFrame, Reference};

#[test]
fn crc_known_check_value() {
    // The catalogued CRC-16/MODBUS check value for the string "123456789".
    assert_eq!(calculate_crc16(b"123456789"), 0x4B37);
}

#[test]
fn crc_of_empty_span_is_seed() {
    assert_eq!(calculate_crc16(&[]), 0xFFFF);
}

#[test]
fn crc_of_encoded_frame_is_zero() {
    let frame = ModbusFrame::new(2, 4, Reference::Address(0x3040), 0x0001);
    let bytes = frame.encode();
    assert_eq!(calculate_crc16(&bytes), 0);
}

#[test]
fn encode_address_frame_layout() {
    let frame = ModbusFrame::new(2, 4, Reference::Address(0x3040), 0x0001);
    let bytes = frame.encode();
    assert_eq!(bytes.len(), 8);
    assert_eq!(&bytes[..6], &[0x02, 0x04, 0x30, 0x40, 0x00, 0x01]);
    // The checksum of the first six bytes, appended low byte first.
    let crc = calculate_crc16(&bytes[..6]);
    assert_eq!(bytes[6], (crc & 0xff) as u8);
    assert_eq!(bytes[7], (crc >> 8) as u8);
}

#[test]
fn encode_size_frame_layout() {
    let frame = ModbusFrame::new(3, 3, Reference::Size(2), 0x8103);
    let bytes = frame.encode();
    assert_eq!(bytes.len(), 7);
    assert_eq!(&bytes[..5], &[0x03, 0x03, 0x02, 0x81, 0x03]);
    assert_eq!(calculate_crc16(&bytes), 0);
}

#[test]
fn decode_reproduces_address_frame() {
    let frame = ModbusFrame::new(7, 6, Reference::Address(0x4010), 0xABCD);
    let bytes = frame.encode();
    let decoded = ModbusFrame::decode(&bytes).unwrap();
    assert_eq!(decoded, frame);
}

#[test]
fn decode_normalizes_reference_to_address() {
    // A reply-shaped frame (size reference) decodes, but the size byte and
    // the value's high byte land in the address slot: the asymmetry is part
    // of the protocol, round trips hold on address frames only.
    let frame = ModbusFrame::new(1, 3, Reference::Size(2), 0x0001);
    let bytes = frame.encode();
    let decoded = ModbusFrame::decode(&bytes).unwrap();
    assert_eq!(decoded.unit_id, 1);
    assert_eq!(decoded.command, 3);
    assert_eq!(decoded.refers, Reference::Address(0x0200));
}

#[test]
fn single_bit_flips_always_fail_decode() {
    let frame = ModbusFrame::new(2, 6, Reference::Address(0x4012), 0x0001);
    let bytes = frame.encode();
    for i in 0..bytes.len() {
        for j in 0..8 {
            let mut corrupted = bytes.clone();
            corrupted[i] ^= 1u8 << j;
            assert_eq!(
                ModbusFrame::decode(&corrupted),
                Err(DecodeError::BadChecksum),
                "flip of bit {j} in byte {i} went undetected"
            );
        }
    }
}

#[test]
fn decode_rejects_noise() {
    assert_eq!(
        ModbusFrame::decode(&[0x02, 0x04, 0x30, 0x40, 0x00, 0x01, 0x00, 0x00]),
        Err(DecodeError::BadChecksum)
    );
}
