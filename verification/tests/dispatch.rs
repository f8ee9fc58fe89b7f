//! Dispatcher tests: routing decoded frames across the four units.

use juice_box::dispatcher::ChargerBank;
use juice_box::modbus::{ModbusFrame, Reference};

#[test]
fn fresh_bank_has_units_one_to_four() {
    let bank = ChargerBank::new();
    let ids: Vec<u8> = bank.units.iter().map(|u| u.get_id()).collect();
    assert_eq!(ids, vec![1, 2, 3, 4]);
}

#[test]
fn dispatch_routes_to_matching_unit() {
    let mut bank = ChargerBank::new();
    let request = ModbusFrame::new(3, 4, Reference::Address(0x3040), 0);
    let reply = bank.dispatch(&request).unwrap();
    assert_eq!(reply.unit_id, 3);
    assert_eq!(reply.refers, Reference::Size(2));
    assert_eq!(reply.value, 0x0001);
}

#[test]
fn misrouted_frame_yields_no_reply() {
    // A well-formed frame addressed to unit 9 matches no unit: it is
    // dropped silently and nothing changes.
    let mut bank = ChargerBank::new();
    let request = ModbusFrame::new(9, 4, Reference::Address(0x3040), 0);
    assert_eq!(bank.dispatch(&request), None);
    let ids: Vec<u8> = bank.units.iter().map(|u| u.get_id()).collect();
    assert_eq!(ids, vec![1, 2, 3, 4]);
}

#[test]
fn unsupported_request_yields_no_reply() {
    // The id matches unit 2, but no unit serves a write to the read-only
    // state register: no exception reply is generated.
    let mut bank = ChargerBank::new();
    let request = ModbusFrame::new(2, 6, Reference::Address(0x3040), 1);
    assert_eq!(bank.dispatch(&request), None);
}

#[test]
fn dispatch_write_changes_only_the_addressed_unit() {
    let mut bank = ChargerBank::new();
    let request = ModbusFrame::new(2, 6, Reference::Address(0x4010), 0x0001);
    let reply = bank.dispatch(&request).unwrap();
    assert_eq!(reply.value, 0x0001);

    for (i, unit) in bank.units.iter_mut().enumerate() {
        let id = unit.get_id();
        let read = ModbusFrame::new(id, 4, Reference::Address(0x3040), 0);
        let value = unit.query(&read).unwrap().value;
        if i == 1 {
            assert_eq!(value & 0x000f, 0x0002);
            assert_ne!(value & 0x8000, 0);
        } else {
            assert_eq!(value, 0x0001);
        }
    }
}

#[test]
fn bytes_to_reply_pipeline() {
    // The full path a master exercises: encode a request, decode it as the
    // receiver would, dispatch it, and encode the reply.
    let mut bank = ChargerBank::new();
    let wire = ModbusFrame::new(4, 4, Reference::Address(0x3040), 0).encode();
    let decoded = ModbusFrame::decode(&wire).unwrap();
    let reply = bank.dispatch(&decoded).unwrap();
    let reply_wire = reply.encode();
    assert_eq!(&reply_wire[..5], &[0x04, 0x04, 0x02, 0x00, 0x01]);
    assert_eq!(juice_box::calculate_crc16(&reply_wire), 0);
}
