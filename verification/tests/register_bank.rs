//! Register bank tests: the generic three-register dispatch.

use juice_box::modbus::{ModbusFrame, QueryError, Reference};
use juice_box::registers::RegisterSet;

#[test]
fn reads_serve_defaults() {
    let mut set = RegisterSet::new(2);
    let request = ModbusFrame::new(2, 4, Reference::Address(0x3040), 0);
    let reply = set.query(&request).unwrap();
    assert_eq!(reply.refers, Reference::Size(2));
    assert_eq!(reply.value, 0x0001);

    let request = ModbusFrame::new(2, 3, Reference::Address(0x4010), 0);
    assert_eq!(set.query(&request).unwrap().value, 0x0000);
}

#[test]
fn writes_store_and_echo() {
    let mut set = RegisterSet::new(1);
    let request = ModbusFrame::new(1, 6, Reference::Address(0x4012), 0xBEEF);
    let reply = set.query(&request).unwrap();
    assert_eq!(reply.refers, Reference::Size(2));
    assert_eq!(reply.value, 0xBEEF);

    let read_back = ModbusFrame::new(1, 3, Reference::Address(0x4012), 0);
    assert_eq!(set.query(&read_back).unwrap().value, 0xBEEF);
}

#[test]
fn register_set_errors() {
    let mut set = RegisterSet::new(3);

    let other = ModbusFrame::new(1, 3, Reference::Address(0x3040), 0);
    assert_eq!(set.query(&other), Err(QueryError::NotForThisUnit));

    let malformed = ModbusFrame::new(3, 3, Reference::Size(2), 0);
    assert_eq!(set.query(&malformed), Err(QueryError::InvalidQuery));

    let write_readonly = ModbusFrame::new(3, 6, Reference::Address(0x3040), 1);
    assert_eq!(set.query(&write_readonly), Err(QueryError::UnsupportedOperation));

    let unknown = ModbusFrame::new(3, 3, Reference::Address(0x0001), 0);
    assert_eq!(set.query(&unknown), Err(QueryError::UnsupportedOperation));
}
