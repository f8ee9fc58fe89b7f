//! Console tests: reading and reassigning unit identifiers over the
//! textual interface.

use juice_box::console::process_command;
use juice_box::dispatcher::ChargerBank;
use juice_box::modbus::{ModbusFrame, Reference};

const INVALID: &[u8] = b"Invalid!\r\nSyntax: set_units[1,2,3,4]";

#[test]
fn get_units_reports_identifiers() {
    let mut bank = ChargerBank::new();
    let reply = process_command(b"get_units", &mut bank).unwrap();
    assert_eq!(reply, b"units[1, 2, 3, 4]\r\n");
}

#[test]
fn set_units_rejects_repeated_identifier() {
    let mut bank = ChargerBank::new();
    let reply = process_command(b"set_units[1,2,2,4]", &mut bank).unwrap();
    assert_eq!(reply, INVALID);
    // The rejected line changed nothing.
    let reply = process_command(b"get_units", &mut bank).unwrap();
    assert_eq!(reply, b"units[1, 2, 3, 4]\r\n");
}

#[test]
fn set_units_assigns_and_resets() {
    let mut bank = ChargerBank::new();

    // Move unit 1 out of its default state first, to see the reset.
    let arm = ModbusFrame::new(1, 6, Reference::Address(0x4010), 0x0001);
    bank.dispatch(&arm).unwrap();

    let reply = process_command(b"set_units[4,3,2,1]", &mut bank).unwrap();
    assert_eq!(reply, b"units[4, 3, 2, 1]\r\n");
    let reply = process_command(b"get_units", &mut bank).unwrap();
    assert_eq!(reply, b"units[4, 3, 2, 1]\r\n");

    // The armed unit now answers to id 4 and is back at the default state.
    let read = ModbusFrame::new(4, 4, Reference::Address(0x3040), 0);
    let state = bank.dispatch(&read).unwrap();
    assert_eq!(state.unit_id, 4);
    assert_eq!(state.value, 0x0001);
    let controls = ModbusFrame::new(4, 3, Reference::Address(0x4010), 0);
    assert_eq!(bank.dispatch(&controls).unwrap().value, 0x0000);
}

#[test]
fn set_units_rejects_wrong_field_count() {
    let mut bank = ChargerBank::new();
    assert_eq!(process_command(b"set_units[1,2,3]", &mut bank).unwrap(), INVALID);
    assert_eq!(process_command(b"set_units[1,2,3,4,5]", &mut bank).unwrap(), INVALID);
}

#[test]
fn set_units_rejects_non_numeric_and_oversized_values() {
    let mut bank = ChargerBank::new();
    assert_eq!(process_command(b"set_units[a,b,c,d]", &mut bank).unwrap(), INVALID);
    assert_eq!(process_command(b"set_units[300,1,2,3]", &mut bank).unwrap(), INVALID);
    assert_eq!(process_command(b"set_units[1, 2, 3, 4]", &mut bank).unwrap(), INVALID);
    assert_eq!(process_command(b"set_units[]", &mut bank).unwrap(), INVALID);
}

#[test]
fn set_units_tolerates_extra_closing_brackets() {
    let mut bank = ChargerBank::new();
    let reply = process_command(b"set_units[5,6,7,8]]]", &mut bank).unwrap();
    assert_eq!(reply, b"units[5, 6, 7, 8]\r\n");
}

#[test]
fn set_units_accepts_three_digit_values() {
    let mut bank = ChargerBank::new();
    let reply = process_command(b"set_units[255,100,10,0]", &mut bank).unwrap();
    assert_eq!(reply, b"units[255, 100, 10, 0]\r\n");
}

#[test]
fn unknown_command_is_ignored() {
    let mut bank = ChargerBank::new();
    assert_eq!(process_command(b"reboot", &mut bank), None);
    assert_eq!(process_command(b"", &mut bank), None);
    assert_eq!(process_command(b"get_unitsx", &mut bank), None);
}
