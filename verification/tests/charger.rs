//! Charger unit tests: the register map, write-derived state changes, the
//! local advance sequence and key handling.

use juice_box::display::KeyEvent;
use juice_box::ev_charger::{ChgState, EVCharger, UnitState};
use juice_box::modbus::{ModbusFrame, QueryError, Reference};

fn read(unit: &mut EVCharger, command: u8, addr: u16) -> ModbusFrame {
    let request = ModbusFrame::new(unit.get_id(), command, Reference::Address(addr), 0);
    unit.query(&request).unwrap()
}

fn write(unit: &mut EVCharger, addr: u16, value: u16) -> ModbusFrame {
    let request = ModbusFrame::new(unit.get_id(), 6, Reference::Address(addr), value);
    unit.query(&request).unwrap()
}

#[test]
fn current_state_defaults_to_wait() {
    // A command-4 read of 0x3040 on unit 2 answers the default 0x0001:
    // phase Wait, not connected, not changed.
    let mut unit = EVCharger::new(2, 1);
    let request = ModbusFrame::new(2, 4, Reference::Address(0x3040), 0x0000);
    let reply = unit.query(&request).unwrap();
    assert_eq!(reply.unit_id, 2);
    assert_eq!(reply.command, 4);
    assert_eq!(reply.refers, Reference::Size(2));
    assert_eq!(reply.value, 0x0001);
}

#[test]
fn charge_control_write_derives_standby() {
    // Writing 0x0001 to 0x4010 on unit 3 moves the phase to Standby and
    // raises the changed bit.
    let mut unit = EVCharger::new(3, 2);
    let reply = write(&mut unit, 0x4010, 0x0001);
    assert_eq!(reply.value, 0x0001);
    assert_eq!(reply.refers, Reference::Size(2));

    let state_value = read(&mut unit, 3, 0x3040).value;
    let state = UnitState::from(state_value);
    assert_eq!(state.charger, ChgState::Standby);
    assert!(state.changed);
    assert_ne!(state_value & 0x8000, 0);
}

#[test]
fn service_control_write_derives_outage() {
    let mut unit = EVCharger::new(1, 0);
    write(&mut unit, 0x4012, 0x0001);
    assert_eq!(UnitState::from(read(&mut unit, 3, 0x3040).value).charger, ChgState::Outage);
    // Writing anything else parks the unit back in Wait.
    write(&mut unit, 0x4012, 0x0002);
    assert_eq!(UnitState::from(read(&mut unit, 3, 0x3040).value).charger, ChgState::Wait);
}

#[test]
fn rewriting_the_same_control_value_keeps_state() {
    let mut unit = EVCharger::new(1, 0);
    write(&mut unit, 0x4010, 0x0001);
    let state_after_first = read(&mut unit, 3, 0x3040).value;
    // The stored control value no longer differs, so the state register is
    // not re-derived.
    write(&mut unit, 0x4010, 0x0001);
    assert_eq!(read(&mut unit, 3, 0x3040).value, state_after_first);
}

#[test]
fn control_registers_read_back_what_was_written() {
    let mut unit = EVCharger::new(4, 3);
    write(&mut unit, 0x4010, 0x1234);
    write(&mut unit, 0x4012, 0x5678);
    assert_eq!(read(&mut unit, 3, 0x4010).value, 0x1234);
    assert_eq!(read(&mut unit, 3, 0x4012).value, 0x5678);
}

#[test]
fn current_state_serves_commands_three_and_four() {
    let mut unit = EVCharger::new(2, 1);
    assert_eq!(read(&mut unit, 3, 0x3040).value, 0x0001);
    assert_eq!(read(&mut unit, 4, 0x3040).value, 0x0001);
}

#[test]
fn query_errors() {
    let mut unit = EVCharger::new(2, 1);

    let other = ModbusFrame::new(9, 4, Reference::Address(0x3040), 0);
    assert_eq!(unit.query(&other), Err(QueryError::NotForThisUnit));

    let malformed = ModbusFrame::new(2, 4, Reference::Size(2), 0);
    assert_eq!(unit.query(&malformed), Err(QueryError::InvalidQuery));

    let write_readonly = ModbusFrame::new(2, 6, Reference::Address(0x3040), 1);
    assert_eq!(unit.query(&write_readonly), Err(QueryError::UnsupportedOperation));

    let input_read_of_control = ModbusFrame::new(2, 4, Reference::Address(0x4010), 0);
    assert_eq!(unit.query(&input_read_of_control), Err(QueryError::UnsupportedOperation));

    let unknown_address = ModbusFrame::new(2, 3, Reference::Address(0x1234), 0);
    assert_eq!(unit.query(&unknown_address), Err(QueryError::UnsupportedOperation));

    let unknown_command = ModbusFrame::new(2, 5, Reference::Address(0x3040), 0);
    assert_eq!(unit.query(&unknown_command), Err(QueryError::UnsupportedOperation));
}

#[test]
fn advance_sequence_cycles_from_standby() {
    // Standby, then three local advances: Connect, Charge, Standby.
    let mut unit = EVCharger::new(1, 0);
    write(&mut unit, 0x4010, 0x0001);
    assert_eq!(UnitState::from(read(&mut unit, 3, 0x3040).value).charger, ChgState::Standby);

    unit.advance_state();
    assert_eq!(UnitState::from(read(&mut unit, 3, 0x3040).value).charger, ChgState::Connect);

    unit.advance_state();
    assert_eq!(UnitState::from(read(&mut unit, 3, 0x3040).value).charger, ChgState::Charge);

    unit.advance_state();
    assert_eq!(UnitState::from(read(&mut unit, 3, 0x3040).value).charger, ChgState::Standby);

    // Back in Wait (only a remote write gets there), the key does nothing.
    write(&mut unit, 0x4010, 0x0000);
    assert_eq!(UnitState::from(read(&mut unit, 3, 0x3040).value).charger, ChgState::Wait);
    unit.advance_state();
    assert_eq!(UnitState::from(read(&mut unit, 3, 0x3040).value).charger, ChgState::Wait);
}

#[test]
fn advance_raises_connected_and_changed_bits() {
    let mut unit = EVCharger::new(1, 0);
    write(&mut unit, 0x4010, 0x0001);
    unit.advance_state();
    assert_eq!(read(&mut unit, 3, 0x3040).value, 0x8103);
    unit.advance_state();
    assert_eq!(read(&mut unit, 3, 0x3040).value, 0x8104);
    unit.advance_state();
    assert_eq!(read(&mut unit, 3, 0x3040).value, 0x8002);
}

#[test]
fn service_key_press_advances() {
    let mut unit = EVCharger::new(3, 2);
    write(&mut unit, 0x4010, 0x0001);
    // Bank 2 owns keys 5 (service) and 6 (aux).
    unit.on_key_event(&KeyEvent::KeyDown { key: 5 });
    assert_eq!(UnitState::from(read(&mut unit, 3, 0x3040).value).charger, ChgState::Connect);
    // Another bank's key and a scan error do nothing.
    unit.on_key_event(&KeyEvent::KeyDown { key: 1 });
    unit.on_key_event(&KeyEvent::KeyErr);
    assert_eq!(UnitState::from(read(&mut unit, 3, 0x3040).value).charger, ChgState::Connect);
}

#[test]
fn set_id_resets_registers() {
    let mut unit = EVCharger::new(2, 1);
    write(&mut unit, 0x4010, 0x0001);
    assert_eq!(unit.set_id(7), 7);
    assert_eq!(unit.get_id(), 7);
    assert_eq!(read(&mut unit, 4, 0x3040).value, 0x0001);
    assert_eq!(read(&mut unit, 3, 0x4010).value, 0x0000);
}
