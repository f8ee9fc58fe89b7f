//! Bit-packed unit state tests: the register layout and the round trip of
//! every representable state.

use juice_box::ev_charger::{ChgState, ErrState, UnitState};

fn all_phases() -> Vec<ChgState> {
    vec![
        ChgState::Boot,
        ChgState::Wait,
        ChgState::Standby,
        ChgState::Connect,
        ChgState::Charge,
        ChgState::Outage,
        ChgState::Abnormal,
        ChgState::Stop,
        ChgState::Reboot,
        ChgState::Unknown,
    ]
}

fn all_errors() -> Vec<ErrState> {
    vec![
        ErrState::Norminal,
        ErrState::ErrVoltage,
        ErrState::ErrCurrent,
        ErrState::ErrTemperature,
        ErrState::ErrRelay,
        ErrState::ErrCplt,
        ErrState::ErrUnknown,
    ]
}

#[test]
fn unit_state_round_trip_all_combinations() {
    for charger in all_phases() {
        for error in all_errors() {
            for connected in [false, true] {
                for changed in [false, true] {
                    let s = UnitState { charger, error, connected, changed };
                    assert_eq!(UnitState::from(s.to()), s);
                }
            }
        }
    }
}

#[test]
fn packed_layout_of_known_states() {
    let wait = UnitState {
        charger: ChgState::Wait,
        error: ErrState::Norminal,
        connected: false,
        changed: false,
    };
    assert_eq!(wait.to(), 0x0001);

    let connect = UnitState {
        charger: ChgState::Connect,
        error: ErrState::Norminal,
        connected: true,
        changed: true,
    };
    assert_eq!(connect.to(), 0x8103);

    let standby_changed = UnitState {
        charger: ChgState::Standby,
        error: ErrState::Norminal,
        connected: false,
        changed: true,
    };
    assert_eq!(standby_changed.to(), 0x8002);
}

#[test]
fn unpacking_reads_the_right_bits() {
    let s = UnitState::from(0x8135);
    assert_eq!(s.charger, ChgState::Outage);
    assert_eq!(s.error, ErrState::ErrTemperature);
    assert!(s.connected);
    assert!(s.changed);
}

#[test]
fn unnamed_nibbles_fall_back_to_unknown() {
    assert_eq!(ChgState::from(0x0009), ChgState::Unknown);
    assert_eq!(ChgState::from(0x000e), ChgState::Unknown);
    assert_eq!(ErrState::from(0x0060), ErrState::ErrUnknown);
    assert_eq!(ErrState::from(0x00f0), ErrState::ErrUnknown);
}

#[test]
fn charge_control_write_arms_or_parks() {
    let mut s = UnitState::from(0x0001);
    s.set_charge_control(0x0001);
    assert_eq!(s.charger, ChgState::Standby);
    s.set_charge_control(0x0000);
    assert_eq!(s.charger, ChgState::Wait);
}

#[test]
fn service_control_write_takes_out_of_service() {
    let mut s = UnitState::from(0x0002);
    s.set_service_control(0x0001);
    assert_eq!(s.charger, ChgState::Outage);
    s.set_service_control(0x0007);
    assert_eq!(s.charger, ChgState::Wait);
}
