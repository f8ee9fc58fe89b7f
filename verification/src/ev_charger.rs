//! Per-unit state: the bit-packed `current_state` register and the charger
//! unit that answers bus requests and local key presses.
//!
//! The 16-bit register packs a charger phase in bits 0–3, an error condition
//! in bits 4–7, a connected flag in bit 8 and a changed flag in bit 15.  The
//! structured [`UnitState`] value is the working representation; the packed
//! word exists only at the register boundary.

use vstd::prelude::*;

use crate::display::KeyEvent;
use crate::lights::{
    spec_bar_leds, spec_bar_mask, spec_button_index, spec_lights_wf, LightPorts,
};
use crate::modbus::{ModbusFrame, QueryError, Reference};
use crate::pallet::{spec_black, spec_color_rgb, Colors, Rgb};

verus! {

/// Address of the read-only packed state register.
pub const CURRENT_STATE: u16 = 0x3040;

/// Address of the charge-control register.
pub const CHARGE_CONTROL: u16 = 0x4010;

/// Address of the service-control register.
pub const SERVICE_CONTROL: u16 = 0x4012;

/// The charger phase held in bits 0–3 of the state register.
#[derive(Clone, Copy, PartialEq, Eq, Structural, Debug)]
pub enum ChgState {
    Boot,
    Wait,
    Standby,
    Connect,
    Charge,
    Outage,
    Abnormal,
    Stop,
    Reboot,
    Unknown,
}

/// The charger phase packed in the low nibble of `value`; nibbles without a
/// named phase fall back to `Unknown`.
pub open spec fn spec_chg_from(value: u16) -> ChgState {
    let n = value & 0x000f;
    if n == 0x00 {
        ChgState::Boot
    } else if n == 0x01 {
        ChgState::Wait
    } else if n == 0x02 {
        ChgState::Standby
    } else if n == 0x03 {
        ChgState::Connect
    } else if n == 0x04 {
        ChgState::Charge
    } else if n == 0x05 {
        ChgState::Outage
    } else if n == 0x06 {
        ChgState::Abnormal
    } else if n == 0x07 {
        ChgState::Stop
    } else if n == 0x08 {
        ChgState::Reboot
    } else {
        ChgState::Unknown
    }
}

/// The low nibble that stands for a charger phase; `Unknown` packs as `0xf`.
pub open spec fn spec_chg_to(s: ChgState) -> u16 {
    match s {
        ChgState::Boot => 0x00,
        ChgState::Wait => 0x01,
        ChgState::Standby => 0x02,
        ChgState::Connect => 0x03,
        ChgState::Charge => 0x04,
        ChgState::Outage => 0x05,
        ChgState::Abnormal => 0x06,
        ChgState::Stop => 0x07,
        ChgState::Reboot => 0x08,
        ChgState::Unknown => 0x0f,
    }
}

impl ChgState {
    /// Reads the charger phase out of a packed state register value.
    pub fn from(value: u16) -> (r: Self)
        ensures
            r == spec_chg_from(value),
    {
        match value & 0x000f {
            0x00 => Self::Boot,
            0x01 => Self::Wait,
            0x02 => Self::Standby,
            0x03 => Self::Connect,
            0x04 => Self::Charge,
            0x05 => Self::Outage,
            0x06 => Self::Abnormal,
            0x07 => Self::Stop,
            0x08 => Self::Reboot,
            _ => Self::Unknown,
        }
    }

    /// Packs the charger phase into its low-nibble encoding.
    pub fn to(&self) -> (r: u16)
        ensures
            r == spec_chg_to(*self),
    {
        match self {
            Self::Boot => 0x00,
            Self::Wait => 0x01,
            Self::Standby => 0x02,
            Self::Connect => 0x03,
            Self::Charge => 0x04,
            Self::Outage => 0x05,
            Self::Abnormal => 0x06,
            Self::Stop => 0x07,
            Self::Reboot => 0x08,
            Self::Unknown => 0x0f,
        }
    }
}

/// The error condition held in bits 4–7 of the state register.
#[derive(Clone, Copy, PartialEq, Eq, Structural, Debug)]
pub enum ErrState {
    Norminal,
    ErrVoltage,
    ErrCurrent,
    ErrTemperature,
    ErrRelay,
    ErrCplt,
    ErrUnknown,
}

/// The error condition packed in bits 4–7 of `value`; nibbles without a
/// named condition fall back to `ErrUnknown`.
pub open spec fn spec_err_from(value: u16) -> ErrState {
    let n = value & 0x00f0;
    if n == 0x000 {
        ErrState::Norminal
    } else if n == 0x010 {
        ErrState::ErrVoltage
    } else if n == 0x020 {
        ErrState::ErrCurrent
    } else if n == 0x030 {
        ErrState::ErrTemperature
    } else if n == 0x040 {
        ErrState::ErrRelay
    } else if n == 0x050 {
        ErrState::ErrCplt
    } else {
        ErrState::ErrUnknown
    }
}

/// The bits 4–7 value that stands for an error condition; `ErrUnknown`
/// packs as `0xf0`.
pub open spec fn spec_err_to(s: ErrState) -> u16 {
    match s {
        ErrState::Norminal => 0x000,
        ErrState::ErrVoltage => 0x010,
        ErrState::ErrCurrent => 0x020,
        ErrState::ErrTemperature => 0x030,
        ErrState::ErrRelay => 0x040,
        ErrState::ErrCplt => 0x050,
        ErrState::ErrUnknown => 0x0f0,
    }
}

impl ErrState {
    /// Reads the error condition out of a packed state register value.
    pub fn from(value: u16) -> (r: Self)
        ensures
            r == spec_err_from(value),
    {
        match value & 0x00f0 {
            0x000 => Self::Norminal,
            0x010 => Self::ErrVoltage,
            0x020 => Self::ErrCurrent,
            0x030 => Self::ErrTemperature,
            0x040 => Self::ErrRelay,
            0x050 => Self::ErrCplt,
            _ => Self::ErrUnknown,
        }
    }

    /// Packs the error condition into its bits 4–7 encoding.
    pub fn to(&self) -> (r: u16)
        ensures
            r == spec_err_to(*self),
    {
        match self {
            Self::Norminal => 0x000,
            Self::ErrVoltage => 0x010,
            Self::ErrCurrent => 0x020,
            Self::ErrTemperature => 0x030,
            Self::ErrRelay => 0x040,
            Self::ErrCplt => 0x050,
            Self::ErrUnknown => 0x0f0,
        }
    }
}

/// The structured view of the 16-bit `current_state` register.
#[derive(Clone, Copy, PartialEq, Eq, Structural, Debug)]
pub struct UnitState {
    pub charger: ChgState,
    pub error: ErrState,
    pub connected: bool,
    pub changed: bool,
}

/// Unpacking a state register value into its four fields.
pub open spec fn spec_unit_from(value: u16) -> UnitState {
    UnitState {
        charger: spec_chg_from(value),
        error: spec_err_from(value),
        connected: (value & 0x100) != 0,
        changed: (value & 0x8000) != 0,
    }
}

/// Packing the four fields back into a state register value.
pub open spec fn spec_unit_to(s: UnitState) -> u16 {
    (spec_chg_to(s.charger) + spec_err_to(s.error) + (if s.connected {
        0x100u16
    } else {
        0u16
    }) + (if s.changed {
        0x8000u16
    } else {
        0u16
    })) as u16
}

impl UnitState {
    /// Unpacks a state register value.
    pub fn from(value: u16) -> (r: Self)
        ensures
            r == spec_unit_from(value),
    {
        Self {
            charger: ChgState::from(value),
            error: ErrState::from(value),
            connected: (value & 0x100) != 0,
            changed: (value & 0x8000) != 0,
        }
    }

    /// Packs the state back into a register value.
    pub fn to(&self) -> (value: u16)
        ensures
            value == spec_unit_to(*self),
    {
        let mut value: u16 = self.charger.to() + self.error.to();
        if self.connected {
            value += 0x100;
        }
        if self.changed {
            value += 0x8000;
        }
        value
    }

    /// A charge-control write of `1` arms the unit into `Standby`; any
    /// other written value returns it to `Wait`.
    pub fn set_charge_control(&mut self, value: u16)
        ensures
            *final(self) == (UnitState {
                charger: if value == 0x0001 {
                    ChgState::Standby
                } else {
                    ChgState::Wait
                },
                ..*old(self)
            }),
    {
        match value {
            0x0001 => {
                self.charger = ChgState::Standby;
            },
            _ => {
                self.charger = ChgState::Wait;
            },
        }
    }

    /// A service-control write of `1` takes the unit out of service into
    /// `Outage`; any other written value returns it to `Wait`.
    pub fn set_service_control(&mut self, value: u16)
        ensures
            *final(self) == (UnitState {
                charger: if value == 0x0001 {
                    ChgState::Outage
                } else {
                    ChgState::Wait
                },
                ..*old(self)
            }),
    {
        match value {
            0x0001 => {
                self.charger = ChgState::Outage;
            },
            _ => {
                self.charger = ChgState::Wait;
            },
        }
    }
}

/// Round trip: packing any structured unit state and unpacking it again
/// reproduces the same phase, error condition, connected flag and changed
/// flag.  Every phase and condition, the fallbacks included, survives the
/// trip through the 16-bit register.
pub proof fn lemma_unit_state_round_trip(s: UnitState)
    ensures
        spec_unit_from(spec_unit_to(s)) == s,
{
    let c: u16 = spec_chg_to(s.charger);
    let e: u16 = spec_err_to(s.error);
    let x: u16 = if s.connected {
        0x100u16
    } else {
        0u16
    };
    let y: u16 = if s.changed {
        0x8000u16
    } else {
        0u16
    };
    let v: u16 = spec_unit_to(s);
    assert(v == (c + e + x + y) as u16);
    assert(v & 0x000f == c && v & 0x00f0 == e && (v & 0x100 != 0 <==> x == 0x100) && (v
        & 0x8000 != 0 <==> y == 0x8000)) by (bit_vector)
        requires
            v == (c + e + x + y) as u16,
            c == 0x00 || c == 0x01 || c == 0x02 || c == 0x03 || c == 0x04 || c == 0x05 || c == 0x06
                || c == 0x07 || c == 0x08 || c == 0x0f,
            e == 0x000 || e == 0x010 || e == 0x020 || e == 0x030 || e == 0x040 || e == 0x050
                || e == 0x0f0,
            x == 0 || x == 0x100,
            y == 0 || y == 0x8000,
    ;
    assert(spec_chg_from(v) == s.charger);
    assert(spec_err_from(v) == s.error);
}

/// The three registers of one unit.
#[derive(Clone, Copy, PartialEq, Eq, Structural, Debug)]
pub struct Registers {
    pub current_state: u16,
    pub charge_control: u16,
    pub service_control: u16,
}

/// One addressable charger bay: its bus identifier, its slot on the front
/// panel, its registers and the colours of its two button LEDs.
#[derive(Clone, Copy, Debug)]
pub struct EVCharger {
    pub unit_id: u8,
    pub ui_bank: u8,
    pub update: bool,
    pub service_key: u8,
    pub aux_key: u8,
    pub key_colors: [Rgb; 2],
    pub registers: Registers,
}

/// The unit sits on one of the four front-panel banks and its two keys are
/// the bank's pair.
pub open spec fn spec_charger_wf(u: EVCharger) -> bool {
    u.ui_bank < 4 && u.service_key == 2 * u.ui_bank + 1 && u.aux_key == 2 * u.ui_bank + 2
}

/// The register values every unit starts from and returns to when its
/// identifier is reassigned: phase `Wait`, controls cleared.
pub open spec fn spec_default_registers() -> Registers {
    Registers { current_state: 0x0001, charge_control: 0x0000, service_control: 0x0000 }
}

/// A unit after its identifier is reassigned: the new id, every register
/// back at its default, and a repaint pending.
pub open spec fn spec_with_id(u: EVCharger, new_id: u8) -> EVCharger {
    EVCharger { unit_id: new_id, update: true, registers: spec_default_registers(), ..u }
}

/// The local key advance: `Standby` connects, `Connect` starts charging,
/// `Charge` cycles back to `Standby`; the first two also raise the
/// connected bit, all three raise the changed bit and drop any error
/// nibble.  Every other phase ignores the key.
pub open spec fn spec_advance(u: EVCharger) -> EVCharger {
    let phase = spec_chg_from(u.registers.current_state);
    if phase == ChgState::Standby {
        EVCharger {
            update: true,
            registers: Registers { current_state: 0x8103, ..u.registers },
            ..u
        }
    } else if phase == ChgState::Connect {
        EVCharger {
            update: true,
            registers: Registers { current_state: 0x8104, ..u.registers },
            ..u
        }
    } else if phase == ChgState::Charge {
        EVCharger {
            update: true,
            registers: Registers { current_state: 0x8002, ..u.registers },
            ..u
        }
    } else {
        u
    }
}

/// The reply to a successful request: unit id and command echoed, the
/// reference slot carrying the two-byte register size, and the register's
/// value.
pub open spec fn spec_reply(f: ModbusFrame, value: u16) -> ModbusFrame {
    ModbusFrame { unit_id: f.unit_id, command: f.command, refers: Reference::Size(2), value }
}

/// The six command/address pairs a unit serves: the state register read by
/// command 3 or 4, each control register read by 3 and written by 6.
pub open spec fn spec_legal_pair(command: u8, addr: u16) -> bool {
    ((command == 3 || command == 4) && addr == CURRENT_STATE) || (command == 3 && (addr
        == CHARGE_CONTROL || addr == SERVICE_CONTROL)) || (command == 6 && (addr == CHARGE_CONTROL
        || addr == SERVICE_CONTROL))
}

/// The packed state after a charge-control write: phase `Standby` on a
/// written one, `Wait` otherwise; error and connected bits kept, changed
/// bit raised.
pub open spec fn spec_write_charge(cs: u16, value: u16) -> u16 {
    spec_unit_to(
        UnitState {
            charger: if value == 0x0001 {
                ChgState::Standby
            } else {
                ChgState::Wait
            },
            error: spec_err_from(cs),
            connected: (cs & 0x100) != 0,
            changed: true,
        },
    )
}

/// The packed state after a service-control write: phase `Outage` on a
/// written one, `Wait` otherwise; error and connected bits kept, changed
/// bit raised.
pub open spec fn spec_write_service(cs: u16, value: u16) -> u16 {
    spec_unit_to(
        UnitState {
            charger: if value == 0x0001 {
                ChgState::Outage
            } else {
                ChgState::Wait
            },
            error: spec_err_from(cs),
            connected: (cs & 0x100) != 0,
            changed: true,
        },
    )
}

/// What a unit answers to a request: a routing error for another unit's
/// id, a shape error for a request without an address, an operation error
/// for a pair outside the register map, and otherwise the reply carrying
/// the addressed register's value, post-write for a write.
pub open spec fn spec_query_result(u: EVCharger, f: ModbusFrame) -> Result<
    ModbusFrame,
    QueryError,
> {
    if f.unit_id != u.unit_id {
        Err(QueryError::NotForThisUnit)
    } else {
        match f.refers {
            Reference::Size(_) => Err(QueryError::InvalidQuery),
            Reference::Address(addr) => {
                if (f.command == 3 || f.command == 4) && addr == CURRENT_STATE {
                    Ok(spec_reply(f, u.registers.current_state))
                } else if f.command == 3 && addr == CHARGE_CONTROL {
                    Ok(spec_reply(f, u.registers.charge_control))
                } else if f.command == 3 && addr == SERVICE_CONTROL {
                    Ok(spec_reply(f, u.registers.service_control))
                } else if f.command == 6 && addr == CHARGE_CONTROL {
                    Ok(spec_reply(f, f.value))
                } else if f.command == 6 && addr == SERVICE_CONTROL {
                    Ok(spec_reply(f, f.value))
                } else {
                    Err(QueryError::UnsupportedOperation)
                }
            },
        }
    }
}

/// How a request changes a unit: only a write to a control register does
/// anything, storing the value, re-deriving the packed state when the
/// stored value actually changed, and asking for a repaint.
pub open spec fn spec_query_post(u: EVCharger, f: ModbusFrame) -> EVCharger {
    if f.unit_id != u.unit_id {
        u
    } else {
        match f.refers {
            Reference::Size(_) => u,
            Reference::Address(addr) => {
                if f.command == 6 && addr == CHARGE_CONTROL {
                    EVCharger {
                        update: true,
                        registers: Registers {
                            charge_control: f.value,
                            current_state: if u.registers.charge_control != f.value {
                                spec_write_charge(u.registers.current_state, f.value)
                            } else {
                                u.registers.current_state
                            },
                            ..u.registers
                        },
                        ..u
                    }
                } else if f.command == 6 && addr == SERVICE_CONTROL {
                    EVCharger {
                        update: true,
                        registers: Registers {
                            service_control: f.value,
                            current_state: if u.registers.service_control != f.value {
                                spec_write_service(u.registers.current_state, f.value)
                            } else {
                                u.registers.current_state
                            },
                            ..u.registers
                        },
                        ..u
                    }
                } else {
                    u
                }
            },
        }
    }
}

/// The colour table after repainting one bay from its packed state: `Wait`
/// shows a green bar and a dark key, `Standby` a yellow bar and key,
/// `Connect` and `Charge` an orange bar and key; other phases leave the
/// table alone.
pub open spec fn spec_status_leds(leds: Seq<Rgb>, bank: u8, cs: u16) -> Seq<Rgb> {
    let phase = spec_chg_from(cs);
    if phase == ChgState::Wait {
        spec_bar_leds(leds, bank, spec_color_rgb(Colors::Green)).update(
            spec_button_index(bank, 0),
            spec_black(),
        )
    } else if phase == ChgState::Standby {
        spec_bar_leds(leds, bank, spec_color_rgb(Colors::Yellow)).update(
            spec_button_index(bank, 0),
            spec_color_rgb(Colors::Yellow),
        )
    } else if phase == ChgState::Connect {
        spec_bar_leds(leds, bank, spec_color_rgb(Colors::Orange)).update(
            spec_button_index(bank, 0),
            spec_color_rgb(Colors::Orange),
        )
    } else if phase == ChgState::Charge {
        spec_bar_leds(leds, bank, spec_color_rgb(Colors::Orange)).update(
            spec_button_index(bank, 0),
            spec_color_rgb(Colors::Orange),
        )
    } else {
        leds
    }
}

/// The blink table after repainting one bay from its packed state: the bar
/// blinks in `Standby` and `Connect`, the service key in everything but
/// `Charge`; other phases leave the table alone.
pub open spec fn spec_status_mask(mask: Seq<bool>, bank: u8, cs: u16) -> Seq<bool> {
    let phase = spec_chg_from(cs);
    if phase == ChgState::Wait {
        spec_bar_mask(mask, bank, false).update(spec_button_index(bank, 0), true)
    } else if phase == ChgState::Standby {
        spec_bar_mask(mask, bank, true).update(spec_button_index(bank, 0), true)
    } else if phase == ChgState::Connect {
        spec_bar_mask(mask, bank, true).update(spec_button_index(bank, 0), true)
    } else if phase == ChgState::Charge {
        spec_bar_mask(mask, bank, false).update(spec_button_index(bank, 0), false)
    } else {
        mask
    }
}

impl EVCharger {
    /// A fresh unit on front-panel bank `ui_bank` answering to `unit_id`,
    /// in phase `Wait` with cleared controls and a repaint pending.
    pub fn new(unit_id: u8, ui_bank: u8) -> (r: Self)
        requires
            ui_bank < 4,
        ensures
            spec_charger_wf(r),
            r.unit_id == unit_id,
            r.ui_bank == ui_bank,
            r.update == true,
            r.key_colors@ == seq![spec_black(), spec_black()],
            r.registers == spec_default_registers(),
    {
        let r = Self {
            unit_id,
            ui_bank,
            update: true,
            service_key: (ui_bank * 2) + 1,
            aux_key: (ui_bank * 2) + 2,
            key_colors: [Rgb::default(), Rgb::default()],
            registers: Registers {
                current_state: 0x0001,
                charge_control: 0x0000,
                service_control: 0x0000,
            },
        };
        proof {
            assert(r.key_colors@ =~= seq![spec_black(), spec_black()]);
        }
        r
    }

    /// The structured view of this unit's packed state register.
    fn get_state(&self) -> (r: UnitState)
        ensures
            r == spec_unit_from(self.registers.current_state),
    {
        UnitState::from(self.registers.current_state)
    }

    /// Reacts to one front-panel key event: a press of the bay's service
    /// key advances the phase, its release asks for a repaint, and the aux
    /// key lights its LED blue while held.  Scan errors and other bays'
    /// keys do nothing.
    pub fn on_key_event(&mut self, event: &KeyEvent)
        ensures
            (*event matches KeyEvent::KeyDown { key } && key == old(self).service_key)
                ==> *final(self) == spec_advance(*old(self)),
            (*event matches KeyEvent::KeyUp { key } && key == old(self).service_key)
                ==> *final(self) == (EVCharger { update: true, ..*old(self) }),
            (*event matches KeyEvent::KeyDown { key } && key != old(self).service_key
                && key == old(self).aux_key)
                ==> final(self).key_colors@ == old(self).key_colors@.update(
                    1, spec_color_rgb(Colors::Blue))
                    && *final(self) == (EVCharger {
                        update: true,
                        key_colors: final(self).key_colors,
                        ..*old(self)
                    }),
            (*event matches KeyEvent::KeyUp { key } && key != old(self).service_key
                && key == old(self).aux_key)
                ==> final(self).key_colors@ == old(self).key_colors@.update(1, spec_black())
                    && *final(self) == (EVCharger {
                        update: true,
                        key_colors: final(self).key_colors,
                        ..*old(self)
                    }),
            (*event matches KeyEvent::KeyDown { key } && key != old(self).service_key
                && key != old(self).aux_key) ==> *final(self) == *old(self),
            (*event matches KeyEvent::KeyUp { key } && key != old(self).service_key
                && key != old(self).aux_key) ==> *final(self) == *old(self),
            *event is KeyErr ==> *final(self) == *old(self),
    {
        match *event {
            KeyEvent::KeyDown { key } => {
                if key == self.service_key {
                    self.advance_state();
                } else if key == self.aux_key {
                    self.key_colors[1] = Colors::Blue.as_rgb();
                    self.update = true;
                }
            },
            KeyEvent::KeyUp { key } => {
                if key == self.service_key {
                    self.update = true;
                } else if key == self.aux_key {
                    self.key_colors[1] = Colors::Black.as_rgb();
                    self.update = true;
                }
            },
            KeyEvent::KeyErr => {},
        }
    }

    /// The local key advance: `Standby` to `Connect`, `Connect` to
    /// `Charge`, `Charge` back to `Standby`; any other phase, `Wait`
    /// included, is left alone — only a remote write moves a unit out of
    /// those.
    pub fn advance_state(&mut self)
        ensures
            *final(self) == spec_advance(*old(self)),
    {
        let state = self.get_state();
        if state.charger == ChgState::Standby {
            self.registers.current_state = 0x8103;
            self.update = true;
        } else if state.charger == ChgState::Connect {
            self.registers.current_state = 0x8104;
            self.update = true;
        } else if state.charger == ChgState::Charge {
            self.registers.current_state = 0x8002;
            self.update = true;
        }
    }

    /// Repaints this bay's bar and service-key LED from its phase.
    fn update_led_status(&self, light_ports: &mut LightPorts)
        requires
            spec_charger_wf(*self),
            spec_lights_wf(*old(light_ports)),
        ensures
            spec_lights_wf(*final(light_ports)),
            final(light_ports).led_data@ == spec_status_leds(
                old(light_ports).led_data@,
                self.ui_bank,
                self.registers.current_state,
            ),
            final(light_ports).blink_mask@ == spec_status_mask(
                old(light_ports).blink_mask@,
                self.ui_bank,
                self.registers.current_state,
            ),
            final(light_ports).blink_on == old(light_ports).blink_on,
            final(light_ports).blink_next == old(light_ports).blink_next,
    {
        let state = self.get_state();
        if state.charger == ChgState::Wait {
            light_ports.set_bar(self.ui_bank, Colors::Green.as_rgb(), false).unwrap();
            light_ports.set_button(self.ui_bank, 0, Colors::Black.as_rgb(), true).unwrap();
        } else if state.charger == ChgState::Standby {
            light_ports.set_bar(self.ui_bank, Colors::Yellow.as_rgb(), true).unwrap();
            light_ports.set_button(self.ui_bank, 0, Colors::Yellow.as_rgb(), true).unwrap();
        } else if state.charger == ChgState::Connect {
            light_ports.set_bar(self.ui_bank, Colors::Orange.as_rgb(), true).unwrap();
            light_ports.set_button(self.ui_bank, 0, Colors::Orange.as_rgb(), true).unwrap();
        } else if state.charger == ChgState::Charge {
            light_ports.set_bar(self.ui_bank, Colors::Orange.as_rgb(), false).unwrap();
            light_ports.set_button(self.ui_bank, 0, Colors::Orange.as_rgb(), false).unwrap();
        }
    }

    /// When a repaint is pending, repaints the bay's bar from its phase and
    /// the aux-key LED from its held colour, and reports that the caller
    /// should redraw the bay's unit number on the display; otherwise does
    /// nothing.
    pub fn refresh_ui(&mut self, light_ports: &mut LightPorts) -> (repainted: bool)
        requires
            spec_charger_wf(*old(self)),
            spec_lights_wf(*old(light_ports)),
        ensures
            spec_lights_wf(*final(light_ports)),
            repainted == old(self).update,
            *final(self) == (EVCharger { update: false, ..*old(self) }),
            old(self).update ==> final(light_ports).led_data@ == spec_status_leds(
                old(light_ports).led_data@,
                old(self).ui_bank,
                old(self).registers.current_state,
            ).update(spec_button_index(old(self).ui_bank, 1), old(self).key_colors[1])
                && final(light_ports).blink_mask@ == spec_status_mask(
                old(light_ports).blink_mask@,
                old(self).ui_bank,
                old(self).registers.current_state,
            ).update(spec_button_index(old(self).ui_bank, 1), false),
            !old(self).update ==> *final(light_ports) == *old(light_ports),
            final(light_ports).blink_on == old(light_ports).blink_on,
            final(light_ports).blink_next == old(light_ports).blink_next,
    {
        if self.update {
            self.update_led_status(light_ports);
            light_ports.set_button(self.ui_bank, 1, self.key_colors[1], false).unwrap();
            self.update = false;
            return true;
        }
        false
    }

    /// Answers one decoded bus request.  A request for another unit, one
    /// without an address, or one outside the register map is refused; a
    /// legal read replies with the register's value; a legal write stores
    /// the value, re-derives the packed state when the stored value
    /// actually changed, and replies with the stored value.
    pub fn query(&mut self, request: &ModbusFrame) -> (r: Result<ModbusFrame, QueryError>)
        ensures
            r == spec_query_result(*old(self), *request),
            *final(self) == spec_query_post(*old(self), *request),
            (r is Ok) <==> (request.unit_id == old(self).unit_id && (*request matches ModbusFrame {
                refers: Reference::Address(addr),
                ..
            } && spec_legal_pair(request.command, addr))),
    {
        if request.unit_id != self.unit_id {
            return Err(QueryError::NotForThisUnit);
        }

        let addr = match request.refers {
            Reference::Address(addr) => addr,
            Reference::Size(_) => {
                return Err(QueryError::InvalidQuery);
            },
        };

        if (request.command == 3 || request.command == 4) && addr == CURRENT_STATE {
            Ok(ModbusFrame::new(
                request.unit_id,
                request.command,
                Reference::Size(2),
                self.registers.current_state,
            ))
        } else if request.command == 3 && addr == CHARGE_CONTROL {
            Ok(ModbusFrame::new(
                request.unit_id,
                request.command,
                Reference::Size(2),
                self.registers.charge_control,
            ))
        } else if request.command == 3 && addr == SERVICE_CONTROL {
            Ok(ModbusFrame::new(
                request.unit_id,
                request.command,
                Reference::Size(2),
                self.registers.service_control,
            ))
        } else if request.command == 6 && addr == CHARGE_CONTROL {
            if self.registers.charge_control != request.value {
                let mut state = UnitState::from(self.registers.current_state);
                state.set_charge_control(request.value);
                state.changed = true;
                self.registers.current_state = state.to();
            }
            self.registers.charge_control = request.value;
            self.update = true;
            Ok(ModbusFrame::new(
                request.unit_id,
                request.command,
                Reference::Size(2),
                self.registers.charge_control,
            ))
        } else if request.command == 6 && addr == SERVICE_CONTROL {
            if self.registers.service_control != request.value {
                let mut state = UnitState::from(self.registers.current_state);
                state.set_service_control(request.value);
                state.changed = true;
                self.registers.current_state = state.to();
            }
            self.registers.service_control = request.value;
            self.update = true;
            Ok(ModbusFrame::new(
                request.unit_id,
                request.command,
                Reference::Size(2),
                self.registers.service_control,
            ))
        } else {
            Err(QueryError::UnsupportedOperation)
        }
    }

    /// This unit's bus identifier.
    pub fn get_id(&self) -> (r: u8)
        ensures
            r == self.unit_id,
    {
        self.unit_id
    }

    /// Reassigns the bus identifier and resets every register to its
    /// default, with a repaint pending.  The caller owns uniqueness of the
    /// identifiers across the four units.
    pub fn set_id(&mut self, new_id: u8) -> (r: u8)
        ensures
            r == new_id,
            *final(self) == spec_with_id(*old(self), new_id),
    {
        self.unit_id = new_id;
        self.update = true;
        self.registers.current_state = 0x0001;
        self.registers.charge_control = 0x0000;
        self.registers.service_control = 0x0000;
        self.unit_id
    }
}

} // verus!
