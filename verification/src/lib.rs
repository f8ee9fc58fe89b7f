//! Serial protocol engine and per-unit register state machine for a
//! four-bay EV-charger front-end controller.
//!
//! The crate covers the bus-facing core: Modbus-RTU-style frame encoding and
//! decoding with CRC-16 validation, silent-interval frame boundary detection,
//! the bit-packed per-unit state register, the per-unit register bank and its
//! query dispatch, and the console command handling for unit-id assignment.
//! Hardware drivers (UART/DMA, the LED strip, the key/display unit, USB) live
//! outside this crate and hand plain values in and out.

pub mod console;
pub mod dispatcher;
pub mod display;
pub mod ev_charger;
pub mod lights;
pub mod modbus;
pub mod pallet;
pub mod registers;
pub mod serial;

pub use dispatcher::ChargerBank;
pub use ev_charger::{ChgState, ErrState, EVCharger, UnitState};
pub use modbus::{calculate_crc16, DecodeError, ModbusFrame, QueryError, Reference};
