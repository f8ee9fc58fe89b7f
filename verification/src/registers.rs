//! A generic per-unit register bank: three addressed registers and the
//! dispatch of read and write commands against them.

use vstd::prelude::*;

use crate::modbus::{ModbusFrame, QueryError, Reference};

verus! {

/// Whether a register serves reads only or reads and writes.
#[derive(Clone, Copy, PartialEq, Eq, Structural, Debug)]
pub enum RegType {
    Read,
    ReadWrite,
}

/// One 16-bit register at a fixed address.
#[derive(Clone, Copy, PartialEq, Eq, Structural, Debug)]
pub struct Register {
    pub addr: u16,
    pub value: u16,
    pub reg_type: RegType,
}

/// The reply a register sends: unit id and command echoed, the reference
/// slot carrying the two-byte register size, and the register's value.
pub open spec fn spec_register_reply(request: ModbusFrame, value: u16) -> ModbusFrame {
    ModbusFrame {
        unit_id: request.unit_id,
        command: request.command,
        refers: Reference::Size(2),
        value,
    }
}

/// What one addressed register answers: a read-only register serves
/// commands 3 and 4, a writable one is read by 3 and written by 6; any
/// other command is refused.
pub open spec fn spec_register_result(reg: Register, request: ModbusFrame) -> Result<
    ModbusFrame,
    QueryError,
> {
    if (request.command == 3 || request.command == 4) && reg.reg_type == RegType::Read {
        Ok(spec_register_reply(request, reg.value))
    } else if request.command == 3 && reg.reg_type == RegType::ReadWrite {
        Ok(spec_register_reply(request, reg.value))
    } else if request.command == 6 && reg.reg_type == RegType::ReadWrite {
        Ok(spec_register_reply(request, request.value))
    } else {
        Err(QueryError::UnsupportedOperation)
    }
}

/// How an addressed register changes: only a write to a writable register
/// stores the request's value.
pub open spec fn spec_register_post(reg: Register, request: ModbusFrame) -> Register {
    if request.command == 6 && reg.reg_type == RegType::ReadWrite {
        Register { value: request.value, ..reg }
    } else {
        reg
    }
}

impl Register {
    /// Replies with this register's value.
    pub fn read(&self, request: &ModbusFrame) -> (r: ModbusFrame)
        ensures
            r == spec_register_reply(*request, self.value),
    {
        ModbusFrame::new(request.unit_id, request.command, Reference::Size(2), self.value)
    }

    /// Stores the request's value and replies with it.
    pub fn write(&mut self, request: &ModbusFrame) -> (r: ModbusFrame)
        ensures
            *final(self) == (Register { value: request.value, ..*old(self) }),
            r == spec_register_reply(*request, request.value),
    {
        self.value = request.value;
        ModbusFrame::new(request.unit_id, request.command, Reference::Size(2), self.value)
    }
}

/// One unit's bank: its bus identifier and its three registers, the packed
/// state readable at `0x3040` and the two control registers at `0x4010`
/// and `0x4012`.
#[derive(Clone, Copy, Debug)]
pub struct RegisterSet {
    pub unit_id: u8,
    pub registers: [Register; 3],
}

/// What the bank answers: a routing error for another unit's id, a shape
/// error for a request without an address, and otherwise the first
/// register holding the address decides; an address outside the map is an
/// unsupported operation.
pub open spec fn spec_register_set_result(s: RegisterSet, request: ModbusFrame) -> Result<
    ModbusFrame,
    QueryError,
> {
    if request.unit_id != s.unit_id {
        Err(QueryError::NotForThisUnit)
    } else {
        match request.refers {
            Reference::Size(_) => Err(QueryError::InvalidQuery),
            Reference::Address(addr) => {
                if s.registers[0].addr == addr {
                    spec_register_result(s.registers[0], request)
                } else if s.registers[1].addr == addr {
                    spec_register_result(s.registers[1], request)
                } else if s.registers[2].addr == addr {
                    spec_register_result(s.registers[2], request)
                } else {
                    Err(QueryError::UnsupportedOperation)
                }
            },
        }
    }
}

/// How the bank's registers change: the first register holding the
/// address takes the write, everything else stays.
pub open spec fn spec_register_set_post(regs: Seq<Register>, unit_id: u8, request: ModbusFrame) -> Seq<
    Register,
>
    recommends
        regs.len() == 3,
{
    if request.unit_id != unit_id {
        regs
    } else {
        match request.refers {
            Reference::Size(_) => regs,
            Reference::Address(addr) => {
                if regs[0].addr == addr {
                    regs.update(0, spec_register_post(regs[0], request))
                } else if regs[1].addr == addr {
                    regs.update(1, spec_register_post(regs[1], request))
                } else if regs[2].addr == addr {
                    regs.update(2, spec_register_post(regs[2], request))
                } else {
                    regs
                }
            },
        }
    }
}

impl RegisterSet {
    /// A fresh bank for `unit_id`: the state register reads `Wait`, both
    /// control registers are cleared.
    pub fn new(unit_id: u8) -> (r: Self)
        ensures
            r.unit_id == unit_id,
            r.registers@ == seq![
                Register { addr: 0x3040, value: 0x0001, reg_type: RegType::Read },
                Register { addr: 0x4010, value: 0x0000, reg_type: RegType::ReadWrite },
                Register { addr: 0x4012, value: 0x0000, reg_type: RegType::ReadWrite },
            ],
    {
        let r = Self {
            unit_id,
            registers: [
                Register { addr: 0x3040, value: 0x0001, reg_type: RegType::Read },
                Register { addr: 0x4010, value: 0x0000, reg_type: RegType::ReadWrite },
                Register { addr: 0x4012, value: 0x0000, reg_type: RegType::ReadWrite },
            ],
        };
        proof {
            assert(r.registers@ =~= seq![
                Register { addr: 0x3040, value: 0x0001, reg_type: RegType::Read },
                Register { addr: 0x4010, value: 0x0000, reg_type: RegType::ReadWrite },
                Register { addr: 0x4012, value: 0x0000, reg_type: RegType::ReadWrite },
            ]);
        }
        r
    }

    /// Answers one request against the bank, scanning the three registers
    /// in their fixed order for the addressed one.
    pub fn query(&mut self, request: &ModbusFrame) -> (r: Result<ModbusFrame, QueryError>)
        ensures
            r == spec_register_set_result(*old(self), *request),
            final(self).unit_id == old(self).unit_id,
            final(self).registers@ == spec_register_set_post(
                old(self).registers@,
                old(self).unit_id,
                *request,
            ),
    {
        if request.unit_id != self.unit_id {
            return Err(QueryError::NotForThisUnit);
        }

        let addr = match request.refers {
            Reference::Address(addr) => addr,
            Reference::Size(_) => {
                return Err(QueryError::InvalidQuery);
            },
        };

        if self.registers[0].addr == addr {
            let (reg, r) = Self::query_register(self.registers[0], request);
            self.registers[0] = reg;
            proof {
                assert(self.registers@ =~= spec_register_set_post(
                    old(self).registers@,
                    old(self).unit_id,
                    *request,
                ));
            }
            r
        } else if self.registers[1].addr == addr {
            let (reg, r) = Self::query_register(self.registers[1], request);
            self.registers[1] = reg;
            proof {
                assert(self.registers@ =~= spec_register_set_post(
                    old(self).registers@,
                    old(self).unit_id,
                    *request,
                ));
            }
            r
        } else if self.registers[2].addr == addr {
            let (reg, r) = Self::query_register(self.registers[2], request);
            self.registers[2] = reg;
            proof {
                assert(self.registers@ =~= spec_register_set_post(
                    old(self).registers@,
                    old(self).unit_id,
                    *request,
                ));
            }
            r
        } else {
            Err(QueryError::UnsupportedOperation)
        }
    }

    /// Serves one request against the register that holds its address.
    fn query_register(reg: Register, request: &ModbusFrame) -> (r: (
        Register,
        Result<ModbusFrame, QueryError>,
    ))
        ensures
            r.0 == spec_register_post(reg, *request),
            r.1 == spec_register_result(reg, *request),
    {
        let mut reg = reg;
        if (request.command == 3 || request.command == 4) && reg.reg_type == RegType::Read {
            let reply = reg.read(request);
            (reg, Ok(reply))
        } else if request.command == 3 && reg.reg_type == RegType::ReadWrite {
            let reply = reg.read(request);
            (reg, Ok(reply))
        } else if request.command == 6 && reg.reg_type == RegType::ReadWrite {
            let reply = reg.write(request);
            (reg, Ok(reply))
        } else {
            (reg, Err(QueryError::UnsupportedOperation))
        }
    }
}

} // verus!
