//! Addressing modes: how an instruction's operand bytes and the registers
//! name a value or a place in the address space.

use vstd::prelude::*;
use vstd::pervasive::unreached;
use crate::cpu::Cpu;
use crate::memory::Memory;
use crate::state::{wrap8, wrap16};

verus! {

/// An addressing mode together with its operand.
#[derive(Clone, Copy, Debug, PartialEq, Eq, Structural)]
pub enum Addressing {
    Accumulator,
    Absolute(u16),
    AbsoluteX(u16),
    AbsoluteY(u16),
    Immediate(u8),
    Implied,
    Indirect(u16),
    IndirectX(u8),
    IndirectY(u8),
    Relative(i8),
    ZeroPage(u8),
    ZeroPageX(u8),
    ZeroPageY(u8),
}

impl Addressing {
    /// Number of operand bytes that follow the opcode byte.
    pub open spec fn operand_width(self) -> nat {
        match self {
            Addressing::Accumulator | Addressing::Implied => 0,
            Addressing::Absolute(_) | Addressing::AbsoluteX(_) | Addressing::AbsoluteY(_)
            | Addressing::Indirect(_) => 2,
            _ => 1,
        }
    }

    /// Modes that name a place in memory (an effective address).
    pub open spec fn has_address(self) -> bool {
        !(self is Accumulator || self is Immediate || self is Implied)
    }

    /// Modes through which a value can be read.
    pub open spec fn loadable(self) -> bool {
        !(self is Implied || self is Relative || self is Indirect)
    }

    /// Modes through which a value can be written.
    pub open spec fn storable(self) -> bool {
        self.loadable() && !(self is Immediate)
    }

    /// Whether a value can be read through this mode.
    pub fn is_loadable(&self) -> (r: bool)
        ensures
            r == self.loadable(),
    {
        match *self {
            Addressing::Implied | Addressing::Relative(_) | Addressing::Indirect(_) => false,
            _ => true,
        }
    }

    /// Whether a value can be written through this mode.
    pub fn is_storable(&self) -> (r: bool)
        ensures
            r == self.storable(),
    {
        match *self {
            Addressing::Immediate(_) => false,
            _ => self.is_loadable(),
        }
    }

    /// Works out the effective address of this mode on `cpu`, where it has
    /// one. The indirect modes read their pointer from the bus.
    pub fn address(&self, cpu: &mut Cpu) -> (address: Option<u16>)
        ensures
            address == old(cpu)@.address_value(*self),
            address is Some == self.has_address(),
            final(cpu)@ == old(cpu)@.after_address(*self),
    {
        match *self {
            Addressing::Accumulator => None,
            Addressing::Absolute(addr) => Some(addr),
            Addressing::AbsoluteX(addr) => Some(Self::offset16(addr, cpu.x)),
            Addressing::AbsoluteY(addr) => Some(Self::offset16(addr, cpu.y)),
            Addressing::Immediate(_) => None,
            Addressing::Implied => None,
            Addressing::Indirect(addr) => Some(cpu.word_at(addr)),
            Addressing::IndirectX(zp) => {
                let pointer: u8 = Self::offset8(zp, cpu.x);
                Some(cpu.word_at(pointer as u16))
            },
            Addressing::IndirectY(zp) => {
                let y: u8 = cpu.y;
                let base: u16 = cpu.word_at(zp as u16);
                Some(Self::offset16(base, y))
            },
            Addressing::Relative(offset) => {
                let target: i32 = cpu.pc as i32 + offset as i32;
                if target < 0 {
                    Some((target + 0x10000) as u16)
                } else if target > 0xFFFF {
                    Some((target - 0x10000) as u16)
                } else {
                    Some(target as u16)
                }
            },
            Addressing::ZeroPage(zp) => Some(zp as u16),
            Addressing::ZeroPageX(zp) => Some(Self::offset8(zp, cpu.x) as u16),
            Addressing::ZeroPageY(zp) => Some(Self::offset8(zp, cpu.y) as u16),
        }
    }

    /// Reads the operand through this mode, which must be one that a value
    /// can be read through.
    pub fn get(&self, cpu: &mut Cpu) -> (value: u8)
        requires
            self.loadable(),
        ensures
            value == old(cpu)@.load_value(*self),
            final(cpu)@ == old(cpu)@.after_load(*self),
    {
        match *self {
            Addressing::Accumulator => cpu.a,
            Addressing::Immediate(v) => v,
            _ => match self.address(cpu) {
                Some(addr) => cpu.get(addr),
                None => unreached(),
            },
        }
    }

    /// Writes `value` through this mode, which must be one that a value can
    /// be written through.
    pub fn set(&self, cpu: &mut Cpu, value: u8)
        requires
            self.storable(),
        ensures
            final(cpu)@ == old(cpu)@.store(*self, value),
    {
        match *self {
            Addressing::Accumulator => {
                cpu.a = value;
            },
            _ => match self.address(cpu) {
                Some(addr) => {
                    cpu.set(addr, value);
                },
                None => unreached(),
            },
        }
    }

    /// `base + index` within sixteen bits.
    fn offset16(base: u16, index: u8) -> (sum: u16)
        ensures
            sum == wrap16(base + index),
    {
        let sum: u32 = base as u32 + index as u32;
        if sum > 0xFFFF {
            (sum - 0x10000) as u16
        } else {
            sum as u16
        }
    }

    /// `base + index` within eight bits.
    fn offset8(base: u8, index: u8) -> (sum: u8)
        ensures
            sum == wrap8(base + index),
    {
        let sum: u16 = base as u16 + index as u16;
        if sum > 0xFF {
            (sum - 0x100) as u8
        } else {
            sum as u8
        }
    }
}

} // verus!
