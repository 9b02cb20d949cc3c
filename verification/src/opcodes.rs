//! The decode table of the published 6502 instruction set.

use vstd::prelude::*;
use crate::addressing::Addressing;
use crate::instruction::Instruction;
use crate::instruction::InstructionType;

verus! {

/// The instruction that every undefined opcode byte decodes to.
pub open spec fn undefined() -> Instruction {
    Instruction { t: InstructionType::Brk, a: Addressing::Implied }
}

/// The template that opcode byte `opcode` decodes to: the operation kind and
/// the addressing mode, with a zero in place of the operand. The 151
/// published opcodes are listed; every other byte decodes as `Brk`.
pub open spec fn published_template(opcode: u8) -> Instruction {
    match opcode {
        0x00 => Instruction { t: InstructionType::Brk, a: Addressing::Implied },
        0x01 => Instruction { t: InstructionType::Ora, a: Addressing::IndirectX(0) },
        0x05 => Instruction { t: InstructionType::Ora, a: Addressing::ZeroPage(0) },
        0x06 => Instruction { t: InstructionType::Asl, a: Addressing::ZeroPage(0) },
        0x08 => Instruction { t: InstructionType::Php, a: Addressing::Implied },
        0x09 => Instruction { t: InstructionType::Ora, a: Addressing::Immediate(0) },
        0x0A => Instruction { t: InstructionType::Asl, a: Addressing::Accumulator },
        0x0D => Instruction { t: InstructionType::Ora, a: Addressing::Absolute(0) },
        0x0E => Instruction { t: InstructionType::Asl, a: Addressing::Absolute(0) },
        0x10 => Instruction { t: InstructionType::Bpl, a: Addressing::Relative(0) },
        0x11 => Instruction { t: InstructionType::Ora, a: Addressing::IndirectY(0) },
        0x15 => Instruction { t: InstructionType::Ora, a: Addressing::ZeroPageX(0) },
        0x16 => Instruction { t: InstructionType::Asl, a: Addressing::ZeroPageX(0) },
        0x18 => Instruction { t: InstructionType::Clc, a: Addressing::Implied },
        0x19 => Instruction { t: InstructionType::Ora, a: Addressing::AbsoluteY(0) },
        0x1D => Instruction { t: InstructionType::Ora, a: Addressing::AbsoluteX(0) },
        0x1E => Instruction { t: InstructionType::Asl, a: Addressing::AbsoluteX(0) },
        0x20 => Instruction { t: InstructionType::Jsr, a: Addressing::Absolute(0) },
        0x21 => Instruction { t: InstructionType::And, a: Addressing::IndirectX(0) },
        0x24 => Instruction { t: InstructionType::Bit, a: Addressing::ZeroPage(0) },
        0x25 => Instruction { t: InstructionType::And, a: Addressing::ZeroPage(0) },
        0x26 => Instruction { t: InstructionType::Rol, a: Addressing::ZeroPage(0) },
        0x28 => Instruction { t: InstructionType::Plp, a: Addressing::Implied },
        0x29 => Instruction { t: InstructionType::And, a: Addressing::Immediate(0) },
        0x2A => Instruction { t: InstructionType::Rol, a: Addressing::Accumulator },
        0x2C => Instruction { t: InstructionType::Bit, a: Addressing::Absolute(0) },
        0x2D => Instruction { t: InstructionType::And, a: Addressing::Absolute(0) },
        0x2E => Instruction { t: InstructionType::Rol, a: Addressing::Absolute(0) },
        0x30 => Instruction { t: InstructionType::Bmi, a: Addressing::Relative(0) },
        0x31 => Instruction { t: InstructionType::And, a: Addressing::IndirectY(0) },
        0x35 => Instruction { t: InstructionType::And, a: Addressing::ZeroPageX(0) },
        0x36 => Instruction { t: InstructionType::Rol, a: Addressing::ZeroPageX(0) },
        0x38 => Instruction { t: InstructionType::Sec, a: Addressing::Implied },
        0x39 => Instruction { t: InstructionType::And, a: Addressing::AbsoluteY(0) },
        0x3D => Instruction { t: InstructionType::And, a: Addressing::AbsoluteX(0) },
        0x3E => Instruction { t: InstructionType::Rol, a: Addressing::AbsoluteX(0) },
        0x40 => Instruction { t: InstructionType::Rti, a: Addressing::Implied },
        0x41 => Instruction { t: InstructionType::Eor, a: Addressing::IndirectX(0) },
        0x45 => Instruction { t: InstructionType::Eor, a: Addressing::ZeroPage(0) },
        0x46 => Instruction { t: InstructionType::Lsr, a: Addressing::ZeroPage(0) },
        0x48 => Instruction { t: InstructionType::Pha, a: Addressing::Implied },
        0x49 => Instruction { t: InstructionType::Eor, a: Addressing::Immediate(0) },
        0x4A => Instruction { t: InstructionType::Lsr, a: Addressing::Accumulator },
        0x4C => Instruction { t: InstructionType::Jmp, a: Addressing::Absolute(0) },
        0x4D => Instruction { t: InstructionType::Eor, a: Addressing::Absolute(0) },
        0x4E => Instruction { t: InstructionType::Lsr, a: Addressing::Absolute(0) },
        0x50 => Instruction { t: InstructionType::Bvc, a: Addressing::Relative(0) },
        0x51 => Instruction { t: InstructionType::Eor, a: Addressing::IndirectY(0) },
        0x55 => Instruction { t: InstructionType::Eor, a: Addressing::ZeroPageX(0) },
        0x56 => Instruction { t: InstructionType::Lsr, a: Addressing::ZeroPageX(0) },
        0x58 => Instruction { t: InstructionType::Cli, a: Addressing::Implied },
        0x59 => Instruction { t: InstructionType::Eor, a: Addressing::AbsoluteY(0) },
        0x5D => Instruction { t: InstructionType::Eor, a: Addressing::AbsoluteX(0) },
        0x5E => Instruction { t: InstructionType::Lsr, a: Addressing::AbsoluteX(0) },
        0x60 => Instruction { t: InstructionType::Rts, a: Addressing::Implied },
        0x61 => Instruction { t: InstructionType::Adc, a: Addressing::IndirectX(0) },
        0x65 => Instruction { t: InstructionType::Adc, a: Addressing::ZeroPage(0) },
        0x66 => Instruction { t: InstructionType::Ror, a: Addressing::ZeroPage(0) },
        0x68 => Instruction { t: InstructionType::Pla, a: Addressing::Implied },
        0x69 => Instruction { t: InstructionType::Adc, a: Addressing::Immediate(0) },
        0x6A => Instruction { t: InstructionType::Ror, a: Addressing::Accumulator },
        0x6C => Instruction { t: InstructionType::Jmp, a: Addressing::Indirect(0) },
        0x6D => Instruction { t: InstructionType::Adc, a: Addressing::Absolute(0) },
        0x6E => Instruction { t: InstructionType::Ror, a: Addressing::Absolute(0) },
        0x70 => Instruction { t: InstructionType::Bvs, a: Addressing::Relative(0) },
        0x71 => Instruction { t: InstructionType::Adc, a: Addressing::IndirectY(0) },
        0x75 => Instruction { t: InstructionType::Adc, a: Addressing::ZeroPageX(0) },
        0x76 => Instruction { t: InstructionType::Ror, a: Addressing::ZeroPageX(0) },
        0x78 => Instruction { t: InstructionType::Sei, a: Addressing::Implied },
        0x79 => Instruction { t: InstructionType::Adc, a: Addressing::AbsoluteY(0) },
        0x7D => Instruction { t: InstructionType::Adc, a: Addressing::AbsoluteX(0) },
        0x7E => Instruction { t: InstructionType::Ror, a: Addressing::AbsoluteX(0) },
        0x81 => Instruction { t: InstructionType::Sta, a: Addressing::IndirectX(0) },
        0x84 => Instruction { t: InstructionType::Sty, a: Addressing::ZeroPage(0) },
        0x85 => Instruction { t: InstructionType::Sta, a: Addressing::ZeroPage(0) },
        0x86 => Instruction { t: InstructionType::Stx, a: Addressing::ZeroPage(0) },
        0x88 => Instruction { t: InstructionType::Dey, a: Addressing::Implied },
        0x8A => Instruction { t: InstructionType::Txa, a: Addressing::Implied },
        0x8C => Instruction { t: InstructionType::Sty, a: Addressing::Absolute(0) },
        0x8D => Instruction { t: InstructionType::Sta, a: Addressing::Absolute(0) },
        0x8E => Instruction { t: InstructionType::Stx, a: Addressing::Absolute(0) },
        0x90 => Instruction { t: InstructionType::Bcc, a: Addressing::Relative(0) },
        0x91 => Instruction { t: InstructionType::Sta, a: Addressing::IndirectY(0) },
        0x94 => Instruction { t: InstructionType::Sty, a: Addressing::ZeroPageX(0) },
        0x95 => Instruction { t: InstructionType::Sta, a: Addressing::ZeroPageX(0) },
        0x96 => Instruction { t: InstructionType::Stx, a: Addressing::ZeroPageY(0) },
        0x98 => Instruction { t: InstructionType::Tya, a: Addressing::Implied },
        0x99 => Instruction { t: InstructionType::Sta, a: Addressing::AbsoluteY(0) },
        0x9A => Instruction { t: InstructionType::Txs, a: Addressing::Implied },
        0x9D => Instruction { t: InstructionType::Sta, a: Addressing::AbsoluteX(0) },
        0xA0 => Instruction { t: InstructionType::Ldy, a: Addressing::Immediate(0) },
        0xA1 => Instruction { t: InstructionType::Lda, a: Addressing::IndirectX(0) },
        0xA2 => Instruction { t: InstructionType::Ldx, a: Addressing::Immediate(0) },
        0xA4 => Instruction { t: InstructionType::Ldy, a: Addressing::ZeroPage(0) },
        0xA5 => Instruction { t: InstructionType::Lda, a: Addressing::ZeroPage(0) },
        0xA6 => Instruction { t: InstructionType::Ldx, a: Addressing::ZeroPage(0) },
        0xA8 => Instruction { t: InstructionType::Tay, a: Addressing::Implied },
        0xA9 => Instruction { t: InstructionType::Lda, a: Addressing::Immediate(0) },
        0xAA => Instruction { t: InstructionType::Tax, a: Addressing::Implied },
        0xAC => Instruction { t: InstructionType::Ldy, a: Addressing::Absolute(0) },
        0xAD => Instruction { t: InstructionType::Lda, a: Addressing::Absolute(0) },
        0xAE => Instruction { t: InstructionType::Ldx, a: Addressing::Absolute(0) },
        0xB0 => Instruction { t: InstructionType::Bcs, a: Addressing::Relative(0) },
        0xB1 => Instruction { t: InstructionType::Lda, a: Addressing::IndirectY(0) },
        0xB4 => Instruction { t: InstructionType::Ldy, a: Addressing::ZeroPageX(0) },
        0xB5 => Instruction { t: InstructionType::Lda, a: Addressing::ZeroPageX(0) },
        0xB6 => Instruction { t: InstructionType::Ldx, a: Addressing::ZeroPageY(0) },
        0xB8 => Instruction { t: InstructionType::Clv, a: Addressing::Implied },
        0xB9 => Instruction { t: InstructionType::Lda, a: Addressing::AbsoluteY(0) },
        0xBA => Instruction { t: InstructionType::Tsx, a: Addressing::Implied },
        0xBC => Instruction { t: InstructionType::Ldy, a: Addressing::AbsoluteX(0) },
        0xBD => Instruction { t: InstructionType::Lda, a: Addressing::AbsoluteX(0) },
        0xBE => Instruction { t: InstructionType::Ldx, a: Addressing::AbsoluteY(0) },
        0xC0 => Instruction { t: InstructionType::Cpy, a: Addressing::Immediate(0) },
        0xC1 => Instruction { t: InstructionType::Cmp, a: Addressing::IndirectX(0) },
        0xC4 => Instruction { t: InstructionType::Cpy, a: Addressing::ZeroPage(0) },
        0xC5 => Instruction { t: InstructionType::Cmp, a: Addressing::ZeroPage(0) },
        0xC6 => Instruction { t: InstructionType::Dec, a: Addressing::ZeroPage(0) },
        0xC8 => Instruction { t: InstructionType::Iny, a: Addressing::Implied },
        0xC9 => Instruction { t: InstructionType::Cmp, a: Addressing::Immediate(0) },
        0xCA => Instruction { t: InstructionType::Dex, a: Addressing::Implied },
        0xCC => Instruction { t: InstructionType::Cpy, a: Addressing::Absolute(0) },
        0xCD => Instruction { t: InstructionType::Cmp, a: Addressing::Absolute(0) },
        0xCE => Instruction { t: InstructionType::Dec, a: Addressing::Absolute(0) },
        0xD0 => Instruction { t: InstructionType::Bne, a: Addressing::Relative(0) },
        0xD1 => Instruction { t: InstructionType::Cmp, a: Addressing::IndirectY(0) },
        0xD5 => Instruction { t: InstructionType::Cmp, a: Addressing::ZeroPageX(0) },
        0xD6 => Instruction { t: InstructionType::Dec, a: Addressing::ZeroPageX(0) },
        0xD8 => Instruction { t: InstructionType::Cld, a: Addressing::Implied },
        0xD9 => Instruction { t: InstructionType::Cmp, a: Addressing::AbsoluteY(0) },
        0xDD => Instruction { t: InstructionType::Cmp, a: Addressing::AbsoluteX(0) },
        0xDE => Instruction { t: InstructionType::Dec, a: Addressing::AbsoluteX(0) },
        0xE0 => Instruction { t: InstructionType::Cpx, a: Addressing::Immediate(0) },
        0xE1 => Instruction { t: InstructionType::Sbc, a: Addressing::IndirectX(0) },
        0xE4 => Instruction { t: InstructionType::Cpx, a: Addressing::ZeroPage(0) },
        0xE5 => Instruction { t: InstructionType::Sbc, a: Addressing::ZeroPage(0) },
        0xE6 => Instruction { t: InstructionType::Inc, a: Addressing::ZeroPage(0) },
        0xE8 => Instruction { t: InstructionType::Inx, a: Addressing::Implied },
        0xE9 => Instruction { t: InstructionType::Sbc, a: Addressing::Immediate(0) },
        0xEA => Instruction { t: InstructionType::Nop, a: Addressing::Implied },
        0xEC => Instruction { t: InstructionType::Cpx, a: Addressing::Absolute(0) },
        0xED => Instruction { t: InstructionType::Sbc, a: Addressing::Absolute(0) },
        0xEE => Instruction { t: InstructionType::Inc, a: Addressing::Absolute(0) },
        0xF0 => Instruction { t: InstructionType::Beq, a: Addressing::Relative(0) },
        0xF1 => Instruction { t: InstructionType::Sbc, a: Addressing::IndirectY(0) },
        0xF5 => Instruction { t: InstructionType::Sbc, a: Addressing::ZeroPageX(0) },
        0xF6 => Instruction { t: InstructionType::Inc, a: Addressing::ZeroPageX(0) },
        0xF8 => Instruction { t: InstructionType::Sed, a: Addressing::Implied },
        0xF9 => Instruction { t: InstructionType::Sbc, a: Addressing::AbsoluteY(0) },
        0xFD => Instruction { t: InstructionType::Sbc, a: Addressing::AbsoluteX(0) },
        0xFE => Instruction { t: InstructionType::Inc, a: Addressing::AbsoluteX(0) },
        _ => undefined(),
    }
}

/// The decode table of the published instruction set, indexed by opcode byte.
pub open spec fn published_table() -> Seq<Instruction> {
    Seq::new(256, |opcode: int| published_template(opcode as u8))
}

/// The decode table that `entries` make of `table`: each entry puts its kind
/// and mode at its opcode byte, a later entry replacing an earlier one.
pub open spec fn overlay(
    table: Seq<Instruction>,
    entries: Seq<(u8, InstructionType, Addressing)>,
) -> Seq<Instruction>
    decreases entries.len(),
{
    if entries.len() == 0 {
        table
    } else {
        let entry = entries.last();
        overlay(table, entries.drop_last()).update(
            entry.0 as int,
            Instruction { t: entry.1, a: entry.2 },
        )
    }
}

/// The decode table in which every opcode byte is undefined.
pub open spec fn undefined_table() -> Seq<Instruction> {
    Seq::new(256, |opcode: int| undefined())
}

/// Decodes opcode byte `opcode` by the published instruction set.
pub fn decode(opcode: u8) -> (template: Instruction)
    ensures
        template == published_template(opcode),
{
    match opcode {
        0x00 => Instruction { t: InstructionType::Brk, a: Addressing::Implied },
        0x01 => Instruction { t: InstructionType::Ora, a: Addressing::IndirectX(0) },
        0x05 => Instruction { t: InstructionType::Ora, a: Addressing::ZeroPage(0) },
        0x06 => Instruction { t: InstructionType::Asl, a: Addressing::ZeroPage(0) },
        0x08 => Instruction { t: InstructionType::Php, a: Addressing::Implied },
        0x09 => Instruction { t: InstructionType::Ora, a: Addressing::Immediate(0) },
        0x0A => Instruction { t: InstructionType::Asl, a: Addressing::Accumulator },
        0x0D => Instruction { t: InstructionType::Ora, a: Addressing::Absolute(0) },
        0x0E => Instruction { t: InstructionType::Asl, a: Addressing::Absolute(0) },
        0x10 => Instruction { t: InstructionType::Bpl, a: Addressing::Relative(0) },
        0x11 => Instruction { t: InstructionType::Ora, a: Addressing::IndirectY(0) },
        0x15 => Instruction { t: InstructionType::Ora, a: Addressing::ZeroPageX(0) },
        0x16 => Instruction { t: InstructionType::Asl, a: Addressing::ZeroPageX(0) },
        0x18 => Instruction { t: InstructionType::Clc, a: Addressing::Implied },
        0x19 => Instruction { t: InstructionType::Ora, a: Addressing::AbsoluteY(0) },
        0x1D => Instruction { t: InstructionType::Ora, a: Addressing::AbsoluteX(0) },
        0x1E => Instruction { t: InstructionType::Asl, a: Addressing::AbsoluteX(0) },
        0x20 => Instruction { t: InstructionType::Jsr, a: Addressing::Absolute(0) },
        0x21 => Instruction { t: InstructionType::And, a: Addressing::IndirectX(0) },
        0x24 => Instruction { t: InstructionType::Bit, a: Addressing::ZeroPage(0) },
        0x25 => Instruction { t: InstructionType::And, a: Addressing::ZeroPage(0) },
        0x26 => Instruction { t: InstructionType::Rol, a: Addressing::ZeroPage(0) },
        0x28 => Instruction { t: InstructionType::Plp, a: Addressing::Implied },
        0x29 => Instruction { t: InstructionType::And, a: Addressing::Immediate(0) },
        0x2A => Instruction { t: InstructionType::Rol, a: Addressing::Accumulator },
        0x2C => Instruction { t: InstructionType::Bit, a: Addressing::Absolute(0) },
        0x2D => Instruction { t: InstructionType::And, a: Addressing::Absolute(0) },
        0x2E => Instruction { t: InstructionType::Rol, a: Addressing::Absolute(0) },
        0x30 => Instruction { t: InstructionType::Bmi, a: Addressing::Relative(0) },
        0x31 => Instruction { t: InstructionType::And, a: Addressing::IndirectY(0) },
        0x35 => Instruction { t: InstructionType::And, a: Addressing::ZeroPageX(0) },
        0x36 => Instruction { t: InstructionType::Rol, a: Addressing::ZeroPageX(0) },
        0x38 => Instruction { t: InstructionType::Sec, a: Addressing::Implied },
        0x39 => Instruction { t: InstructionType::And, a: Addressing::AbsoluteY(0) },
        0x3D => Instruction { t: InstructionType::And, a: Addressing::AbsoluteX(0) },
        0x3E => Instruction { t: InstructionType::Rol, a: Addressing::AbsoluteX(0) },
        0x40 => Instruction { t: InstructionType::Rti, a: Addressing::Implied },
        0x41 => Instruction { t: InstructionType::Eor, a: Addressing::IndirectX(0) },
        0x45 => Instruction { t: InstructionType::Eor, a: Addressing::ZeroPage(0) },
        0x46 => Instruction { t: InstructionType::Lsr, a: Addressing::ZeroPage(0) },
        0x48 => Instruction { t: InstructionType::Pha, a: Addressing::Implied },
        0x49 => Instruction { t: InstructionType::Eor, a: Addressing::Immediate(0) },
        0x4A => Instruction { t: InstructionType::Lsr, a: Addressing::Accumulator },
        0x4C => Instruction { t: InstructionType::Jmp, a: Addressing::Absolute(0) },
        0x4D => Instruction { t: InstructionType::Eor, a: Addressing::Absolute(0) },
        0x4E => Instruction { t: InstructionType::Lsr, a: Addressing::Absolute(0) },
        0x50 => Instruction { t: InstructionType::Bvc, a: Addressing::Relative(0) },
        0x51 => Instruction { t: InstructionType::Eor, a: Addressing::IndirectY(0) },
        0x55 => Instruction { t: InstructionType::Eor, a: Addressing::ZeroPageX(0) },
        0x56 => Instruction { t: InstructionType::Lsr, a: Addressing::ZeroPageX(0) },
        0x58 => Instruction { t: InstructionType::Cli, a: Addressing::Implied },
        0x59 => Instruction { t: InstructionType::Eor, a: Addressing::AbsoluteY(0) },
        0x5D => Instruction { t: InstructionType::Eor, a: Addressing::AbsoluteX(0) },
        0x5E => Instruction { t: InstructionType::Lsr, a: Addressing::AbsoluteX(0) },
        0x60 => Instruction { t: InstructionType::Rts, a: Addressing::Implied },
        0x61 => Instruction { t: InstructionType::Adc, a: Addressing::IndirectX(0) },
        0x65 => Instruction { t: InstructionType::Adc, a: Addressing::ZeroPage(0) },
        0x66 => Instruction { t: InstructionType::Ror, a: Addressing::ZeroPage(0) },
        0x68 => Instruction { t: InstructionType::Pla, a: Addressing::Implied },
        0x69 => Instruction { t: InstructionType::Adc, a: Addressing::Immediate(0) },
        0x6A => Instruction { t: InstructionType::Ror, a: Addressing::Accumulator },
        0x6C => Instruction { t: InstructionType::Jmp, a: Addressing::Indirect(0) },
        0x6D => Instruction { t: InstructionType::Adc, a: Addressing::Absolute(0) },
        0x6E => Instruction { t: InstructionType::Ror, a: Addressing::Absolute(0) },
        0x70 => Instruction { t: InstructionType::Bvs, a: Addressing::Relative(0) },
        0x71 => Instruction { t: InstructionType::Adc, a: Addressing::IndirectY(0) },
        0x75 => Instruction { t: InstructionType::Adc, a: Addressing::ZeroPageX(0) },
        0x76 => Instruction { t: InstructionType::Ror, a: Addressing::ZeroPageX(0) },
        0x78 => Instruction { t: InstructionType::Sei, a: Addressing::Implied },
        0x79 => Instruction { t: InstructionType::Adc, a: Addressing::AbsoluteY(0) },
        0x7D => Instruction { t: InstructionType::Adc, a: Addressing::AbsoluteX(0) },
        0x7E => Instruction { t: InstructionType::Ror, a: Addressing::AbsoluteX(0) },
        0x81 => Instruction { t: InstructionType::Sta, a: Addressing::IndirectX(0) },
        0x84 => Instruction { t: InstructionType::Sty, a: Addressing::ZeroPage(0) },
        0x85 => Instruction { t: InstructionType::Sta, a: Addressing::ZeroPage(0) },
        0x86 => Instruction { t: InstructionType::Stx, a: Addressing::ZeroPage(0) },
        0x88 => Instruction { t: InstructionType::Dey, a: Addressing::Implied },
        0x8A => Instruction { t: InstructionType::Txa, a: Addressing::Implied },
        0x8C => Instruction { t: InstructionType::Sty, a: Addressing::Absolute(0) },
        0x8D => Instruction { t: InstructionType::Sta, a: Addressing::Absolute(0) },
        0x8E => Instruction { t: InstructionType::Stx, a: Addressing::Absolute(0) },
        0x90 => Instruction { t: InstructionType::Bcc, a: Addressing::Relative(0) },
        0x91 => Instruction { t: InstructionType::Sta, a: Addressing::IndirectY(0) },
        0x94 => Instruction { t: InstructionType::Sty, a: Addressing::ZeroPageX(0) },
        0x95 => Instruction { t: InstructionType::Sta, a: Addressing::ZeroPageX(0) },
        0x96 => Instruction { t: InstructionType::Stx, a: Addressing::ZeroPageY(0) },
        0x98 => Instruction { t: InstructionType::Tya, a: Addressing::Implied },
        0x99 => Instruction { t: InstructionType::Sta, a: Addressing::AbsoluteY(0) },
        0x9A => Instruction { t: InstructionType::Txs, a: Addressing::Implied },
        0x9D => Instruction { t: InstructionType::Sta, a: Addressing::AbsoluteX(0) },
        0xA0 => Instruction { t: InstructionType::Ldy, a: Addressing::Immediate(0) },
        0xA1 => Instruction { t: InstructionType::Lda, a: Addressing::IndirectX(0) },
        0xA2 => Instruction { t: InstructionType::Ldx, a: Addressing::Immediate(0) },
        0xA4 => Instruction { t: InstructionType::Ldy, a: Addressing::ZeroPage(0) },
        0xA5 => Instruction { t: InstructionType::Lda, a: Addressing::ZeroPage(0) },
        0xA6 => Instruction { t: InstructionType::Ldx, a: Addressing::ZeroPage(0) },
        0xA8 => Instruction { t: InstructionType::Tay, a: Addressing::Implied },
        0xA9 => Instruction { t: InstructionType::Lda, a: Addressing::Immediate(0) },
        0xAA => Instruction { t: InstructionType::Tax, a: Addressing::Implied },
        0xAC => Instruction { t: InstructionType::Ldy, a: Addressing::Absolute(0) },
        0xAD => Instruction { t: InstructionType::Lda, a: Addressing::Absolute(0) },
        0xAE => Instruction { t: InstructionType::Ldx, a: Addressing::Absolute(0) },
        0xB0 => Instruction { t: InstructionType::Bcs, a: Addressing::Relative(0) },
        0xB1 => Instruction { t: InstructionType::Lda, a: Addressing::IndirectY(0) },
        0xB4 => Instruction { t: InstructionType::Ldy, a: Addressing::ZeroPageX(0) },
        0xB5 => Instruction { t: InstructionType::Lda, a: Addressing::ZeroPageX(0) },
        0xB6 => Instruction { t: InstructionType::Ldx, a: Addressing::ZeroPageY(0) },
        0xB8 => Instruction { t: InstructionType::Clv, a: Addressing::Implied },
        0xB9 => Instruction { t: InstructionType::Lda, a: Addressing::AbsoluteY(0) },
        0xBA => Instruction { t: InstructionType::Tsx, a: Addressing::Implied },
        0xBC => Instruction { t: InstructionType::Ldy, a: Addressing::AbsoluteX(0) },
        0xBD => Instruction { t: InstructionType::Lda, a: Addressing::AbsoluteX(0) },
        0xBE => Instruction { t: InstructionType::Ldx, a: Addressing::AbsoluteY(0) },
        0xC0 => Instruction { t: InstructionType::Cpy, a: Addressing::Immediate(0) },
        0xC1 => Instruction { t: InstructionType::Cmp, a: Addressing::IndirectX(0) },
        0xC4 => Instruction { t: InstructionType::Cpy, a: Addressing::ZeroPage(0) },
        0xC5 => Instruction { t: InstructionType::Cmp, a: Addressing::ZeroPage(0) },
        0xC6 => Instruction { t: InstructionType::Dec, a: Addressing::ZeroPage(0) },
        0xC8 => Instruction { t: InstructionType::Iny, a: Addressing::Implied },
        0xC9 => Instruction { t: InstructionType::Cmp, a: Addressing::Immediate(0) },
        0xCA => Instruction { t: InstructionType::Dex, a: Addressing::Implied },
        0xCC => Instruction { t: InstructionType::Cpy, a: Addressing::Absolute(0) },
        0xCD => Instruction { t: InstructionType::Cmp, a: Addressing::Absolute(0) },
        0xCE => Instruction { t: InstructionType::Dec, a: Addressing::Absolute(0) },
        0xD0 => Instruction { t: InstructionType::Bne, a: Addressing::Relative(0) },
        0xD1 => Instruction { t: InstructionType::Cmp, a: Addressing::IndirectY(0) },
        0xD5 => Instruction { t: InstructionType::Cmp, a: Addressing::ZeroPageX(0) },
        0xD6 => Instruction { t: InstructionType::Dec, a: Addressing::ZeroPageX(0) },
        0xD8 => Instruction { t: InstructionType::Cld, a: Addressing::Implied },
        0xD9 => Instruction { t: InstructionType::Cmp, a: Addressing::AbsoluteY(0) },
        0xDD => Instruction { t: InstructionType::Cmp, a: Addressing::AbsoluteX(0) },
        0xDE => Instruction { t: InstructionType::Dec, a: Addressing::AbsoluteX(0) },
        0xE0 => Instruction { t: InstructionType::Cpx, a: Addressing::Immediate(0) },
        0xE1 => Instruction { t: InstructionType::Sbc, a: Addressing::IndirectX(0) },
        0xE4 => Instruction { t: InstructionType::Cpx, a: Addressing::ZeroPage(0) },
        0xE5 => Instruction { t: InstructionType::Sbc, a: Addressing::ZeroPage(0) },
        0xE6 => Instruction { t: InstructionType::Inc, a: Addressing::ZeroPage(0) },
        0xE8 => Instruction { t: InstructionType::Inx, a: Addressing::Implied },
        0xE9 => Instruction { t: InstructionType::Sbc, a: Addressing::Immediate(0) },
        0xEA => Instruction { t: InstructionType::Nop, a: Addressing::Implied },
        0xEC => Instruction { t: InstructionType::Cpx, a: Addressing::Absolute(0) },
        0xED => Instruction { t: InstructionType::Sbc, a: Addressing::Absolute(0) },
        0xEE => Instruction { t: InstructionType::Inc, a: Addressing::Absolute(0) },
        0xF0 => Instruction { t: InstructionType::Beq, a: Addressing::Relative(0) },
        0xF1 => Instruction { t: InstructionType::Sbc, a: Addressing::IndirectY(0) },
        0xF5 => Instruction { t: InstructionType::Sbc, a: Addressing::ZeroPageX(0) },
        0xF6 => Instruction { t: InstructionType::Inc, a: Addressing::ZeroPageX(0) },
        0xF8 => Instruction { t: InstructionType::Sed, a: Addressing::Implied },
        0xF9 => Instruction { t: InstructionType::Sbc, a: Addressing::AbsoluteY(0) },
        0xFD => Instruction { t: InstructionType::Sbc, a: Addressing::AbsoluteX(0) },
        0xFE => Instruction { t: InstructionType::Inc, a: Addressing::AbsoluteX(0) },
        _ => Instruction { t: InstructionType::Brk, a: Addressing::Implied },
    }
}

/// Every template of the published instruction set can be executed.
pub proof fn lemma_published_templates_well_formed(opcode: u8)
    ensures
        published_template(opcode).well_formed(),
{
}

} // verus!
