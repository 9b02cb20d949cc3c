//! The instruction model: an operation kind paired with an addressing mode.

use vstd::prelude::*;
use crate::addressing::Addressing;

verus! {

/// The 56 operation kinds of the 6502.
#[derive(Clone, Copy, Debug, PartialEq, Eq, Structural)]
pub enum InstructionType {
    Adc,
    And,
    Asl,
    Bcc,
    Bcs,
    Beq,
    Bit,
    Bmi,
    Bne,
    Bpl,
    Brk,
    Bvc,
    Bvs,
    Clc,
    Cld,
    Cli,
    Clv,
    Cmp,
    Cpx,
    Cpy,
    Dec,
    Dex,
    Dey,
    Eor,
    Inc,
    Inx,
    Iny,
    Jmp,
    Jsr,
    Lda,
    Ldx,
    Ldy,
    Lsr,
    Nop,
    Ora,
    Pha,
    Php,
    Pla,
    Plp,
    Rol,
    Ror,
    Rti,
    Rts,
    Sbc,
    Sec,
    Sed,
    Sei,
    Sta,
    Stx,
    Sty,
    Tax,
    Tay,
    Tsx,
    Txa,
    Txs,
    Tya,
}

/// One instruction: what to do (`t`) and where its operand lives (`a`).
#[derive(Clone, Copy, Debug, PartialEq, Eq, Structural)]
pub struct Instruction {
    pub t: InstructionType,
    pub a: Addressing,
}

impl InstructionType {
    /// Kinds that read their operand through the addressing mode and leave it in place.
    pub open spec fn reads_operand(self) -> bool {
        self is Adc || self is And || self is Bit || self is Cmp || self is Cpx || self is Cpy
            || self is Eor || self is Lda || self is Ldx || self is Ldy || self is Ora
            || self is Sbc
    }

    /// Kinds that read their operand, change it and write it back to the same place.
    pub open spec fn modifies_operand(self) -> bool {
        self is Asl || self is Lsr || self is Rol || self is Ror || self is Inc || self is Dec
    }

    /// Kinds that write a register through the addressing mode.
    pub open spec fn writes_operand(self) -> bool {
        self is Sta || self is Stx || self is Sty
    }

    /// Kinds whose result Z and N describe afterwards.
    pub open spec fn defines_zero_negative(self) -> bool {
        self.result_in_a() || self.result_in_x() || self.result_in_y() || self.modifies_operand()
            || self.compares()
    }

    /// Kinds that leave their result in A.
    pub open spec fn result_in_a(self) -> bool {
        self is Adc || self is And || self is Eor || self is Lda || self is Ora || self is Pla
            || self is Sbc || self is Txa || self is Tya
    }

    /// Kinds that leave their result in X.
    pub open spec fn result_in_x(self) -> bool {
        self is Dex || self is Inx || self is Ldx || self is Tax || self is Tsx
    }

    /// Kinds that leave their result in Y.
    pub open spec fn result_in_y(self) -> bool {
        self is Dey || self is Iny || self is Ldy || self is Tay
    }

    /// Kinds that compare a register with their operand.
    pub open spec fn compares(self) -> bool {
        self is Cmp || self is Cpx || self is Cpy
    }

    /// Kinds that write Z or N by a rule of their own: `Bit` from its
    /// operand, `Plp` and `Rti` from the stack.
    pub open spec fn rewrites_status(self) -> bool {
        self is Bit || self is Plp || self is Rti
    }

    /// Kinds that may load the program counter: branches, jumps, returns and `Brk`.
    pub open spec fn transfers_control(self) -> bool {
        self is Bcc || self is Bcs || self is Beq || self is Bmi || self is Bne || self is Bpl
            || self is Bvc || self is Bvs || self is Jmp || self is Jsr || self is Rts
            || self is Rti || self is Brk
    }
}

impl Instruction {
    /// Whether the addressing mode offers what the operation kind asks of it.
    ///
    /// Executing an instruction for which this fails is a host error: a read
    /// through a mode without a value, or a write through a mode without a place.
    pub open spec fn well_formed(self) -> bool {
        &&& self.t.reads_operand() ==> self.a.loadable()
        &&& self.t.modifies_operand() ==> self.a.storable()
        &&& self.t.writes_operand() ==> self.a.storable()
    }

    /// Whether the addressing mode offers what the operation kind asks of it.
    pub fn is_well_formed(&self) -> (r: bool)
        ensures
            r == self.well_formed(),
    {
        match self.t {
            InstructionType::Adc
            | InstructionType::And
            | InstructionType::Bit
            | InstructionType::Cmp
            | InstructionType::Cpx
            | InstructionType::Cpy
            | InstructionType::Eor
            | InstructionType::Lda
            | InstructionType::Ldx
            | InstructionType::Ldy
            | InstructionType::Ora
            | InstructionType::Sbc => self.a.is_loadable(),
            InstructionType::Asl
            | InstructionType::Lsr
            | InstructionType::Rol
            | InstructionType::Ror
            | InstructionType::Inc
            | InstructionType::Dec
            | InstructionType::Sta
            | InstructionType::Stx
            | InstructionType::Sty => self.a.is_storable(),
            _ => true,
        }
    }
}

} // verus!
