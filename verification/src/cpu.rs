//! The processor: registers, memory, decode table and devices, with the
//! fetch/execute loop that drives them.

use vstd::prelude::*;
use vstd::pervasive::unreached;
use crate::addressing::Addressing;
use crate::device::Device;
use crate::device::Rand;
use crate::device::Terminal;
use crate::device::Xorshift;
use crate::instruction::Instruction;
use crate::instruction::InstructionType;
use crate::memory::Memory;
use crate::opcodes::lemma_published_templates_well_formed;
use crate::opcodes::{decode, overlay, published_table, published_template, undefined_table};
use crate::state::{State, IRQ_VECTOR, MEMORY_SIZE, RESET_VECTOR};
use crate::state::{RANDOM, TERMINAL_COUNT, TERMINAL_DATA};
use crate::state::{signed, wrap16};
use crate::status::{flag, lemma_flag_by_shift};
use crate::status::{CARRY, ZERO, IRQ_DISABLED, DECIMAL, BREAK, IGNORED, OVERFLOW, NEGATIVE};

verus! {

/// A 6502 processor with its 64 KiB address space.
pub struct Cpu {
    pub pc: u16,
    pub a: u8,
    pub x: u8,
    pub y: u8,
    pub sr: u8,
    pub sp: u8,
    pub memory: [u8; 65536],
    pub opcodes: [Instruction; 256],
    pub rand: Rand,
    pub terminal: Terminal,
}

impl View for Cpu {
    type V = State;

    open spec fn view(&self) -> State {
        State {
            pc: self.pc,
            a: self.a,
            x: self.x,
            y: self.y,
            sr: self.sr,
            sp: self.sp,
            memory: self.memory@,
            opcodes: self.opcodes@,
            rand: self.rand@,
            terminal: self.terminal@,
        }
    }
}

impl Memory for Cpu {
    /// Reads the bus: the three device cells answer for their devices,
    /// every other address for its memory cell.
    fn get(&mut self, addr: u16) -> (value: u8)
        ensures
            value == old(self)@.read_value(addr),
            final(self)@ == old(self)@.after_read(addr),
    {
        if addr == TERMINAL_DATA {
            self.terminal.get(0)
        } else if addr == TERMINAL_COUNT {
            self.terminal.get(1)
        } else if addr == RANDOM {
            self.rand.get(0)
        } else {
            self.memory[addr as usize]
        }
    }

    /// Writes the bus: the three device cells ignore it, every other
    /// address takes the value into its memory cell.
    fn set(&mut self, addr: u16, v: u8)
        ensures
            final(self)@ == old(self)@.write(addr, v),
    {
        if addr == TERMINAL_DATA {
            self.terminal.set(0, v);
        } else if addr == TERMINAL_COUNT {
            self.terminal.set(1, v);
        } else if addr == RANDOM {
            self.rand.set(0, v);
        } else {
            self.memory[addr as usize] = v;
        }
    }
}

impl Cpu {
    /// A processor for the published instruction set, with a random number
    /// generator seeded from the clock.
    pub fn new6502() -> (cpu: Cpu)
        ensures
            exists|seed: u32| cpu@ == State::power_on(published_table(), Xorshift::seeded(seed)),
            cpu@.decodes_well(),
    {
        Self::new6502_with_rand(Rand::new())
    }

    /// A processor for the published instruction set, with random number
    /// generator `rand`: memory zero, no input waiting, reset.
    pub fn new6502_with_rand(rand: Rand) -> (cpu: Cpu)
        ensures
            cpu@ == State::power_on(published_table(), rand@),
            cpu@.decodes_well(),
    {
        let brk = Instruction { t: InstructionType::Brk, a: Addressing::Implied };
        let mut table: [Instruction; 256] = [brk; 256];
        let mut opcode: usize = 0;
        while opcode < 256
            invariant
                opcode <= 256,
                forall|b: int| 0 <= b < opcode ==> table@[b] == published_template(b as u8),
            decreases 256 - opcode,
        {
            table[opcode] = decode(opcode as u8);
            opcode += 1;
        }
        assert(table@ =~= published_table());
        proof {
            assert forall|b: int| 0 <= b < 256 implies (#[trigger] published_table()[
                b
            ]).well_formed() by {
                lemma_published_templates_well_formed(b as u8);
            }
        }
        Self::assemble(table, rand)
    }

    /// A processor whose decode table holds `opcodes` over undefined
    /// entries, with a random number generator seeded from the clock.
    pub fn new(opcodes: &[(u8, InstructionType, Addressing)]) -> (cpu: Cpu)
        ensures
            exists|seed: u32|
                cpu@ == State::power_on(
                    overlay(undefined_table(), opcodes@),
                    Xorshift::seeded(seed),
                ),
    {
        Self::with_rand(opcodes, Rand::new())
    }

    /// A processor whose decode table holds `opcodes` over undefined
    /// entries, with random number generator `rand`: memory zero, no input
    /// waiting, reset.
    pub fn with_rand(opcodes: &[(u8, InstructionType, Addressing)], rand: Rand) -> (cpu: Cpu)
        ensures
            cpu@ == State::power_on(overlay(undefined_table(), opcodes@), rand@),
    {
        let brk = Instruction { t: InstructionType::Brk, a: Addressing::Implied };
        let table: [Instruction; 256] = [brk; 256];
        assert(table@ =~= undefined_table());
        let mut cpu = Self::assemble(table, rand);
        cpu.load_opcodes(opcodes);
        cpu
    }

    /// A processor with decode table `table` and random number generator
    /// `rand`: memory zero, no input waiting, reset.
    fn assemble(table: [Instruction; 256], rand: Rand) -> (cpu: Cpu)
        ensures
            cpu@ == State::power_on(table@, rand@),
    {
        let mut cpu = Cpu {
            pc: RESET_VECTOR,
            a: 0,
            x: 0,
            y: 0,
            sr: 0,
            sp: 0xFF,
            memory: [0u8; 65536],
            opcodes: table,
            rand: rand,
            terminal: Terminal::new(),
        };
        cpu.reset();
        assert(cpu@.memory =~= Seq::new(MEMORY_SIZE as nat, |i: int| 0u8));
        cpu
    }

    /// Puts the kind and mode of each entry of `opcodes` at the entry's
    /// opcode byte in the decode table, a later entry replacing an earlier.
    pub fn load_opcodes(&mut self, opcodes: &[(u8, InstructionType, Addressing)])
        ensures
            final(self)@ == (State {
                opcodes: overlay(old(self)@.opcodes, opcodes@),
                ..old(self)@
            }),
    {
        let mut k: usize = 0;
        assert(opcodes@.take(0) =~= Seq::empty());
        while k < opcodes.len()
            invariant
                k <= opcodes.len(),
                self@ == (State {
                    opcodes: overlay(old(self)@.opcodes, opcodes@.take(k as int)),
                    ..old(self)@
                }),
            decreases opcodes.len() - k,
        {
            let entry: (u8, InstructionType, Addressing) = opcodes[k];
            self.opcodes[entry.0 as usize] = Instruction { t: entry.1, a: entry.2 };
            proof {
                let next = opcodes@.take(k as int + 1);
                assert(next.drop_last() =~= opcodes@.take(k as int));
                assert(next.last() == opcodes@[k as int]);
            }
            k += 1;
        }
        assert(opcodes@.take(opcodes.len() as int) =~= opcodes@);
    }

    /// Whether every entry of the decode table can be executed.
    pub fn decodes_well(&self) -> (r: bool)
        ensures
            r == self@.decodes_well(),
    {
        let mut opcode: usize = 0;
        while opcode < 256
            invariant
                opcode <= 256,
                forall|b: int| 0 <= b < opcode ==> (#[trigger] self.opcodes@[b]).well_formed(),
            decreases 256 - opcode,
        {
            if !self.opcodes[opcode].is_well_formed() {
                assert(!self@.opcodes[opcode as int].well_formed());
                return false;
            }
            opcode += 1;
        }
        true
    }

    /// Sets every memory cell to zero.
    pub fn clear_memory(&mut self)
        ensures
            final(self)@ == (State {
                memory: Seq::new(MEMORY_SIZE as nat, |i: int| 0u8),
                ..old(self)@
            }),
    {
        let mut i: usize = 0;
        while i < MEMORY_SIZE
            invariant
                i <= MEMORY_SIZE,
                forall|j: int| 0 <= j < i ==> self.memory@[j] == 0,
                self@ == (State { memory: self.memory@, ..old(self)@ }),
            decreases MEMORY_SIZE - i,
        {
            self.memory[i] = 0;
            i += 1;
        }
        assert(self.memory@ =~= Seq::new(MEMORY_SIZE as nat, |i: int| 0u8));
    }

    /// Resets the processor: registers zero, SP `0xFF`, PC loaded from the
    /// reset vector. Memory, decode table and devices stay as they are.
    pub fn reset(&mut self)
        ensures
            final(self)@ == old(self)@.reset(),
    {
        self.pc = 0;
        self.a = 0;
        self.x = 0;
        self.y = 0;
        self.sr = 0;
        self.sp = 0xFF;
        self.jump(Addressing::Indirect(RESET_VECTOR));
    }

    /// Whether status bit `bit`, one of 0 to 7, is set.
    pub fn get_status_bit(&self, bit: i8) -> (on: bool)
        requires
            0 <= bit < 8,
        ensures
            on == flag(self.sr, bit),
    {
        proof {
            lemma_flag_by_shift(self.sr, bit);
        }
        let shift: u8 = bit as u8;
        ((self.sr >> shift) & 1u8) == 1
    }

    /// Sets status bit `bit`, one of 0 to 7.
    pub fn set_status_bit(&mut self, bit: i8)
        requires
            0 <= bit < 8,
        ensures
            final(self)@ == old(self)@.set_flag(bit, true),
    {
        let shift: u8 = bit as u8;
        self.sr = self.sr | (1u8 << shift);
    }

    /// Clears status bit `bit`, one of 0 to 7.
    pub fn clear_status_bit(&mut self, bit: i8)
        requires
            0 <= bit < 8,
        ensures
            final(self)@ == old(self)@.set_flag(bit, false),
    {
        let shift: u8 = bit as u8;
        self.sr = self.sr & !(1u8 << shift);
    }

    /// Sets status bit `bit` if `on`, clears it otherwise.
    fn put_status_bit(&mut self, bit: i8, on: bool)
        requires
            0 <= bit < 8,
        ensures
            final(self)@ == old(self)@.set_flag(bit, on),
    {
        if on {
            self.set_status_bit(bit);
        } else {
            self.clear_status_bit(bit);
        }
    }

    /// Whether the negative flag (N) is set.
    pub fn is_negative(&self) -> (on: bool)
        ensures
            on == flag(self.sr, NEGATIVE),
    {
        self.get_status_bit(NEGATIVE)
    }

    /// Sets the negative flag (N).
    pub fn set_negative(&mut self)
        ensures
            final(self)@ == old(self)@.set_flag(NEGATIVE, true),
    {
        self.set_status_bit(NEGATIVE);
    }

    /// Clears the negative flag (N).
    pub fn clear_negative(&mut self)
        ensures
            final(self)@ == old(self)@.set_flag(NEGATIVE, false),
    {
        self.clear_status_bit(NEGATIVE);
    }

    /// Whether the overflow flag (V) is set.
    pub fn is_overflow(&self) -> (on: bool)
        ensures
            on == flag(self.sr, OVERFLOW),
    {
        self.get_status_bit(OVERFLOW)
    }

    /// Sets the overflow flag (V).
    pub fn set_overflow(&mut self)
        ensures
            final(self)@ == old(self)@.set_flag(OVERFLOW, true),
    {
        self.set_status_bit(OVERFLOW);
    }

    /// Clears the overflow flag (V).
    pub fn clear_overflow(&mut self)
        ensures
            final(self)@ == old(self)@.set_flag(OVERFLOW, false),
    {
        self.clear_status_bit(OVERFLOW);
    }

    /// Whether the unused flag (U) is set.
    pub fn is_ignored(&self) -> (on: bool)
        ensures
            on == flag(self.sr, IGNORED),
    {
        self.get_status_bit(IGNORED)
    }

    /// Sets the unused flag (U).
    pub fn set_ignored(&mut self)
        ensures
            final(self)@ == old(self)@.set_flag(IGNORED, true),
    {
        self.set_status_bit(IGNORED);
    }

    /// Clears the unused flag (U).
    pub fn clear_ignored(&mut self)
        ensures
            final(self)@ == old(self)@.set_flag(IGNORED, false),
    {
        self.clear_status_bit(IGNORED);
    }

    /// Whether the break flag (B) is set.
    pub fn is_break(&self) -> (on: bool)
        ensures
            on == flag(self.sr, BREAK),
    {
        self.get_status_bit(BREAK)
    }

    /// Sets the break flag (B).
    pub fn set_break(&mut self)
        ensures
            final(self)@ == old(self)@.set_flag(BREAK, true),
    {
        self.set_status_bit(BREAK);
    }

    /// Clears the break flag (B).
    pub fn clear_break(&mut self)
        ensures
            final(self)@ == old(self)@.set_flag(BREAK, false),
    {
        self.clear_status_bit(BREAK);
    }

    /// Whether the decimal flag (D) is set.
    pub fn is_decimal(&self) -> (on: bool)
        ensures
            on == flag(self.sr, DECIMAL),
    {
        self.get_status_bit(DECIMAL)
    }

    /// Sets the decimal flag (D).
    pub fn set_decimal(&mut self)
        ensures
            final(self)@ == old(self)@.set_flag(DECIMAL, true),
    {
        self.set_status_bit(DECIMAL);
    }

    /// Clears the decimal flag (D).
    pub fn clear_decimal(&mut self)
        ensures
            final(self)@ == old(self)@.set_flag(DECIMAL, false),
    {
        self.clear_status_bit(DECIMAL);
    }

    /// Whether the interrupt-disable flag (I) is set.
    pub fn is_irq_disabled(&self) -> (on: bool)
        ensures
            on == flag(self.sr, IRQ_DISABLED),
    {
        self.get_status_bit(IRQ_DISABLED)
    }

    /// Sets the interrupt-disable flag (I).
    pub fn set_irq_disabled(&mut self)
        ensures
            final(self)@ == old(self)@.set_flag(IRQ_DISABLED, true),
    {
        self.set_status_bit(IRQ_DISABLED);
    }

    /// Clears the interrupt-disable flag (I).
    pub fn clear_irq_disabled(&mut self)
        ensures
            final(self)@ == old(self)@.set_flag(IRQ_DISABLED, false),
    {
        self.clear_status_bit(IRQ_DISABLED);
    }

    /// Whether the zero flag (Z) is set.
    pub fn is_zero(&self) -> (on: bool)
        ensures
            on == flag(self.sr, ZERO),
    {
        self.get_status_bit(ZERO)
    }

    /// Sets the zero flag (Z).
    pub fn set_zero(&mut self)
        ensures
            final(self)@ == old(self)@.set_flag(ZERO, true),
    {
        self.set_status_bit(ZERO);
    }

    /// Clears the zero flag (Z).
    pub fn clear_zero(&mut self)
        ensures
            final(self)@ == old(self)@.set_flag(ZERO, false),
    {
        self.clear_status_bit(ZERO);
    }

    /// Whether the carry flag (C) is set.
    pub fn is_carry(&self) -> (on: bool)
        ensures
            on == flag(self.sr, CARRY),
    {
        self.get_status_bit(CARRY)
    }

    /// Sets the carry flag (C).
    pub fn set_carry(&mut self)
        ensures
            final(self)@ == old(self)@.set_flag(CARRY, true),
    {
        self.set_status_bit(CARRY);
    }

    /// Clears the carry flag (C).
    pub fn clear_carry(&mut self)
        ensures
            final(self)@ == old(self)@.set_flag(CARRY, false),
    {
        self.clear_status_bit(CARRY);
    }

    /// The zero page: the cells at `0x0000..0x0100`.
    pub fn zero_page(&self) -> (page: &[u8])
        ensures
            page@ == self@.memory.subrange(0x0000, 0x0100),
    {
        &self.memory[0x0000..0x0100]
    }

    /// The stack page: the cells at `0x0100..0x0200`.
    pub fn stack(&self) -> (page: &[u8])
        ensures
            page@ == self@.memory.subrange(0x0100, 0x0200),
    {
        &self.memory[0x0100..0x0200]
    }

    /// Pushes `v`: writes it at `0x0100 + SP`, then lowers SP by one,
    /// wrapping from `0x00` to `0xFF`.
    pub fn push(&mut self, v: u8)
        ensures
            final(self)@ == old(self)@.push(v),
            final(self).sp == (if old(self).sp == 0 { 0xFFu8 } else { (old(self).sp - 1) as u8 }),
    {
        let address: u16 = 0x0100 + self.sp as u16;
        self.set(address, v);
        self.sp = if self.sp == 0 { 0xFF } else { self.sp - 1 };
    }

    /// Pops a byte: raises SP by one, wrapping from `0xFF` to `0x00`, then
    /// reads at `0x0100 + SP`.
    pub fn pop(&mut self) -> (v: u8)
        ensures
            v == old(self)@.pop_value(),
            final(self)@ == old(self)@.after_pop(),
            final(self).sp == (if old(self).sp == 0xFF { 0u8 } else { (old(self).sp + 1) as u8 }),
    {
        self.sp = if self.sp == 0xFF { 0 } else { self.sp + 1 };
        let address: u16 = 0x0100 + self.sp as u16;
        self.get(address)
    }

    /// Lets Z tell whether `v` is zero and N repeat bit 7 of `v`.
    pub fn update_nz(&mut self, v: u8)
        ensures
            final(self)@ == old(self)@.set_nz(v),
    {
        self.put_status_bit(ZERO, v == 0);
        self.put_status_bit(NEGATIVE, v >= 0x80);
    }

    /// Jumps through `a`: PC becomes its effective address. A mode without
    /// one leaves PC alone.
    pub fn jump(&mut self, a: Addressing)
        ensures
            final(self)@ == old(self)@.jump(a),
    {
        if let Some(addr) = a.address(self) {
            self.pc = addr;
        }
    }

    /// Reads the little-endian word at `addr` and the cell after it.
    pub fn word_at(&mut self, addr: u16) -> (w: u16)
        ensures
            w == old(self)@.word_value(addr),
            final(self)@ == old(self)@.after_word(addr),
    {
        let lb: u16 = self.get(addr) as u16;
        let next: u16 = if addr == 0xFFFF { 0 } else { addr + 1 };
        let hb: u16 = self.get(next) as u16;
        hb * 0x100 + lb
    }

    /// Takes the byte at PC and moves PC past it.
    pub fn next_byte(&mut self) -> (byte: u8)
        ensures
            byte == old(self)@.next_byte_value(),
            final(self)@ == old(self)@.after_next_byte(),
    {
        let pc: u16 = self.pc;
        let byte: u8 = self.get(pc);
        self.pc = if pc == 0xFFFF { 0 } else { pc + 1 };
        byte
    }

    /// Takes the little-endian word at PC and moves PC past it.
    pub fn next_u16(&mut self) -> (w: u16)
        ensures
            w == old(self)@.next_word_value(),
            final(self)@ == old(self)@.after_next_word(),
    {
        let lb: u16 = self.next_byte() as u16;
        let hb: u16 = self.next_byte() as u16;
        hb * 0x100 + lb
    }

    /// The byte `b` read as a signed number in two's complement.
    fn to_signed(b: u8) -> (o: i8)
        ensures
            o == signed(b),
    {
        if b >= 0x80 {
            (b as i16 - 0x100) as i8
        } else {
            b as i8
        }
    }

    /// Fetches the instruction at PC: decodes the opcode byte, takes the
    /// operand bytes its addressing mode asks for, and leaves PC behind them.
    pub fn next_instruction(&mut self) -> (i: Instruction)
        ensures
            i == old(self)@.fetch_value(),
            final(self)@ == old(self)@.after_fetch(),
            final(self).pc == wrap16(old(self).pc + 1 + i.a.operand_width()),
    {
        let opcode: u8 = self.next_byte();
        let template: Instruction = self.opcodes[opcode as usize];
        let a: Addressing = match template.a {
            Addressing::Accumulator => Addressing::Accumulator,
            Addressing::Absolute(_) => Addressing::Absolute(self.next_u16()),
            Addressing::AbsoluteX(_) => Addressing::AbsoluteX(self.next_u16()),
            Addressing::AbsoluteY(_) => Addressing::AbsoluteY(self.next_u16()),
            Addressing::Immediate(_) => Addressing::Immediate(self.next_byte()),
            Addressing::Implied => Addressing::Implied,
            Addressing::Indirect(_) => Addressing::Indirect(self.next_u16()),
            Addressing::IndirectX(_) => Addressing::IndirectX(self.next_byte()),
            Addressing::IndirectY(_) => Addressing::IndirectY(self.next_byte()),
            Addressing::Relative(_) => Addressing::Relative(Self::to_signed(self.next_byte())),
            Addressing::ZeroPage(_) => Addressing::ZeroPage(self.next_byte()),
            Addressing::ZeroPageX(_) => Addressing::ZeroPageX(self.next_byte()),
            Addressing::ZeroPageY(_) => Addressing::ZeroPageY(self.next_byte()),
        };
        Instruction { t: template.t, a: a }
    }

    /// Fetches the instruction at PC and executes it. The instruction found
    /// there must be well formed, as it is wherever the decode table's
    /// entries are.
    pub fn execute_next_instruction(&mut self)
        requires
            old(self)@.fetch_value().well_formed(),
        ensures
            final(self)@ == old(self)@.step(),
    {
        let i: Instruction = self.next_instruction();
        self.execute(i);
    }

    /// Executes instruction `i`. The instruction must be well formed: a kind
    /// that reads its operand needs a mode that can be read through, a kind
    /// that writes it a mode that can be written through.
    pub fn execute(&mut self, i: Instruction)
        requires
            i.well_formed(),
        ensures
            final(self)@ == old(self)@.execute(i),
    {
        let a: Addressing = i.a;
        match i.t {
            InstructionType::Adc => {
                let m: u8 = a.get(self);
                self.add_with_carry(m);
            },
            InstructionType::And => {
                let m: u8 = a.get(self);
                self.load_a(self.a & m);
            },
            InstructionType::Asl => self.modify(i.t, a),
            InstructionType::Bcc => self.branch(!self.is_carry(), a),
            InstructionType::Bcs => self.branch(self.is_carry(), a),
            InstructionType::Beq => self.branch(self.is_zero(), a),
            InstructionType::Bit => {
                let m: u8 = a.get(self);
                self.bit_test(m);
            },
            InstructionType::Bmi => self.branch(self.is_negative(), a),
            InstructionType::Bne => self.branch(!self.is_zero(), a),
            InstructionType::Bpl => self.branch(!self.is_negative(), a),
            InstructionType::Brk => {
                self.push_return_address();
                self.set_break();
                self.push(self.sr);
                self.jump(Addressing::Indirect(IRQ_VECTOR));
            },
            InstructionType::Bvc => self.branch(!self.is_overflow(), a),
            InstructionType::Bvs => self.branch(self.is_overflow(), a),
            InstructionType::Clc => self.clear_carry(),
            InstructionType::Cld => self.clear_decimal(),
            InstructionType::Cli => self.clear_irq_disabled(),
            InstructionType::Clv => self.clear_overflow(),
            InstructionType::Cmp => {
                let m: u8 = a.get(self);
                self.compare(self.a, m);
            },
            InstructionType::Cpx => {
                let m: u8 = a.get(self);
                self.compare(self.x, m);
            },
            InstructionType::Cpy => {
                let m: u8 = a.get(self);
                self.compare(self.y, m);
            },
            InstructionType::Dec => self.modify(i.t, a),
            InstructionType::Dex => self.load_x(if self.x == 0 { 0xFF } else { self.x - 1 }),
            InstructionType::Dey => self.load_y(if self.y == 0 { 0xFF } else { self.y - 1 }),
            InstructionType::Eor => {
                let m: u8 = a.get(self);
                self.load_a(self.a ^ m);
            },
            InstructionType::Inc => self.modify(i.t, a),
            InstructionType::Inx => self.load_x(if self.x == 0xFF { 0 } else { self.x + 1 }),
            InstructionType::Iny => self.load_y(if self.y == 0xFF { 0 } else { self.y + 1 }),
            InstructionType::Jmp => self.jump(a),
            InstructionType::Jsr => {
                self.push_return_address();
                self.jump(a);
            },
            InstructionType::Lda => {
                let m: u8 = a.get(self);
                self.load_a(m);
            },
            InstructionType::Ldx => {
                let m: u8 = a.get(self);
                self.load_x(m);
            },
            InstructionType::Ldy => {
                let m: u8 = a.get(self);
                self.load_y(m);
            },
            InstructionType::Lsr => self.modify(i.t, a),
            InstructionType::Nop => {},
            InstructionType::Ora => {
                let m: u8 = a.get(self);
                self.load_a(self.a | m);
            },
            InstructionType::Pha => self.push(self.a),
            InstructionType::Php => {
                let sr: u8 = self.sr;
                self.set_break();
                self.set_ignored();
                self.push(self.sr);
                self.sr = sr;
            },
            InstructionType::Pla => {
                let v: u8 = self.pop();
                self.load_a(v);
            },
            InstructionType::Plp => {
                let ignored: bool = self.is_ignored();
                let brk: bool = self.is_break();
                self.sr = self.pop();
                self.put_status_bit(IGNORED, ignored);
                self.put_status_bit(BREAK, brk);
            },
            InstructionType::Rol => self.modify(i.t, a),
            InstructionType::Ror => self.modify(i.t, a),
            InstructionType::Rti => {
                self.sr = self.pop();
                self.pop_return_address();
            },
            InstructionType::Rts => self.pop_return_address(),
            InstructionType::Sbc => {
                let m: u8 = a.get(self);
                self.subtract_with_borrow(m);
            },
            InstructionType::Sec => self.set_carry(),
            InstructionType::Sed => self.set_decimal(),
            InstructionType::Sei => self.set_irq_disabled(),
            InstructionType::Sta => a.set(self, self.a),
            InstructionType::Stx => a.set(self, self.x),
            InstructionType::Sty => a.set(self, self.y),
            InstructionType::Tax => self.load_x(self.a),
            InstructionType::Tay => self.load_y(self.a),
            InstructionType::Tsx => self.load_x(self.sp),
            InstructionType::Txa => self.load_a(self.x),
            InstructionType::Txs => {
                self.sp = self.x;
            },
            InstructionType::Tya => self.load_a(self.y),
        }
    }

    /// Loads A with `v` and lets Z and N describe it.
    fn load_a(&mut self, v: u8)
        ensures
            final(self)@ == old(self)@.load_a(v),
    {
        self.a = v;
        self.update_nz(v);
    }

    /// Loads X with `v` and lets Z and N describe it.
    fn load_x(&mut self, v: u8)
        ensures
            final(self)@ == old(self)@.load_x(v),
    {
        self.x = v;
        self.update_nz(v);
    }

    /// Loads Y with `v` and lets Z and N describe it.
    fn load_y(&mut self, v: u8)
        ensures
            final(self)@ == old(self)@.load_y(v),
    {
        self.y = v;
        self.update_nz(v);
    }

    /// Adds `m` and the carry to A.
    fn add_with_carry(&mut self, m: u8)
        ensures
            final(self)@ == old(self)@.add_with_carry(m),
    {
        let acc: u8 = self.a;
        let carry_in: u16 = if self.is_carry() { 1 } else { 0 };
        let sum: u16 = acc as u16 + m as u16 + carry_in;
        let result: u8 = if sum > 0xFF { (sum - 0x100) as u8 } else { sum as u8 };
        let overflow: bool = ((acc ^ result) & (m ^ result) & 0x80) != 0;
        self.a = result;
        self.put_status_bit(CARRY, sum > 0xFF);
        self.put_status_bit(OVERFLOW, overflow);
        self.update_nz(result);
    }

    /// Subtracts `m` and the borrow from A.
    fn subtract_with_borrow(&mut self, m: u8)
        ensures
            final(self)@ == old(self)@.subtract_with_borrow(m),
    {
        let acc: u8 = self.a;
        let borrow: i16 = if self.is_carry() { 0 } else { 1 };
        let difference: i16 = acc as i16 - m as i16 - borrow;
        let result: u8 = if difference < 0 { (difference + 0x100) as u8 } else { difference as u8 };
        let overflow: bool = ((acc ^ result) & ((255 - m) ^ result) & 0x80) != 0;
        self.a = result;
        self.put_status_bit(CARRY, difference >= 0);
        self.put_status_bit(OVERFLOW, overflow);
        self.update_nz(result);
    }

    /// Compares `register` with `m`.
    fn compare(&mut self, register: u8, m: u8)
        ensures
            final(self)@ == old(self)@.compare(register, m),
    {
        let result: u8 = if register >= m {
            register - m
        } else {
            (0x100 - (m - register) as u16) as u8
        };
        self.put_status_bit(CARRY, register >= m);
        self.update_nz(result);
    }

    /// Tests the bits of `m` against A.
    fn bit_test(&mut self, m: u8)
        ensures
            final(self)@ == old(self)@.bit_test(m),
    {
        let shared: u8 = m & self.a;
        self.put_status_bit(NEGATIVE, m & 0x80 != 0);
        self.put_status_bit(OVERFLOW, m & 0x40 != 0);
        self.put_status_bit(ZERO, shared == 0);
    }

    /// What a shift, rotate, increment or decrement makes of `v`.
    fn modified_value(kind: InstructionType, v: u8, carry: bool) -> (r: u8)
        ensures
            r == State::modified_value(kind, v, carry),
    {
        match kind {
            InstructionType::Asl => if v >= 0x80 { (v - 0x80) * 2 } else { v * 2 },
            InstructionType::Lsr => v / 2,
            InstructionType::Rol => {
                let doubled: u8 = if v >= 0x80 { (v - 0x80) * 2 } else { v * 2 };
                if carry { doubled + 1 } else { doubled }
            },
            InstructionType::Ror => if carry { v / 2 + 0x80 } else { v / 2 },
            InstructionType::Inc => if v == 0xFF { 0 } else { v + 1 },
            InstructionType::Dec => if v == 0 { 0xFF } else { v - 1 },
            _ => v,
        }
    }

    /// Reads the operand of `mode`, changes it as `kind` says, and writes it
    /// back where it came from.
    fn modify(&mut self, kind: InstructionType, mode: Addressing)
        requires
            mode.storable(),
        ensures
            final(self)@ == old(self)@.modify(kind, mode),
    {
        let carry: bool = self.is_carry();
        let value: u8;
        let result: u8;
        match mode {
            Addressing::Accumulator => {
                value = self.a;
                result = Self::modified_value(kind, value, carry);
                self.a = result;
            },
            _ => match mode.address(self) {
                Some(addr) => {
                    value = self.get(addr);
                    result = Self::modified_value(kind, value, carry);
                    self.set(addr, result);
                },
                None => {
                    value = unreached();
                    result = value;
                },
            },
        }
        match kind {
            InstructionType::Asl | InstructionType::Rol => {
                self.put_status_bit(CARRY, value >= 0x80);
            },
            InstructionType::Lsr | InstructionType::Ror => {
                self.put_status_bit(CARRY, value % 2 == 1);
            },
            _ => {},
        }
        self.update_nz(result);
    }

    /// Jumps through `mode` if `taken`.
    fn branch(&mut self, taken: bool, mode: Addressing)
        ensures
            final(self)@ == old(self)@.branch(taken, mode),
    {
        if taken {
            self.jump(mode);
        }
    }

    /// Pushes the address of the byte before PC, high byte first.
    fn push_return_address(&mut self)
        ensures
            final(self)@ == old(self)@.push_return_address(),
    {
        let ret: u16 = if self.pc == 0 { 0xFFFF } else { self.pc - 1 };
        self.push((ret / 0x100) as u8);
        self.push((ret % 0x100) as u8);
    }

    /// Pops a return address, low byte first, and sets PC to the address
    /// after it.
    fn pop_return_address(&mut self)
        ensures
            final(self)@ == old(self)@.pop_return_address(),
    {
        let pcl: u16 = self.pop() as u16;
        let pch: u16 = self.pop() as u16;
        let ret: u16 = pch * 0x100 + pcl;
        self.pc = if ret == 0xFFFF { 0 } else { ret + 1 };
    }

    /// Executes instructions until the break flag is set, or until
    /// `max_steps` of them were executed. A processor whose break flag is
    /// set executes nothing. Tells whether the break flag is set at the end.
    /// Every entry of the decode table must be well formed.
    pub fn run(&mut self, max_steps: u64) -> (halted: bool)
        requires
            old(self)@.decodes_well(),
        ensures
            final(self)@ == old(self)@.run(max_steps as nat),
            halted == final(self)@.halted(),
    {
        let mut steps: u64 = 0;
        while steps < max_steps && !self.is_break()
            invariant
                steps <= max_steps,
                self@.decodes_well(),
                self@.run((max_steps - steps) as nat) == old(self)@.run(max_steps as nat),
            decreases max_steps - steps,
        {
            proof {
                self@.lemma_decoded_is_well_formed();
                self@.lemma_step_keeps_table();
            }
            self.execute_next_instruction();
            steps += 1;
        }
        self.is_break()
    }
}

} // verus!
