//! The mathematical model of the processor: its state as plain values, and
//! what every bus access, addressing mode and instruction does to it.

use vstd::prelude::*;
use crate::addressing::Addressing;
use crate::device::TerminalState;
use crate::device::Xorshift;
use crate::instruction::Instruction;
use crate::instruction::InstructionType;
use crate::status::{flag, with_flag, with_nz};
use crate::status::{BREAK, CARRY, DECIMAL, IGNORED, IRQ_DISABLED, NEGATIVE, OVERFLOW, ZERO};

verus! {

/// Number of cells in the address space.
pub const MEMORY_SIZE: usize = 0x10000;

/// Where `Brk` finds the address it jumps to.
pub const IRQ_VECTOR: u16 = 0xFFFE;

/// Where a reset finds the address it jumps to.
pub const RESET_VECTOR: u16 = 0xFFFC;

/// Reads here take the next input byte from the terminal.
pub const TERMINAL_DATA: u16 = 0x00FD;

/// Reads here tell how many bytes the latest read of the terminal returned.
pub const TERMINAL_COUNT: u16 = 0x00FE;

/// Reads here take the next pseudo-random byte.
pub const RANDOM: u16 = 0x00FF;

/// Whether a device, not a memory cell, answers at `address`.
pub open spec fn is_device(address: u16) -> bool {
    address == TERMINAL_DATA || address == TERMINAL_COUNT || address == RANDOM
}

/// `i` reduced to eight bits.
pub open spec fn wrap8(i: int) -> u8 {
    (i % 0x100) as u8
}

/// `i` reduced to sixteen bits.
pub open spec fn wrap16(i: int) -> u16 {
    (i % 0x10000) as u16
}

/// The 16-bit word with low byte `lo` and high byte `hi`.
pub open spec fn word(lo: u8, hi: u8) -> u16 {
    (hi * 0x100 + lo) as u16
}

/// The low byte of `w`.
pub open spec fn low_byte(w: u16) -> u8 {
    (w % 0x100) as u8
}

/// The high byte of `w`.
pub open spec fn high_byte(w: u16) -> u8 {
    (w / 0x100) as u8
}

/// The byte `b` read as a signed number in two's complement.
pub open spec fn signed(b: u8) -> i8 {
    if b >= 0x80 {
        (b - 0x100) as i8
    } else {
        b as i8
    }
}

/// Everything the processor holds: registers, memory, decode table, devices.
pub struct State {
    pub pc: u16,
    pub a: u8,
    pub x: u8,
    pub y: u8,
    pub sr: u8,
    pub sp: u8,
    pub memory: Seq<u8>,
    pub opcodes: Seq<Instruction>,
    pub rand: Xorshift,
    pub terminal: TerminalState,
}

impl State {
    // ----- the bus -----

    /// The byte that a read at `address` returns.
    pub open spec fn read_value(self, address: u16) -> u8 {
        if address == TERMINAL_DATA {
            self.terminal.read_value(0)
        } else if address == TERMINAL_COUNT {
            self.terminal.read_value(1)
        } else if address == RANDOM {
            self.rand.output() as u8
        } else {
            self.memory[address as int]
        }
    }

    /// The state after a read at `address`: only a device changes by being read.
    pub open spec fn after_read(self, address: u16) -> State {
        if address == TERMINAL_DATA {
            State { terminal: self.terminal.after_read(0), ..self }
        } else if address == TERMINAL_COUNT {
            State { terminal: self.terminal.after_read(1), ..self }
        } else if address == RANDOM {
            State { rand: self.rand.advance(), ..self }
        } else {
            self
        }
    }

    /// The state after `value` is written at `address`: devices ignore writes.
    pub open spec fn write(self, address: u16, value: u8) -> State {
        if is_device(address) {
            self
        } else {
            State { memory: self.memory.update(address as int, value), ..self }
        }
    }

    /// The state after each of `writes`, an address and a value, was written
    /// in order.
    pub open spec fn write_all(self, writes: Seq<(u16, u8)>) -> State
        decreases writes.len(),
    {
        if writes.len() == 0 {
            self
        } else {
            self.write_all(writes.drop_last()).write(writes.last().0, writes.last().1)
        }
    }

    /// The little-endian word read at `address` and the cell after it.
    pub open spec fn word_value(self, address: u16) -> u16 {
        word(
            self.read_value(address),
            self.after_read(address).read_value(wrap16(address + 1)),
        )
    }

    /// The state after the two reads of [`State::word_value`].
    pub open spec fn after_word(self, address: u16) -> State {
        self.after_read(address).after_read(wrap16(address + 1))
    }

    // ----- flags -----

    /// The state with status bit `bit` set or cleared.
    pub open spec fn set_flag(self, bit: i8, on: bool) -> State {
        State { sr: with_flag(self.sr, bit, on), ..self }
    }

    /// The state with Z and N describing `value`.
    pub open spec fn set_nz(self, value: u8) -> State {
        State { sr: with_nz(self.sr, value), ..self }
    }

    // ----- the stack -----

    /// The state after `value` is pushed: written at `0x0100 + SP`, then SP
    /// one lower, wrapping within the page.
    pub open spec fn push(self, value: u8) -> State {
        State {
            memory: self.memory.update(0x0100 + self.sp, value),
            sp: wrap8(self.sp - 1),
            ..self
        }
    }

    /// The byte that a pop returns: the one at `0x0100 + (SP + 1)`.
    pub open spec fn pop_value(self) -> u8 {
        self.memory[0x0100 + wrap8(self.sp + 1)]
    }

    /// The state after a pop: SP one higher, wrapping within the page.
    pub open spec fn after_pop(self) -> State {
        State { sp: wrap8(self.sp + 1), ..self }
    }

    // ----- addressing -----

    /// The effective address of `mode`, where it has one.
    pub open spec fn address_value(self, mode: Addressing) -> Option<u16> {
        match mode {
            Addressing::Accumulator => None,
            Addressing::Absolute(address) => Some(address),
            Addressing::AbsoluteX(address) => Some(wrap16(address + self.x)),
            Addressing::AbsoluteY(address) => Some(wrap16(address + self.y)),
            Addressing::Immediate(_) => None,
            Addressing::Implied => None,
            Addressing::Indirect(address) => Some(self.word_value(address)),
            Addressing::IndirectX(zp) => Some(self.word_value(wrap8(zp + self.x) as u16)),
            Addressing::IndirectY(zp) => Some(wrap16(self.word_value(zp as u16) + self.y)),
            Addressing::Relative(offset) => Some(wrap16(self.pc + offset)),
            Addressing::ZeroPage(zp) => Some(zp as u16),
            Addressing::ZeroPageX(zp) => Some(wrap8(zp + self.x) as u16),
            Addressing::ZeroPageY(zp) => Some(wrap8(zp + self.y) as u16),
        }
    }

    /// The state after the effective address of `mode` was worked out: the
    /// indirect modes read their pointer from the bus.
    pub open spec fn after_address(self, mode: Addressing) -> State {
        match mode {
            Addressing::Indirect(address) => self.after_word(address),
            Addressing::IndirectX(zp) => self.after_word(wrap8(zp + self.x) as u16),
            Addressing::IndirectY(zp) => self.after_word(zp as u16),
            _ => self,
        }
    }

    /// The value read through `mode`.
    pub open spec fn load_value(self, mode: Addressing) -> u8
        recommends
            mode.loadable(),
    {
        match mode {
            Addressing::Accumulator => self.a,
            Addressing::Immediate(value) => value,
            _ => match self.address_value(mode) {
                Some(address) => self.after_address(mode).read_value(address),
                None => 0,
            },
        }
    }

    /// The state after a read through `mode`.
    pub open spec fn after_load(self, mode: Addressing) -> State
        recommends
            mode.loadable(),
    {
        match self.address_value(mode) {
            Some(address) => self.after_address(mode).after_read(address),
            None => self,
        }
    }

    /// The state after `value` is written through `mode`.
    pub open spec fn store(self, mode: Addressing, value: u8) -> State
        recommends
            mode.storable(),
    {
        match mode {
            Addressing::Accumulator => State { a: value, ..self },
            _ => match self.address_value(mode) {
                Some(address) => self.after_address(mode).write(address, value),
                None => self,
            },
        }
    }

    /// The state after a jump through `mode`: PC is its effective address;
    /// a mode without one leaves PC alone.
    pub open spec fn jump(self, mode: Addressing) -> State {
        match self.address_value(mode) {
            Some(address) => State { pc: address, ..self.after_address(mode) },
            None => self,
        }
    }

    // ----- arithmetic and logic -----

    /// A := `value`, with Z and N describing it.
    pub open spec fn load_a(self, value: u8) -> State {
        State { a: value, sr: with_nz(self.sr, value), ..self }
    }

    /// X := `value`, with Z and N describing it.
    pub open spec fn load_x(self, value: u8) -> State {
        State { x: value, sr: with_nz(self.sr, value), ..self }
    }

    /// Y := `value`, with Z and N describing it.
    pub open spec fn load_y(self, value: u8) -> State {
        State { y: value, sr: with_nz(self.sr, value), ..self }
    }

    /// A := A + `m` + C in binary. C is the carry out of bit 7; V tells that
    /// both operands differ in sign from the result; Z and N describe A.
    pub open spec fn add_with_carry(self, m: u8) -> State {
        let sum: int = self.a + m + (if flag(self.sr, CARRY) { 1int } else { 0int });
        let r: u8 = wrap8(sum);
        let overflow: bool = (self.a ^ r) & (m ^ r) & 0x80 != 0;
        State {
            a: r,
            sr: with_nz(with_flag(with_flag(self.sr, CARRY, sum > 0xFF), OVERFLOW, overflow), r),
            ..self
        }
    }

    /// A := A - `m` - (1 - C) in binary. C tells that no borrow was needed; V
    /// is worked out as for adding the complement of `m`; Z and N describe A.
    pub open spec fn subtract_with_borrow(self, m: u8) -> State {
        let borrow: int = if flag(self.sr, CARRY) { 0int } else { 1int };
        let r: u8 = wrap8(self.a - m - borrow);
        let overflow: bool = (self.a ^ r) & (((255 - m) as u8) ^ r) & 0x80 != 0;
        State {
            a: r,
            sr: with_nz(
                with_flag(with_flag(self.sr, CARRY, self.a >= m + borrow), OVERFLOW, overflow),
                r,
            ),
            ..self
        }
    }

    /// The flags after `register` is compared with `m`: C tells that
    /// `register >= m`; Z and N describe the difference in eight bits.
    pub open spec fn compare(self, register: u8, m: u8) -> State {
        State {
            sr: with_nz(with_flag(self.sr, CARRY, register >= m), wrap8(register - m)),
            ..self
        }
    }

    /// The flags after a bit test of `m`: N and V are bits 7 and 6 of `m`,
    /// Z tells that A and `m` share no bit.
    pub open spec fn bit_test(self, m: u8) -> State {
        State {
            sr: with_flag(
                with_flag(with_flag(self.sr, NEGATIVE, m & 0x80 != 0), OVERFLOW, m & 0x40 != 0),
                ZERO,
                m & self.a == 0,
            ),
            ..self
        }
    }

    /// What a shift, rotate, increment or decrement makes of `v`, with carry
    /// `carry` coming in.
    pub open spec fn modified_value(kind: InstructionType, v: u8, carry: bool) -> u8 {
        match kind {
            InstructionType::Asl => wrap8(v * 2),
            InstructionType::Lsr => (v / 2) as u8,
            InstructionType::Rol => wrap8(v * 2 + (if carry { 1int } else { 0int })),
            InstructionType::Ror => (v / 2 + (if carry { 0x80int } else { 0int })) as u8,
            InstructionType::Inc => wrap8(v + 1),
            InstructionType::Dec => wrap8(v - 1),
            _ => v,
        }
    }

    /// The flags after a shift, rotate, increment or decrement turned `v`
    /// into `r`: the shifts and rotates put the bit that fell out into C;
    /// all of them let Z and N describe `r`.
    pub open spec fn modified_flags(sr: u8, kind: InstructionType, v: u8, r: u8) -> u8 {
        match kind {
            InstructionType::Asl | InstructionType::Rol => with_nz(
                with_flag(sr, CARRY, v >= 0x80),
                r,
            ),
            InstructionType::Lsr | InstructionType::Ror => with_nz(
                with_flag(sr, CARRY, v % 2 == 1),
                r,
            ),
            _ => with_nz(sr, r),
        }
    }

    /// The state after a read-modify-write of kind `kind` through `mode`: the
    /// operand is read, changed, and written back to the place it came from.
    pub open spec fn modify(self, kind: InstructionType, mode: Addressing) -> State
        recommends
            mode.storable(),
    {
        let v: u8 = self.load_value(mode);
        let r: u8 = State::modified_value(kind, v, flag(self.sr, CARRY));
        let read: State = self.after_load(mode);
        let written: State = match mode {
            Addressing::Accumulator => State { a: r, ..read },
            _ => match self.address_value(mode) {
                Some(address) => read.write(address, r),
                None => read,
            },
        };
        State { sr: State::modified_flags(written.sr, kind, v, r), ..written }
    }

    // ----- control flow -----

    /// The state after a branch: a jump through `mode` if `taken`.
    pub open spec fn branch(self, taken: bool, mode: Addressing) -> State {
        if taken {
            self.jump(mode)
        } else {
            self
        }
    }

    /// The state after the address of the byte before PC is pushed, high
    /// byte first.
    pub open spec fn push_return_address(self) -> State {
        let ret: u16 = wrap16(self.pc - 1);
        self.push(high_byte(ret)).push(low_byte(ret))
    }

    /// The state after a return address is popped, low byte first, and PC
    /// set to the address after it.
    pub open spec fn pop_return_address(self) -> State {
        let lo: u8 = self.pop_value();
        let hi: u8 = self.after_pop().pop_value();
        State { pc: wrap16(word(lo, hi) + 1), ..self.after_pop().after_pop() }
    }

    /// The state after `Brk`: return address pushed, B set, SR pushed, PC
    /// loaded from the interrupt vector.
    pub open spec fn interrupt(self) -> State {
        let flagged: State = self.push_return_address().set_flag(BREAK, true);
        flagged.push(flagged.sr).jump(Addressing::Indirect(IRQ_VECTOR))
    }

    /// The state after `Php`: SR is pushed with B and U set in the pushed byte.
    pub open spec fn push_status(self) -> State {
        self.push(with_flag(with_flag(self.sr, BREAK, true), IGNORED, true))
    }

    /// The state after `Plp`: SR is popped, but keeps its own B and U.
    pub open spec fn pull_status(self) -> State {
        State {
            sr: with_flag(
                with_flag(self.pop_value(), IGNORED, flag(self.sr, IGNORED)),
                BREAK,
                flag(self.sr, BREAK),
            ),
            ..self.after_pop()
        }
    }

    // ----- instructions -----

    /// The state after instruction `i` is executed.
    pub open spec fn execute(self, i: Instruction) -> State
        recommends
            i.well_formed(),
    {
        let m: u8 = self.load_value(i.a);
        let loaded: State = self.after_load(i.a);
        match i.t {
            InstructionType::Adc => loaded.add_with_carry(m),
            InstructionType::And => loaded.load_a(loaded.a & m),
            InstructionType::Asl => self.modify(i.t, i.a),
            InstructionType::Bcc => self.branch(!flag(self.sr, CARRY), i.a),
            InstructionType::Bcs => self.branch(flag(self.sr, CARRY), i.a),
            InstructionType::Beq => self.branch(flag(self.sr, ZERO), i.a),
            InstructionType::Bit => loaded.bit_test(m),
            InstructionType::Bmi => self.branch(flag(self.sr, NEGATIVE), i.a),
            InstructionType::Bne => self.branch(!flag(self.sr, ZERO), i.a),
            InstructionType::Bpl => self.branch(!flag(self.sr, NEGATIVE), i.a),
            InstructionType::Brk => self.interrupt(),
            InstructionType::Bvc => self.branch(!flag(self.sr, OVERFLOW), i.a),
            InstructionType::Bvs => self.branch(flag(self.sr, OVERFLOW), i.a),
            InstructionType::Clc => self.set_flag(CARRY, false),
            InstructionType::Cld => self.set_flag(DECIMAL, false),
            InstructionType::Cli => self.set_flag(IRQ_DISABLED, false),
            InstructionType::Clv => self.set_flag(OVERFLOW, false),
            InstructionType::Cmp => loaded.compare(loaded.a, m),
            InstructionType::Cpx => loaded.compare(loaded.x, m),
            InstructionType::Cpy => loaded.compare(loaded.y, m),
            InstructionType::Dec => self.modify(i.t, i.a),
            InstructionType::Dex => self.load_x(wrap8(self.x - 1)),
            InstructionType::Dey => self.load_y(wrap8(self.y - 1)),
            InstructionType::Eor => loaded.load_a(loaded.a ^ m),
            InstructionType::Inc => self.modify(i.t, i.a),
            InstructionType::Inx => self.load_x(wrap8(self.x + 1)),
            InstructionType::Iny => self.load_y(wrap8(self.y + 1)),
            InstructionType::Jmp => self.jump(i.a),
            InstructionType::Jsr => self.push_return_address().jump(i.a),
            InstructionType::Lda => loaded.load_a(m),
            InstructionType::Ldx => loaded.load_x(m),
            InstructionType::Ldy => loaded.load_y(m),
            InstructionType::Lsr => self.modify(i.t, i.a),
            InstructionType::Nop => self,
            InstructionType::Ora => loaded.load_a(loaded.a | m),
            InstructionType::Pha => self.push(self.a),
            InstructionType::Php => self.push_status(),
            InstructionType::Pla => self.after_pop().load_a(self.pop_value()),
            InstructionType::Plp => self.pull_status(),
            InstructionType::Rol => self.modify(i.t, i.a),
            InstructionType::Ror => self.modify(i.t, i.a),
            InstructionType::Rti => State { sr: self.pop_value(), ..self.after_pop() }
                .pop_return_address(),
            InstructionType::Rts => self.pop_return_address(),
            InstructionType::Sbc => loaded.subtract_with_borrow(m),
            InstructionType::Sec => self.set_flag(CARRY, true),
            InstructionType::Sed => self.set_flag(DECIMAL, true),
            InstructionType::Sei => self.set_flag(IRQ_DISABLED, true),
            InstructionType::Sta => self.store(i.a, self.a),
            InstructionType::Stx => self.store(i.a, self.x),
            InstructionType::Sty => self.store(i.a, self.y),
            InstructionType::Tax => self.load_x(self.a),
            InstructionType::Tay => self.load_y(self.a),
            InstructionType::Tsx => self.load_x(self.sp),
            InstructionType::Txa => self.load_a(self.x),
            InstructionType::Txs => State { sp: self.x, ..self },
            InstructionType::Tya => self.load_a(self.y),
        }
    }

    // ----- fetch -----

    /// The byte at PC.
    pub open spec fn next_byte_value(self) -> u8 {
        self.read_value(self.pc)
    }

    /// The state after the byte at PC was taken: PC one higher, wrapping.
    pub open spec fn after_next_byte(self) -> State {
        State { pc: wrap16(self.pc + 1), ..self.after_read(self.pc) }
    }

    /// The little-endian word at PC.
    pub open spec fn next_word_value(self) -> u16 {
        word(self.next_byte_value(), self.after_next_byte().next_byte_value())
    }

    /// The state after the word at PC was taken: PC two higher, wrapping.
    pub open spec fn after_next_word(self) -> State {
        self.after_next_byte().after_next_byte()
    }

    /// The addressing mode of `template` with its operand taken from PC.
    pub open spec fn operand(self, template: Addressing) -> Addressing {
        match template {
            Addressing::Accumulator => Addressing::Accumulator,
            Addressing::Absolute(_) => Addressing::Absolute(self.next_word_value()),
            Addressing::AbsoluteX(_) => Addressing::AbsoluteX(self.next_word_value()),
            Addressing::AbsoluteY(_) => Addressing::AbsoluteY(self.next_word_value()),
            Addressing::Immediate(_) => Addressing::Immediate(self.next_byte_value()),
            Addressing::Implied => Addressing::Implied,
            Addressing::Indirect(_) => Addressing::Indirect(self.next_word_value()),
            Addressing::IndirectX(_) => Addressing::IndirectX(self.next_byte_value()),
            Addressing::IndirectY(_) => Addressing::IndirectY(self.next_byte_value()),
            Addressing::Relative(_) => Addressing::Relative(signed(self.next_byte_value())),
            Addressing::ZeroPage(_) => Addressing::ZeroPage(self.next_byte_value()),
            Addressing::ZeroPageX(_) => Addressing::ZeroPageX(self.next_byte_value()),
            Addressing::ZeroPageY(_) => Addressing::ZeroPageY(self.next_byte_value()),
        }
    }

    /// The state after the operand of `template` was taken from PC.
    pub open spec fn after_operand(self, template: Addressing) -> State {
        if template.operand_width() == 0 {
            self
        } else if template.operand_width() == 1 {
            self.after_next_byte()
        } else {
            self.after_next_word()
        }
    }

    /// The instruction at PC: the decode table's entry for the opcode byte,
    /// with the operand that follows it.
    pub open spec fn fetch_value(self) -> Instruction {
        let template: Instruction = self.opcodes[self.next_byte_value() as int];
        Instruction { t: template.t, a: self.after_next_byte().operand(template.a) }
    }

    /// The state after the instruction at PC was fetched.
    pub open spec fn after_fetch(self) -> State {
        let template: Instruction = self.opcodes[self.next_byte_value() as int];
        self.after_next_byte().after_operand(template.a)
    }

    /// The state after the instruction at PC was fetched and executed.
    pub open spec fn step(self) -> State {
        self.after_fetch().execute(self.fetch_value())
    }

    /// Whether the processor has halted: the break flag is set.
    pub open spec fn halted(self) -> bool {
        flag(self.sr, BREAK)
    }

    /// The state after instructions were executed until the processor
    /// halted, or until `steps` of them were.
    pub open spec fn run(self, steps: nat) -> State
        decreases steps,
    {
        if steps == 0 || self.halted() {
            self
        } else {
            self.step().run((steps - 1) as nat)
        }
    }

    // ----- lifecycle -----

    /// Whether the state has a full address space and a full decode table.
    pub open spec fn well_formed(self) -> bool {
        self.memory.len() == MEMORY_SIZE && self.opcodes.len() == 256
    }

    /// Whether every entry of the decode table can be executed.
    pub open spec fn decodes_well(self) -> bool {
        forall|opcode: int| 0 <= opcode < 256 ==> (#[trigger] self.opcodes[opcode]).well_formed()
    }

    /// The state after a reset: registers zero, SP `0xFF`, PC loaded from
    /// the reset vector; memory, decode table and devices as they were.
    pub open spec fn reset(self) -> State {
        State { pc: 0, a: 0, x: 0, y: 0, sr: 0, sp: 0xFF, ..self }.jump(
            Addressing::Indirect(RESET_VECTOR),
        )
    }

    /// The state of a processor just built: memory zero, decode table
    /// `opcodes`, random number generator `rand`, no input waiting, reset.
    pub open spec fn power_on(opcodes: Seq<Instruction>, rand: Xorshift) -> State {
        State {
            pc: 0,
            a: 0,
            x: 0,
            y: 0,
            sr: 0,
            sp: 0xFF,
            memory: Seq::new(MEMORY_SIZE as nat, |i: int| 0u8),
            opcodes: opcodes,
            rand: rand,
            terminal: TerminalState::idle(),
        }
    }

    // ----- what the decode table promises -----

    /// Taking an operand keeps the variant of the template, so the fetched
    /// instruction is well formed where the table's entries are.
    pub proof fn lemma_decoded_is_well_formed(self)
        requires
            self.opcodes.len() == 256,
            self.decodes_well(),
        ensures
            self.fetch_value().well_formed(),
    {
        let template = self.opcodes[self.next_byte_value() as int];
        assert(template.well_formed());
    }

    /// No access through an addressing mode changes the decode table.
    pub proof fn lemma_access_keeps_table(self, mode: Addressing, value: u8)
        ensures
            self.after_address(mode).opcodes == self.opcodes,
            self.after_load(mode).opcodes == self.opcodes,
            self.store(mode, value).opcodes == self.opcodes,
            self.jump(mode).opcodes == self.opcodes,
    {
    }

    /// No instruction changes the decode table.
    pub proof fn lemma_execute_keeps_table(self, i: Instruction)
        ensures
            self.execute(i).opcodes == self.opcodes,
    {
        let m = self.load_value(i.a);
        let loaded = self.after_load(i.a);
        self.lemma_access_keeps_table(i.a, self.a);
        self.lemma_access_keeps_table(i.a, self.x);
        self.lemma_access_keeps_table(i.a, self.y);
        if i.t.modifies_operand() {
            let r = State::modified_value(i.t, m, flag(self.sr, CARRY));
            assert(self.modify(i.t, i.a).opcodes == self.opcodes);
        } else if i.t is Brk {
            let flagged = self.push_return_address().set_flag(BREAK, true);
            flagged.push(flagged.sr).lemma_access_keeps_table(Addressing::Indirect(IRQ_VECTOR), 0);
        } else if i.t is Jsr {
            self.push_return_address().lemma_access_keeps_table(i.a, 0);
        } else if i.t is Rti || i.t is Rts || i.t is Plp || i.t is Pla || i.t is Php || i.t is Pha {
        } else if i.t.reads_operand() {
            assert(loaded.opcodes == self.opcodes);
        } else {
        }
    }

    /// Fetching and executing an instruction leaves the decode table as it was.
    pub proof fn lemma_step_keeps_table(self)
        ensures
            self.step().opcodes == self.opcodes,
    {
        self.after_fetch().lemma_execute_keeps_table(self.fetch_value());
    }
}

} // verus!
