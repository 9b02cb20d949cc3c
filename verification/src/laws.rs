//! Laws of the instruction set: what holds of every state, proved from the
//! model.

use vstd::prelude::*;
use crate::addressing::Addressing;
use crate::instruction::Instruction;
use crate::instruction::InstructionType;
use crate::state::{is_device, wrap8, wrap16, State, IRQ_VECTOR};
use crate::status::{flag, with_flag, with_nz, lemma_flag_of_with_flag};
use crate::status::{CARRY, ZERO, IRQ_DISABLED, DECIMAL, BREAK, IGNORED, OVERFLOW, NEGATIVE};

verus! {

/// Whether Z and N in `sr` describe `value`: Z tells that it is zero, N
/// repeats its bit 7.
pub open spec fn describes(sr: u8, value: u8) -> bool {
    flag(sr, ZERO) == (value == 0) && flag(sr, NEGATIVE) == (value >= 0x80)
}

/// After Z and N were set for `value` they describe it, and no other flag
/// has changed.
pub proof fn lemma_with_nz(sr: u8, value: u8)
    ensures
        describes(with_nz(sr, value), value),
        forall|bit: i8|
            0 <= bit < 8 && bit != ZERO && bit != NEGATIVE ==> flag(with_nz(sr, value), bit)
                == flag(sr, bit),
{
    let z = with_flag(sr, ZERO, value == 0);
    lemma_flag_of_with_flag(sr, ZERO, value == 0, ZERO);
    lemma_flag_of_with_flag(z, NEGATIVE, value >= 0x80, ZERO);
    lemma_flag_of_with_flag(z, NEGATIVE, value >= 0x80, NEGATIVE);
    assert forall|bit: i8| 0 <= bit < 8 && bit != ZERO && bit != NEGATIVE implies flag(
        with_nz(sr, value),
        bit,
    ) == flag(sr, bit) by {
        lemma_flag_of_with_flag(sr, ZERO, value == 0, bit);
        lemma_flag_of_with_flag(z, NEGATIVE, value >= 0x80, bit);
    }
}

/// A push lowers SP by one and a pop raises it by one, both modulo 256; a
/// pop right after a push returns the pushed byte and restores SP.
pub proof fn lemma_push_pop(s: State, value: u8)
    requires
        s.well_formed(),
    ensures
        s.push(value).sp == (if s.sp == 0 { 0xFFu8 } else { (s.sp - 1) as u8 }),
        s.after_pop().sp == (if s.sp == 0xFF { 0u8 } else { (s.sp + 1) as u8 }),
        s.push(value).pop_value() == value,
        s.push(value).after_pop().sp == s.sp,
{
}

/// No access through an addressing mode changes a register or the flags,
/// but a store through the accumulator, which changes A alone.
pub proof fn lemma_access_keeps_registers(s: State, mode: Addressing, value: u8)
    ensures
        ({
            let t = s.after_load(mode);
            t.a == s.a && t.x == s.x && t.y == s.y && t.sr == s.sr && t.sp == s.sp && t.pc == s.pc
        }),
        ({
            let t = s.store(mode, value);
            t.x == s.x && t.y == s.y && t.sr == s.sr && t.sp == s.sp && t.pc == s.pc
        }),
        ({
            let t = s.jump(mode);
            t.a == s.a && t.x == s.x && t.y == s.y && t.sr == s.sr && t.sp == s.sp
        }),
{
}

/// Z and N after an instruction. Where the instruction's description sets
/// them, they describe its result: the register it loaded, the value it
/// wrote back, or the difference it compared. Every other instruction
/// leaves both as they were, but `Bit`, `Plp` and `Rti`, which write the
/// flags by rules of their own.
pub proof fn lemma_zero_negative_follow_result(s: State, i: Instruction)
    ensures
        ({
            let t = s.execute(i);
            let m = s.load_value(i.a);
            &&& i.t.result_in_a() ==> describes(t.sr, t.a)
            &&& i.t.result_in_x() ==> describes(t.sr, t.x)
            &&& i.t.result_in_y() ==> describes(t.sr, t.y)
            &&& i.t.modifies_operand() ==> describes(
                t.sr,
                State::modified_value(i.t, m, flag(s.sr, CARRY)),
            )
            &&& i.t is Cmp ==> describes(t.sr, wrap8(s.a - m))
            &&& i.t is Cpx ==> describes(t.sr, wrap8(s.x - m))
            &&& i.t is Cpy ==> describes(t.sr, wrap8(s.y - m))
            &&& !i.t.defines_zero_negative() && !i.t.rewrites_status() ==> flag(t.sr, ZERO)
                == flag(s.sr, ZERO) && flag(t.sr, NEGATIVE) == flag(s.sr, NEGATIVE)
        }),
{
    let t = s.execute(i);
    let m = s.load_value(i.a);
    let loaded = s.after_load(i.a);
    lemma_access_keeps_registers(s, i.a, s.a);
    lemma_access_keeps_registers(s, i.a, s.x);
    lemma_access_keeps_registers(s, i.a, s.y);
    if i.t.modifies_operand() {
        let r = State::modified_value(i.t, m, flag(s.sr, CARRY));
        lemma_with_nz(s.sr, r);
        lemma_with_nz(with_flag(s.sr, CARRY, m >= 0x80), r);
        lemma_with_nz(with_flag(s.sr, CARRY, m % 2 == 1), r);
    } else if i.t.compares() {
        let register = if i.t is Cmp { s.a } else if i.t is Cpx { s.x } else { s.y };
        lemma_with_nz(with_flag(s.sr, CARRY, register >= m), wrap8(register - m));
    } else if i.t.defines_zero_negative() {
        lemma_with_nz(s.sr, t.a);
        lemma_with_nz(s.sr, t.x);
        lemma_with_nz(s.sr, t.y);
        if i.t is Adc {
            let sum: int = s.a + m + (if flag(s.sr, CARRY) { 1int } else { 0int });
            let r = wrap8(sum);
            let v = (s.a ^ r) & (m ^ r) & 0x80 != 0;
            lemma_with_nz(with_flag(with_flag(s.sr, CARRY, sum > 0xFF), OVERFLOW, v), r);
        } else if i.t is Sbc {
            let borrow: int = if flag(s.sr, CARRY) { 0int } else { 1int };
            let r = wrap8(s.a - m - borrow);
            let v = (s.a ^ r) & (((255 - m) as u8) ^ r) & 0x80 != 0;
            lemma_with_nz(with_flag(with_flag(s.sr, CARRY, s.a >= m + borrow), OVERFLOW, v), r);
        }
    } else if !i.t.rewrites_status() {
        lemma_flag_of_with_flag(s.sr, CARRY, true, ZERO);
        lemma_flag_of_with_flag(s.sr, CARRY, true, NEGATIVE);
        lemma_flag_of_with_flag(s.sr, CARRY, false, ZERO);
        lemma_flag_of_with_flag(s.sr, CARRY, false, NEGATIVE);
        lemma_flag_of_with_flag(s.sr, DECIMAL, true, ZERO);
        lemma_flag_of_with_flag(s.sr, DECIMAL, true, NEGATIVE);
        lemma_flag_of_with_flag(s.sr, DECIMAL, false, ZERO);
        lemma_flag_of_with_flag(s.sr, DECIMAL, false, NEGATIVE);
        lemma_flag_of_with_flag(s.sr, IRQ_DISABLED, true, ZERO);
        lemma_flag_of_with_flag(s.sr, IRQ_DISABLED, true, NEGATIVE);
        lemma_flag_of_with_flag(s.sr, IRQ_DISABLED, false, ZERO);
        lemma_flag_of_with_flag(s.sr, IRQ_DISABLED, false, NEGATIVE);
        lemma_flag_of_with_flag(s.sr, OVERFLOW, false, ZERO);
        lemma_flag_of_with_flag(s.sr, OVERFLOW, false, NEGATIVE);
        lemma_flag_of_with_flag(s.sr, BREAK, true, ZERO);
        lemma_flag_of_with_flag(s.sr, BREAK, true, NEGATIVE);
        if i.t is Brk {
            let flagged = s.push_return_address().set_flag(BREAK, true);
            lemma_access_keeps_registers(
                flagged.push(flagged.sr),
                Addressing::Indirect(IRQ_VECTOR),
                0,
            );
        } else if i.t is Jsr {
            lemma_access_keeps_registers(s.push_return_address(), i.a, 0);
        }
    }
}

/// `Php` then `Plp`: A, X, Y, SP and the whole of SR are as before. The
/// pushed byte has B and U set, and `Plp` puts the processor's own B and U
/// in their place.
pub proof fn lemma_php_plp_restores(s: State, php: Instruction, plp: Instruction)
    requires
        s.well_formed(),
        php.t is Php,
        plp.t is Plp,
    ensures
        ({
            let t = s.execute(php).execute(plp);
            t.a == s.a && t.x == s.x && t.y == s.y && t.sp == s.sp && t.sr == s.sr && t.pc == s.pc
        }),
{
    let sr = s.sr;
    let pushed = with_flag(with_flag(sr, BREAK, true), IGNORED, true);
    assert(s.execute(php).pop_value() == pushed);
    assert(with_flag(
        with_flag(pushed, IGNORED, flag(sr, IGNORED)),
        BREAK,
        flag(sr, BREAK),
    ) == sr) by (bit_vector)
        requires
            pushed == with_flag(with_flag(sr, BREAK, true), IGNORED, true),
    ;
}

/// `Jsr` then `Rts`: PC is the address after the `Jsr`, which is where PC
/// stood when the `Jsr` was executed, and SP is as before.
pub proof fn lemma_jsr_rts_returns(s: State, jsr: Instruction, rts: Instruction)
    requires
        s.well_formed(),
        jsr.t is Jsr,
        rts.t is Rts,
    ensures
        s.execute(jsr).execute(rts).pc == s.pc,
        s.execute(jsr).execute(rts).sp == s.sp,
{
    let pushed = s.push_return_address();
    lemma_memory_survives_jump(pushed, jsr.a);
}

/// A jump changes neither memory nor SP.
pub proof fn lemma_memory_survives_jump(s: State, mode: Addressing)
    ensures
        s.jump(mode).memory == s.memory,
        s.jump(mode).sp == s.sp,
{
}

/// A fetch moves PC past the opcode byte and the operand bytes that the
/// decoded addressing mode asks for.
pub proof fn lemma_fetch_advances_pc(s: State)
    ensures
        s.after_fetch().pc == wrap16(s.pc + 1 + s.fetch_value().a.operand_width()),
{
}

/// A step of an instruction that is no branch, jump, return or `Brk` moves
/// PC by the instruction's length: one more than its operand width.
pub proof fn lemma_step_advances_pc(s: State)
    requires
        !s.fetch_value().t.transfers_control(),
    ensures
        s.step().pc == wrap16(s.pc + 1 + s.fetch_value().a.operand_width()),
{
    lemma_fetch_advances_pc(s);
    lemma_execute_keeps_pc(s.after_fetch(), s.fetch_value());
}

/// An instruction that is no branch, jump, return or `Brk` leaves PC alone.
pub proof fn lemma_execute_keeps_pc(s: State, i: Instruction)
    requires
        !i.t.transfers_control(),
    ensures
        s.execute(i).pc == s.pc,
{
    lemma_access_keeps_registers(s, i.a, s.a);
    lemma_access_keeps_registers(s, i.a, s.x);
    lemma_access_keeps_registers(s, i.a, s.y);
}

/// A left shift followed by a right shift clears bit 7 and keeps the rest:
/// the byte comes back exactly when its bit 7 was clear.
pub proof fn lemma_shift_left_then_right(v: u8, carry: bool)
    ensures
        ({
            let left = State::modified_value(InstructionType::Asl, v, carry);
            let back = State::modified_value(InstructionType::Lsr, left, v >= 0x80);
            back == v & 0x7F && (back == v <==> v < 0x80)
        }),
{
    assert((((v * 2) % 0x100) as u8 / 2) as u8 == v & 0x7F) by (bit_vector);
    assert((v & 0x7F == v) == (v < 0x80)) by (bit_vector);
}

/// `Asl` then `Lsr` on the accumulator: after the `Asl`, C holds the old
/// bit 7 of A; after the `Lsr`, A is its old value without bit 7, and C is
/// clear.
pub proof fn lemma_asl_then_lsr(s: State)
    ensures
        ({
            let asl = Instruction { t: InstructionType::Asl, a: Addressing::Accumulator };
            let lsr = Instruction { t: InstructionType::Lsr, a: Addressing::Accumulator };
            let shifted = s.execute(asl);
            let back = shifted.execute(lsr);
            &&& flag(shifted.sr, CARRY) == (s.a >= 0x80)
            &&& back.a == s.a & 0x7F
            &&& !flag(back.sr, CARRY)
            &&& describes(back.sr, back.a)
        }),
{
    let asl = Instruction { t: InstructionType::Asl, a: Addressing::Accumulator };
    let lsr = Instruction { t: InstructionType::Lsr, a: Addressing::Accumulator };
    let shifted = s.execute(asl);
    let back = shifted.execute(lsr);
    lemma_shift_left_then_right(s.a, flag(s.sr, CARRY));
    let c1 = with_flag(s.sr, CARRY, s.a >= 0x80);
    lemma_with_nz(c1, shifted.a);
    lemma_flag_of_with_flag(s.sr, CARRY, s.a >= 0x80, CARRY);
    let c2 = with_flag(shifted.sr, CARRY, shifted.a % 2 == 1);
    lemma_with_nz(c2, back.a);
    lemma_flag_of_with_flag(shifted.sr, CARRY, shifted.a % 2 == 1, CARRY);
}

/// `Rol` then `Ror` on the accumulator: A and C are as before, and Z and N
/// describe A.
pub proof fn lemma_rol_then_ror(s: State)
    ensures
        ({
            let rol = Instruction { t: InstructionType::Rol, a: Addressing::Accumulator };
            let ror = Instruction { t: InstructionType::Ror, a: Addressing::Accumulator };
            let back = s.execute(rol).execute(ror);
            &&& back.a == s.a
            &&& flag(back.sr, CARRY) == flag(s.sr, CARRY)
            &&& describes(back.sr, back.a)
        }),
{
    let rol = Instruction { t: InstructionType::Rol, a: Addressing::Accumulator };
    let ror = Instruction { t: InstructionType::Ror, a: Addressing::Accumulator };
    let rolled = s.execute(rol);
    let back = rolled.execute(ror);
    let c1 = with_flag(s.sr, CARRY, s.a >= 0x80);
    lemma_with_nz(c1, rolled.a);
    lemma_flag_of_with_flag(s.sr, CARRY, s.a >= 0x80, CARRY);
    let c2 = with_flag(rolled.sr, CARRY, rolled.a % 2 == 1);
    lemma_with_nz(c2, back.a);
    lemma_flag_of_with_flag(rolled.sr, CARRY, rolled.a % 2 == 1, CARRY);
}

/// `Inc` then `Dec` through the same mode, where both reach the same memory
/// cell: the cell holds its old value, and Z and N describe that value.
pub proof fn lemma_inc_then_dec(s: State, mode: Addressing, address: u16)
    requires
        s.well_formed(),
        !is_device(address),
        s.address_value(mode) == Some(address),
        s.execute(Instruction { t: InstructionType::Inc, a: mode }).address_value(mode) == Some(
            address,
        ),
    ensures
        ({
            let inc = Instruction { t: InstructionType::Inc, a: mode };
            let dec = Instruction { t: InstructionType::Dec, a: mode };
            let back = s.execute(inc).execute(dec);
            &&& back.memory[address as int] == s.memory[address as int]
            &&& describes(back.sr, s.memory[address as int])
        }),
{
    let inc = Instruction { t: InstructionType::Inc, a: mode };
    let dec = Instruction { t: InstructionType::Dec, a: mode };
    let up = s.execute(inc);
    let back = up.execute(dec);
    lemma_address_keeps_memory(s, mode);
    lemma_address_keeps_memory(up, mode);
    let v = s.memory[address as int];
    lemma_with_nz(s.sr, wrap8(v + 1));
    lemma_with_nz(up.sr, v);
}

/// Working out an effective address changes neither memory nor the flags.
pub proof fn lemma_address_keeps_memory(s: State, mode: Addressing)
    ensures
        s.after_address(mode).memory == s.memory,
        s.after_address(mode).sr == s.sr,
{
}

/// `Inc` then `Dec` on the accumulator: A holds its old value, and Z and N
/// describe it.
pub proof fn lemma_inc_then_dec_accumulator(s: State)
    ensures
        ({
            let inc = Instruction { t: InstructionType::Inc, a: Addressing::Accumulator };
            let dec = Instruction { t: InstructionType::Dec, a: Addressing::Accumulator };
            let back = s.execute(inc).execute(dec);
            back.a == s.a && describes(back.sr, s.a)
        }),
{
    let inc = Instruction { t: InstructionType::Inc, a: Addressing::Accumulator };
    let up = s.execute(inc);
    lemma_with_nz(s.sr, wrap8(s.a + 1));
    lemma_with_nz(up.sr, s.a);
}

/// One `Adc` with the carry clear: A is the sum modulo 256, and C tells
/// that the sum did not fit in eight bits.
pub proof fn lemma_adc_adds(s: State, b: u8)
    requires
        !flag(s.sr, CARRY),
    ensures
        ({
            let adc = Instruction { t: InstructionType::Adc, a: Addressing::Immediate(b) };
            let t = s.execute(adc);
            t.a == wrap8(s.a + b) && flag(t.sr, CARRY) == (s.a + b >= 256)
        }),
{
    let sum: int = s.a + b;
    let r = wrap8(sum);
    let overflow = (s.a ^ r) & (b ^ r) & 0x80 != 0;
    let c = with_flag(s.sr, CARRY, sum > 0xFF);
    let v = with_flag(c, OVERFLOW, overflow);
    lemma_flag_of_with_flag(s.sr, CARRY, sum > 0xFF, CARRY);
    lemma_flag_of_with_flag(c, OVERFLOW, overflow, CARRY);
    lemma_with_nz(v, r);
}

/// `Adc a` then `Adc b`, starting from A zero and the carry clear: A is
/// `(a + b) mod 256`, and C is set exactly when `a + b >= 256`.
pub proof fn lemma_adc_twice(s: State, a: u8, b: u8)
    requires
        s.a == 0,
        !flag(s.sr, CARRY),
    ensures
        ({
            let first = Instruction { t: InstructionType::Adc, a: Addressing::Immediate(a) };
            let second = Instruction { t: InstructionType::Adc, a: Addressing::Immediate(b) };
            let t = s.execute(first).execute(second);
            t.a == wrap8(a + b) && flag(t.sr, CARRY) == (a + b >= 256)
        }),
{
    let first = Instruction { t: InstructionType::Adc, a: Addressing::Immediate(a) };
    lemma_adc_adds(s, a);
    lemma_adc_adds(s.execute(first), b);
}

} // verus!
