use v6502::addressing::Addressing::{
    Absolute, AbsoluteX, AbsoluteY, Accumulator, Immediate, Implied, Indirect, IndirectX,
    IndirectY, Relative, ZeroPage, ZeroPageX, ZeroPageY,
};
use v6502::cpu::Cpu;
use v6502::instruction::Instruction;
use v6502::instruction::InstructionType::{
    Adc, Asl, Bcc, Beq, Bit, Bne, Brk, Clv, Cmp, Dec, Inc, Jmp, Jsr, Lda, Ldx, Ldy, Lsr, Nop,
    Php, Pla, Plp, Rol, Ror, Rti, Rts, Sbc, Sec, Sed, Sei, Sta, Stx, Sty, Tsx, Txs,
};
use v6502::memory::Memory;

#[test]
fn stack_pointer_wraps_on_push_and_pop() {
    let mut cpu = Cpu::new6502();
    cpu.sp = 0x00;
    cpu.push(0xAB);
    assert_eq!(cpu.sp, 0xFF);
    assert_eq!(cpu.get(0x0100), 0xAB);
    assert_eq!(cpu.pop(), 0xAB);
    assert_eq!(cpu.sp, 0x00);
    cpu.sp = 0xFF;
    cpu.set(0x0100, 0xCD);
    assert_eq!(cpu.pop(), 0xCD);
    assert_eq!(cpu.sp, 0x00);
    cpu.push(0xEF);
    assert_eq!(cpu.sp, 0xFF);
    assert_eq!(cpu.get(0x0100), 0xEF);
}

#[test]
fn loads_set_zero_and_negative() {
    let mut cpu = Cpu::new6502();
    cpu.execute(Instruction { t: Lda, a: Immediate(0x00) });
    assert!(cpu.is_zero());
    assert!(!cpu.is_negative());
    cpu.execute(Instruction { t: Ldx, a: Immediate(0x80) });
    assert!(!cpu.is_zero());
    assert!(cpu.is_negative());
    cpu.execute(Instruction { t: Ldy, a: Immediate(0x01) });
    assert!(!cpu.is_zero());
    assert!(!cpu.is_negative());
}

#[test]
fn stores_and_flag_operations_leave_zero_and_negative() {
    let mut cpu = Cpu::new6502();
    cpu.sr = 0x82;
    cpu.a = 0x00;
    cpu.execute(Instruction { t: Sta, a: Absolute(0x4000) });
    assert_eq!(cpu.sr, 0x82);
    cpu.execute(Instruction { t: Sec, a: Implied });
    assert_eq!(cpu.sr, 0x83);
    cpu.execute(Instruction { t: Nop, a: Implied });
    assert_eq!(cpu.sr, 0x83);
    cpu.execute(Instruction { t: Php, a: Implied });
    assert_eq!(cpu.sr, 0x83);
}

#[test]
fn php_then_plp_restores_status() {
    for sr in [0x00u8, 0x10, 0x20, 0x30, 0xC3, 0xFF, 0xCF, 0x5A] {
        let mut cpu = Cpu::new6502();
        cpu.a = 0x11;
        cpu.x = 0x22;
        cpu.y = 0x33;
        cpu.sr = sr;
        cpu.execute(Instruction { t: Php, a: Implied });
        assert_eq!(cpu.get(0x01FF), sr | 0x30);
        assert_eq!(cpu.sr, sr);
        cpu.execute(Instruction { t: Plp, a: Implied });
        assert_eq!(cpu.sr, sr);
        assert_eq!((cpu.a, cpu.x, cpu.y, cpu.sp), (0x11, 0x22, 0x33, 0xFF));
    }
}

#[test]
fn plp_keeps_break_and_unused() {
    let mut cpu = Cpu::new6502();
    cpu.sr = 0x30;
    cpu.sp = 0xFE;
    cpu.set(0x01FF, 0x00);
    cpu.execute(Instruction { t: Plp, a: Implied });
    assert_eq!(cpu.sr, 0x30);
    assert_eq!(cpu.sp, 0xFF);
}

#[test]
fn jsr_then_rts_returns_behind_the_call() {
    for pc in [0x0000u16, 0x0001, 0x1003, 0x8000, 0xFFFF, 0x0100] {
        let mut cpu = Cpu::new6502();
        cpu.pc = pc;
        cpu.execute(Instruction { t: Jsr, a: Absolute(0x4321) });
        assert_eq!(cpu.pc, 0x4321);
        assert_eq!(cpu.sp, 0xFD);
        cpu.execute(Instruction { t: Rts, a: Implied });
        assert_eq!(cpu.pc, pc);
        assert_eq!(cpu.sp, 0xFF);
    }
}

#[test]
fn fetch_advances_pc_by_instruction_length() {
    for opcode in 0u16..=255 {
        let mut cpu = Cpu::new6502();
        cpu.pc = 0x2000;
        cpu.set(0x2000, opcode as u8);
        let i = cpu.next_instruction();
        let width = match i.a {
            Accumulator | Implied => 0,
            Absolute(_) | AbsoluteX(_) | AbsoluteY(_) | Indirect(_) => 2,
            _ => 1,
        };
        assert_eq!(cpu.pc, 0x2001 + width);
    }
}

#[test]
fn fetch_wraps_pc_at_the_top_of_memory() {
    let mut cpu = Cpu::new6502();
    cpu.pc = 0xFFFF;
    cpu.set(0xFFFF, 0xAD);
    cpu.set(0x0000, 0x34);
    cpu.set(0x0001, 0x12);
    let i = cpu.next_instruction();
    assert_eq!(i, Instruction { t: Lda, a: Absolute(0x1234) });
    assert_eq!(cpu.pc, 0x0002);
}

#[test]
fn step_of_a_plain_instruction_advances_pc() {
    let mut cpu = Cpu::new6502();
    cpu.pc = 0x3000;
    cpu.set(0x3000, 0x8D);
    cpu.set(0x3001, 0x00);
    cpu.set(0x3002, 0x40);
    cpu.a = 0x77;
    cpu.execute_next_instruction();
    assert_eq!(cpu.pc, 0x3003);
    assert_eq!(cpu.get(0x4000), 0x77);
}

#[test]
fn asl_then_lsr_drops_bit_seven() {
    for v in [0x00u8, 0x01, 0x7F, 0x80, 0x81, 0xFF, 0x55, 0xAA] {
        let mut cpu = Cpu::new6502();
        cpu.a = v;
        cpu.clear_carry();
        cpu.execute(Instruction { t: Asl, a: Accumulator });
        assert_eq!(cpu.is_carry(), v & 0x80 != 0);
        assert_eq!(cpu.a, v << 1);
        cpu.execute(Instruction { t: Lsr, a: Accumulator });
        assert_eq!(cpu.a, v & 0x7F);
        assert!(!cpu.is_carry());
        assert_eq!(cpu.a == v, v < 0x80);
    }
}

#[test]
fn rol_then_ror_restores_accumulator() {
    for v in [0x00u8, 0x01, 0x7F, 0x80, 0x81, 0xFF, 0x55, 0xAA] {
        for carry in [false, true] {
            let mut cpu = Cpu::new6502();
            cpu.a = v;
            if carry {
                cpu.set_carry();
            }
            cpu.execute(Instruction { t: Rol, a: Accumulator });
            assert_eq!(cpu.a, (v << 1) | (carry as u8));
            assert_eq!(cpu.is_carry(), v & 0x80 != 0);
            cpu.execute(Instruction { t: Ror, a: Accumulator });
            assert_eq!(cpu.a, v);
            assert_eq!(cpu.is_carry(), carry);
        }
    }
}

#[test]
fn inc_then_dec_restores_memory() {
    for v in [0x00u8, 0x01, 0x7F, 0x80, 0xFF] {
        let mut cpu = Cpu::new6502();
        cpu.set(0x0240, v);
        cpu.execute(Instruction { t: Inc, a: Absolute(0x0240) });
        assert_eq!(cpu.get(0x0240), v.wrapping_add(1));
        assert_eq!(cpu.is_zero(), v == 0xFF);
        cpu.execute(Instruction { t: Dec, a: Absolute(0x0240) });
        assert_eq!(cpu.get(0x0240), v);
        assert_eq!(cpu.is_zero(), v == 0);
        assert_eq!(cpu.is_negative(), v >= 0x80);
    }
}

#[test]
fn adc_twice_adds_modulo_256() {
    for (a, b) in [(0u8, 0u8), (1, 2), (0x80, 0x80), (0xFF, 0x01), (0xFF, 0xFF), (0x7F, 0x01)] {
        let mut cpu = Cpu::new6502();
        cpu.a = 0;
        cpu.clear_carry();
        cpu.execute(Instruction { t: Adc, a: Immediate(a) });
        assert_eq!(cpu.a, a);
        assert!(!cpu.is_carry());
        cpu.execute(Instruction { t: Adc, a: Immediate(b) });
        assert_eq!(cpu.a, a.wrapping_add(b));
        assert_eq!(cpu.is_carry(), a as u16 + b as u16 >= 256);
    }
}

#[test]
fn zero_page_x_wraps_in_eight_bits() {
    let mut cpu = Cpu::new6502();
    cpu.x = 1;
    assert_eq!(ZeroPageX(0xFF).address(&mut cpu), Some(0x0000));
}

#[test]
fn absolute_x_wraps_in_sixteen_bits() {
    let mut cpu = Cpu::new6502();
    cpu.x = 1;
    assert_eq!(AbsoluteX(0xFFFF).address(&mut cpu), Some(0x0000));
}

#[test]
fn relative_minus_one_at_zero_wraps() {
    let mut cpu = Cpu::new6502();
    cpu.pc = 0x0000;
    assert_eq!(Relative(-1).address(&mut cpu), Some(0xFFFF));
    assert_eq!(Relative(-128).address(&mut cpu), Some(0xFF80));
    cpu.pc = 0xFFFF;
    assert_eq!(Relative(1).address(&mut cpu), Some(0x0000));
    assert_eq!(Relative(127).address(&mut cpu), Some(0x007E));
    assert_eq!(Relative(0).address(&mut cpu), Some(0xFFFF));
}

#[test]
fn indirect_x_reads_pointer_behind_index() {
    let mut cpu = Cpu::new6502();
    cpu.x = 1;
    cpu.set(0x0081, 0x34);
    cpu.set(0x0082, 0x12);
    assert_eq!(IndirectX(0x80).address(&mut cpu), Some(0x1234));
}

#[test]
fn indirect_y_adds_y_to_the_pointer() {
    let mut cpu = Cpu::new6502();
    cpu.x = 0x10;
    cpu.y = 0x02;
    cpu.set(0x0080, 0xFF);
    cpu.set(0x0081, 0xFF);
    assert_eq!(IndirectY(0x80).address(&mut cpu), Some(0x0001));
    cpu.set(0x0080, 0x00);
    cpu.set(0x0081, 0x20);
    assert_eq!(IndirectY(0x80).address(&mut cpu), Some(0x2002));
}

#[test]
fn flag_instructions_set_and_clear_bits() {
    let mut cpu = Cpu::new6502();
    cpu.sr = 0xFF;
    cpu.execute(Instruction { t: Clv, a: Implied });
    assert_eq!(cpu.sr, 0xBF);
    cpu.sr = 0x00;
    cpu.execute(Instruction { t: Sec, a: Implied });
    cpu.execute(Instruction { t: Sed, a: Implied });
    cpu.execute(Instruction { t: Sei, a: Implied });
    assert_eq!(cpu.sr, 0x0D);
}

#[test]
fn adc_reports_carry_and_overflow() {
    let mut cpu = Cpu::new6502();
    cpu.a = 0x80;
    cpu.clear_carry();
    cpu.execute(Instruction { t: Adc, a: Immediate(0x80) });
    assert_eq!(cpu.a, 0x00);
    assert!(cpu.is_carry() && cpu.is_overflow() && cpu.is_zero() && !cpu.is_negative());
    cpu.set(0x8000, 0xB0);
    cpu.execute(Instruction { t: Adc, a: Absolute(0x8000) });
    assert_eq!(cpu.a, 0xB1);
    assert!(!cpu.is_carry() && !cpu.is_overflow() && !cpu.is_zero() && cpu.is_negative());
}

#[test]
fn jsr_pushes_the_return_address() {
    let mut cpu = Cpu::new6502();
    cpu.sp = 0xFF;
    cpu.pc = 0x1003;
    cpu.execute(Instruction { t: Jsr, a: Absolute(0xFFFF) });
    assert_eq!((cpu.pc, cpu.sp), (0xFFFF, 0xFD));
    assert_eq!(cpu.get(0x01FF), 0x10);
    assert_eq!(cpu.get(0x01FE), 0x02);
    cpu.execute(Instruction { t: Rts, a: Implied });
    assert_eq!((cpu.pc, cpu.sp), (0x1003, 0xFF));
}

#[test]
fn brk_vectors_and_rti_returns() {
    let mut cpu = Cpu::new6502();
    cpu.sr = 0x41;
    cpu.sp = 0xFF;
    cpu.pc = 0x1003;
    cpu.set(0xFFFE, 0x04);
    cpu.set(0xFFFF, 0x05);
    cpu.execute(Instruction { t: Brk, a: Implied });
    assert_eq!((cpu.pc, cpu.sp), (0x0504, 0xFC));
    assert_eq!(cpu.get(0x01FF), 0x10);
    assert_eq!(cpu.get(0x01FE), 0x02);
    assert_eq!(cpu.get(0x01FD), 0x51);
    assert_eq!(cpu.sr, 0x51);
    assert!(cpu.is_break());
    assert!(!cpu.is_irq_disabled());
    cpu.sr = 0x00;
    cpu.execute(Instruction { t: Rti, a: Implied });
    assert_eq!((cpu.pc, cpu.sp), (0x1003, 0xFF));
    assert_eq!(cpu.sr, 0x51);
}

#[test]
fn decodes_a_program_prefix() {
    let mut cpu = Cpu::new6502();
    for (at, byte) in [0xEAu8, 0xA5, 0xFF, 0xAD, 0x10, 0x20].into_iter().enumerate() {
        cpu.set(at as u16, byte);
    }
    cpu.pc = 0x0000;
    assert_eq!(cpu.next_instruction(), Instruction { t: Nop, a: Implied });
    assert_eq!(cpu.pc, 1);
    assert_eq!(cpu.next_instruction(), Instruction { t: Lda, a: ZeroPage(0xFF) });
    assert_eq!(cpu.pc, 3);
    assert_eq!(cpu.next_instruction(), Instruction { t: Lda, a: Absolute(0x2010) });
    assert_eq!(cpu.pc, 6);
}

#[test]
fn executes_a_program_from_ram() {
    let mut cpu = Cpu::new6502();
    for (at, byte) in [0xEAu8, 0xA5, 0xFF, 0xAD, 0x10, 0x20].into_iter().enumerate() {
        cpu.set(at as u16, byte);
    }
    cpu.set(0x00FF, 0x80);
    cpu.set(0x2010, 0x40);
    cpu.pc = 0x0000;
    cpu.execute_next_instruction();
    cpu.execute_next_instruction();
    cpu.execute_next_instruction();
    assert_eq!(cpu.a, 0x40);
    assert_eq!(cpu.pc, 0x0006);
}

#[test]
fn sbc_borrows_and_overflows() {
    let mut cpu = Cpu::new6502();
    cpu.a = 0x00;
    cpu.set_carry();
    cpu.execute(Instruction { t: Sbc, a: Immediate(0x01) });
    assert_eq!(cpu.a, 0xFF);
    assert!(!cpu.is_carry() && cpu.is_negative() && !cpu.is_overflow() && !cpu.is_zero());
    cpu.a = 0x80;
    cpu.set_carry();
    cpu.execute(Instruction { t: Sbc, a: Immediate(0x01) });
    assert_eq!(cpu.a, 0x7F);
    assert!(cpu.is_carry() && !cpu.is_negative() && cpu.is_overflow());
    cpu.a = 0x05;
    cpu.clear_carry();
    cpu.execute(Instruction { t: Sbc, a: Immediate(0x04) });
    assert_eq!(cpu.a, 0x00);
    assert!(cpu.is_carry() && cpu.is_zero());
    cpu.a = 0x05;
    cpu.clear_carry();
    cpu.execute(Instruction { t: Sbc, a: Immediate(0x05) });
    assert_eq!(cpu.a, 0xFF);
    assert!(!cpu.is_carry());
}

#[test]
fn compare_sets_carry_when_not_less() {
    let mut cpu = Cpu::new6502();
    cpu.a = 0x40;
    cpu.execute(Instruction { t: Cmp, a: Immediate(0x40) });
    assert!(cpu.is_carry() && cpu.is_zero() && !cpu.is_negative());
    cpu.execute(Instruction { t: Cmp, a: Immediate(0x30) });
    assert!(cpu.is_carry() && !cpu.is_zero() && !cpu.is_negative());
    cpu.execute(Instruction { t: Cmp, a: Immediate(0x41) });
    assert!(!cpu.is_carry() && !cpu.is_zero() && cpu.is_negative());
    assert_eq!(cpu.a, 0x40);
}

#[test]
fn bit_copies_operand_bits_and_tests_mask() {
    let mut cpu = Cpu::new6502();
    cpu.a = 0x01;
    cpu.sr = 0x00;
    cpu.set(0x0040, 0x40);
    cpu.execute(Instruction { t: Bit, a: ZeroPage(0x40) });
    assert!(cpu.is_overflow() && !cpu.is_negative() && cpu.is_zero());
    cpu.sr = 0xFF;
    cpu.set(0x0040, 0x01);
    cpu.execute(Instruction { t: Bit, a: ZeroPage(0x40) });
    assert_eq!(cpu.sr, 0x3D);
}

#[test]
fn read_modify_write_uses_one_address() {
    let mut cpu = Cpu::new6502();
    cpu.x = 0x04;
    cpu.set(0x0024, 0x74);
    cpu.set(0x0025, 0x20);
    cpu.set(0x2074, 0x81);
    cpu.execute(Instruction { t: Asl, a: IndirectX(0x20) });
    assert_eq!(cpu.get(0x2074), 0x02);
    assert!(cpu.is_carry());
    cpu.execute(Instruction { t: Ror, a: IndirectX(0x20) });
    assert_eq!(cpu.get(0x2074), 0x81);
    assert!(!cpu.is_carry() && cpu.is_negative());
}

#[test]
fn branches_follow_relative_offsets() {
    let mut cpu = Cpu::new6502();
    cpu.pc = 0x1000;
    cpu.clear_carry();
    cpu.execute(Instruction { t: Bcc, a: Relative(-3) });
    assert_eq!(cpu.pc, 0x0FFD);
    cpu.set_zero();
    cpu.execute(Instruction { t: Bne, a: Relative(0x10) });
    assert_eq!(cpu.pc, 0x0FFD);
    cpu.execute(Instruction { t: Beq, a: Relative(0x10) });
    assert_eq!(cpu.pc, 0x100D);
}

#[test]
fn branch_is_fetched_and_taken_from_ram() {
    let mut cpu = Cpu::new6502();
    cpu.pc = 0x0300;
    cpu.set(0x0300, 0xD0);
    cpu.set(0x0301, 0xFE);
    cpu.execute_next_instruction();
    assert_eq!(cpu.pc, 0x0300);
    cpu.set_zero();
    cpu.execute_next_instruction();
    assert_eq!(cpu.pc, 0x0302);
}

#[test]
fn jmp_indirect_reads_its_target() {
    let mut cpu = Cpu::new6502();
    cpu.set(0x20FF, 0x34);
    cpu.set(0x2100, 0x12);
    cpu.execute(Instruction { t: Jmp, a: Indirect(0x20FF) });
    assert_eq!(cpu.pc, 0x1234);
    cpu.set(0xFFFF, 0x78);
    cpu.set(0x0000, 0x56);
    cpu.execute(Instruction { t: Jmp, a: Indirect(0xFFFF) });
    assert_eq!(cpu.pc, 0x5678);
    cpu.execute(Instruction { t: Jmp, a: Implied });
    assert_eq!(cpu.pc, 0x5678);
}

#[test]
fn indexed_modes_load_and_store() {
    let mut cpu = Cpu::new6502();
    cpu.x = 0x05;
    cpu.y = 0x0A;
    cpu.a = 0x11;
    cpu.execute(Instruction { t: Sta, a: ZeroPageX(0xFE) });
    assert_eq!(cpu.get(0x0003), 0x11);
    cpu.execute(Instruction { t: Stx, a: ZeroPageY(0x10) });
    assert_eq!(cpu.get(0x001A), 0x05);
    cpu.execute(Instruction { t: Sty, a: AbsoluteX(0x2000) });
    assert_eq!(cpu.get(0x2005), 0x0A);
    cpu.execute(Instruction { t: Lda, a: AbsoluteY(0x1FFB) });
    assert_eq!(cpu.a, 0x0A);
    cpu.set(0x0040, 0x00);
    cpu.set(0x0041, 0x30);
    cpu.a = 0x99;
    cpu.execute(Instruction { t: Sta, a: IndirectY(0x40) });
    assert_eq!(cpu.get(0x300A), 0x99);
    cpu.execute(Instruction { t: Ldx, a: IndirectY(0x40) });
    assert_eq!(cpu.x, 0x99);
}

#[test]
fn txs_leaves_flags_and_tsx_sets_them() {
    let mut cpu = Cpu::new6502();
    cpu.sr = 0x02;
    cpu.x = 0x80;
    cpu.execute(Instruction { t: Txs, a: Implied });
    assert_eq!((cpu.sp, cpu.sr), (0x80, 0x02));
    cpu.x = 0x00;
    cpu.execute(Instruction { t: Tsx, a: Implied });
    assert_eq!((cpu.x, cpu.sr), (0x80, 0x80));
}

#[test]
fn pla_sets_zero_and_negative() {
    let mut cpu = Cpu::new6502();
    cpu.push(0x00);
    cpu.push(0x90);
    cpu.execute(Instruction { t: Pla, a: Implied });
    assert_eq!(cpu.a, 0x90);
    assert!(cpu.is_negative() && !cpu.is_zero());
    cpu.execute(Instruction { t: Pla, a: Implied });
    assert_eq!(cpu.a, 0x00);
    assert!(!cpu.is_negative() && cpu.is_zero());
    assert_eq!(cpu.sp, 0xFF);
}

#[test]
fn well_formed_instructions_are_recognised() {
    assert!(Instruction { t: Lda, a: Immediate(1) }.is_well_formed());
    assert!(Instruction { t: Lda, a: Accumulator }.is_well_formed());
    assert!(!Instruction { t: Lda, a: Implied }.is_well_formed());
    assert!(!Instruction { t: Lda, a: Relative(1) }.is_well_formed());
    assert!(!Instruction { t: Adc, a: Indirect(1) }.is_well_formed());
    assert!(Instruction { t: Sta, a: ZeroPage(1) }.is_well_formed());
    assert!(!Instruction { t: Sta, a: Immediate(1) }.is_well_formed());
    assert!(!Instruction { t: Inc, a: Immediate(1) }.is_well_formed());
    assert!(Instruction { t: Asl, a: Accumulator }.is_well_formed());
    assert!(Instruction { t: Jmp, a: Indirect(1) }.is_well_formed());
    assert!(Instruction { t: Nop, a: Immediate(1) }.is_well_formed());
    assert!(Immediate(0).is_loadable() && !Immediate(0).is_storable());
    assert!(!Implied.is_loadable() && !Implied.is_storable());
    assert!(Cpu::new6502().decodes_well());
    assert!(!Cpu::new(&[(0x10, Sta, Immediate(0))]).decodes_well());
}
