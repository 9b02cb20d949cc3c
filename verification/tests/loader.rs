use v6502::cpu::Cpu;
use v6502::memory::Memory;
use v6502::util::load_hex;
use v6502::util::parse_hex;
use v6502::util::HexError;
use v6502::util::HexErrorKind;

#[test]
fn hex_text_is_loaded_line_by_line() {
    let mut cpu = Cpu::new6502();
    let text = b"0200: A9 01 8d 00 02\nFFFC: 00 02\n";
    assert_eq!(load_hex(&mut cpu, text), Ok(()));
    assert_eq!(cpu.get(0x0200), 0xA9);
    assert_eq!(cpu.get(0x0201), 0x01);
    assert_eq!(cpu.get(0x0202), 0x8D);
    assert_eq!(cpu.get(0x0203), 0x00);
    assert_eq!(cpu.get(0x0204), 0x02);
    assert_eq!(cpu.get(0x0205), 0x00);
    assert_eq!(cpu.get(0xFFFC), 0x00);
    assert_eq!(cpu.get(0xFFFD), 0x02);
}

#[test]
fn hex_text_parses_to_writes_in_order() {
    assert_eq!(parse_hex(b""), Ok(vec![]));
    assert_eq!(parse_hex(b"10:"), Ok(vec![]));
    assert_eq!(parse_hex(b"0:1"), Ok(vec![(0, 1)]));
    assert_eq!(
        parse_hex(b"00ff:  1\t 2\r\n+1000:+F 0a"),
        Ok(vec![(0x00FF, 0x01), (0x0100, 0x02), (0x1000, 0x0F), (0x1001, 0x0A)])
    );
    assert_eq!(parse_hex(b"FFFF: 01 02 03"), Ok(vec![(0xFFFF, 1), (0x0000, 2), (0x0001, 3)]));
    assert_eq!(parse_hex(b"0000000010: 0000007f"), Ok(vec![(0x0010, 0x7F)]));
    assert_eq!(parse_hex(b"20: AA : BB"), Ok(vec![(0x0020, 0xAA)]));
    assert_eq!(parse_hex(b"20: 01\n20: 02"), Ok(vec![(0x0020, 1), (0x0020, 2)]));
}

#[test]
fn hex_text_faults_name_line_and_kind() {
    let fault = |line, kind| Err(HexError { line, kind });
    assert_eq!(parse_hex(b"\n"), fault(0, HexErrorKind::InvalidOffset));
    assert_eq!(parse_hex(b"0000: 00\n\n"), fault(1, HexErrorKind::InvalidOffset));
    assert_eq!(parse_hex(b"10000: 00"), fault(0, HexErrorKind::InvalidOffset));
    assert_eq!(parse_hex(b" 1000: 00"), fault(0, HexErrorKind::InvalidOffset));
    assert_eq!(parse_hex(b"-1: 00"), fault(0, HexErrorKind::InvalidOffset));
    assert_eq!(parse_hex(b"+: 00"), fault(0, HexErrorKind::InvalidOffset));
    assert_eq!(parse_hex(b"12G4: 00"), fault(0, HexErrorKind::InvalidOffset));
    assert_eq!(parse_hex(b"1000"), fault(0, HexErrorKind::MissingData));
    assert_eq!(parse_hex(b"0: 00\n1000\n"), fault(1, HexErrorKind::MissingData));
    assert_eq!(parse_hex(b"1000: 100"), fault(0, HexErrorKind::InvalidByte));
    assert_eq!(parse_hex(b"1000: 0x10"), fault(0, HexErrorKind::InvalidByte));
    assert_eq!(parse_hex(b"1000: 10 zz\n0: 00"), fault(0, HexErrorKind::InvalidByte));
    assert_eq!(parse_hex(b"0: 00\n1: 01\n2: 1 + 2"), fault(2, HexErrorKind::InvalidByte));
    assert_eq!(parse_hex(b"zz: zz"), fault(0, HexErrorKind::InvalidOffset));
}

#[test]
fn faulty_hex_text_writes_nothing() {
    let mut cpu = Cpu::new6502();
    cpu.set(0x0200, 0x77);
    let text = b"0200: A9 01\n0300: XX\n";
    assert_eq!(
        load_hex(&mut cpu, text),
        Err(HexError { line: 1, kind: HexErrorKind::InvalidByte })
    );
    assert_eq!(cpu.get(0x0200), 0x77);
    assert_eq!(cpu.get(0x0201), 0x00);
}

#[test]
fn hex_text_cannot_write_devices() {
    let mut cpu = Cpu::new6502();
    assert_eq!(load_hex(&mut cpu, b"00FC: 01 02 03 04 05"), Ok(()));
    assert_eq!(&cpu.memory[0x00FC..0x0101], &[1, 0, 0, 0, 5]);
}
