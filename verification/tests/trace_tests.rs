use nes_core::cpu::TraceEntry;
use nes_core::emulator::Emulator;
use nes_core::rom::read;
use nes_core::rom::Cartridge;
use nes_core::trace::operand_column;
use nes_core::trace::push_decimal;
use nes_core::trace::push_hex;
use nes_core::trace::push_left_aligned;
use nes_core::trace::push_repeated;

fn program_rom(program: &[u8]) -> Cartridge {
    let mut bytes = vec![0x4E, 0x45, 0x53, 0x1A, 1, 0, 0, 0, 0, 0, 0, 0, 0, 0, 0, 0];
    bytes.resize(16 + 16384, 0x02);
    bytes[16..16 + program.len()].copy_from_slice(program);
    read(&bytes).unwrap()
}

fn entry(mnemonic: &str, operand: Option<u16>, operand_address: Option<i32>) -> TraceEntry {
    TraceEntry {
        opcode: 0xEA,
        mnemonic: mnemonic.to_string(),
        operand,
        operand_address,
        a: 0x01,
        x: 0xAB,
        y: 0x00,
        p: 0xA5,
        pc: 0x0012,
        sp: 0x0F,
        cycles: 12345,
    }
}

#[test]
fn first_entry_shows_the_state_after_reset() {
    // JMP $C5F5 at $C000
    let mut emulator = Emulator::new(program_rom(&[0x4C, 0xF5, 0xC5]), Some(0xC000));
    let entry = emulator.trace_step().unwrap();
    assert_eq!(entry.opcode, 0x4C);
    assert_eq!(entry.mnemonic, "JMP");
    assert_eq!(entry.operand, Some(0xC5F5));
    assert_eq!(entry.operand_address, Some(0xC5F5));
    assert_eq!((entry.a, entry.x, entry.y, entry.p, entry.sp), (0, 0, 0, 0x24, 0xFD));
    assert_eq!(entry.pc, 0xC000);
    assert_eq!(entry.cycles, 7);
    assert_eq!(entry.line(), "C000 4C JMP  C5F5     A=00 X=00 Y=00 P=24 SP=FD CYC=7");
    assert_eq!(emulator.cpu().pc(), 0xC5F5);
    assert_eq!(emulator.cpu().total_cycles(), 10);
}

#[test]
fn entries_are_taken_before_the_instruction() {
    // LDX #$05; STX $10; ASL A; NOP; LDA $0210,X
    let program = [0xA2, 0x05, 0x86, 0x10, 0x0A, 0xEA, 0xBD, 0x10, 0x02];
    let mut emulator = Emulator::new(program_rom(&program), Some(0x8000));
    let first = emulator.trace_step().unwrap();
    assert_eq!((first.x, first.pc, first.cycles), (0, 0x8000, 7));
    assert_eq!((first.operand, first.operand_address), (Some(0x05), None));
    assert_eq!(first.line(), "8000 A2 LDX  05       A=00 X=00 Y=00 P=24 SP=FD CYC=7");
    let second = emulator.trace_step().unwrap();
    assert_eq!((second.x, second.pc, second.cycles), (5, 0x8002, 9));
    assert_eq!((second.operand, second.operand_address), (Some(0x10), Some(0x10)));
    assert_eq!(second.line(), "8002 86 STX  10       A=00 X=05 Y=00 P=24 SP=FD CYC=9");
    let third = emulator.trace_step().unwrap();
    assert_eq!((third.operand, third.operand_address), (None, Some(-1)));
    assert_eq!(third.line(), "8004 0A ASL  FFFFFFFF A=00 X=05 Y=00 P=24 SP=FD CYC=12");
    let fourth = emulator.trace_step().unwrap();
    assert_eq!((fourth.operand, fourth.operand_address), (None, None));
    assert_eq!(fourth.p, 0x26);
    assert_eq!(fourth.line(), "8005 EA NOP           A=00 X=05 Y=00 P=26 SP=FD CYC=14");
    let fifth = emulator.trace_step().unwrap();
    assert_eq!((fifth.operand, fifth.operand_address), (Some(0x0210), Some(0x0215)));
    assert_eq!(fifth.line(), "8006 BD LDA  210      A=00 X=05 Y=00 P=26 SP=FD CYC=16");
    assert_eq!(emulator.cpu().total_cycles(), 20);
}

#[test]
fn no_entry_for_an_undocumented_opcode() {
    let mut emulator = Emulator::new(program_rom(&[0xEA]), Some(0x8000));
    assert!(emulator.trace_step().is_some());
    assert!(emulator.trace_step().is_none());
    assert_eq!(emulator.cpu().pc(), 0x8001);
    assert_eq!(emulator.cpu().total_cycles(), 9);
    assert!(emulator.trace_step().is_none());
    assert_eq!(emulator.cpu().pc(), 0x8001);
}

#[test]
fn line_of_an_entry() {
    assert_eq!(
        entry("NOP", None, None).line(),
        "0012 EA NOP           A=01 X=AB Y=00 P=A5 SP=0F CYC=12345"
    );
    assert_eq!(
        entry("JSR", Some(0x0609), Some(0x0609)).line(),
        "0012 EA JSR  609      A=01 X=AB Y=00 P=A5 SP=0F CYC=12345"
    );
    assert_eq!(
        entry("LDA", None, Some(0x10)).line(),
        "0012 EA LDA  0010     A=01 X=AB Y=00 P=A5 SP=0F CYC=12345"
    );
    assert_eq!(
        entry("", None, None).line(),
        "0012 EA               A=01 X=AB Y=00 P=A5 SP=0F CYC=12345"
    );
    assert_eq!(
        entry("LONGER", Some(0xFFFF), None).line(),
        "0012 EA LONGER FFFF     A=01 X=AB Y=00 P=A5 SP=0F CYC=12345"
    );
}

#[test]
fn cycle_count_is_decimal() {
    let mut zero = entry("NOP", None, None);
    zero.cycles = 0;
    assert!(zero.line().ends_with(" SP=0F CYC=0"));
    let mut most = entry("NOP", None, None);
    most.cycles = u64::MAX;
    assert!(most.line().ends_with(" CYC=18446744073709551615"));
    let mut round = entry("NOP", None, None);
    round.cycles = 1000;
    assert!(round.line().ends_with(" CYC=1000"));
}

#[test]
fn operand_column_prefers_the_operand_bytes() {
    assert_eq!(operand_column(Some(0x00), None), "00");
    assert_eq!(operand_column(Some(0x0F), Some(0x1234)), "0F");
    assert_eq!(operand_column(Some(0xAB), Some(-1)), "AB");
    assert_eq!(operand_column(Some(0x100), None), "100");
    assert_eq!(operand_column(Some(0xC5F5), Some(0)), "C5F5");
    assert_eq!(operand_column(None, Some(0)), "0000");
    assert_eq!(operand_column(None, Some(0xFFFF)), "FFFF");
    assert_eq!(operand_column(None, Some(0x12345)), "12345");
    assert_eq!(operand_column(None, Some(-1)), "FFFFFFFF");
    assert_eq!(operand_column(None, Some(i32::MIN)), "80000000");
    assert_eq!(operand_column(None, Some(i32::MAX)), "7FFFFFFF");
    assert_eq!(operand_column(None, None), "");
}

#[test]
fn numbers_are_appended() {
    let mut text = String::from("x");
    push_hex(&mut text, 0xABC, 2);
    push_hex(&mut text, 0, 0);
    push_hex(&mut text, 0x9, 3);
    push_hex(&mut text, u64::MAX, 1);
    assert_eq!(text, "xABC0009FFFFFFFFFFFFFFFF");
    let mut text = String::new();
    push_decimal(&mut text, 0);
    push_decimal(&mut text, 9);
    push_decimal(&mut text, 10);
    push_decimal(&mut text, 907);
    assert_eq!(text, "0910907");
}

#[test]
fn text_is_padded_on_the_right() {
    let mut text = String::from(">");
    push_left_aligned(&mut text, "ab", 4);
    push_left_aligned(&mut text, "abcd", 4);
    push_left_aligned(&mut text, "abcde", 4);
    push_left_aligned(&mut text, "", 2);
    push_left_aligned(&mut text, "é", 2);
    text.push('<');
    assert_eq!(text, ">ab  abcdabcde  é <");
    let mut text = String::new();
    push_repeated(&mut text, "ab", 3);
    push_repeated(&mut text, "c", 0);
    assert_eq!(text, "ababab");
}

#[test]
fn entries_are_equal_without_a_look_at_the_operand() {
    let left = entry("LDA", Some(0x10), Some(0x0010));
    let right = entry("LDA", None, None);
    assert_eq!(left, right);
    assert!(left == entry("LDA", Some(0x11), Some(-1)));
}

#[test]
fn entries_differ_in_every_other_field() {
    let base = entry("LDA", None, None);
    assert_ne!(base, entry("LDX", None, None));
    let mut other = entry("LDA", None, None);
    other.opcode = 0xA9;
    assert_ne!(base, other);
    let mut other = entry("LDA", None, None);
    other.a = 0;
    assert_ne!(base, other);
    let mut other = entry("LDA", None, None);
    other.x = 0;
    assert_ne!(base, other);
    let mut other = entry("LDA", None, None);
    other.y = 1;
    assert_ne!(base, other);
    let mut other = entry("LDA", None, None);
    other.p = 0;
    assert_ne!(base, other);
    let mut other = entry("LDA", None, None);
    other.pc = 0;
    assert_ne!(base, other);
    let mut other = entry("LDA", None, None);
    other.sp = 0;
    assert_ne!(base, other);
    let mut other = entry("LDA", None, None);
    other.cycles = 0;
    assert_ne!(base, other);
}
