use nes_core::cpu::TraceEntry;
use nes_core::emulator::Emulator;
use nes_core::reference::next_field;
use nes_core::reference::parse_keyed;
use nes_core::reference::parse_number;
use nes_core::reference::parse_reference_line;
use nes_core::reference::seek_key;
use nes_core::reference::seek_last_field;
use nes_core::rom::read;

const FIRST: &str =
    "C000  4C F5 C5  JMP $C5F5                       A:00 X:00 Y:00 P:24 SP:FD PPU:  0, 21 CYC:7";

fn parsed(line: &str) -> Option<TraceEntry> {
    parse_reference_line(line.as_bytes())
}

fn with_tail(head: &str) -> String {
    format!("{} A:00 X:00 Y:00 P:24 SP:FD PPU:  0, 21 CYC:7", head)
}

fn with_head(tail: &str) -> String {
    format!("C000  4C F5 C5  JMP $C5F5  {}", tail)
}

#[test]
fn line_with_two_operand_bytes() {
    let entry = parsed(FIRST).unwrap();
    assert_eq!(entry.pc, 0xC000);
    assert_eq!(entry.opcode, 0x4C);
    assert_eq!(entry.operand, Some(0xC5F5));
    assert_eq!(entry.operand_address, None);
    assert_eq!(entry.mnemonic, "JMP");
    assert_eq!((entry.a, entry.x, entry.y, entry.p, entry.sp), (0, 0, 0, 0x24, 0xFD));
    assert_eq!(entry.cycles, 7);
}

#[test]
fn line_with_one_operand_byte() {
    let line = "C5F7  86 1F     STX $1F = 00                    A:1A X:2B Y:3C P:E6 SP:F9 PPU:  0, 36 CYC:12";
    let entry = parsed(line).unwrap();
    assert_eq!((entry.pc, entry.opcode, entry.operand), (0xC5F7, 0x86, Some(0x1F)));
    assert_eq!(entry.mnemonic, "STX");
    assert_eq!((entry.a, entry.x, entry.y, entry.p, entry.sp), (0x1A, 0x2B, 0x3C, 0xE6, 0xF9));
    assert_eq!(entry.cycles, 12);
}

#[test]
fn line_without_operand_bytes() {
    let line = "C72D  EA        NOP                             A:00 X:00 Y:00 P:26 SP:FB PPU:  0, 81 CYC:27";
    let entry = parsed(line).unwrap();
    assert_eq!((entry.pc, entry.opcode, entry.operand), (0xC72D, 0xEA, None));
    assert_eq!(entry.mnemonic, "NOP");
    assert_eq!(entry.sp, 0xFB);
    assert_eq!(entry.cycles, 27);
}

#[test]
fn line_of_an_accumulator_shift() {
    let line = "C7A0  0A        ASL A                           A:80 X:00 Y:00 P:E5 SP:FB PPU:  3, 12 CYC:1020";
    let entry = parsed(line).unwrap();
    assert_eq!((entry.opcode, entry.operand, entry.a, entry.cycles), (0x0A, None, 0x80, 1020));
    assert_eq!(entry.mnemonic, "ASL");
}

#[test]
fn fields_between_mnemonic_and_registers_are_passed_over() {
    let line = "D959  B1 89     LDA ($89),Y = 0300 @ 0300 = 89  A:00 X:65 Y:00 P:27 SP:FB PPU: 77, 90 CYC:8795";
    let entry = parsed(line).unwrap();
    assert_eq!((entry.pc, entry.opcode, entry.operand), (0xD959, 0xB1, Some(0x89)));
    assert_eq!((entry.a, entry.x, entry.y, entry.p, entry.sp), (0x00, 0x65, 0x00, 0x27, 0xFB));
    assert_eq!(entry.cycles, 8795);
    // two digits behind the mnemonic are no operand byte
    assert!(parsed(&with_tail("C000 EA NOP 00 11")).is_some());
}

#[test]
fn digits_in_either_case_and_with_leading_zeros() {
    let entry = parsed("c0ab 4c f5 c5 JMP A:0a X:0B Y:0c P:fF SP:00fd CYC:0042").unwrap();
    assert_eq!((entry.pc, entry.opcode, entry.operand), (0xC0AB, 0x4C, Some(0xC5F5)));
    assert_eq!((entry.a, entry.x, entry.y, entry.p, entry.sp), (0x0A, 0x0B, 0x0C, 0xFF, 0xFD));
    assert_eq!(entry.cycles, 42);
    let entry = parsed(&with_tail("0000C000 004C 05 JMP")).unwrap();
    assert_eq!((entry.pc, entry.opcode, entry.operand), (0xC000, 0x4C, Some(0x05)));
}

#[test]
fn spaces_around_the_line() {
    let entry = parsed(&format!("   {}   ", FIRST)).unwrap();
    assert_eq!((entry.pc, entry.cycles), (0xC000, 7));
}

#[test]
fn cycle_count_is_the_last_field() {
    let entry = parsed(&with_head("A:00 X:00 Y:00 P:24 SP:FD CYC:31")).unwrap();
    assert_eq!(entry.cycles, 31);
    let entry = parsed(&with_head("A:00 X:00 Y:00 P:24 SP:FD CYC:1 CYC:2")).unwrap();
    assert_eq!(entry.cycles, 2);
    let entry = parsed(&with_head("A:00 X:00 Y:00 P:24 SP:FD CYC:18446744073709551615")).unwrap();
    assert_eq!(entry.cycles, u64::MAX);
    assert!(parsed(&with_head("A:00 X:00 Y:00 P:24 SP:FD CYC:18446744073709551616")).is_none());
    assert!(parsed(&with_head("A:00 X:00 Y:00 P:24 SP:FD CYC:7 end")).is_none());
    assert!(parsed(&with_head("A:00 X:00 Y:00 P:24 SP:FD CYC:")).is_none());
    assert!(parsed(&with_head("A:00 X:00 Y:00 P:24 SP:FD CYC:1F")).is_none());
    assert!(parsed(&with_head("A:00 X:00 Y:00 P:24 SP:FD")).is_none());
    assert!(parsed(&with_head("A:00 X:00 Y:00 P:24 SP:FD CYC")).is_none());
}

#[test]
fn rejects_a_broken_front() {
    assert!(parsed("").is_none());
    assert!(parsed("    ").is_none());
    assert!(parsed(&with_tail("")).is_none());
    assert!(parsed(&with_tail("C000")).is_none());
    assert!(parsed(&with_tail("C000 4C")).is_none());
    assert!(parsed(&with_tail("C000 4C F5 C5")).is_none());
    assert!(parsed(&with_tail("G000 4C F5 C5 JMP")).is_none());
    assert!(parsed(&with_tail("1C000 4C F5 C5 JMP")).is_none());
    assert!(parsed(&with_tail("C000 14C F5 C5 JMP")).is_none());
    assert!(parsed(&with_tail("C000 4C F5 C5 01 JMP")).is_none());
    assert!(parsed(&with_tail("C000 4C F5 ZZ JMP")).is_none());
    assert!(parsed(&with_tail("C000 4C ZZ JMP")).is_none());
    assert!(parsed(&with_tail("C000 4C F5 C5 jmp")).is_none());
    assert!(parsed(&with_tail("C000 4C F5 C5 JMPX")).is_none());
    assert!(parsed(&with_tail("C000 04 A9 *NOP")).is_none());
    assert!(parsed(&with_tail("C000 A3 40 *LAX")).is_none());
    assert!(parsed(&with_tail("+C000 4C F5 C5 JMP")).is_none());
    assert!(parsed(&FIRST.replace(' ', "\t")).is_none());
}

#[test]
fn rejects_broken_registers() {
    assert!(parsed(&with_head("")).is_none());
    assert!(parsed(&with_head("B:00 X:00 Y:00 P:24 SP:FD CYC:7")).is_none());
    assert!(parsed(&with_head("A:00 Y:00 X:00 P:24 SP:FD CYC:7")).is_none());
    assert!(parsed(&with_head("A:00 X:00 Y:00 SP:FD P:24 CYC:7")).is_none());
    assert!(parsed(&with_head("A:00 X:00 Y:00 P:24 S:FD CYC:7")).is_none());
    assert!(parsed(&with_head("A:100 X:00 Y:00 P:24 SP:FD CYC:7")).is_none());
    assert!(parsed(&with_head("A:00 X:0G Y:00 P:24 SP:FD CYC:7")).is_none());
    assert!(parsed(&with_head("A:00 X: Y:00 P:24 SP:FD CYC:7")).is_none());
    assert!(parsed(&with_head("A:00 X:00 Y:00 P:24 SP:FD:00 CYC:7")).is_none());
    assert!(parsed(&with_head("A: 00 X:00 Y:00 P:24 SP:FD CYC:7")).is_none());
    assert!(parsed(&with_head("a:00 X:00 Y:00 P:24 SP:FD CYC:7")).is_none());
    assert!(parsed(&with_head("A:00 X:00 Y:00 P:24 SP:FD cyc:7")).is_none());
    assert!(parsed(&with_head("A:00 X:00 Y:00 P:24")).is_none());
}

#[test]
fn fields_are_parted_by_spaces() {
    let line = b"  ab  c ";
    assert_eq!(next_field(line, 0), (2, 4));
    assert_eq!(next_field(line, 2), (2, 4));
    assert_eq!(next_field(line, 3), (3, 4));
    assert_eq!(next_field(line, 4), (6, 7));
    assert_eq!(next_field(line, 7), (8, 8));
    assert_eq!(next_field(line, 8), (8, 8));
    assert_eq!(next_field(b"", 0), (0, 0));
    assert_eq!(seek_last_field(line, 0), (6, 7));
    assert_eq!(seek_last_field(line, 6), (6, 7));
    assert_eq!(seek_last_field(line, 7), (8, 8));
    assert_eq!(seek_last_field(b"abc", 0), (0, 3));
    assert_eq!(seek_key(b"A B: A:1 A:2", 0, "A"), Some((5, 8)));
    assert_eq!(seek_key(b"A B: A:1 A:2", 6, "A"), Some((9, 12)));
    assert_eq!(seek_key(b"A B: SPA:1", 0, "SP"), None);
    assert_eq!(seek_key(b"xx SP: y", 0, "SP"), Some((3, 6)));
}

#[test]
fn numbers_are_read_within_a_bound() {
    assert_eq!(parse_number(b"x1F ", 1, 3, true, 0xFF), Some(0x1F));
    assert_eq!(parse_number(b"x1F ", 1, 3, false, 0xFF), None);
    assert_eq!(parse_number(b"255", 0, 3, false, 255), Some(255));
    assert_eq!(parse_number(b"256", 0, 3, false, 255), None);
    assert_eq!(parse_number(b"0000000000000000000000255", 0, 25, false, 255), Some(255));
    assert_eq!(parse_number(b"ffffffffffffffff", 0, 16, true, u64::MAX), Some(u64::MAX));
    assert_eq!(parse_number(b"10000000000000000", 0, 17, true, u64::MAX), None);
    assert_eq!(parse_number(b"99999999999999999999999999", 0, 26, false, u64::MAX), None);
    assert_eq!(parse_number(b"12", 1, 1, false, 255), None);
    assert_eq!(parse_number(b"1 2", 0, 3, false, 255), None);
    assert_eq!(parse_number(b"-1", 0, 2, false, 255), None);
    assert_eq!(parse_number(b"0", 0, 1, true, 0), Some(0));
    assert_eq!(parse_number(b"1", 0, 1, true, 0), None);
    assert_eq!(parse_keyed(b"SP:FD", 0, 5, "SP", true, 0xFF), Some(0xFD));
    assert_eq!(parse_keyed(b"SP:FD", 0, 5, "S", true, 0xFF), None);
    assert_eq!(parse_keyed(b"SP:FD", 0, 5, "SP:", true, 0xFF), None);
    assert_eq!(parse_keyed(b"SP:FD", 0, 3, "SP", true, 0xFF), None);
    assert_eq!(parse_keyed(b"CYC:120", 0, 7, "CYC", false, u64::MAX), Some(120));
    assert_eq!(parse_keyed(b":5", 0, 2, "", false, 9), Some(5));
}

#[test]
fn trace_agrees_with_reference_lines() {
    let lines = [
        "C000  4C F5 C5  JMP $C5F5                       A:00 X:00 Y:00 P:24 SP:FD PPU:  0, 21 CYC:7",
        "C5F5  A2 00     LDX #$00                        A:00 X:00 Y:00 P:24 SP:FD PPU:  0, 30 CYC:10",
        "C5F7  86 00     STX $00 = 00                    A:00 X:00 Y:00 P:26 SP:FD PPU:  0, 36 CYC:12",
        "C5F9  86 10     STX $10 = 00                    A:00 X:00 Y:00 P:26 SP:FD PPU:  0, 45 CYC:15",
        "C5FB  86 11     STX $11 = 00                    A:00 X:00 Y:00 P:26 SP:FD PPU:  0, 54 CYC:18",
        "C5FD  20 2D C7  JSR $C72D                       A:00 X:00 Y:00 P:26 SP:FD PPU:  0, 63 CYC:21",
        "C72D  EA        NOP                             A:00 X:00 Y:00 P:26 SP:FB PPU:  0, 81 CYC:27",
        "C72E  38        SEC                             A:00 X:00 Y:00 P:26 SP:FB PPU:  0, 87 CYC:29",
        "C72F  B0 04     BCS $C735                       A:00 X:00 Y:00 P:27 SP:FB PPU:  0, 93 CYC:31",
        "C735  EA        NOP                             A:00 X:00 Y:00 P:27 SP:FB PPU:  0,102 CYC:34",
        "C736  18        CLC                             A:00 X:00 Y:00 P:27 SP:FB PPU:  0,108 CYC:36",
        "C737  B0 03     BCS $C73C                       A:00 X:00 Y:00 P:26 SP:FB PPU:  0,114 CYC:38",
        "C739  4C 40 C7  JMP $C740                       A:00 X:00 Y:00 P:26 SP:FB PPU:  0,120 CYC:40",
        "C740  EA        NOP                             A:00 X:00 Y:00 P:26 SP:FB PPU:  0,129 CYC:43",
    ];
    let mut image = vec![0x4E, 0x45, 0x53, 0x1A, 1, 0, 0, 0, 0, 0, 0, 0, 0, 0, 0, 0];
    image.resize(16 + 16384, 0x02);
    let code: [(usize, &[u8]); 5] = [
        (0x0000, &[0x4C, 0xF5, 0xC5]),
        (0x05F5, &[0xA2, 0x00, 0x86, 0x00, 0x86, 0x10, 0x86, 0x11, 0x20, 0x2D, 0xC7]),
        (0x072D, &[0xEA, 0x38, 0xB0, 0x04]),
        (0x0735, &[0xEA, 0x18, 0xB0, 0x03, 0x4C, 0x40, 0xC7]),
        (0x0740, &[0xEA]),
    ];
    for (offset, bytes) in code {
        image[16 + offset..16 + offset + bytes.len()].copy_from_slice(bytes);
    }
    let mut emulator = Emulator::new(read(&image).unwrap(), Some(0xC000));
    for line in lines {
        let expected = parsed(line).unwrap();
        let entry = emulator.trace_step().unwrap();
        assert_eq!(entry, expected);
        assert_eq!(entry.operand, expected.operand);
    }
    assert!(emulator.trace_step().is_none());
}
