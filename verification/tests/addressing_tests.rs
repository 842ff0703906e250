use nes_core::bus::CpuBus;
use nes_core::cpu::Cpu;
use nes_core::rom::read;
use nes_core::rom::Cartridge;

const C: u8 = 0x01;
const Z: u8 = 0x02;
const I: u8 = 0x04;
const V: u8 = 0x40;
const N: u8 = 0x80;

fn rom_with(rom: &[(u16, u8)]) -> Cartridge {
    let mut bytes = vec![0x4E, 0x45, 0x53, 0x1A, 1, 0, 0, 0, 0, 0, 0, 0, 0, 0, 0, 0];
    bytes.resize(16 + 16384, 0);
    for &(address, value) in rom {
        bytes[16 + (address & 0x3FFF) as usize] = value;
    }
    read(&bytes).unwrap()
}

fn setup(start: u16, program: &[u8], ram: &[(u16, u8)], rom: &[(u16, u8)]) -> Cpu {
    let mut bus = CpuBus::new(rom_with(rom));
    for (i, &byte) in program.iter().enumerate() {
        bus.write(start + i as u16, byte);
    }
    for &(address, value) in ram {
        bus.write(address, value);
    }
    let mut cpu = Cpu::new(bus);
    cpu.reset(Some(start));
    cpu
}

fn tick(cpu: &mut Cpu) -> u8 {
    assert!(cpu.can_step());
    let before = cpu.total_cycles();
    let cycles = cpu.step();
    assert_eq!(cpu.total_cycles(), before + cycles as u64);
    assert_ne!(cpu.p() & 0x20, 0);
    cycles
}

fn ticks(cpu: &mut Cpu, count: usize) -> u8 {
    let mut last = 0;
    for _ in 0..count {
        last = tick(cpu);
    }
    last
}

#[test]
fn zeropage_index_wraps() {
    // LDX #$01; LDA $FF,X
    let mut cpu = setup(0x0600, &[0xA2, 0x01, 0xB5, 0xFF], &[(0x0000, 0xAB), (0x0100, 0xCD)], &[]);
    tick(&mut cpu);
    assert_eq!(tick(&mut cpu), 4);
    assert_eq!(cpu.a(), 0xAB);
}

#[test]
fn zeropage_y_index_wraps() {
    // LDY #$02; LDX $FF,Y; STX $FF,Y
    let mut cpu = setup(0x0600, &[0xA0, 0x02, 0xB6, 0xFF, 0x96, 0xFE], &[(0x0001, 0x5D)], &[]);
    tick(&mut cpu);
    assert_eq!(tick(&mut cpu), 4);
    assert_eq!(cpu.x(), 0x5D);
    assert_eq!(tick(&mut cpu), 4);
    assert_eq!(cpu.peek(0x0000), 0x5D);
}

#[test]
fn indirect_jump_wraps_within_the_page() {
    let ram = [(0x02FF, 0x80), (0x0200, 0x50), (0x0300, 0x40)];
    let mut cpu = setup(0x0600, &[0x6C, 0xFF, 0x02], &ram, &[]);
    assert_eq!(tick(&mut cpu), 5);
    assert_eq!(cpu.pc(), 0x5080);
}

#[test]
fn indirect_jump_inside_a_page() {
    let ram = [(0x0210, 0x34), (0x0211, 0x12)];
    let mut cpu = setup(0x0600, &[0x6C, 0x10, 0x02], &ram, &[]);
    tick(&mut cpu);
    assert_eq!(cpu.pc(), 0x1234);
}

#[test]
fn absolute_jump() {
    let mut cpu = setup(0x0600, &[0x4C, 0x34, 0x12], &[], &[]);
    assert_eq!(tick(&mut cpu), 3);
    assert_eq!(cpu.pc(), 0x1234);
    assert_eq!(cpu.sp(), 0xFD);
}

#[test]
fn indirect_x_pointer_wraps_in_zeropage() {
    // LDX #$FF; LDA ($80,X): pointer at $7F, $80
    let ram = [(0x007F, 0x34), (0x0080, 0x02), (0x0234, 0x99)];
    let mut cpu = setup(0x0600, &[0xA2, 0xFF, 0xA1, 0x80], &ram, &[]);
    tick(&mut cpu);
    assert_eq!(tick(&mut cpu), 6);
    assert_eq!(cpu.a(), 0x99);
}

#[test]
fn indirect_x_pointer_at_the_end_of_zeropage() {
    // LDA ($FF,X) with X = 0: pointer at $FF, $00
    let ram = [(0x00FF, 0x34), (0x0000, 0x02), (0x0100, 0x07), (0x0234, 0x77), (0x0734, 0x11)];
    let mut cpu = setup(0x0600, &[0xA1, 0xFF], &ram, &[]);
    tick(&mut cpu);
    assert_eq!(cpu.a(), 0x77);
}

#[test]
fn indirect_y_pays_for_a_page_cross_on_reads() {
    // LDY #$01; LDA ($10),Y
    let ram = [(0x0010, 0xFF), (0x0011, 0x02), (0x0300, 0x5A)];
    let mut cpu = setup(0x0600, &[0xA0, 0x01, 0xB1, 0x10], &ram, &[]);
    assert_eq!(tick(&mut cpu), 2);
    assert_eq!(tick(&mut cpu), 6);
    assert_eq!(cpu.a(), 0x5A);
    // no index, no cross
    let ram = [(0x0010, 0xFF), (0x0011, 0x02), (0x02FF, 0x3C)];
    let mut cpu = setup(0x0600, &[0xB1, 0x10], &ram, &[]);
    assert_eq!(tick(&mut cpu), 5);
    assert_eq!(cpu.a(), 0x3C);
}

#[test]
fn indirect_y_store_never_pays() {
    // LDY #$01; LDA #$77; STA ($10),Y
    let ram = [(0x0010, 0xFF), (0x0011, 0x02)];
    let mut cpu = setup(0x0600, &[0xA0, 0x01, 0xA9, 0x77, 0x91, 0x10], &ram, &[]);
    assert_eq!(ticks(&mut cpu, 3), 6);
    assert_eq!(cpu.peek(0x0300), 0x77);
    let ram = [(0x0010, 0x00), (0x0011, 0x03)];
    let mut cpu = setup(0x0600, &[0xA0, 0x01, 0xA9, 0x78, 0x91, 0x10], &ram, &[]);
    assert_eq!(ticks(&mut cpu, 3), 6);
    assert_eq!(cpu.peek(0x0301), 0x78);
}

#[test]
fn indirect_y_pointer_wraps_in_zeropage() {
    // LDA ($FF),Y with Y = 0: pointer at $FF, $00
    let ram = [(0x00FF, 0x40), (0x0000, 0x03), (0x0100, 0x07), (0x0340, 0x66)];
    let mut cpu = setup(0x0600, &[0xB1, 0xFF], &ram, &[]);
    assert_eq!(tick(&mut cpu), 5);
    assert_eq!(cpu.a(), 0x66);
}

#[test]
fn absolute_x_pays_for_a_page_cross_on_reads() {
    // LDX #$01; LDA $02FF,X
    let mut cpu = setup(0x0600, &[0xA2, 0x01, 0xBD, 0xFF, 0x02], &[(0x0300, 0x21)], &[]);
    tick(&mut cpu);
    assert_eq!(tick(&mut cpu), 5);
    assert_eq!(cpu.a(), 0x21);
    assert_eq!(cpu.pc(), 0x0605);
    // LDX #$01; LDA $0300,X
    let mut cpu = setup(0x0600, &[0xA2, 0x01, 0xBD, 0x00, 0x03], &[(0x0301, 0x22)], &[]);
    tick(&mut cpu);
    assert_eq!(tick(&mut cpu), 4);
    assert_eq!(cpu.a(), 0x22);
}

#[test]
fn absolute_y_pays_for_a_page_cross_on_reads() {
    // LDY #$80; LDA $0280,Y
    let mut cpu = setup(0x0600, &[0xA0, 0x80, 0xB9, 0x80, 0x02], &[(0x0300, 0x23)], &[]);
    tick(&mut cpu);
    assert_eq!(tick(&mut cpu), 5);
    assert_eq!(cpu.a(), 0x23);
    // LDY #$7F; LDA $0280,Y
    let mut cpu = setup(0x0600, &[0xA0, 0x7F, 0xB9, 0x80, 0x02], &[(0x02FF, 0x24)], &[]);
    tick(&mut cpu);
    assert_eq!(tick(&mut cpu), 4);
    assert_eq!(cpu.a(), 0x24);
}

#[test]
fn absolute_indexed_writes_never_pay() {
    // LDX #$01; LDY #$01; LDA #$5E; STA $02FF,X; STA $03FF,Y; INC $02FF,X; ASL $02FF,X
    let program = [
        0xA2, 0x01, 0xA0, 0x01, 0xA9, 0x5E, 0x9D, 0xFF, 0x02, 0x99, 0xFF, 0x03, 0xFE, 0xFF, 0x02,
        0x1E, 0xFF, 0x02,
    ];
    let mut cpu = setup(0x0600, &program, &[], &[]);
    ticks(&mut cpu, 3);
    assert_eq!(tick(&mut cpu), 5);
    assert_eq!(cpu.peek(0x0300), 0x5E);
    assert_eq!(tick(&mut cpu), 5);
    assert_eq!(cpu.peek(0x0400), 0x5E);
    assert_eq!(tick(&mut cpu), 7);
    assert_eq!(cpu.peek(0x0300), 0x5F);
    assert_eq!(tick(&mut cpu), 7);
    assert_eq!(cpu.peek(0x0300), 0xBE);
    // the same without a cross
    let mut cpu = setup(0x0600, &[0xA2, 0x01, 0x9D, 0x00, 0x03, 0xFE, 0x00, 0x03], &[], &[]);
    tick(&mut cpu);
    assert_eq!(tick(&mut cpu), 5);
    assert_eq!(tick(&mut cpu), 7);
    assert_eq!(cpu.peek(0x0301), 0x01);
}

#[test]
fn absolute_index_wraps_at_the_top_of_memory() {
    // LDX #$02; LDA $FFFF,X reads $0001
    let mut cpu = setup(0x0600, &[0xA2, 0x02, 0xBD, 0xFF, 0xFF], &[(0x0001, 0x4D)], &[]);
    tick(&mut cpu);
    assert_eq!(tick(&mut cpu), 5);
    assert_eq!(cpu.a(), 0x4D);
}

#[test]
fn branch_not_taken_takes_two_cycles() {
    // BEQ +16 with Zero clear
    let mut cpu = setup(0x0600, &[0xF0, 0x10], &[], &[]);
    assert_eq!(tick(&mut cpu), 2);
    assert_eq!(cpu.pc(), 0x0602);
}

#[test]
fn branch_taken_takes_three_cycles() {
    // BNE +16 with Zero clear
    let mut cpu = setup(0x0600, &[0xD0, 0x10], &[], &[]);
    assert_eq!(tick(&mut cpu), 3);
    assert_eq!(cpu.pc(), 0x0612);
    // BNE -4 inside the page
    let mut cpu = setup(0x0610, &[0xD0, 0xFC], &[], &[]);
    assert_eq!(tick(&mut cpu), 3);
    assert_eq!(cpu.pc(), 0x060E);
}

#[test]
fn branch_to_another_page_takes_four_cycles() {
    // BNE +127 from $06F0
    let mut cpu = setup(0x06F0, &[0xD0, 0x7F], &[], &[]);
    assert_eq!(tick(&mut cpu), 4);
    assert_eq!(cpu.pc(), 0x0771);
    // BNE -4 from $0600
    let mut cpu = setup(0x0600, &[0xD0, 0xFC], &[], &[]);
    assert_eq!(tick(&mut cpu), 4);
    assert_eq!(cpu.pc(), 0x05FE);
    // BNE -128
    let mut cpu = setup(0x0600, &[0xD0, 0x80], &[], &[]);
    assert_eq!(tick(&mut cpu), 4);
    assert_eq!(cpu.pc(), 0x0582);
}

#[test]
fn branch_is_measured_from_the_next_instruction() {
    // at $06FE the next instruction lies at $0700: a target there is no cross
    let mut cpu = setup(0x06FE, &[0xD0, 0x02], &[], &[]);
    assert_eq!(tick(&mut cpu), 3);
    assert_eq!(cpu.pc(), 0x0702);
    let mut cpu = setup(0x06FE, &[0xD0, 0xFE], &[], &[]);
    assert_eq!(tick(&mut cpu), 4);
    assert_eq!(cpu.pc(), 0x06FE);
}

#[test]
fn each_branch_tests_its_flag() {
    // after reset every tested flag is clear
    for (opcode, taken) in [
        (0x10u8, true),
        (0x30, false),
        (0x50, true),
        (0x70, false),
        (0x90, true),
        (0xB0, false),
        (0xD0, true),
        (0xF0, false),
    ] {
        let mut cpu = setup(0x0600, &[opcode, 0x04], &[], &[]);
        assert_eq!(tick(&mut cpu), if taken { 3 } else { 2 });
        assert_eq!(cpu.pc(), if taken { 0x0606 } else { 0x0602 });
    }
    // SEC; LDA #$80 sets Carry and Negative; ADC #$80 then sets Overflow and Zero
    for (opcode, taken) in [
        (0x10u8, false),
        (0x30, true),
        (0x90, false),
        (0xB0, true),
    ] {
        let mut cpu = setup(0x0600, &[0x38, 0xA9, 0x80, opcode, 0x04], &[], &[]);
        ticks(&mut cpu, 2);
        assert_eq!(tick(&mut cpu), if taken { 3 } else { 2 });
        assert_eq!(cpu.pc(), if taken { 0x0609 } else { 0x0605 });
    }
    for (opcode, taken) in [
        (0x50u8, false),
        (0x70, true),
        (0xD0, false),
        (0xF0, true),
    ] {
        let mut cpu = setup(0x0600, &[0xA9, 0x80, 0x69, 0x80, opcode, 0x04], &[], &[]);
        ticks(&mut cpu, 2);
        assert_eq!(cpu.p(), 0x24 | V | Z | C);
        assert_eq!(tick(&mut cpu), if taken { 3 } else { 2 });
        assert_eq!(cpu.pc(), if taken { 0x060A } else { 0x0606 });
    }
}

#[test]
fn program_counter_moves_past_the_operand() {
    // NOP; LDA #$01; LDA $10; LDA $0300; ASL A; STA $0300,X; CLC
    let program = [0xEA, 0xA9, 0x01, 0xA5, 0x10, 0xAD, 0x00, 0x03, 0x0A, 0x9D, 0x00, 0x03, 0x18];
    let mut cpu = setup(0x0600, &program, &[], &[]);
    let mut expected = 0x0600;
    for length in [1u16, 2, 2, 3, 1, 3, 1] {
        tick(&mut cpu);
        expected += length;
        assert_eq!(cpu.pc(), expected);
    }
}

#[test]
fn program_counter_wraps_at_the_top_of_memory() {
    // the cartridge holds NOP at $FFFF
    let mut cpu = setup(0x0600, &[], &[], &[(0xFFFF, 0xEA)]);
    cpu.reset(Some(0xFFFF));
    assert_eq!(tick(&mut cpu), 2);
    assert_eq!(cpu.pc(), 0x0000);
}

#[test]
fn cycles_add_up() {
    // LDA #$01 (2); STA $10 (3); INC $10 (5); JMP $0600 (3); LDA #$01 (2)
    let program = [0xA9, 0x01, 0x85, 0x10, 0xE6, 0x10, 0x4C, 0x00, 0x06];
    let mut cpu = setup(0x0600, &program, &[], &[]);
    let mut total = 7;
    for expected in [2u8, 3, 5, 3, 2] {
        assert_eq!(tick(&mut cpu), expected);
        total += expected as u64;
        assert_eq!(cpu.total_cycles(), total);
    }
    assert_eq!(cpu.total_cycles(), 22);
}

#[test]
fn undocumented_opcode_cannot_be_stepped() {
    let mut cpu = setup(0x0600, &[0xEA, 0x02], &[], &[]);
    assert!(cpu.can_step());
    cpu.step();
    assert!(!cpu.can_step());
    assert_eq!(cpu.pc(), 0x0601);
    assert_eq!(cpu.peek(cpu.pc()), 0x02);
}
