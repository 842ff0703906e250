use nes_core::bus::CpuBus;
use nes_core::cpu::Cpu;
use nes_core::rom::read;
use nes_core::rom::Cartridge;

const C: u8 = 0x01;
const Z: u8 = 0x02;
const I: u8 = 0x04;
const V: u8 = 0x40;
const N: u8 = 0x80;

fn cartridge_with(rom: &[(u16, u8)]) -> Cartridge {
    let mut bytes = vec![0x4E, 0x45, 0x53, 0x1A, 1, 0, 0, 0, 0, 0, 0, 0, 0, 0, 0, 0];
    bytes.resize(16 + 16384, 0);
    for &(address, value) in rom {
        bytes[16 + (address & 0x3FFF) as usize] = value;
    }
    read(&bytes).unwrap()
}

fn machine(start: u16, program: &[u8], ram: &[(u16, u8)], rom: &[(u16, u8)]) -> Cpu {
    let mut bus = CpuBus::new(cartridge_with(rom));
    for (i, &byte) in program.iter().enumerate() {
        bus.write(start + i as u16, byte);
    }
    for &(address, value) in ram {
        bus.write(address, value);
    }
    let mut cpu = Cpu::new(bus);
    cpu.reset(Some(start));
    cpu
}

fn step(cpu: &mut Cpu) -> u8 {
    assert!(cpu.can_step());
    let before = cpu.total_cycles();
    let cycles = cpu.step();
    assert_eq!(cpu.total_cycles(), before + cycles as u64);
    assert_ne!(cpu.p() & 0x20, 0);
    cycles
}

fn run(cpu: &mut Cpu, count: usize) -> u8 {
    let mut last = 0;
    for _ in 0..count {
        last = step(cpu);
    }
    last
}

#[test]
fn new_processor_is_all_zero() {
    let cpu = Cpu::new(CpuBus::new(cartridge_with(&[])));
    assert_eq!((cpu.a(), cpu.x(), cpu.y(), cpu.p(), cpu.sp()), (0, 0, 0, 0, 0));
    assert_eq!(cpu.pc(), 0);
    assert_eq!(cpu.total_cycles(), 0);
}

#[test]
fn reset_reads_the_vector() {
    let mut cpu = Cpu::new(CpuBus::new(cartridge_with(&[(0xFFFC, 0x34), (0xFFFD, 0x12)])));
    cpu.reset(None);
    assert_eq!(cpu.pc(), 0x1234);
    assert_eq!(cpu.sp(), 0xFD);
    assert_eq!(cpu.p(), 0x24);
    assert_eq!(cpu.total_cycles(), 7);
    assert_eq!((cpu.a(), cpu.x(), cpu.y()), (0, 0, 0));
}

#[test]
fn reset_takes_the_given_program_counter() {
    let mut cpu = Cpu::new(CpuBus::new(cartridge_with(&[(0xFFFC, 0x34), (0xFFFD, 0x12)])));
    cpu.reset(Some(0xC000));
    assert_eq!(cpu.pc(), 0xC000);
    assert_eq!(cpu.p(), 0x24);
    assert_eq!(cpu.total_cycles(), 7);
}

#[test]
fn reset_clears_the_registers_again() {
    let mut cpu = machine(0x0600, &[0xA9, 0x55, 0xAA, 0xA8, 0x48], &[], &[]);
    run(&mut cpu, 4);
    assert_eq!((cpu.a(), cpu.x(), cpu.y(), cpu.sp()), (0x55, 0x55, 0x55, 0xFC));
    cpu.reset(Some(0x0700));
    assert_eq!((cpu.a(), cpu.x(), cpu.y(), cpu.sp()), (0, 0, 0, 0xFD));
    assert_eq!(cpu.pc(), 0x0700);
    assert_eq!(cpu.total_cycles(), 7);
    assert_eq!(cpu.peek(0x01FD), 0x55);
}

#[test]
fn jsr_and_rts() {
    let mut cpu = machine(0x0600, &[0x20, 0x09, 0x06], &[(0x0609, 0x60)], &[]);
    assert_eq!(step(&mut cpu), 6);
    assert_eq!(cpu.pc(), 0x0609);
    assert_eq!(cpu.peek(0x01FD), 0x06);
    assert_eq!(cpu.peek(0x01FC), 0x02);
    assert_eq!(cpu.sp(), 0xFB);
    assert_eq!(step(&mut cpu), 6);
    assert_eq!(cpu.pc(), 0x0603);
    assert_eq!(cpu.sp(), 0xFD);
}

#[test]
fn brk_goes_through_the_vector() {
    let mut cpu = machine(0x0500, &[0x00], &[], &[(0xFFFE, 0x00), (0xFFFF, 0x80)]);
    assert_eq!(step(&mut cpu), 8);
    assert_eq!(cpu.pc(), 0x8000);
    assert_eq!(cpu.peek(0x01FD), 0x05);
    assert_eq!(cpu.peek(0x01FC), 0x02);
    assert_eq!(cpu.peek(0x01FB), 0x24 | 0x10);
    assert_ne!(cpu.p() & I, 0);
    assert_eq!(cpu.p(), 0x24);
    assert_eq!(cpu.sp(), 0xFA);
}

#[test]
fn brk_sets_interrupt_disable() {
    // CLI; BRK
    let mut cpu = machine(0x0500, &[0x58, 0x00], &[], &[(0xFFFE, 0x00), (0xFFFF, 0x80)]);
    step(&mut cpu);
    assert_eq!(cpu.p(), 0x20);
    step(&mut cpu);
    assert_eq!(cpu.p(), 0x24);
    assert_eq!(cpu.peek(0x01FB), 0x30);
    assert_eq!(cpu.peek(0x01FC), 0x03);
}

#[test]
fn rti_pulls_status_and_program_counter() {
    // LDA #$06 PHA; LDA #$10 PHA; LDA #$D3 PHA; RTI
    let program = [0xA9, 0x06, 0x48, 0xA9, 0x10, 0x48, 0xA9, 0xD3, 0x48, 0x40];
    let mut cpu = machine(0x0700, &program, &[], &[]);
    assert_eq!(run(&mut cpu, 7), 6);
    assert_eq!(cpu.p(), 0xE3);
    assert_eq!(cpu.pc(), 0x0610);
    assert_eq!(cpu.sp(), 0xFD);
}

#[test]
fn adc_chain() {
    // SEC; ADC #$7F; ADC #$80
    let mut cpu = machine(0x0600, &[0x38, 0x69, 0x7F, 0x69, 0x80], &[], &[]);
    step(&mut cpu);
    assert_eq!(cpu.p(), 0x25);
    assert_eq!(step(&mut cpu), 2);
    assert_eq!(cpu.a(), 0x80);
    assert_eq!(cpu.p() & (N | V | C | Z), N | V);
    step(&mut cpu);
    assert_eq!(cpu.a(), 0x00);
    assert_eq!(cpu.p() & (N | V | C | Z), V | C | Z);
    assert_eq!(cpu.p(), 0x67);
}

#[test]
fn adc_overflow() {
    // LDA #$50; ADC #$50
    let mut cpu = machine(0x0600, &[0xA9, 0x50, 0x69, 0x50], &[], &[]);
    run(&mut cpu, 2);
    assert_eq!(cpu.a(), 0xA0);
    assert_eq!(cpu.p() & (N | V | C | Z), N | V);
    assert_eq!(cpu.p(), 0xE4);
}

#[test]
fn adc_without_overflow_between_different_signs() {
    // LDA #$50; ADC #$D0 -> $120
    let mut cpu = machine(0x0600, &[0xA9, 0x50, 0x69, 0xD0], &[], &[]);
    run(&mut cpu, 2);
    assert_eq!(cpu.a(), 0x20);
    assert_eq!(cpu.p(), 0x24 | C);
}

#[test]
fn adc_ignores_decimal_mode() {
    // SED; LDA #$09; ADC #$01
    let mut cpu = machine(0x0600, &[0xF8, 0xA9, 0x09, 0x69, 0x01], &[], &[]);
    run(&mut cpu, 3);
    assert_eq!(cpu.a(), 0x0A);
    assert_eq!(cpu.p(), 0x2C);
}

#[test]
fn sbc_subtracts_with_borrow() {
    // SEC; LDA #$50; SBC #$10
    let mut cpu = machine(0x0600, &[0x38, 0xA9, 0x50, 0xE9, 0x10], &[], &[]);
    run(&mut cpu, 3);
    assert_eq!(cpu.a(), 0x40);
    assert_eq!(cpu.p(), 0x25);
    // SEC; LDA #$10; SBC #$20
    let mut cpu = machine(0x0600, &[0x38, 0xA9, 0x10, 0xE9, 0x20], &[], &[]);
    run(&mut cpu, 3);
    assert_eq!(cpu.a(), 0xF0);
    assert_eq!(cpu.p(), 0xA4);
    // carry clear borrows one more: LDA #$50; SBC #$10
    let mut cpu = machine(0x0600, &[0xA9, 0x50, 0xE9, 0x10], &[], &[]);
    run(&mut cpu, 2);
    assert_eq!(cpu.a(), 0x3F);
    assert_eq!(cpu.p(), 0x25);
    // signed overflow: SEC; LDA #$80; SBC #$01
    let mut cpu = machine(0x0600, &[0x38, 0xA9, 0x80, 0xE9, 0x01], &[], &[]);
    run(&mut cpu, 3);
    assert_eq!(cpu.a(), 0x7F);
    assert_eq!(cpu.p(), 0x24 | V | C);
}

#[test]
fn adc_then_sec_sbc_restores_accumulator_and_carry() {
    // LDA #$F0; ADC #$20; SEC; SBC #$20
    let mut cpu = machine(0x0600, &[0xA9, 0xF0, 0x69, 0x20, 0x38, 0xE9, 0x20], &[], &[]);
    run(&mut cpu, 2);
    assert_eq!(cpu.a(), 0x10);
    assert_eq!(cpu.p() & C, C);
    run(&mut cpu, 2);
    assert_eq!(cpu.a(), 0xF0);
    assert_eq!(cpu.p() & C, 0);
}

#[test]
fn adc_then_sec_sbc_restores_accumulator_without_carry_out() {
    // LDA #$10; ADC #$20; SEC; SBC #$20
    let mut cpu = machine(0x0600, &[0xA9, 0x10, 0x69, 0x20, 0x38, 0xE9, 0x20], &[], &[]);
    run(&mut cpu, 4);
    assert_eq!(cpu.a(), 0x10);
    assert_eq!(cpu.p() & C, C);
}

#[test]
fn adc_then_sec_sbc_keeps_a_carry_that_came_in() {
    // SEC; ADC #$00; SEC; SBC #$00
    let mut cpu = machine(0x0600, &[0x38, 0x69, 0x00, 0x38, 0xE9, 0x00], &[], &[]);
    run(&mut cpu, 4);
    assert_eq!(cpu.a(), 0x01);
    assert_eq!(cpu.p() & C, C);
}
