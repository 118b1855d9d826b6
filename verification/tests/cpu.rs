use gameboy::machine::bus::Bus;
use gameboy::machine::cartridge::Cartridge;
use gameboy::machine::cpu::{Cpu, CycleInfo};

/// A processor and a bus whose cartridge holds `program` at 0x0100, where execution starts.
fn machine(program: &[u8]) -> (Cpu, Bus) {
    let mut image = vec![0u8; 0x8000];
    image[0x100..0x100 + program.len()].copy_from_slice(program);
    let mut bus = Bus::new([0u8; 256]);
    bus.cartridge = Some(Cartridge::from_rom(image).ok().unwrap());
    (Cpu::new(), bus)
}

fn step(cpu: &mut Cpu, bus: &mut Bus) -> CycleInfo {
    cpu.cycle(bus).unwrap()
}

#[test]
fn cpu_starts_at_cartridge_entry() {
    let (cpu, mut bus) = machine(&[0x00, 0x3E, 0x12]);
    let registers = cpu.registers();
    assert_eq!(registers.pc, 0x100);
    assert_eq!(registers.sp, 0xFFFE);
    let (bytes, address) = cpu.get_next_opcode(&mut bus);
    assert_eq!(bytes, [0x00, 0x3E, 0x12]);
    assert_eq!(address, 0x100);
}

#[test]
fn cpu_arithmetic_and_decimal_adjust() {
    let (mut cpu, mut bus) = machine(&[0x3E, 0x12, 0xC6, 0x34, 0xC6, 0xCA, 0x27]);
    let info = step(&mut cpu, &mut bus);
    assert_eq!(info.registers.a, 0x12);
    assert_eq!(info.opcode_bytes, [0x3E, 0x12, 0xC6]);
    assert_eq!(info.opcode_address, 0x100);
    assert_eq!(info.next_opcode_address, 0x102);
    assert_eq!(info.next_opcode_bytes, [0xC6, 0x34, 0xC6]);

    let info = step(&mut cpu, &mut bus);
    assert_eq!(info.cycle_count, 2);
    assert_eq!(info.registers.a, 0x46);
    assert_eq!(info.registers.f, 0x00);

    let info = step(&mut cpu, &mut bus);
    assert_eq!(info.registers.a, 0x10);
    assert_eq!(info.registers.f, 0x30);

    let info = step(&mut cpu, &mut bus);
    assert_eq!(info.cycle_count, 1);
    assert_eq!(info.registers.a, 0x76);
    assert_eq!(info.registers.f, 0x10);
}

#[test]
fn cpu_stack_call_and_return() {
    let mut program = vec![0x31, 0xFE, 0xFF, 0x01, 0x34, 0x12, 0xC5, 0xD1, 0xCD, 0x10, 0x01, 0x18, 0xFE];
    program.resize(0x10, 0);
    program.push(0xC9);
    let (mut cpu, mut bus) = machine(&program);

    let info = step(&mut cpu, &mut bus);
    assert_eq!(info.cycle_count, 3);
    assert_eq!(info.registers.sp, 0xFFFE);

    let info = step(&mut cpu, &mut bus);
    assert_eq!((info.registers.b, info.registers.c), (0x12, 0x34));

    let info = step(&mut cpu, &mut bus);
    assert_eq!(info.cycle_count, 4);
    assert_eq!(info.registers.sp, 0xFFFC);
    assert_eq!(bus.read(0xFFFC), 0x34);
    assert_eq!(bus.read(0xFFFD), 0x12);

    // 0xD1 selects its register pair by bits 3 and 4, which name HL.
    let info = step(&mut cpu, &mut bus);
    assert_eq!(info.cycle_count, 3);
    assert_eq!(info.registers.sp, 0xFFFE);
    assert_eq!((info.registers.h, info.registers.l), (0x12, 0x34));

    let info = step(&mut cpu, &mut bus);
    assert_eq!(info.cycle_count, 6);
    assert_eq!(info.registers.pc, 0x0110);
    assert_eq!(info.registers.sp, 0xFFFC);
    assert_eq!(bus.read(0xFFFC), 0x0B);
    assert_eq!(bus.read(0xFFFD), 0x01);

    let info = step(&mut cpu, &mut bus);
    assert_eq!(info.cycle_count, 4);
    assert_eq!(info.registers.pc, 0x010B);
    assert_eq!(info.registers.sp, 0xFFFE);

    let info = step(&mut cpu, &mut bus);
    assert_eq!(info.cycle_count, 3);
    assert_eq!(info.registers.pc, 0x010B);
}

#[test]
fn cpu_prefixed_instructions() {
    let (mut cpu, mut bus) = machine(&[0x3E, 0xF0, 0xCB, 0x37, 0xCB, 0x7F, 0xCB, 0x3F, 0x2F, 0x10, 0x00]);
    step(&mut cpu, &mut bus);

    let info = step(&mut cpu, &mut bus);
    assert_eq!(info.registers.a, 0x0F);
    assert_eq!(info.registers.f, 0x00);

    let info = step(&mut cpu, &mut bus);
    assert_eq!(info.registers.a, 0x0F);
    assert_eq!(info.registers.f, 0xA0);

    // The logical right shift sets the carry from bit 0 and leaves A as it was.
    let info = step(&mut cpu, &mut bus);
    assert_eq!(info.registers.a, 0x0F);
    assert_eq!(info.registers.f, 0x10);

    let info = step(&mut cpu, &mut bus);
    assert_eq!(info.registers.a, 0xF0);
    assert_eq!(info.registers.f, 0x70);

    assert!(cpu.cycle(&mut bus).is_none());
}

#[test]
fn cpu_dispatches_an_enabled_interrupt() {
    let (mut cpu, mut bus) = machine(&[0x31, 0xFE, 0xFF, 0x3E, 0x01, 0xE0, 0xFF, 0xE0, 0x0F, 0xFB, 0x00]);
    for _ in 0..5 {
        step(&mut cpu, &mut bus);
    }
    assert_eq!(bus.read(0xFFFF), 0x01);
    assert_eq!(bus.read(0xFF0F) & 0x1F, 0x01);

    let info = step(&mut cpu, &mut bus);
    assert_eq!(info.opcode_address, 0x010A);
    assert_eq!(info.registers.pc, 0x0041);
    assert_eq!(info.registers.sp, 0xFFFC);
    assert_eq!(bus.read(0xFFFC), 0x0A);
    assert_eq!(bus.read(0xFFFD), 0x01);
    assert_eq!(bus.read(0xFF0F) & 0x1F, 0x00);
}

#[test]
fn cpu_interrupt_waits_without_ime() {
    let (mut cpu, mut bus) = machine(&[0x3E, 0x01, 0xE0, 0xFF, 0xE0, 0x0F, 0x00, 0x00]);
    for _ in 0..4 {
        step(&mut cpu, &mut bus);
    }
    let info = step(&mut cpu, &mut bus);
    assert_eq!(info.registers.pc, 0x0108);
    assert_eq!(bus.read(0xFF0F) & 0x1F, 0x01);
}

#[test]
fn cpu_increment_and_decrement_wrap() {
    // ld hl,0xFFFF; inc hl; dec hl; ld b,0xFF; inc b; dec b
    let (mut cpu, mut bus) = machine(&[0x21, 0xFF, 0xFF, 0x23, 0x2B, 0x06, 0xFF, 0x04, 0x05]);
    step(&mut cpu, &mut bus);
    let info = step(&mut cpu, &mut bus);
    assert_eq!((info.registers.h, info.registers.l), (0x00, 0x00));
    let info = step(&mut cpu, &mut bus);
    assert_eq!((info.registers.h, info.registers.l), (0xFF, 0xFF));
    step(&mut cpu, &mut bus);
    let info = step(&mut cpu, &mut bus);
    assert_eq!(info.registers.b, 0x00);
    assert_eq!(info.registers.f & 0x80, 0x80);
    let info = step(&mut cpu, &mut bus);
    assert_eq!(info.registers.b, 0xFF);
    assert_eq!(info.registers.f & 0x40, 0x40);
}

#[test]
fn cpu_loads_through_memory() {
    // ld hl,0xC000; ld a,0x5A; ld [hl+],a; dec hl; ld a,0; ld a,[hl]
    let (mut cpu, mut bus) = machine(&[0x21, 0x00, 0xC0, 0x3E, 0x5A, 0x22, 0x2B, 0x3E, 0x00, 0x7E]);
    for _ in 0..3 {
        step(&mut cpu, &mut bus);
    }
    assert_eq!(bus.read(0xC000), 0x5A);
    let info = step(&mut cpu, &mut bus);
    assert_eq!((info.registers.h, info.registers.l), (0xC0, 0x00));
    step(&mut cpu, &mut bus);
    let info = step(&mut cpu, &mut bus);
    assert_eq!(info.registers.a, 0x5A);
}

#[test]
fn cpu_unknown_opcode_takes_one_cycle() {
    let (mut cpu, mut bus) = machine(&[0xD3]);
    let info = step(&mut cpu, &mut bus);
    assert_eq!(info.cycle_count, 1);
    assert_eq!(info.registers.pc, 0x101);
}
