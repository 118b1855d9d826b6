use gameboy::cartridge::Cartridge as PlainCartridge;
use gameboy::interrupts::Interrupts as PlainInterrupts;
use gameboy::joypad::Joypad as PlainJoypad;
use gameboy::memory::Memory;
use gameboy::registers::{
    Flag, Registers as PlainRegisters, CARRY_FLAG_BIT, HALF_CARRY_FLAG_BIT, SUBTRACTION_FLAG_BIT,
    ZERO_FLAG_BIT,
};

#[test]
fn plain_registers_pairs() {
    let mut registers = PlainRegisters::new();
    assert_eq!(registers.bc(), 0);
    registers.b = 0x12;
    registers.c = 0x34;
    registers.d = 0xAB;
    registers.e = 0xCD;
    registers.h = 0xFF;
    registers.l = 0x01;
    assert_eq!(registers.bc(), 0x1234);
    assert_eq!(registers.de(), 0xABCD);
    assert_eq!(registers.hl(), 0xFF01);
}

#[test]
fn plain_registers_flags_start_clear() {
    let registers = PlainRegisters::new();
    assert!(!registers.zero());
    assert!(!registers.subtraction());
    assert!(!registers.half_carry());
    assert!(!registers.carry());
    assert!(!registers.get_flag(Flag::Zero));
    assert!(!registers.get_flag(Flag::Carry));
    assert_eq!(
        (ZERO_FLAG_BIT, SUBTRACTION_FLAG_BIT, HALF_CARRY_FLAG_BIT, CARRY_FLAG_BIT),
        (7, 6, 5, 4)
    );
}

#[test]
fn plain_memory_read_after_write() {
    let mut memory = Memory::new();
    for (address, value) in [(0x8000u16, 1u8), (0x9FFF, 2), (0xC000, 3), (0xDFFF, 4), (0xFE00, 5), (0xFE9F, 6), (0xFF80, 7), (0xFFFE, 8), (0xFFFF, 9)] {
        memory.write(address, value);
        assert_eq!(memory.read(address), value);
    }
    assert_eq!(memory.read(0xA000), 0);
    assert_eq!(memory.read(0xFEA0), 0);
}

#[test]
fn plain_memory_starts_zeroed() {
    let memory = Memory::new();
    assert_eq!(memory.read(0x8123), 0);
    assert_eq!(memory.read(0xC456), 0);
    assert_eq!(memory.read(0xFFFF), 0);
}

#[test]
fn plain_joypad_keeps_select_bits() {
    let mut joypad = PlainJoypad::new();
    assert_eq!(joypad.read(), 0);
    joypad.write(0xFF);
    assert_eq!(joypad.read(), 0x30);
    joypad.write(0x1F);
    assert_eq!(joypad.read(), 0x10);
}

#[test]
fn plain_interrupts_read_zero() {
    let mut interrupts = PlainInterrupts::new();
    interrupts.write(0x1F);
    interrupts.enabled = 0x1F;
    interrupts.handle();
    assert_eq!(interrupts.read(), 0);
    assert_eq!(interrupts.enabled, 0x1F);
}

#[test]
fn plain_cartridge_from_rom() {
    let _cartridge = PlainCartridge::from_rom(vec![0u8; 0x8000]);
}
