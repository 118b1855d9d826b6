use gameboy::machine::audio::Apu;
use gameboy::machine::cartridge::{Cartridge, CartridgeError};
use gameboy::machine::graphics::Graphics;
use gameboy::machine::interrupts::Interrupts;
use gameboy::machine::joypad::Joypad;
use gameboy::machine::mbc::{Mbc, Mbc1};
use gameboy::machine::opcodes::{
    decode_cond, decode_r16, decode_r16mem, decode_r16stk, decode_r8, get_cond, get_r16, parse_operand,
    set_r16, Cond, OperandType, R16, R16mem, R16stk, R8,
};
use gameboy::machine::ppu::Ppu;
use gameboy::machine::registers::{Flag, Register16, Register8, Registers};
use gameboy::machine::timer::Timer;
use gameboy::serial::Serial;

#[test]
fn registers_start_at_power_on_values() {
    let r = Registers::new();
    assert_eq!(r.sp, 0xFFFE);
    assert_eq!(r.pc, 0x100);
    assert_eq!(r.get_register16(Register16::AF), 0);
}

#[test]
fn register16_write_then_read() {
    let mut r = Registers::new();
    r.set_register16(Register16::HL, 0xBEEF);
    assert_eq!(r.get_register16(Register16::HL), 0xBEEF);
    assert_eq!(r.h, 0xBE);
    assert_eq!(r.l, 0xEF);
    r.set_register16(Register16::AF, 0x12F0);
    assert_eq!(r.a, 0x12);
    assert_eq!(r.f, 0xF0);
    assert_eq!(r.get_register16(Register16::AF), 0x12F0);
}

#[test]
fn register8_write_then_read() {
    let mut r = Registers::new();
    r.set_register8(Register8::D, 0x42);
    assert_eq!(r.get_register8(Register8::D), 0x42);
    assert_eq!(r.get_register8(Register8::E), 0);
    assert_eq!(r.get_register16(Register16::DE), 0x4200);
}

#[test]
fn flags_set_and_clear_their_own_bit() {
    let mut r = Registers::new();
    r.f = 0x0F;
    r.set_flag(Flag::Zero, true);
    r.set_flag(Flag::Carry, true);
    assert_eq!(r.f, 0x9F);
    assert!(r.get_flag(Flag::Zero));
    assert!(!r.get_flag(Flag::Negative));
    assert!(!r.get_flag(Flag::HalfCarry));
    assert!(r.get_flag(Flag::Carry));
    r.set_flag(Flag::Zero, false);
    assert_eq!(r.f, 0x1F);
}

#[test]
fn operand_fields_decode() {
    assert_eq!(parse_operand(0b01110001, 4, OperandType::R16), 3);
    assert_eq!(parse_operand(0b01110001, 3, OperandType::R8), 6);
    assert_eq!(parse_operand(0b11111111, 0, OperandType::B3), 7);
    assert!(matches!(decode_r8(6), R8::MemoryHL));
    assert!(matches!(decode_r16(3), R16::SP));
    assert!(matches!(decode_r16stk(3), R16stk::AF));
    assert!(matches!(decode_r16mem(2), R16mem::HLI));
    assert!(matches!(decode_cond(1), Cond::Z));
    assert_eq!(R8::MemoryHL.name(), "[hl]");
    assert_eq!(R16mem::HLD.name(), "hl-");
    assert_eq!(Cond::NC.name(), "nc");
}

#[test]
fn conditions_follow_the_flags() {
    let mut r = Registers::new();
    r.set_flag(Flag::Zero, true);
    assert!(get_cond(Cond::Z, &r));
    assert!(!get_cond(Cond::NZ, &r));
    assert!(get_cond(Cond::NC, &r));
    set_r16(R16::BC, 0x0102, &mut r);
    assert_eq!(get_r16(R16::BC, &r), 0x0102);
}

#[test]
fn interrupts_read_back() {
    let mut i = Interrupts::new();
    i.write(0xFFFF, 0x1F);
    i.write(0xFF0F, 0x04);
    assert_eq!(i.read(0xFFFF), 0x1F);
    assert_eq!(i.read(0xFF0F), 0x04);
}

#[test]
fn serial_and_audio_registers_read_back() {
    let mut s = Serial::new();
    s.write(0xFF01, 0x41);
    s.write(0xFF02, 0x81);
    assert_eq!(s.read(0xFF01), 0x41);
    assert_eq!(s.read(0xFF02), 0x81);
    let mut a = Apu::new();
    a.write(0xFF26, 0x80);
    assert_eq!(a.read(0xFF26), 0x80);
    assert_eq!(a.read(0xFF10), 0);
}

#[test]
fn joypad_reads_selected_group() {
    let mut j = Joypad::new();
    // Both groups selected (bits 4 and 5 clear): the action buttons win.
    assert_eq!(j.read(), 0x0F);
    j.a = true;
    assert_eq!(j.read(), 0x0E);
    // Only the direction keys selected.
    j.write(0x20);
    j.right = true;
    j.down = true;
    assert_eq!(j.read(), 0b0110);
    // Nothing selected.
    j.write(0x30);
    assert_eq!(j.read(), 0);
    j.cycle();
    assert_eq!(j.read(), 0);
}

#[test]
fn timer_divider_and_reset() {
    let mut t = Timer::new();
    for _ in 0..256 {
        assert!(!t.cycle());
    }
    assert_eq!(t.read(0xFF04), 1);
    t.write(0xFF04, 0x99);
    assert_eq!(t.read(0xFF04), 0);
}

#[test]
fn timer_counter_overflows_into_reload_and_interrupt() {
    let mut t = Timer::new();
    t.write(0xFF07, 0b101); // enabled, every 16 ticks
    t.write(0xFF05, 0xFE);
    t.write(0xFF06, 0x42);
    for _ in 0..16 {
        assert!(!t.cycle());
    }
    assert_eq!(t.read(0xFF05), 0xFF);
    for _ in 0..15 {
        assert!(!t.cycle());
    }
    assert!(t.cycle());
    assert_eq!(t.read(0xFF05), 0x42);
    assert_eq!(t.read(0xFF07), 0b101);
    assert_eq!(t.read(0xFF06), 0x42);
}

#[test]
fn timer_disabled_counts_nothing() {
    let mut t = Timer::new();
    t.write(0xFF07, 0b001);
    for _ in 0..100 {
        assert!(!t.cycle());
    }
    assert_eq!(t.read(0xFF05), 0);
}

#[test]
fn graphics_registers() {
    let mut g = Graphics::new();
    g.write(0x8000, 0xAA);
    g.write(0xFE9F, 0x55);
    assert_eq!(g.read(0x8000), 0xAA);
    assert_eq!(g.read(0xFE9F), 0x55);
    g.write(0xFF44, 0x10);
    assert_eq!(g.read(0xFF44), 0);
    g.write(0xFF41, 0xFF);
    assert_eq!(g.stat(), 0xFC);
    assert_eq!(g.get_mode(), 0);
    g.write(0xFF40, 0x91);
    assert_eq!(g.lcdc(), 0x91);
    assert_eq!(g.read(0xFF46), 0);
}

#[test]
fn graphics_first_dot_starts_object_search() {
    let mut g = Graphics::new();
    assert!(!g.cycle());
    // Mode 2, and LY == LYC sets bit 2.
    assert_eq!(g.stat(), 0b110);
    assert_eq!(g.get_mode(), 2);
}

#[test]
fn graphics_vertical_blank_once_per_frame() {
    let mut g = Graphics::new();
    let mut interrupts = 0;
    let mut at = 0;
    for dot in 0..(154 * 456) {
        if g.cycle() {
            interrupts += 1;
            at = dot;
        }
    }
    assert_eq!(interrupts, 1);
    assert_eq!(at, 144 * 456 - 1);
    assert_eq!(g.read(0xFF44), 0);
}

#[test]
fn graphics_line_advances_every_456_dots() {
    let mut g = Graphics::new();
    for _ in 0..456 {
        g.cycle();
    }
    assert_eq!(g.read(0xFF44), 1);
    assert_eq!(g.get_mode(), 0);
    g.write(0xFF45, 1);
    g.cycle();
    assert_eq!(g.stat() & 0b100, 0b100);
}

#[test]
fn graphics_draws_background_and_objects() {
    let mut g = Graphics::new();
    g.write(0xFF40, 0x91);
    g.write(0xFF47, 0xE7);
    // Object 0 at the top left corner, tile 1, whose first row is colour 1.
    g.write(0xFE00, 16);
    g.write(0xFE01, 8);
    g.write(0xFE02, 1);
    g.write(0xFE03, 0);
    g.write(0x8010, 0xFF);
    for _ in 0..(154 * 456) {
        g.cycle();
    }
    let pixels = g.pixels();
    for x in 0..8 {
        assert_eq!(pixels[x], 1);
    }
    assert_eq!(pixels[8], 3);
    assert_eq!(pixels[160], 3);
    assert_eq!(pixels[23039], 3);
    assert!(pixels.iter().all(|p| *p < 4));
}

#[test]
fn graphics_background_disabled_draws_zero() {
    let mut g = Graphics::new();
    g.write(0xFF47, 0xFF);
    for _ in 0..(154 * 456) {
        g.cycle();
    }
    assert!(g.pixels().iter().all(|p| *p == 0));
}

#[test]
fn ppu_reads_zero() {
    let mut p = Ppu::new();
    p.write(0x8000, 5);
    p.render();
    assert_eq!(p.read(0x8000), 0);
}

fn rom(kind: u8, ram_code: u8, len: usize) -> Vec<u8> {
    let mut rom = vec![0u8; len];
    if len > 0x149 {
        rom[0x147] = kind;
        rom[0x149] = ram_code;
    }
    rom
}

#[test]
fn cartridge_load_errors() {
    // The cartridge type byte at 0x0147 must be there.
    assert!(matches!(Cartridge::from_rom(vec![0u8; 0x147]), Err(CartridgeError::RomTooSmall)));
    assert!(matches!(Cartridge::from_rom(vec![]), Err(CartridgeError::RomTooSmall)));
    // A type with RAM also needs the RAM size byte at 0x0149.
    let mut short = vec![0u8; 0x149];
    short[0x147] = 3;
    assert!(matches!(Cartridge::from_rom(short), Err(CartridgeError::RomTooSmall)));
    let mut header_only = vec![0u8; 0x148];
    header_only[0x147] = 1;
    assert!(Cartridge::from_rom(header_only).is_ok());
    assert!(matches!(
        Cartridge::from_rom(rom(5, 0, 0x8000)),
        Err(CartridgeError::UnsupportedCartridgeType(5))
    ));
    assert!(matches!(
        Cartridge::from_rom(rom(2, 6, 0xC000)),
        Err(CartridgeError::UnsupportedRamSize(6))
    ));
    // Without RAM the RAM size byte is not looked at.
    assert!(Cartridge::from_rom(rom(1, 6, 0xC000)).is_ok());
}

#[test]
fn cartridge_short_images_load_and_read_ff_past_their_end() {
    let mut image = rom(0, 0, 0x4000);
    image[0x3FFF] = 0x12;
    let mut c = Cartridge::from_rom(image).ok().unwrap();
    assert_eq!(c.read(0x3FFF), 0x12);
    assert_eq!(c.read(0x4000), 0xFF);
    assert_eq!(c.read(0x7FFF), 0xFF);

    let mut image = rom(1, 0, 0x8000);
    image[0x4001] = 0x34;
    let mut c = Cartridge::from_rom(image).ok().unwrap();
    assert_eq!(c.read(0x4001), 0x34);
    c.write(0x2000, 1);
    assert_eq!(c.read(0x4001), 0xFF);
}

#[test]
fn cartridge_without_controller_ignores_writes_below_a000() {
    let mut image = rom(0, 0, 0x8000);
    image[0x0200] = 0x77;
    let mut c = Cartridge::from_rom(image).ok().unwrap();
    c.write(0x0200, 1);
    c.write(0x8000, 2);
    c.write(0x9FFF, 3);
    assert_eq!(c.read(0x0200), 0x77);
    assert_eq!(c.read(0xA000), 0xFF);
}

#[test]
fn cartridge_without_controller() {
    let mut image = rom(0, 0, 0x8000);
    image[0x0100] = 0xC3;
    image[0x7FFF] = 0x99;
    let mut c = Cartridge::from_rom(image).ok().unwrap();
    assert_eq!(c.read(0x0100), 0xC3);
    assert_eq!(c.read(0x7FFF), 0x99);
    assert_eq!(c.read(0xA000), 0xFF);
    c.write(0xA000, 1);
    c.write(0x2000, 1);
    assert_eq!(c.read(0xA000), 0xFF);
    assert_eq!(c.read(0x2000), 0);
    assert!(c.title.is_empty());
}

#[test]
fn cartridge_mbc1_ram_and_banks() {
    let mut image = rom(3, 2, 0xC000);
    image[0x4000] = 0x11;
    image[0x8000] = 0x77;
    let mut c = Cartridge::from_rom(image).ok().unwrap();
    // RAM disabled at first: reads 0 and ignores writes.
    c.write(0xA000, 0x55);
    assert_eq!(c.read(0xA000), 0);
    c.write(0x0000, 0x0A);
    c.write(0xA000, 0x55);
    assert_eq!(c.read(0xA000), 0x55);
    c.write(0x1000, 0x1B);
    assert_eq!(c.read(0xA000), 0);
    c.write(0x0000, 0x3A);
    assert_eq!(c.read(0xA000), 0x55);
    // Bank 0 at first, then bank 1 (any bank number above 1 reads bank 1 too).
    assert_eq!(c.read(0x4000), 0x11);
    c.write(0x2000, 1);
    assert_eq!(c.read(0x4000), 0x77);
    c.write(0x2000, 0x1F);
    assert_eq!(c.read(0x4000), 0x77);
    assert_eq!(c.read(0x0000), 0);
}

#[test]
fn cartridge_mbc1_without_ram_reads_zero() {
    let mut c = Cartridge::from_rom(rom(1, 0, 0xC000)).ok().unwrap();
    c.write(0x0000, 0x0A);
    c.write(0xB000, 0x12);
    assert_eq!(c.read(0xB000), 0);
}

#[test]
fn mbc1_controller_directly() {
    let mut m = Mbc1::new();
    let mut rom = vec![7u8; 0xC000];
    rom[0x4002] = 0x42;
    let mut ram = Some(vec![0u8; 0x2000]);
    m.write(&rom, &mut ram, 0x0000, 0x0A);
    m.write(&rom, &mut ram, 0xA001, 9);
    assert_eq!(m.read(&rom, &ram, 0xA001), 9);
    assert_eq!(ram.as_ref().unwrap()[1], 9);
    assert_eq!(m.read(&rom, &ram, 0x0001), 7);
    assert_eq!(m.read(&rom, &ram, 0x4002), 0x42);
    m.write(&rom, &mut ram, 0x2000, 1);
    assert_eq!(m.read(&rom, &ram, 0x4002), 7);
    m.write(&rom, &mut ram, 0x0000, 0x00);
    assert_eq!(m.read(&rom, &ram, 0xA001), 0);
}

#[test]
fn registers_text_lists_every_register() {
    let mut registers = Registers::new();
    registers.a = 0x01;
    registers.f = 0xB0;
    registers.c = 0x13;
    registers.e = 0xD8;
    registers.h = 0x01;
    registers.l = 0x4D;
    assert_eq!(
        registers.text(),
        "a:01, f:B0, b:00, c:13, d:00, e:D8, h:01, l:4D, sp:FFFE, pc:0100"
    );
}
