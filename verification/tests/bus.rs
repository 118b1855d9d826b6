use gameboy::machine::bus::Bus;
use gameboy::machine::cartridge::Cartridge;

fn boot_rom() -> [u8; 256] {
    let mut rom = [0u8; 256];
    for (i, byte) in rom.iter_mut().enumerate() {
        *byte = i as u8;
    }
    rom
}

#[test]
fn bus_boot_rom_is_mapped_until_ff50_is_written() {
    let mut bus = Bus::new(boot_rom());
    let mut image = vec![0u8; 0x8000];
    image[0x0010] = 0x99;
    image[0x0100] = 0x42;
    bus.cartridge = Some(Cartridge::from_rom(image).ok().unwrap());
    assert_eq!(bus.read(0x0010), 0x10);
    assert_eq!(bus.read(0x0100), 0x42);
    // Writes to the mapped boot ROM are ignored.
    bus.write(0x0010, 0x55);
    assert_eq!(bus.read(0x0010), 0x10);
    bus.write(0xFF50, 1);
    assert!(!bus.boot_rom_mapped);
    assert_eq!(bus.read(0x0010), 0x99);
}

#[test]
fn bus_without_cartridge_reads_zero() {
    let mut bus = Bus::new([0u8; 256]);
    assert_eq!(bus.read(0x0150), 0);
    assert_eq!(bus.read(0xA000), 0);
    bus.write(0x2000, 1);
    assert_eq!(bus.read(0x4000), 0);
}

#[test]
fn bus_work_ram_and_its_mirror() {
    let mut bus = Bus::new([0u8; 256]);
    bus.write(0xC123, 0xAB);
    assert_eq!(bus.read(0xC123), 0xAB);
    assert_eq!(bus.read(0xE123), 0xAB);
    bus.write(0xFDFF, 0x77);
    assert_eq!(bus.read(0xDDFF), 0x77);
    bus.write(0xDFFF, 0x01);
    assert_eq!(bus.read(0xDFFF), 0x01);
}

#[test]
fn bus_high_ram_and_interrupt_registers() {
    let mut bus = Bus::new([0u8; 256]);
    bus.write(0xFF80, 0x12);
    bus.write(0xFFFE, 0x34);
    assert_eq!(bus.read(0xFF80), 0x12);
    assert_eq!(bus.read(0xFFFE), 0x34);
    bus.write(0xFFFF, 0x1F);
    assert_eq!(bus.read(0xFFFF), 0x1F);
    assert_eq!(bus.interrupts.enable, 0x1F);
    bus.write(0xFF0F, 0x05);
    assert_eq!(bus.read(0xFF0F), 0x05);
    assert_eq!(bus.interrupts.flag, 0x05);
}

#[test]
fn bus_unusable_area_and_unmapped_registers() {
    let mut bus = Bus::new([0u8; 256]);
    bus.write(0xFEA0, 0x12);
    assert_eq!(bus.read(0xFEA0), 0xFF);
    assert_eq!(bus.read(0xFEFF), 0xFF);
    bus.write(0xFF7F, 0x12);
    assert_eq!(bus.read(0xFF7F), 0);
    assert_eq!(bus.read(0xFF70), 0);
    assert_eq!(bus.read(0xFF03), 0);
}

#[test]
fn bus_video_and_object_memory() {
    let mut bus = Bus::new([0u8; 256]);
    bus.write(0x8000, 0x3C);
    bus.write(0x9FFF, 0x7E);
    assert_eq!(bus.read(0x8000), 0x3C);
    assert_eq!(bus.read(0x9FFF), 0x7E);
    bus.write(0xFE00, 0x10);
    bus.write(0xFE9F, 0x20);
    assert_eq!(bus.read(0xFE00), 0x10);
    assert_eq!(bus.read(0xFE9F), 0x20);
}

#[test]
fn bus_registers_of_components() {
    let mut bus = Bus::new([0u8; 256]);
    bus.write(0xFF01, 0x41);
    assert_eq!(bus.read(0xFF01), 0x41);
    bus.write(0xFF06, 0x80);
    assert_eq!(bus.read(0xFF06), 0x80);
    bus.write(0xFF24, 0x77);
    assert_eq!(bus.read(0xFF24), 0x77);
    bus.write(0xFF42, 0x15);
    assert_eq!(bus.read(0xFF42), 0x15);
    bus.write(0xFF45, 0x90);
    assert_eq!(bus.read(0xFF45), 0x90);
    // Direction keys selected, none held: the low nibble reads all ones.
    bus.write(0xFF00, 0x20);
    assert_eq!(bus.read(0xFF00), 0x0F);
    bus.write(0xFF00, 0x30);
    assert_eq!(bus.read(0xFF00), 0x00);
}

#[test]
fn bus_dma_copies_into_object_memory() {
    let mut bus = Bus::new([0u8; 256]);
    for i in 0..160u16 {
        bus.write(0xC100 + i, (i as u8).wrapping_mul(3));
    }
    bus.write(0xFF46, 0xC1);
    for i in 0..160u16 {
        assert_eq!(bus.read(0xFE00 + i), (i as u8).wrapping_mul(3));
    }
}

#[test]
fn bus_cartridge_ram_through_the_bus() {
    let mut image = vec![0u8; 0xC000];
    image[0x0147] = 0x03;
    image[0x0149] = 0x02;
    let mut bus = Bus::new([0u8; 256]);
    bus.cartridge = Some(Cartridge::from_rom(image).ok().unwrap());
    bus.write(0x1000, 0x0A);
    bus.write(0xA010, 0x66);
    assert_eq!(bus.read(0xA010), 0x66);
}
