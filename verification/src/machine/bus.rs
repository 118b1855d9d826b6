use vstd::prelude::*;
use crate::machine::audio::{Apu, ApuView};
use crate::machine::cartridge::{Cartridge, CartridgeView};
use crate::machine::graphics::{Graphics, GraphicsView};
use crate::machine::interrupts::Interrupts;
use crate::machine::joypad::{Joypad, JoypadView};
use crate::machine::timer::{Timer, TimerView};
use crate::serial::{Serial, SerialView};

verus! {

/// The memory bus: it maps the 16-bit address space onto the boot ROM, the cartridge, the work
/// and high RAM, and the registers of the other components.
pub struct Bus {
    pub boot_rom: [u8; 256],
    pub boot_rom_mapped: bool,
    pub wram: [u8; 8192],
    pub hram: [u8; 127],
    pub cartridge: Option<Cartridge>,
    pub graphics: Graphics,
    pub interrupts: Interrupts,
    pub joypad: Joypad,
    pub timer: Timer,
    pub serial: Serial,
    pub audio: Apu,
}

#[verifier::ext_equal]
pub ghost struct BusView {
    pub boot_rom: Seq<u8>,
    /// Whether the boot ROM still covers addresses 0x0000 to 0x00FF.
    pub boot_rom_mapped: bool,
    pub wram: Seq<u8>,
    pub hram: Seq<u8>,
    pub cartridge: Option<CartridgeView>,
    pub graphics: GraphicsView,
    pub interrupts: Interrupts,
    pub joypad: JoypadView,
    pub timer: TimerView,
    pub serial: SerialView,
    pub audio: ApuView,
}

impl BusView {
    pub open spec fn inv(self) -> bool {
        &&& self.boot_rom.len() == 256
        &&& self.wram.len() == 8192
        &&& self.hram.len() == 127
        &&& self.audio.registers.len() == 48
        &&& self.graphics.inv()
        &&& self.cartridge matches Some(c) ==> c.inv()
    }

    /// What a read of the cartridge area gives: the cartridge's answer, or 0 without one.
    pub open spec fn cartridge_read(self, address: u16) -> u8 {
        match self.cartridge {
            Some(c) => c.read_spec(address),
            None => 0,
        }
    }

    /// The value read at an address of the I/O area (0xFF00 to 0xFF7F); unmapped registers
    /// read 0.
    #[verifier::opaque]
    pub open spec fn read_io_spec(self, address: u16) -> u8 {
        if address == 0xFF00 {
            self.joypad.read_spec()
        } else if 0xFF01 <= address <= 0xFF02 {
            self.serial.read_spec(address)
        } else if 0xFF04 <= address <= 0xFF07 {
            self.timer.read_spec(address)
        } else if address == 0xFF0F {
            self.interrupts.flag
        } else if 0xFF10 <= address <= 0xFF3F {
            self.audio.read_spec(address)
        } else if 0xFF40 <= address <= 0xFF4B {
            self.graphics.read_spec(address)
        } else {
            0
        }
    }

    /// The value read at `address`. While the boot ROM is mapped it covers 0x0000 to 0x00FF.
    /// 0xE000 to 0xFDFF mirrors the work RAM; 0xFEA0 to 0xFEFF reads 0xFF.
    #[verifier::opaque]
    pub open spec fn read_spec(self, address: u16) -> u8 {
        if self.boot_rom_mapped && address < 0x100 {
            self.boot_rom[address as int]
        } else if address < 0x8000 {
            self.cartridge_read(address)
        } else if address < 0xA000 {
            self.graphics.read_spec(address)
        } else if address < 0xC000 {
            self.cartridge_read(address)
        } else if address < 0xE000 {
            self.wram[address - 0xC000]
        } else if address < 0xFE00 {
            self.wram[address - 0xE000]
        } else if address < 0xFEA0 {
            self.graphics.read_spec(address)
        } else if address < 0xFF00 {
            0xFF
        } else if address < 0xFF80 {
            self.read_io_spec(address)
        } else if address < 0xFFFF {
            self.hram[address - 0xFF80]
        } else {
            self.interrupts.enable
        }
    }

    /// A write to the cartridge area goes to the cartridge, if there is one.
    pub open spec fn cartridge_write(self, address: u16, value: u8) -> BusView {
        match self.cartridge {
            Some(c) => BusView { cartridge: Some(c.write_spec(address, value)), ..self },
            None => self,
        }
    }

    /// The OAM DMA transfer: the 160 bytes read from `value * 0x100` onwards are copied into the
    /// object attribute memory.
    #[verifier::opaque]
    pub open spec fn dma_spec(self, value: u8) -> BusView {
        let start = value as int * 0x100;
        BusView {
            graphics: GraphicsView {
                object_attribute_memory: Seq::new(
                    160,
                    |i: int| self.read_spec((start + i) as u16),
                ),
                ..self.graphics
            },
            ..self
        }
    }

    /// A write to the I/O area (0xFF00 to 0xFF7F). A write to 0xFF46 starts the OAM DMA
    /// transfer, a write to 0xFF50 unmaps the boot ROM, and writes to unmapped registers are
    /// ignored.
    #[verifier::opaque]
    pub open spec fn write_io_spec(self, address: u16, value: u8) -> BusView {
        if address == 0xFF00 {
            BusView { joypad: self.joypad.write_spec(value), ..self }
        } else if 0xFF01 <= address <= 0xFF02 {
            BusView { serial: self.serial.write_spec(address, value), ..self }
        } else if 0xFF04 <= address <= 0xFF07 {
            BusView { timer: self.timer.write_spec(address, value), ..self }
        } else if address == 0xFF0F {
            BusView { interrupts: self.interrupts.write_spec(address, value), ..self }
        } else if 0xFF10 <= address <= 0xFF3F {
            BusView { audio: self.audio.write_spec(address, value), ..self }
        } else if address == 0xFF46 {
            self.dma_spec(value)
        } else if 0xFF40 <= address <= 0xFF4B {
            BusView { graphics: self.graphics.write_spec(address, value), ..self }
        } else if address == 0xFF50 {
            BusView { boot_rom_mapped: false, ..self }
        } else {
            self
        }
    }

    /// The bus after `value` is written at `address`. Writes to the boot ROM while it is mapped,
    /// and to 0xFEA0 to 0xFEFF, are ignored; 0xE000 to 0xFDFF mirrors the work RAM.
    #[verifier::opaque]
    pub open spec fn write_spec(self, address: u16, value: u8) -> BusView {
        if self.boot_rom_mapped && address < 0x100 {
            self
        } else if address < 0x8000 {
            self.cartridge_write(address, value)
        } else if address < 0xA000 {
            BusView { graphics: self.graphics.write_spec(address, value), ..self }
        } else if address < 0xC000 {
            self.cartridge_write(address, value)
        } else if address < 0xE000 {
            BusView { wram: self.wram.update(address - 0xC000, value), ..self }
        } else if address < 0xFE00 {
            BusView { wram: self.wram.update(address - 0xE000, value), ..self }
        } else if address < 0xFEA0 {
            BusView { graphics: self.graphics.write_spec(address, value), ..self }
        } else if address < 0xFF00 {
            self
        } else if address < 0xFF80 {
            self.write_io_spec(address, value)
        } else if address < 0xFFFF {
            BusView { hram: self.hram.update(address - 0xFF80, value), ..self }
        } else {
            BusView { interrupts: self.interrupts.write_spec(address, value), ..self }
        }
    }
}

/// The bus at power-on, with the boot ROM mapped and no cartridge.
pub open spec fn initial_bus(boot_rom: Seq<u8>) -> BusView {
    BusView {
        boot_rom,
        boot_rom_mapped: true,
        wram: Seq::new(8192, |i: int| 0u8),
        hram: Seq::new(127, |i: int| 0u8),
        cartridge: None,
        graphics: GraphicsView::initial(),
        interrupts: Interrupts { enable: 0, flag: 0 },
        joypad: JoypadView {
            register: 0,
            buttons: crate::machine::joypad::JoypadState {
                start: false,
                select: false,
                b: false,
                a: false,
                down: false,
                up: false,
                left: false,
                right: false,
            },
        },
        timer: TimerView::initial(),
        serial: SerialView { data: 0, control: 0 },
        audio: ApuView { registers: Seq::new(48, |i: int| 0u8) },
    }
}

/// The addresses backed by RAM on the bus: the work RAM, its mirror, and the high RAM.
pub open spec fn is_ram_address(address: u16) -> bool {
    0xC000 <= address < 0xFE00 || 0xFF80 <= address < 0xFFFF
}

/// The RAM cell behind a RAM address: an index into the work RAM (the mirror at 0xE000 names
/// the same cells as 0xC000), or 0x2000 plus an index into the high RAM.
pub open spec fn ram_cell(address: u16) -> int {
    if address < 0xE000 {
        address - 0xC000
    } else if address < 0xFE00 {
        address - 0xE000
    } else {
        0x2000 + (address - 0xFF80)
    }
}

/// A read of RAM gives back the byte that was last written at that address.
pub proof fn lemma_ram_read_after_write(bus: BusView, address: u16, value: u8)
    requires
        bus.inv(),
        is_ram_address(address),
    ensures
        bus.write_spec(address, value).read_spec(address) == value,
        bus.write_spec(address, value).inv(),
{
    reveal(BusView::read_spec);
    reveal(BusView::write_spec);
}

/// A write to RAM changes the reads of its own cell only: every other address, RAM or not,
/// reads as before.
pub proof fn lemma_ram_write_frame(bus: BusView, address: u16, other: u16, value: u8)
    requires
        bus.inv(),
        is_ram_address(address),
        !(is_ram_address(other) && ram_cell(other) == ram_cell(address)),
    ensures
        bus.write_spec(address, value).read_spec(other) == bus.read_spec(other),
{
    reveal(BusView::read_spec);
    reveal(BusView::write_spec);
    reveal(BusView::read_io_spec);
}

/// The area at 0xE000 to 0xFDFF mirrors the work RAM: a write on either side is read on the
/// other.
pub proof fn lemma_echo_mirror(bus: BusView, offset: u16, value: u8)
    requires
        bus.inv(),
        offset < 0x1E00,
    ensures
        bus.write_spec((0xE000 + offset) as u16, value).read_spec((0xC000 + offset) as u16) == value,
        bus.write_spec((0xC000 + offset) as u16, value).read_spec((0xE000 + offset) as u16) == value,
{
    reveal(BusView::read_spec);
    reveal(BusView::write_spec);
}

/// While the boot ROM is mapped it answers reads at 0x0000 to 0x00FF and ignores writes there;
/// a write to 0xFF50 unmaps it for good.
pub proof fn lemma_boot_rom(bus: BusView, address: u16, value: u8)
    requires
        bus.boot_rom_mapped,
        address < 0x100,
    ensures
        bus.read_spec(address) == bus.boot_rom[address as int],
        bus.write_spec(address, value) == bus,
        !bus.write_spec(0xFF50, value).boot_rom_mapped,
        !bus.write_spec(0xFF50, value).write_spec(address, value).boot_rom_mapped,
{
    reveal(BusView::read_spec);
    reveal(BusView::write_spec);
    reveal(BusView::write_io_spec);
}

/// The interrupt registers and the timer's reload and control registers read back what was
/// written; a write to DIV resets it to 0.
pub proof fn lemma_registers_read_after_write(bus: BusView, value: u8)
    ensures
        bus.write_spec(0xFFFF, value).read_spec(0xFFFF) == value,
        bus.write_spec(0xFF0F, value).read_spec(0xFF0F) == value,
        bus.write_spec(0xFF06, value).read_spec(0xFF06) == value,
        bus.write_spec(0xFF07, value).read_spec(0xFF07) == value,
        bus.write_spec(0xFF04, value).read_spec(0xFF04) == 0,
{
    reveal(BusView::read_spec);
    reveal(BusView::write_spec);
    reveal(BusView::read_io_spec);
    reveal(BusView::write_io_spec);
}

/// A write to 0xFF46 copies the 160 bytes from `value * 0x100` onwards into the object attribute
/// memory, where they are read at 0xFE00 onwards.
pub proof fn lemma_dma_copies(bus: BusView, value: u8, i: u16)
    requires
        bus.inv(),
        i < 160,
    ensures
        bus.write_spec(0xFF46, value).read_spec((0xFE00 + i) as u16) == bus.read_spec(
            (value as int * 0x100 + i) as u16,
        ),
{
    reveal(BusView::read_spec);
    reveal(BusView::write_spec);
    reveal(BusView::write_io_spec);
    reveal(BusView::dma_spec);
}

impl View for Bus {
    type V = BusView;

    open spec fn view(&self) -> BusView {
        BusView {
            boot_rom: self.boot_rom@,
            boot_rom_mapped: self.boot_rom_mapped,
            wram: self.wram@,
            hram: self.hram@,
            cartridge: match self.cartridge {
                Some(c) => Some(c@),
                None => None,
            },
            graphics: self.graphics@,
            interrupts: self.interrupts,
            joypad: self.joypad@,
            timer: self.timer@,
            serial: self.serial@,
            audio: self.audio@,
        }
    }
}

impl Bus {
    /// The bus at power-on, with `boot_rom` mapped at 0x0000.
    pub fn new(boot_rom: [u8; 256]) -> (bus: Self)
        ensures
            bus@ == initial_bus(boot_rom@),
            bus@.inv(),
    {
        let bus = Self {
            boot_rom,
            boot_rom_mapped: true,
            wram: [0u8; 8192],
            hram: [0u8; 127],
            cartridge: None,
            graphics: Graphics::new(),
            interrupts: Interrupts::new(),
            joypad: Joypad::new(),
            timer: Timer::new(),
            serial: Serial::new(),
            audio: Apu::new(),
        };
        assert(bus@ =~= initial_bus(boot_rom@));
        bus
    }

    pub fn read(&mut self, address: u16) -> (value: u8)
        requires
            old(self)@.inv(),
        ensures
            value == old(self)@.read_spec(address),
            *final(self) == *old(self),
    {
        proof {
            reveal(BusView::read_spec);
        }
        if self.boot_rom_mapped && address < 0x100 {
            return self.boot_rom[address as usize];
        }

        match address {
            0x0000..0x8000 => {
                if let Some(cartridge) = &mut self.cartridge {
                    cartridge.read(address)
                } else {
                    0
                }
            },
            0x8000..0xA000 => self.graphics.read(address),
            0xA000..0xC000 => {
                if let Some(cartridge) = &mut self.cartridge {
                    cartridge.read(address)
                } else {
                    0
                }
            },
            0xC000..0xE000 => self.wram[(address - 0xC000) as usize],
            0xE000..0xFE00 => self.wram[(address - 0xE000) as usize],
            0xFE00..0xFEA0 => self.graphics.read(address),
            0xFEA0..0xFF00 => 0xFF,
            0xFF00..0xFF80 => self.read_io(address),
            0xFF80..0xFFFF => self.hram[(address - 0xFF80) as usize],
            _ => self.interrupts.read(address),
        }
    }

    pub fn write(&mut self, address: u16, value: u8)
        requires
            old(self)@.inv(),
        ensures
            final(self)@ == old(self)@.write_spec(address, value),
            final(self)@.inv(),
        decreases
            if address == 0xFF46 {
                5int
            } else {
                2int
            },
    {
        proof {
            reveal(BusView::write_spec);
        }
        if self.boot_rom_mapped && address < 0x100 {
            return;
        }

        match address {
            0x0000..0x8000 => {
                if let Some(cartridge) = &mut self.cartridge {
                    cartridge.write(address, value);
                }
            },
            0x8000..0xA000 => self.graphics.write(address, value),
            0xA000..0xC000 => {
                if let Some(cartridge) = &mut self.cartridge {
                    cartridge.write(address, value)
                }
            },
            0xC000..0xE000 => self.wram[(address - 0xC000) as usize] = value,
            0xE000..0xFE00 => self.wram[(address - 0xE000) as usize] = value,
            0xFE00..0xFEA0 => self.graphics.write(address, value),
            0xFEA0..0xFF00 => (),
            0xFF00..0xFF80 => self.write_io(address, value),
            0xFF80..0xFFFF => self.hram[(address - 0xFF80) as usize] = value,
            _ => self.interrupts.write(address, value),
        }
    }

    fn read_io(&self, address: u16) -> (value: u8)
        requires
            self@.inv(),
            0xFF00 <= address < 0xFF80,
        ensures
            value == self@.read_io_spec(address),
    {
        proof {
            reveal(BusView::read_io_spec);
        }
        match address {
            0xFF00 => self.joypad.read(),
            0xFF01..=0xFF02 => self.serial.read(address),
            0xFF04..=0xFF07 => self.timer.read(address),
            0xFF0F => self.interrupts.read(address),
            0xFF10..=0xFF3F => self.audio.read(address),
            0xFF40..=0xFF4B => self.graphics.read(address),
            _ => 0,
        }
    }

    fn write_io(&mut self, address: u16, value: u8)
        requires
            old(self)@.inv(),
            0xFF00 <= address < 0xFF80,
        ensures
            final(self)@ == old(self)@.write_io_spec(address, value),
            final(self)@.inv(),
        decreases
            if address == 0xFF46 {
                4int
            } else {
                1int
            },
    {
        proof {
            reveal(BusView::write_io_spec);
        }
        match address {
            0xFF00 => self.joypad.write(value),
            0xFF01..=0xFF02 => self.serial.write(address, value),
            0xFF04..=0xFF07 => self.timer.write(address, value),
            0xFF0F => self.interrupts.write(address, value),
            0xFF10..=0xFF3F => self.audio.write(address, value),
            0xFF40..=0xFF45 => self.graphics.write(address, value),
            0xFF46 => self.oam_dma_transfer(value),
            0xFF47..=0xFF4B => self.graphics.write(address, value),
            0xFF50 => self.boot_rom_mapped = false,  // Boot ROM mapping
            _ => (),
        }
    }

    fn oam_dma_transfer(&mut self, value: u8)
        requires
            old(self)@.inv(),
        ensures
            final(self)@ == old(self)@.dma_spec(value),
            final(self)@.inv(),
        decreases 3int,
    {
        proof {
            reveal(BusView::dma_spec);
            reveal(BusView::read_spec);
            reveal(BusView::write_spec);
        }
        let start = (value as u16) << 8;
        assert(start == value as int * 0x100) by (bit_vector)
            requires
                start == (value as u16) << 8,
        ;
        let ghost original = self@;

        let mut i: u16 = 0;
        while i < 160
            invariant
                0 <= i <= 160,
                start == value as int * 0x100,
                original == old(self)@,
                original.inv(),
                self@.inv(),
                self@ == (BusView {
                    graphics: GraphicsView {
                        object_attribute_memory: Seq::new(
                            160,
                            |j: int|
                                if j < i {
                                    original.read_spec((start + j) as u16)
                                } else {
                                    original.graphics.object_attribute_memory[j]
                                },
                        ),
                        ..original.graphics
                    },
                    ..original
                }),
            decreases 160 - i,
        {
            proof {
                reveal(BusView::read_spec);
                reveal(BusView::read_io_spec);
                reveal(BusView::write_spec);
            }
            let value = self.read(start + i);
            assert(value == original.read_spec((start + i) as u16));
            self.write(0xFE00 + i, value);
            i += 1;
            assert(self@.graphics.object_attribute_memory =~= Seq::new(
                160,
                |j: int|
                    if j < i {
                        original.read_spec((start + j) as u16)
                    } else {
                        original.graphics.object_attribute_memory[j]
                    },
            ));
        }
        assert(self@ =~= original.dma_spec(value));
    }
}

} // verus!
