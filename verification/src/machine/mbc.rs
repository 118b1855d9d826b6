use vstd::prelude::*;

verus! {

/// The addresses at which a cartridge answers: its ROM (0x0000 to 0x7FFF) and its external RAM
/// (0xA000 to 0xBFFF).
pub open spec fn is_cartridge_address(address: u16) -> bool {
    address < 0x8000 || 0xA000 <= address < 0xC000
}

/// The contents of the optional external RAM.
pub open spec fn ram_view(ram: Option<Vec<u8>>) -> Option<Seq<u8>> {
    match ram {
        Some(ram) => Some(ram@),
        None => None,
    }
}

/// The byte of a ROM image at `index`; an image too short to hold it reads 0xFF there.
pub open spec fn rom_byte(rom: Seq<u8>, index: int) -> u8 {
    if 0 <= index < rom.len() {
        rom[index]
    } else {
        0xFF
    }
}

/// Reads the byte of a ROM image at `index`, 0xFF past its end.
pub fn read_rom(rom: &Vec<u8>, index: usize) -> (value: u8)
    ensures
        value == rom_byte(rom@, index as int),
{
    if index < rom.len() {
        rom[index]
    } else {
        0xFF
    }
}

/// A memory bank controller: the chip of a cartridge that maps its ROM and RAM into the address
/// space and takes writes to the ROM area as commands.
pub trait Mbc {
    fn read(&mut self, rom: &Vec<u8>, ram: &Option<Vec<u8>>, address: u16) -> u8
        requires
            is_cartridge_address(address),
            ram_view(*ram) matches Some(r) ==> r.len() >= 0x2000,
    ;

    fn write(&mut self, rom: &Vec<u8>, ram: &mut Option<Vec<u8>>, address: u16, value: u8)
        requires
            is_cartridge_address(address),
            ram_view(*old(ram)) matches Some(r) ==> r.len() >= 0x2000,
    ;
}

/// The MBC1 controller.
pub struct Mbc1 {
    ram_enabled: bool,
    rom_bank_number: u8,
    ram_bank_number: u8,
    banking_mode: u8,
}

pub ghost struct Mbc1View {
    pub ram_enabled: bool,
    pub rom_bank_number: u8,
    pub ram_bank_number: u8,
    pub banking_mode: u8,
}

impl Mbc1View {
    pub open spec fn initial() -> Mbc1View {
        Mbc1View { ram_enabled: false, rom_bank_number: 0, ram_bank_number: 0, banking_mode: 0 }
    }

    /// The ROM bank mapped at 0x4000 to 0x7FFF: the smaller of the bank number and 1.
    pub open spec fn upper_bank(self) -> int {
        if self.rom_bank_number < 1 {
            self.rom_bank_number as int
        } else {
            1
        }
    }

    /// Bank 0 is read at 0x0000 to 0x3FFF, the upper bank at 0x4000 to 0x7FFF, and the RAM at
    /// 0xA000 to 0xBFFF when it is enabled and present (else 0).
    pub open spec fn read_spec(self, rom: Seq<u8>, ram: Option<Seq<u8>>, address: u16) -> u8 {
        if address < 0x4000 {
            rom_byte(rom, address as int)
        } else if address < 0x8000 {
            rom_byte(rom, self.upper_bank() * 0x4000 + address)
        } else if self.ram_enabled && ram is Some {
            ram->0[address - 0xA000]
        } else {
            0
        }
    }

    /// Writes to 0x0000 to 0x1FFF enable the RAM exactly when the low nibble is 0xA; to 0x2000
    /// to 0x3FFF set the ROM bank number (5 bits); to 0x4000 to 0x5FFF the RAM bank number (2
    /// bits); to 0x6000 to 0x7FFF the banking mode (1 bit); to 0xA000 to 0xBFFF store into the
    /// RAM when it is enabled and present.
    pub open spec fn write_spec(self, ram: Option<Seq<u8>>, address: u16, value: u8) -> (
        Mbc1View,
        Option<Seq<u8>>,
    ) {
        if address < 0x2000 {
            (Mbc1View { ram_enabled: value & 0xF == 0xA, ..self }, ram)
        } else if address < 0x4000 {
            (Mbc1View { rom_bank_number: value & 0b00011111, ..self }, ram)
        } else if address < 0x6000 {
            (Mbc1View { ram_bank_number: value & 0b00000011, ..self }, ram)
        } else if address < 0x8000 {
            (Mbc1View { banking_mode: value & 1, ..self }, ram)
        } else if self.ram_enabled && ram is Some {
            (self, Some(ram->0.update(address - 0xA000, value)))
        } else {
            (self, ram)
        }
    }
}

/// Writing to 0x0000 to 0x1FFF enables the RAM exactly when the low nibble of the value is 0xA.
pub proof fn lemma_ram_enable(mbc: Mbc1View, ram: Option<Seq<u8>>, address: u16, value: u8)
    requires
        address < 0x2000,
    ensures
        mbc.write_spec(ram, address, value).0.ram_enabled == (value & 0xF == 0xA),
        mbc.write_spec(ram, address, value).1 == ram,
{
}

/// With the RAM enabled and present, a read of the RAM area gives back the byte last written
/// there; bank 0 is always read at 0x0000 to 0x3FFF.
pub proof fn lemma_ram_read_after_write(
    mbc: Mbc1View,
    rom: Seq<u8>,
    ram: Seq<u8>,
    address: u16,
    value: u8,
)
    requires
        mbc.ram_enabled,
        0xA000 <= address < 0xC000,
        ram.len() >= 0x2000,
    ensures
        ({
            let (mbc2, ram2) = mbc.write_spec(Some(ram), address, value);
            mbc2.read_spec(rom, ram2, address) == value
        }),
        forall|a: u16| a < 0x4000 ==> #[trigger] mbc.read_spec(rom, Some(ram), a) == rom_byte(rom, a as int),
{
}

impl View for Mbc1 {
    type V = Mbc1View;

    closed spec fn view(&self) -> Mbc1View {
        Mbc1View {
            ram_enabled: self.ram_enabled,
            rom_bank_number: self.rom_bank_number,
            ram_bank_number: self.ram_bank_number,
            banking_mode: self.banking_mode,
        }
    }
}

impl Mbc1 {
    pub fn new() -> (mbc: Self)
        ensures
            mbc@ == Mbc1View::initial(),
    {
        Self { ram_enabled: false, rom_bank_number: 0, ram_bank_number: 0, banking_mode: 0 }
    }
}

impl Mbc for Mbc1 {
    fn read(&mut self, rom: &Vec<u8>, ram: &Option<Vec<u8>>, address: u16) -> (value: u8)
        ensures
            value == old(self)@.read_spec(rom@, ram_view(*ram), address),
            *final(self) == *old(self),
    {
        match address {
            0x0000..0x4000 => read_rom(rom, address as usize),
            0x4000..0x8000 => {
                let bank_number = self.rom_bank_number.min(1);
                read_rom(rom, ((bank_number as u16) * 0x4000 + address) as usize)
            },
            _ => {
                if self.ram_enabled {
                    match ram {
                        Some(ram) => ram[(address - 0xA000) as usize],
                        None => 0,
                    }
                } else {
                    0  // maybe not?

                }
            },
        }
    }

    fn write(&mut self, rom: &Vec<u8>, ram: &mut Option<Vec<u8>>, address: u16, value: u8)
        ensures
            (final(self)@, ram_view(*final(ram))) == old(self)@.write_spec(
                ram_view(*old(ram)),
                address,
                value,
            ),
    {
        match address {
            0x0000..0x2000 => {
                if value & 0xF == 0xA {
                    self.ram_enabled = true;
                } else {
                    self.ram_enabled = false;
                }
            },
            0x2000..0x4000 => {
                self.rom_bank_number = value & 0b00011111;
            },
            0x4000..0x6000 => {
                self.ram_bank_number = value & 0b00000011;
            },
            0x6000..0x8000 => {
                self.banking_mode = value & 1;
            },
            _ => {
                if self.ram_enabled {
                    match ram {
                        Some(ram) => {
                            ram[(address - 0xA000) as usize] = value;
                        },
                        None => {},
                    }
                }
            },
        }
    }
}

} // verus!
