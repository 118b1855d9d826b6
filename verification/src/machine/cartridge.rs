use vstd::prelude::*;
use crate::machine::mbc::{Mbc, Mbc1, Mbc1View, is_cartridge_address, ram_view, read_rom, rom_byte};

verus! {

/// A game cartridge: its ROM, its optional external RAM and its optional memory bank
/// controller.
pub struct Cartridge {
    pub title: String,
    pub rom: Vec<u8>,
    ram: Option<Vec<u8>>,
    mbc: Option<Mbc1>,
}

pub ghost struct CartridgeView {
    pub title: Seq<char>,
    pub rom: Seq<u8>,
    pub ram: Option<Seq<u8>>,
    pub mbc: Option<Mbc1View>,
}

/// Why a ROM image cannot be loaded as a cartridge.
#[derive(Clone, Copy, Debug)]
pub enum CartridgeError {
    /// The image is too short to hold the header bytes that are read: the cartridge type
    /// (0x0147) and, for a type with RAM, the RAM size (0x0149).
    RomTooSmall,
    /// The cartridge type byte (0x0147) names no supported controller.
    UnsupportedCartridgeType(u8),
    /// The RAM size byte (0x0149) names no RAM size.
    UnsupportedRamSize(u8),
}

/// The number of 8 KiB RAM banks for the RAM size byte of the header, where it names one.
pub open spec fn ram_bank_count(code: u8) -> Option<nat> {
    if code == 0 || code == 1 {
        Some(0)
    } else if code == 2 {
        Some(1)
    } else if code == 3 {
        Some(4)
    } else if code == 4 {
        Some(16)
    } else if code == 5 {
        Some(8)
    } else {
        None
    }
}

/// The cartridge type byte of a ROM image.
pub open spec fn cartridge_type(rom: Seq<u8>) -> u8 {
    rom[0x0147]
}

/// Whether the cartridge type has a controller (types 1 to 3, MBC1) and RAM (types 2 and 3).
pub open spec fn type_has_mbc(kind: u8) -> bool {
    1 <= kind <= 3
}

pub open spec fn type_has_ram(kind: u8) -> bool {
    kind == 2 || kind == 3
}

/// The reason, if any, why `rom` cannot be loaded.
pub open spec fn load_error(rom: Seq<u8>) -> Option<CartridgeError> {
    if rom.len() <= 0x0147 {
        Some(CartridgeError::RomTooSmall)
    } else if cartridge_type(rom) > 3 {
        Some(CartridgeError::UnsupportedCartridgeType(cartridge_type(rom)))
    } else if type_has_ram(cartridge_type(rom)) && rom.len() <= 0x0149 {
        Some(CartridgeError::RomTooSmall)
    } else if type_has_ram(cartridge_type(rom)) && ram_bank_count(rom[0x0149]) is None {
        Some(CartridgeError::UnsupportedRamSize(rom[0x0149]))
    } else {
        None
    }
}

/// The cartridge loaded from `rom` (where `load_error(rom)` is `None`): a controller for types
/// 1 to 3, and zeroed RAM of the header's size for types 2 and 3 (none when that size is 0).
pub open spec fn loaded(rom: Seq<u8>) -> CartridgeView {
    let kind = cartridge_type(rom);
    let banks = if type_has_ram(kind) { ram_bank_count(rom[0x0149])->0 } else { 0 };
    CartridgeView {
        title: Seq::empty(),
        rom,
        ram: if banks == 0 { None } else { Some(Seq::new(banks * 8192, |i: int| 0u8)) },
        mbc: if type_has_mbc(kind) { Some(Mbc1View::initial()) } else { None },
    }
}

impl CartridgeView {
    /// RAM, where present, covers the RAM area.
    pub open spec fn inv(self) -> bool {
        self.ram matches Some(r) ==> r.len() >= 0x2000
    }

    /// With a controller, the controller decides; without one, the ROM is read directly (0xFF
    /// past the end of the image) and the RAM area reads the RAM where it holds the address,
    /// else 0xFF.
    pub open spec fn read_spec(self, address: u16) -> u8 {
        match self.mbc {
            Some(mbc) => mbc.read_spec(self.rom, self.ram, address),
            None => if address < 0x8000 {
                rom_byte(self.rom, address as int)
            } else {
                let index = address - 0xA000;
                match self.ram {
                    Some(ram) => if index < ram.len() {
                        ram[index]
                    } else {
                        0xFF
                    },
                    None => 0xFF,
                }
            },
        }
    }

    /// With a controller, the controller decides; without one, writes to the ROM area are
    /// ignored and writes to the RAM area are stored where the RAM holds the address.
    pub open spec fn write_spec(self, address: u16, value: u8) -> CartridgeView {
        match self.mbc {
            Some(mbc) => {
                let (mbc, ram) = mbc.write_spec(self.ram, address, value);
                CartridgeView { mbc: Some(mbc), ram, ..self }
            },
            None => if address < 0xA000 {
                self
            } else {
                let index = address - 0xA000;
                match self.ram {
                    Some(ram) => if index < ram.len() {
                        CartridgeView { ram: Some(ram.update(index, value)), ..self }
                    } else {
                        self
                    },
                    None => self,
                }
            },
        }
    }
}

impl View for Cartridge {
    type V = CartridgeView;

    closed spec fn view(&self) -> CartridgeView {
        CartridgeView {
            title: self.title@,
            rom: self.rom@,
            ram: ram_view(self.ram),
            mbc: match self.mbc {
                Some(mbc) => Some(mbc@),
                None => None,
            },
        }
    }
}

impl Cartridge {
    /// Loads a cartridge from the bytes of a ROM image.
    pub fn from_rom(rom: Vec<u8>) -> (result: Result<Cartridge, CartridgeError>)
        ensures
            match result {
                Ok(cartridge) => load_error(rom@) is None && cartridge@ == loaded(rom@)
                    && cartridge@.inv(),
                Err(error) => load_error(rom@) == Some(error),
            },
    {
        if rom.len() <= 0x0147 {
            return Err(CartridgeError::RomTooSmall);
        }
        let kind = rom[0x0147];
        let (mbc, has_ram): (Option<Mbc1>, bool) = match kind {
            0x00 => (None, false),
            0x01 => (Some(Mbc1::new()), false),
            0x02 => (Some(Mbc1::new()), true),
            0x03 => (Some(Mbc1::new()), true),
            _ => {
                return Err(CartridgeError::UnsupportedCartridgeType(kind));
            },
        };

        if has_ram && rom.len() <= 0x0149 {
            return Err(CartridgeError::RomTooSmall);
        }

        let ram_bank_count: usize = if has_ram {
            match rom[0x0149] {
                0x00 => 0,
                0x01 => 0,
                0x02 => 1,
                0x03 => 4,
                0x04 => 16,
                0x05 => 8,
                code => {
                    return Err(CartridgeError::UnsupportedRamSize(code));
                },
            }
        } else {
            0
        };

        let ram = if ram_bank_count == 0 {
            None
        } else {
            let ram: Vec<u8> = vec![0u8; ram_bank_count * 8192];
            assert(ram@ =~= Seq::new((ram_bank_count * 8192) as nat, |i: int| 0u8));
            Some(ram)
        };

        let cartridge = Self { title: String::new(), rom, ram, mbc };
        assert(cartridge@ =~= loaded(cartridge.rom@));
        Ok(cartridge)
    }

    pub fn read(&mut self, address: u16) -> (value: u8)
        requires
            old(self)@.inv(),
            is_cartridge_address(address),
        ensures
            value == old(self)@.read_spec(address),
            *final(self) == *old(self),
    {
        match &mut self.mbc {
            Some(mbc) => mbc.read(&self.rom, &self.ram, address),
            None => if address < 0x8000 {
                read_rom(&self.rom, address as usize)
            } else {
                let index = (address - 0xA000) as usize;
                match &self.ram {
                    Some(ram) => if index < ram.len() {
                        ram[index]
                    } else {
                        0xFF
                    },
                    None => 0xFF,
                }
            },
        }
    }

    pub fn write(&mut self, address: u16, value: u8)
        requires
            old(self)@.inv(),
            address < 0xC000,
            old(self)@.mbc is Some ==> is_cartridge_address(address),
        ensures
            final(self)@ == old(self)@.write_spec(address, value),
            final(self)@.inv(),
    {
        match &mut self.mbc {
            Some(mbc) => mbc.write(&self.rom, &mut self.ram, address, value),
            None => if address >= 0xA000 {
                let index = (address - 0xA000) as usize;
                match &mut self.ram {
                    Some(ram) => if index < ram.len() {
                        ram[index] = value;
                    },
                    None => {},
                }
            },
        }
    }
}

} // verus!
