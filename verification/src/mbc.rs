use vstd::prelude::*;

verus! {

/// A simple memory bank controller: it maps the cartridge ROM and takes writes to the
/// ROM area as commands.
pub trait Mbc {
    fn read(&mut self, rom: &Vec<u8>, address: u16) -> u8
        requires
            address < 0x8000,
            rom@.len() >= 0x8000,
    ;

    fn write(&mut self, rom: &Vec<u8>, address: u16, value: u8)
        requires
            address < 0x8000,
    ;
}

/// The MBC1 controller, reading the ROM without banking.
pub struct Mbc1 {
    ram_enable: bool,
    rom_bank_number: u8,
    ram_bank_number: u8,
    banking_mode: u8,
}

pub ghost struct Mbc1View {
    pub ram_enable: bool,
    pub rom_bank_number: u8,
    pub ram_bank_number: u8,
    pub banking_mode: u8,
}

impl Mbc1View {
    /// Writes to 0x0000 to 0x1FFF enable the RAM exactly when the low nibble is 0xA; to 0x2000
    /// to 0x3FFF set the ROM bank number (5 bits); to 0x4000 to 0x5FFF the RAM bank number (2
    /// bits); to 0x6000 to 0x7FFF the banking mode (1 bit).
    pub open spec fn write_spec(self, address: u16, value: u8) -> Mbc1View {
        if address < 0x2000 {
            Mbc1View { ram_enable: value & 0xF == 0xA, ..self }
        } else if address < 0x4000 {
            Mbc1View { rom_bank_number: value & 0b00011111, ..self }
        } else if address < 0x6000 {
            Mbc1View { ram_bank_number: value & 0b00000011, ..self }
        } else {
            Mbc1View { banking_mode: value & 1, ..self }
        }
    }
}

impl View for Mbc1 {
    type V = Mbc1View;

    closed spec fn view(&self) -> Mbc1View {
        Mbc1View {
            ram_enable: self.ram_enable,
            rom_bank_number: self.rom_bank_number,
            ram_bank_number: self.ram_bank_number,
            banking_mode: self.banking_mode,
        }
    }
}

impl Mbc1 {
    fn new() -> (mbc: Self)
        ensures
            mbc@ == (Mbc1View {
                ram_enable: false,
                rom_bank_number: 0,
                ram_bank_number: 0,
                banking_mode: 0,
            }),
    {
        Self { ram_enable: false, rom_bank_number: 0, ram_bank_number: 0, banking_mode: 0 }
    }
}

impl Mbc for Mbc1 {
    /// The ROM is read directly, without banking.
    fn read(&mut self, rom: &Vec<u8>, address: u16) -> (value: u8)
        ensures
            value == rom@[address as int],
            *final(self) == *old(self),
    {
        match address {
            0x0000..0x4000 => rom[address as usize],
            _ => {
                let address = address;
                rom[address as usize]
            },
        }
    }

    fn write(&mut self, rom: &Vec<u8>, address: u16, value: u8)
        ensures
            final(self)@ == old(self)@.write_spec(address, value),
    {
        match address {
            0x0000..0x2000 => {
                if value & 0xF == 0xA {
                    self.ram_enable = true;
                } else {
                    self.ram_enable = false;
                }
            },
            0x2000..0x4000 => {
                self.rom_bank_number = value & 0b00011111;
            },
            0x4000..0x6000 => {
                self.ram_bank_number = value & 0b00000011;
            },
            _ => {
                self.banking_mode = value & 1;
            },
        }
    }
}

} // verus!
