use vstd::prelude::*;
use crate::mbc::Mbc1;

verus! {

/// A plain cartridge: the ROM image, and no controller.
pub struct Cartridge {
    rom: Vec<u8>,
    mbc: Option<Mbc1>,
}

impl Cartridge {
    /// The bytes of the ROM image.
    pub closed spec fn rom_spec(&self) -> Seq<u8> {
        self.rom@
    }

    /// Whether the cartridge has a controller.
    pub closed spec fn has_mbc(&self) -> bool {
        self.mbc is Some
    }

    /// The cartridge made of a ROM image, without a controller.
    pub fn from_rom(rom: Vec<u8>) -> (cartridge: Self)
        ensures
            cartridge.rom_spec() == rom@,
            !cartridge.has_mbc(),
    {
        Self { rom, mbc: None }
    }
}

} // verus!
