use vstd::prelude::*;

verus! {

/// The sound registers (0xFF10 to 0xFF3F), held as written.
pub struct Apu {
    registers: [u8; 48],
}

pub ghost struct ApuView {
    pub registers: Seq<u8>,
}

/// The addresses at which the sound registers are mapped.
pub open spec fn is_audio_address(address: u16) -> bool {
    0xFF10 <= address <= 0xFF3F
}

impl ApuView {
    pub open spec fn read_spec(self, address: u16) -> u8 {
        self.registers[address - 0xFF10]
    }

    pub open spec fn write_spec(self, address: u16, value: u8) -> ApuView {
        ApuView { registers: self.registers.update(address - 0xFF10, value) }
    }
}

impl View for Apu {
    type V = ApuView;

    closed spec fn view(&self) -> ApuView {
        ApuView { registers: self.registers@ }
    }
}

impl Apu {
    pub fn new() -> (apu: Self)
        ensures
            apu@.registers == Seq::new(48, |i: int| 0u8),
    {
        let apu = Self { registers: [0u8; 48] };
        assert(apu@.registers =~= Seq::new(48, |i: int| 0u8));
        apu
    }

    pub fn read(&self, address: u16) -> (value: u8)
        requires
            is_audio_address(address),
        ensures
            value == self@.read_spec(address),
    {
        self.registers[(address - 0xFF10) as usize]
    }

    pub fn write(&mut self, address: u16, value: u8)
        requires
            is_audio_address(address),
        ensures
            final(self)@ == old(self)@.write_spec(address, value),
    {
        self.registers[(address - 0xFF10) as usize] = value;
    }
}

} // verus!
