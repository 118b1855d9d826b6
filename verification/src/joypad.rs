use vstd::prelude::*;

verus! {

/// A bare joypad register: it keeps only the two select bits of a write.
pub struct Joypad {
    register: u8,
}

impl View for Joypad {
    type V = u8;

    closed spec fn view(&self) -> u8 {
        self.register
    }
}

impl Joypad {
    pub fn new() -> (joypad: Self)
        ensures
            joypad@ == 0,
    {
        Self { register: 0 }
    }

    pub fn read(&self) -> (value: u8)
        ensures
            value == self@,
    {
        self.register
    }

    pub fn write(&mut self, value: u8)
        ensures
            final(self)@ == value & 0b00110000,
    {
        self.register = value & 0b00110000;
    }
}

} // verus!
