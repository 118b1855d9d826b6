use vstd::prelude::*;

verus! {

/// The interrupt enable (IE, 0xFFFF) and interrupt flag (IF, 0xFF0F) registers.
pub struct Interrupts {
    pub enable: u8,
    pub flag: u8,
}

/// The addresses at which the interrupt registers are mapped.
pub open spec fn is_interrupt_address(address: u16) -> bool {
    address == 0xFFFF || address == 0xFF0F
}

impl Interrupts {
    /// The value read at `address`.
    pub open spec fn read_spec(self, address: u16) -> u8 {
        if address == 0xFFFF {
            self.enable
        } else {
            self.flag
        }
    }

    /// The registers after `value` is written at `address`.
    pub open spec fn write_spec(self, address: u16, value: u8) -> Interrupts {
        if address == 0xFFFF {
            Interrupts { enable: value, ..self }
        } else {
            Interrupts { flag: value, ..self }
        }
    }

    pub fn new() -> (interrupts: Self)
        ensures
            interrupts.enable == 0,
            interrupts.flag == 0,
    {
        Self { enable: 0, flag: 0 }
    }

    pub fn read(&self, address: u16) -> (value: u8)
        requires
            is_interrupt_address(address),
        ensures
            value == self.read_spec(address),
    {
        match address {
            0xFFFF => self.enable,
            _ => self.flag,
        }
    }

    pub fn write(&mut self, address: u16, value: u8)
        requires
            is_interrupt_address(address),
        ensures
            *final(self) == old(self).write_spec(address, value),
    {
        match address {
            0xFFFF => self.enable = value,
            _ => self.flag = value,
        }
    }
}

} // verus!
