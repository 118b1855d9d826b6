use vstd::prelude::*;

verus! {

/// The serial transfer registers: data (SB, 0xFF01) and control (SC, 0xFF02).
pub struct Serial {
    data: u8,
    control: u8,
}

pub ghost struct SerialView {
    pub data: u8,
    pub control: u8,
}

/// The addresses at which the serial registers are mapped.
pub open spec fn is_serial_address(address: u16) -> bool {
    address == 0xFF01 || address == 0xFF02
}

impl SerialView {
    pub open spec fn read_spec(self, address: u16) -> u8 {
        if address == 0xFF01 {
            self.data
        } else {
            self.control
        }
    }

    pub open spec fn write_spec(self, address: u16, value: u8) -> SerialView {
        if address == 0xFF01 {
            SerialView { data: value, ..self }
        } else {
            SerialView { control: value, ..self }
        }
    }
}

impl View for Serial {
    type V = SerialView;

    closed spec fn view(&self) -> SerialView {
        SerialView { data: self.data, control: self.control }
    }
}

impl Serial {
    pub fn new() -> (serial: Self)
        ensures
            serial@ == (SerialView { data: 0, control: 0 }),
    {
        Self { data: 0, control: 0 }
    }

    pub fn read(&self, address: u16) -> (value: u8)
        requires
            is_serial_address(address),
        ensures
            value == self@.read_spec(address),
    {
        match address {
            0xFF01 => self.data,
            _ => self.control,
        }
    }

    pub fn write(&mut self, address: u16, value: u8)
        requires
            is_serial_address(address),
        ensures
            final(self)@ == old(self)@.write_spec(address, value),
    {
        match address {
            0xFF01 => self.data = value,
            _ => self.control = value,
        }
    }
}

} // verus!
