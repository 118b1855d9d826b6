use vstd::prelude::*;
use crate::machine::debug::{hex16_text, hex8_text, push_hex16, push_hex8};

verus! {

/// An 8-bit register of the CPU.
#[derive(Clone, Copy, Debug)]
pub enum Register8 {
    A,
    F,
    B,
    C,
    D,
    E,
    H,
    L,
}

/// A 16-bit register of the CPU, or a pair of 8-bit registers read as one.
#[derive(Clone, Copy, Debug)]
pub enum Register16 {
    AF,
    BC,
    DE,
    HL,
    SP,
    PC,
}

/// A flag held in the upper nibble of register F.
#[derive(Clone, Copy, Debug)]
pub enum Flag {
    Zero,
    Negative,
    HalfCarry,
    Carry,
}

/// The register file of the CPU.
#[derive(Clone, Copy, Debug)]
pub struct Registers {
    pub a: u8,
    pub f: u8,
    pub b: u8,
    pub c: u8,
    pub d: u8,
    pub e: u8,
    pub h: u8,
    pub l: u8,
    pub sp: u16,
    pub pc: u16,
}

/// The bit of register F that holds `flag`.
pub open spec fn flag_mask(flag: Flag) -> u8 {
    match flag {
        Flag::Zero => 0x80,
        Flag::Negative => 0x40,
        Flag::HalfCarry => 0x20,
        Flag::Carry => 0x10,
    }
}

/// The 16-bit value whose high byte is `high` and whose low byte is `low`.
pub open spec fn word(high: u8, low: u8) -> u16 {
    (high as int * 256 + low as int) as u16
}

/// The high byte of a 16-bit value.
pub open spec fn high_byte(value: u16) -> u8 {
    (value as int / 256) as u8
}

/// The low byte of a 16-bit value.
pub open spec fn low_byte(value: u16) -> u8 {
    (value as int % 256) as u8
}

/// Register F with the bit of `flag` set to `value` and every other bit kept.
pub open spec fn flags_with(f: u8, flag: Flag, value: bool) -> u8 {
    if value {
        f | flag_mask(flag)
    } else {
        f & !flag_mask(flag)
    }
}

impl Registers {
    /// The registers as they are at power-on.
    pub open spec fn initial() -> Registers {
        Registers { a: 0, f: 0, b: 0, c: 0, d: 0, e: 0, h: 0, l: 0, sp: 0xFFFE, pc: 0x100 }
    }

    pub open spec fn value8(self, register: Register8) -> u8 {
        match register {
            Register8::A => self.a,
            Register8::F => self.f,
            Register8::B => self.b,
            Register8::C => self.c,
            Register8::D => self.d,
            Register8::E => self.e,
            Register8::H => self.h,
            Register8::L => self.l,
        }
    }

    pub open spec fn with8(self, register: Register8, value: u8) -> Registers {
        match register {
            Register8::A => Registers { a: value, ..self },
            Register8::F => Registers { f: value, ..self },
            Register8::B => Registers { b: value, ..self },
            Register8::C => Registers { c: value, ..self },
            Register8::D => Registers { d: value, ..self },
            Register8::E => Registers { e: value, ..self },
            Register8::H => Registers { h: value, ..self },
            Register8::L => Registers { l: value, ..self },
        }
    }

    pub open spec fn value16(self, register: Register16) -> u16 {
        match register {
            Register16::AF => word(self.a, self.f),
            Register16::BC => word(self.b, self.c),
            Register16::DE => word(self.d, self.e),
            Register16::HL => word(self.h, self.l),
            Register16::SP => self.sp,
            Register16::PC => self.pc,
        }
    }

    pub open spec fn with16(self, register: Register16, value: u16) -> Registers {
        match register {
            Register16::AF => Registers { a: high_byte(value), f: low_byte(value), ..self },
            Register16::BC => Registers { b: high_byte(value), c: low_byte(value), ..self },
            Register16::DE => Registers { d: high_byte(value), e: low_byte(value), ..self },
            Register16::HL => Registers { h: high_byte(value), l: low_byte(value), ..self },
            Register16::SP => Registers { sp: value, ..self },
            Register16::PC => Registers { pc: value, ..self },
        }
    }

    pub open spec fn flag(self, flag: Flag) -> bool {
        self.f & flag_mask(flag) != 0
    }

    pub open spec fn with_flag(self, flag: Flag, value: bool) -> Registers {
        Registers { f: flags_with(self.f, flag, value), ..self }
    }

    pub fn new() -> (registers: Self)
        ensures
            registers == Registers::initial(),
    {
        Self { a: 0, f: 0, b: 0, c: 0, d: 0, e: 0, h: 0, l: 0, sp: 0xFFFE, pc: 0x100 }
    }

    pub fn get_register8(&self, register: Register8) -> (value: u8)
        ensures
            value == self.value8(register),
    {
        match register {
            Register8::A => self.a,
            Register8::F => self.f,
            Register8::B => self.b,
            Register8::C => self.c,
            Register8::D => self.d,
            Register8::E => self.e,
            Register8::H => self.h,
            Register8::L => self.l,
        }
    }

    pub fn set_register8(&mut self, register: Register8, value: u8)
        ensures
            *final(self) == old(self).with8(register, value),
    {
        match register {
            Register8::A => self.a = value,
            Register8::F => self.f = value,
            Register8::B => self.b = value,
            Register8::C => self.c = value,
            Register8::D => self.d = value,
            Register8::E => self.e = value,
            Register8::H => self.h = value,
            Register8::L => self.l = value,
        }
    }

    pub fn get_register16(&self, register: Register16) -> (value: u16)
        ensures
            value == self.value16(register),
    {
        match register {
            Register16::AF => join_bytes(self.a, self.f),
            Register16::BC => join_bytes(self.b, self.c),
            Register16::DE => join_bytes(self.d, self.e),
            Register16::HL => join_bytes(self.h, self.l),
            Register16::SP => self.sp,
            Register16::PC => self.pc,
        }
    }

    pub fn set_register16(&mut self, register: Register16, value: u16)
        ensures
            *final(self) == old(self).with16(register, value),
    {
        let high = upper_byte(value);
        let low = lower_byte(value);
        match register {
            Register16::AF => {
                self.a = high;
                self.f = low;
            },
            Register16::BC => {
                self.b = high;
                self.c = low;
            },
            Register16::DE => {
                self.d = high;
                self.e = low;
            },
            Register16::HL => {
                self.h = high;
                self.l = low;
            },
            Register16::SP => self.sp = value,
            Register16::PC => self.pc = value,
        }
    }

    pub fn get_flag(&self, flag: Flag) -> (value: bool)
        ensures
            value == self.flag(flag),
    {
        match flag {
            Flag::Zero => self.f & 0b10000000 != 0,
            Flag::Negative => self.f & 0b01000000 != 0,
            Flag::HalfCarry => self.f & 0b00100000 != 0,
            Flag::Carry => self.f & 0b00010000 != 0,
        }
    }

    pub fn set_flag(&mut self, flag: Flag, value: bool)
        ensures
            *final(self) == old(self).with_flag(flag, value),
    {
        let f = self.f;
        if value {
            match flag {
                Flag::Zero => self.f = f | 0b10000000,
                Flag::Negative => self.f = f | 0b01000000,
                Flag::HalfCarry => self.f = f | 0b00100000,
                Flag::Carry => self.f = f | 0b00010000,
            }
        } else {
            match flag {
                Flag::Zero => {
                    self.f = f & 0b01111111;
                    assert(f & 0b01111111 == f & !0x80u8) by (bit_vector);
                },
                Flag::Negative => {
                    self.f = f & 0b10111111;
                    assert(f & 0b10111111 == f & !0x40u8) by (bit_vector);
                },
                Flag::HalfCarry => {
                    self.f = f & 0b11011111;
                    assert(f & 0b11011111 == f & !0x20u8) by (bit_vector);
                },
                Flag::Carry => {
                    self.f = f & 0b11101111;
                    assert(f & 0b11101111 == f & !0x10u8) by (bit_vector);
                },
            }
        }
    }
}

/// The one-line listing of the registers: each name, a colon and its value in hexadecimal.
pub open spec fn registers_text(r: Registers) -> Seq<char> {
    "a:"@ + hex8_text(r.a) + ", f:"@ + hex8_text(r.f) + ", b:"@ + hex8_text(r.b) + ", c:"@
        + hex8_text(r.c) + ", d:"@ + hex8_text(r.d) + ", e:"@ + hex8_text(r.e) + ", h:"@
        + hex8_text(r.h) + ", l:"@ + hex8_text(r.l) + ", sp:"@ + hex16_text(r.sp) + ", pc:"@
        + hex16_text(r.pc)
}

impl Registers {
    /// The one-line listing of the registers, as the program prints it.
    pub fn text(&self) -> (text: String)
        ensures
            text@ == registers_text(*self),
    {
        let mut text = String::from_str("a:");
        push_hex8(&mut text, self.a);
        text.append(", f:");
        push_hex8(&mut text, self.f);
        text.append(", b:");
        push_hex8(&mut text, self.b);
        text.append(", c:");
        push_hex8(&mut text, self.c);
        text.append(", d:");
        push_hex8(&mut text, self.d);
        text.append(", e:");
        push_hex8(&mut text, self.e);
        text.append(", h:");
        push_hex8(&mut text, self.h);
        text.append(", l:");
        push_hex8(&mut text, self.l);
        text.append(", sp:");
        push_hex16(&mut text, self.sp);
        text.append(", pc:");
        push_hex16(&mut text, self.pc);
        text
    }
}

/// The 16-bit value made of a high and a low byte.
pub fn join_bytes(high: u8, low: u8) -> (value: u16)
    ensures
        value == word(high, low),
{
    let value = ((high as u16) << 8) | (low as u16);
    assert(((high as u16) << 8) | (low as u16) == high as u16 * 256 + low as u16) by (bit_vector);
    value
}

/// The high byte of a 16-bit value.
pub fn upper_byte(value: u16) -> (high: u8)
    ensures
        high == high_byte(value),
{
    assert((value >> 8) as u8 == value / 256) by (bit_vector);
    (value >> 8) as u8
}

/// The low byte of a 16-bit value.
pub fn lower_byte(value: u16) -> (low: u8)
    ensures
        low == low_byte(value),
{
    assert((value & 0xFF) as u8 == value % 256) by (bit_vector);
    (value & 0xFF) as u8
}

/// Reading a 16-bit register gives back the value that was just written to it.
pub proof fn lemma_register16_roundtrip(registers: Registers, register: Register16, value: u16)
    ensures
        registers.with16(register, value).value16(register) == value,
{
    assert(high_byte(value) as int * 256 + low_byte(value) as int == value as int);
}

/// Reading an 8-bit register gives back the value that was just written to it, and every
/// other 8-bit register keeps its value.
pub proof fn lemma_register8_roundtrip(registers: Registers, register: Register8, other: Register8, value: u8)
    ensures
        registers.with8(register, value).value8(register) == value,
        register != other ==> registers.with8(register, value).value8(other) == registers.value8(other),
{
}

/// Setting a flag is seen by reading that flag, and leaves the other flags and the lower nibble
/// of register F unchanged.
pub proof fn lemma_flag_roundtrip(registers: Registers, flag: Flag, other: Flag, value: bool)
    ensures
        registers.with_flag(flag, value).flag(flag) == value,
        flag != other ==> registers.with_flag(flag, value).flag(other) == registers.flag(other),
        registers.with_flag(flag, value).f & 0x0F == registers.f & 0x0F,
{
    lemma_mask_bits(registers.f, flag_mask(flag), flag_mask(other));
}

proof fn lemma_mask_bits(f: u8, m: u8, n: u8)
    by (bit_vector)
    requires
        m == 0x80u8 || m == 0x40u8 || m == 0x20u8 || m == 0x10u8,
        n == 0x80u8 || n == 0x40u8 || n == 0x20u8 || n == 0x10u8,
    ensures
        (f | m) & m != 0,
        (f & !m) & m == 0,
        m != n ==> (((f | m) & n != 0) == (f & n != 0)),
        m != n ==> (((f & !m) & n != 0) == (f & n != 0)),
        (f | m) & 0x0F == f & 0x0F,
        (f & !m) & 0x0F == f & 0x0F,
{
}

} // verus!
