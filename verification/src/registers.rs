use vstd::prelude::*;

verus! {

/// An 8-bit register of the CPU.
#[derive(Clone, Copy, Debug)]
pub enum Register8 {
    A,
    F,
    B,
    C,
    D,
    E,
    H,
    L,
}

/// A 16-bit register of the CPU, or a pair of 8-bit registers read as one.
#[derive(Clone, Copy, Debug)]
pub enum Register16 {
    AF,
    BC,
    DE,
    HL,
    SP,
    PC,
}

/// A flag held in the upper nibble of register F.
#[derive(Clone, Copy, Debug)]
pub enum Flag {
    Zero,
    Subtraction,
    HalfCarry,
    Carry,
}

/// The bit of register F that holds each flag.
pub const ZERO_FLAG_BIT: u8 = 7;

pub const SUBTRACTION_FLAG_BIT: u8 = 6;

pub const HALF_CARRY_FLAG_BIT: u8 = 5;

pub const CARRY_FLAG_BIT: u8 = 4;

/// The register file, with the flags in register F.
pub struct Registers {
    pub a: u8,
    f: u8,
    pub b: u8,
    pub c: u8,
    pub d: u8,
    pub e: u8,
    pub h: u8,
    pub l: u8,
    pub sp: u16,
    pub pc: u16,
}

pub ghost struct RegistersView {
    pub a: u8,
    pub f: u8,
    pub b: u8,
    pub c: u8,
    pub d: u8,
    pub e: u8,
    pub h: u8,
    pub l: u8,
    pub sp: u16,
    pub pc: u16,
}

/// The 16-bit value whose high byte is `high` and whose low byte is `low`.
pub open spec fn pair(high: u8, low: u8) -> u16 {
    (high as int * 256 + low as int) as u16
}

impl RegistersView {
    /// Whether the flag's bit of F is set.
    pub open spec fn flag(self, flag: Flag) -> bool {
        let bit: u8 = match flag {
            Flag::Zero => 7,
            Flag::Subtraction => 6,
            Flag::HalfCarry => 5,
            Flag::Carry => 4,
        };
        (self.f >> bit) & 1 == 1
    }
}

impl View for Registers {
    type V = RegistersView;

    closed spec fn view(&self) -> RegistersView {
        RegistersView {
            a: self.a,
            f: self.f,
            b: self.b,
            c: self.c,
            d: self.d,
            e: self.e,
            h: self.h,
            l: self.l,
            sp: self.sp,
            pc: self.pc,
        }
    }
}

/// Joins two bytes into a 16-bit value.
fn join(high: u8, low: u8) -> (value: u16)
    ensures
        value == pair(high, low),
{
    assert(((high as u16) << 8u16) | (low as u16) == high as u16 * 256 + low as u16) by (bit_vector);
    ((high as u16) << 8) | low as u16
}

/// Whether bit `bit` of `f` is set.
fn flag_bit(f: u8, bit: u8) -> (set: bool)
    requires
        bit < 8,
    ensures
        set == ((f >> bit) & 1 == 1),
{
    (f >> bit) & 1 == 1
}

impl Registers {
    pub fn new() -> (registers: Self)
        ensures
            registers@ == (RegistersView {
                a: 0,
                f: 0,
                b: 0,
                c: 0,
                d: 0,
                e: 0,
                h: 0,
                l: 0,
                sp: 0,
                pc: 0,
            }),
    {
        Self { a: 0, f: 0, b: 0, c: 0, d: 0, e: 0, h: 0, l: 0, sp: 0, pc: 0 }
    }

    pub fn bc(&self) -> (value: u16)
        ensures
            value == pair(self@.b, self@.c),
    {
        join(self.b, self.c)
    }

    pub fn de(&self) -> (value: u16)
        ensures
            value == pair(self@.d, self@.e),
    {
        join(self.d, self.e)
    }

    pub fn hl(&self) -> (value: u16)
        ensures
            value == pair(self@.h, self@.l),
    {
        join(self.h, self.l)
    }

    pub fn get_flag(&self, flag: Flag) -> (set: bool)
        ensures
            set == self@.flag(flag),
    {
        let f = self.f;
        assert((f & 0b10000000 != 0) == ((f >> 7u8) & 1 == 1)) by (bit_vector);
        assert((f & 0b01000000 != 0) == ((f >> 6u8) & 1 == 1)) by (bit_vector);
        assert((f & 0b00100000 != 0) == ((f >> 5u8) & 1 == 1)) by (bit_vector);
        assert((f & 0b00010000 != 0) == ((f >> 4u8) & 1 == 1)) by (bit_vector);
        match flag {
            Flag::Zero => self.f & 0b10000000 != 0,
            Flag::Subtraction => self.f & 0b01000000 != 0,
            Flag::HalfCarry => self.f & 0b00100000 != 0,
            Flag::Carry => self.f & 0b00010000 != 0,
        }
    }

    pub fn zero(&self) -> (set: bool)
        ensures
            set == self@.flag(Flag::Zero),
    {
        flag_bit(self.f, ZERO_FLAG_BIT)
    }

    pub fn subtraction(&self) -> (set: bool)
        ensures
            set == self@.flag(Flag::Subtraction),
    {
        flag_bit(self.f, SUBTRACTION_FLAG_BIT)
    }

    pub fn half_carry(&self) -> (set: bool)
        ensures
            set == self@.flag(Flag::HalfCarry),
    {
        flag_bit(self.f, HALF_CARRY_FLAG_BIT)
    }

    pub fn carry(&self) -> (set: bool)
        ensures
            set == self@.flag(Flag::Carry),
    {
        flag_bit(self.f, CARRY_FLAG_BIT)
    }
}

} // verus!
