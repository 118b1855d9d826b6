use vstd::prelude::*;
use crate::machine::bus::{Bus, BusView};
use crate::machine::registers::{Flag, Register8, Register16, Registers};

verus! {

/// The kinds of operand fields in an opcode.
#[derive(Clone, Copy, Debug)]
pub enum OperandType {
    R8,
    R16,
    R16stk,
    R16mem,
    Cond,
    B3,
    Tgt3,
}

/// An 8-bit operand: a register, or the byte at the address in HL.
#[derive(Clone, Copy, Debug)]
pub enum R8 {
    B,
    C,
    D,
    E,
    H,
    L,
    MemoryHL,
    A,
}

/// A 16-bit register operand of loads and arithmetic.
#[derive(Clone, Copy, Debug)]
pub enum R16 {
    BC,
    DE,
    HL,
    SP,
}

/// A 16-bit register operand of pushes and pops.
#[derive(Clone, Copy, Debug)]
pub enum R16stk {
    BC,
    DE,
    HL,
    AF,
}

/// A 16-bit register that holds an address; HLI and HLD step HL after the access.
#[derive(Clone, Copy, Debug)]
pub enum R16mem {
    BC,
    DE,
    HLI,
    HLD,
}

/// A jump condition on the zero and carry flags.
#[derive(Clone, Copy, Debug)]
pub enum Cond {
    NZ,
    Z,
    NC,
    C,
}

pub open spec fn r8_of(operand: u8) -> R8 {
    if operand == 0 {
        R8::B
    } else if operand == 1 {
        R8::C
    } else if operand == 2 {
        R8::D
    } else if operand == 3 {
        R8::E
    } else if operand == 4 {
        R8::H
    } else if operand == 5 {
        R8::L
    } else if operand == 6 {
        R8::MemoryHL
    } else {
        R8::A
    }
}

pub open spec fn r16_of(operand: u8) -> R16 {
    if operand == 0 {
        R16::BC
    } else if operand == 1 {
        R16::DE
    } else if operand == 2 {
        R16::HL
    } else {
        R16::SP
    }
}

pub open spec fn r16stk_of(operand: u8) -> R16stk {
    if operand == 0 {
        R16stk::BC
    } else if operand == 1 {
        R16stk::DE
    } else if operand == 2 {
        R16stk::HL
    } else {
        R16stk::AF
    }
}

pub open spec fn r16mem_of(operand: u8) -> R16mem {
    if operand == 0 {
        R16mem::BC
    } else if operand == 1 {
        R16mem::DE
    } else if operand == 2 {
        R16mem::HLI
    } else {
        R16mem::HLD
    }
}

pub open spec fn cond_of(operand: u8) -> Cond {
    if operand == 0 {
        Cond::NZ
    } else if operand == 1 {
        Cond::Z
    } else if operand == 2 {
        Cond::NC
    } else {
        Cond::C
    }
}

/// The width in bits of an operand field.
pub open spec fn operand_size(operand_type: OperandType) -> u8 {
    match operand_type {
        OperandType::R8 => 3,
        OperandType::R16 => 2,
        OperandType::R16stk => 2,
        OperandType::R16mem => 2,
        OperandType::Cond => 2,
        OperandType::B3 => 3,
        OperandType::Tgt3 => 3,
    }
}

/// The field of `opcode` of the width of `operand_type` that starts at bit `start`.
pub open spec fn operand_field(opcode: u8, start: u8, operand_type: OperandType) -> u8 {
    (opcode >> start) & (((1u8 << operand_size(operand_type)) - 1) as u8)
}

/// The register that an 8-bit operand other than `MemoryHL` names.
pub open spec fn r8_register(operand: R8) -> Register8 {
    match operand {
        R8::B => Register8::B,
        R8::C => Register8::C,
        R8::D => Register8::D,
        R8::E => Register8::E,
        R8::H => Register8::H,
        R8::L => Register8::L,
        R8::A => Register8::A,
        R8::MemoryHL => Register8::A,
    }
}

/// The value of an 8-bit operand.
pub open spec fn r8_value(operand: R8, registers: Registers, bus: BusView) -> u8 {
    match operand {
        R8::MemoryHL => bus.read_spec(registers.value16(Register16::HL)),
        _ => registers.value8(r8_register(operand)),
    }
}

/// The registers and the bus after `value` is stored into an 8-bit operand.
pub open spec fn r8_store(operand: R8, value: u8, registers: Registers, bus: BusView) -> (
    Registers,
    BusView,
) {
    match operand {
        R8::MemoryHL => (registers, bus.write_spec(registers.value16(Register16::HL), value)),
        _ => (registers.with8(r8_register(operand), value), bus),
    }
}

pub open spec fn r16_register(operand: R16) -> Register16 {
    match operand {
        R16::BC => Register16::BC,
        R16::DE => Register16::DE,
        R16::HL => Register16::HL,
        R16::SP => Register16::SP,
    }
}

pub open spec fn r16stk_register(operand: R16stk) -> Register16 {
    match operand {
        R16stk::BC => Register16::BC,
        R16stk::DE => Register16::DE,
        R16stk::HL => Register16::HL,
        R16stk::AF => Register16::AF,
    }
}

/// The register that holds the address; HLI and HLD both name HL.
pub open spec fn r16mem_register(operand: R16mem) -> Register16 {
    match operand {
        R16mem::BC => Register16::BC,
        R16mem::DE => Register16::DE,
        R16mem::HLI => Register16::HL,
        R16mem::HLD => Register16::HL,
    }
}

/// Whether a condition holds for the flags in `registers`.
pub open spec fn cond_holds(cond: Cond, registers: Registers) -> bool {
    match cond {
        Cond::NZ => !registers.flag(Flag::Zero),
        Cond::Z => registers.flag(Flag::Zero),
        Cond::NC => !registers.flag(Flag::Carry),
        Cond::C => registers.flag(Flag::Carry),
    }
}

pub fn decode_r8(operand: u8) -> (r8: R8)
    requires
        operand < 8,
    ensures
        r8 == r8_of(operand),
{
    match operand {
        0 => R8::B,
        1 => R8::C,
        2 => R8::D,
        3 => R8::E,
        4 => R8::H,
        5 => R8::L,
        6 => R8::MemoryHL,
        _ => R8::A,
    }
}

pub fn decode_r16(operand: u8) -> (r16: R16)
    requires
        operand < 4,
    ensures
        r16 == r16_of(operand),
{
    match operand {
        0 => R16::BC,
        1 => R16::DE,
        2 => R16::HL,
        _ => R16::SP,
    }
}

pub fn decode_r16stk(operand: u8) -> (r16stk: R16stk)
    requires
        operand < 4,
    ensures
        r16stk == r16stk_of(operand),
{
    match operand {
        0 => R16stk::BC,
        1 => R16stk::DE,
        2 => R16stk::HL,
        _ => R16stk::AF,
    }
}

pub fn decode_r16mem(operand: u8) -> (r16mem: R16mem)
    requires
        operand < 4,
    ensures
        r16mem == r16mem_of(operand),
{
    match operand {
        0 => R16mem::BC,
        1 => R16mem::DE,
        2 => R16mem::HLI,
        _ => R16mem::HLD,
    }
}

pub fn decode_cond(operand: u8) -> (cond: Cond)
    requires
        operand < 4,
    ensures
        cond == cond_of(operand),
{
    match operand {
        0 => Cond::NZ,
        1 => Cond::Z,
        2 => Cond::NC,
        _ => Cond::C,
    }
}

/// The operand field of the width of `operand_type` that starts at bit `start_bit_index`.
pub fn parse_operand(opcode: u8, start_bit_index: u8, operand_type: OperandType) -> (operand: u8)
    requires
        start_bit_index < 8,
    ensures
        operand == operand_field(opcode, start_bit_index, operand_type),
        operand < (if operand_size(operand_type) == 3 { 8u8 } else { 4u8 }),
{
    let operand_size: u8 = match operand_type {
        OperandType::R8 => 3,
        OperandType::R16 => 2,
        OperandType::R16stk => 2,
        OperandType::R16mem => 2,
        OperandType::Cond => 2,
        OperandType::B3 => 3,
        OperandType::Tgt3 => 3,
    };
    assert(operand_size <= 3 ==> (1u8 << operand_size) >= 1) by (bit_vector);
    let operand = (opcode >> start_bit_index) & ((1 << operand_size) - 1);
    assert(operand_size == 3 ==> ((opcode >> start_bit_index) & (((1u8 << operand_size) - 1) as u8)) < 8)
        by (bit_vector);
    assert(operand_size == 2 ==> ((opcode >> start_bit_index) & (((1u8 << operand_size) - 1) as u8)) < 4)
        by (bit_vector);
    operand
}

pub fn get_r8(operand: R8, registers: &Registers, bus: &mut Bus) -> (value: u8)
    requires
        old(bus)@.inv(),
    ensures
        value == r8_value(operand, *registers, old(bus)@),
        *final(bus) == *old(bus),
{
    match operand {
        R8::B => registers.get_register8(Register8::B),
        R8::C => registers.get_register8(Register8::C),
        R8::D => registers.get_register8(Register8::D),
        R8::E => registers.get_register8(Register8::E),
        R8::H => registers.get_register8(Register8::H),
        R8::L => registers.get_register8(Register8::L),
        R8::MemoryHL => bus.read(registers.get_register16(Register16::HL)),
        R8::A => registers.get_register8(Register8::A),
    }
}

pub fn set_r8(operand: R8, value: u8, registers: &mut Registers, bus: &mut Bus)
    requires
        old(bus)@.inv(),
    ensures
        (*final(registers), final(bus)@) == r8_store(operand, value, *old(registers), old(bus)@),
        final(bus)@.inv(),
{
    match operand {
        R8::B => registers.set_register8(Register8::B, value),
        R8::C => registers.set_register8(Register8::C, value),
        R8::D => registers.set_register8(Register8::D, value),
        R8::E => registers.set_register8(Register8::E, value),
        R8::H => registers.set_register8(Register8::H, value),
        R8::L => registers.set_register8(Register8::L, value),
        R8::MemoryHL => bus.write(registers.get_register16(Register16::HL), value),
        R8::A => registers.set_register8(Register8::A, value),
    }
}

pub fn get_r16(operand: R16, registers: &Registers) -> (value: u16)
    ensures
        value == registers.value16(r16_register(operand)),
{
    match operand {
        R16::BC => registers.get_register16(Register16::BC),
        R16::DE => registers.get_register16(Register16::DE),
        R16::HL => registers.get_register16(Register16::HL),
        R16::SP => registers.get_register16(Register16::SP),
    }
}

pub fn set_r16(operand: R16, value: u16, registers: &mut Registers)
    ensures
        *final(registers) == old(registers).with16(r16_register(operand), value),
{
    match operand {
        R16::BC => registers.set_register16(Register16::BC, value),
        R16::DE => registers.set_register16(Register16::DE, value),
        R16::HL => registers.set_register16(Register16::HL, value),
        R16::SP => registers.set_register16(Register16::SP, value),
    }
}

pub fn get_r16stk(operand: R16stk, registers: &Registers) -> (value: u16)
    ensures
        value == registers.value16(r16stk_register(operand)),
{
    match operand {
        R16stk::BC => registers.get_register16(Register16::BC),
        R16stk::DE => registers.get_register16(Register16::DE),
        R16stk::HL => registers.get_register16(Register16::HL),
        R16stk::AF => registers.get_register16(Register16::AF),
    }
}

pub fn set_r16stk(operand: R16stk, value: u16, registers: &mut Registers)
    ensures
        *final(registers) == old(registers).with16(r16stk_register(operand), value),
{
    match operand {
        R16stk::BC => registers.set_register16(Register16::BC, value),
        R16stk::DE => registers.set_register16(Register16::DE, value),
        R16stk::HL => registers.set_register16(Register16::HL, value),
        R16stk::AF => registers.set_register16(Register16::AF, value),
    }
}

pub fn get_r16mem(operand: R16mem, registers: &Registers) -> (value: u16)
    ensures
        value == registers.value16(r16mem_register(operand)),
{
    match operand {
        R16mem::BC => registers.get_register16(Register16::BC),
        R16mem::DE => registers.get_register16(Register16::DE),
        R16mem::HLI => registers.get_register16(Register16::HL),
        R16mem::HLD => registers.get_register16(Register16::HL),
    }
}

pub fn set_r16mem(operand: R16mem, value: u16, registers: &mut Registers)
    ensures
        *final(registers) == old(registers).with16(r16mem_register(operand), value),
{
    match operand {
        R16mem::BC => registers.set_register16(Register16::BC, value),
        R16mem::DE => registers.set_register16(Register16::DE, value),
        R16mem::HLI => registers.set_register16(Register16::HL, value),
        R16mem::HLD => registers.set_register16(Register16::HL, value),
    }
}

pub fn get_cond(cond: Cond, registers: &Registers) -> (holds: bool)
    ensures
        holds == cond_holds(cond, *registers),
{
    match cond {
        Cond::NZ => !registers.get_flag(Flag::Zero),
        Cond::Z => registers.get_flag(Flag::Zero),
        Cond::NC => !registers.get_flag(Flag::Carry),
        Cond::C => registers.get_flag(Flag::Carry),
    }
}

/// The assembler name of an 8-bit operand.
pub open spec fn r8_text(operand: R8) -> Seq<char> {
    match operand {
        R8::B => "b"@,
        R8::C => "c"@,
        R8::D => "d"@,
        R8::E => "e"@,
        R8::H => "h"@,
        R8::L => "l"@,
        R8::MemoryHL => "[hl]"@,
        R8::A => "a"@,
    }
}

pub open spec fn r16_text(operand: R16) -> Seq<char> {
    match operand {
        R16::BC => "bc"@,
        R16::DE => "de"@,
        R16::HL => "hl"@,
        R16::SP => "sp"@,
    }
}

pub open spec fn r16stk_text(operand: R16stk) -> Seq<char> {
    match operand {
        R16stk::BC => "bc"@,
        R16stk::DE => "de"@,
        R16stk::HL => "hl"@,
        R16stk::AF => "af"@,
    }
}

pub open spec fn r16mem_text(operand: R16mem) -> Seq<char> {
    match operand {
        R16mem::BC => "bc"@,
        R16mem::DE => "de"@,
        R16mem::HLI => "hl+"@,
        R16mem::HLD => "hl-"@,
    }
}

pub open spec fn cond_text(cond: Cond) -> Seq<char> {
    match cond {
        Cond::NZ => "nz"@,
        Cond::Z => "z"@,
        Cond::NC => "nc"@,
        Cond::C => "c"@,
    }
}

impl R8 {
    /// The assembler name of the operand.
    pub fn name(self) -> (name: &'static str)
        ensures
            name@ == r8_text(self),
    {
        match self {
            R8::B => "b",
            R8::C => "c",
            R8::D => "d",
            R8::E => "e",
            R8::H => "h",
            R8::L => "l",
            R8::MemoryHL => "[hl]",
            R8::A => "a",
        }
    }
}

impl R16 {
    /// The assembler name of the operand.
    pub fn name(self) -> (name: &'static str)
        ensures
            name@ == r16_text(self),
    {
        match self {
            R16::BC => "bc",
            R16::DE => "de",
            R16::HL => "hl",
            R16::SP => "sp",
        }
    }
}

impl R16stk {
    /// The assembler name of the operand.
    pub fn name(self) -> (name: &'static str)
        ensures
            name@ == r16stk_text(self),
    {
        match self {
            R16stk::BC => "bc",
            R16stk::DE => "de",
            R16stk::HL => "hl",
            R16stk::AF => "af",
        }
    }
}

impl R16mem {
    /// The assembler name of the operand.
    pub fn name(self) -> (name: &'static str)
        ensures
            name@ == r16mem_text(self),
    {
        match self {
            R16mem::BC => "bc",
            R16mem::DE => "de",
            R16mem::HLI => "hl+",
            R16mem::HLD => "hl-",
        }
    }
}

impl Cond {
    /// The assembler name of the condition.
    pub fn name(self) -> (name: &'static str)
        ensures
            name@ == cond_text(self),
    {
        match self {
            Cond::NZ => "nz",
            Cond::Z => "z",
            Cond::NC => "nc",
            Cond::C => "c",
        }
    }
}

/// Decoding a field that was read from an opcode names an operand for every value of the field.
pub proof fn lemma_decode_total(opcode: u8, start: u8)
    requires
        start < 8,
    ensures
        operand_field(opcode, start, OperandType::R8) < 8,
        operand_field(opcode, start, OperandType::R16) < 4,
        operand_field(opcode, start, OperandType::R16stk) < 4,
        operand_field(opcode, start, OperandType::R16mem) < 4,
        operand_field(opcode, start, OperandType::Cond) < 4,
{
    assert(((opcode >> start) & (((1u8 << 3u8) - 1) as u8)) < 8) by (bit_vector);
    assert(((opcode >> start) & (((1u8 << 2u8) - 1) as u8)) < 4) by (bit_vector);
}

} // verus!
