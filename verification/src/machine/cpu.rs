use vstd::prelude::*;
use crate::machine::bus::{
    Bus, BusView, is_ram_address, lemma_ram_read_after_write, lemma_ram_write_frame,
};
use crate::machine::graphics::{sign_extend, signed_byte};
use crate::machine::interrupts::Interrupts;
use crate::machine::opcodes::{
    Cond, OperandType, R8, R16, R16mem, R16stk, cond_holds, cond_of, decode_cond, decode_r8,
    decode_r16, decode_r16mem, decode_r16stk, get_cond, get_r8, get_r16, get_r16mem, get_r16stk,
    operand_field, parse_operand, r16_of, r16_register, r16mem_of, r16mem_register, r16stk_of,
    r16stk_register, r8_of, r8_store, r8_value, set_r8, set_r16, set_r16stk,
};
use crate::machine::registers::{
    Flag, Register8, Register16, Registers, high_byte, join_bytes, low_byte, lower_byte,
    upper_byte, word,
};

verus! {

/// A jump condition, named by what it tests.
pub enum Condition {
    NotZero,
    Zero,
    NotCarry,
    Carry,
}

/// What one instruction did: its length in machine cycles, its bytes and address, the bytes and
/// address of the next instruction, and the registers afterwards.
#[derive(Debug, Clone, Copy)]
pub struct CycleInfo {
    pub cycle_count: u8,
    pub opcode_bytes: [u8; 3],
    pub opcode_address: u16,
    pub next_opcode_bytes: [u8; 3],
    pub next_opcode_address: u16,
    pub registers: Registers,
}

/// The processor: its registers and its interrupt master enable (IME), which `ei` sets only
/// after the next instruction (the pending flag).
pub struct Cpu {
    registers: Registers,
    interrupt_master_enable: bool,
    interrupt_master_enable_pending: bool,
}

pub ghost struct CpuView {
    pub registers: Registers,
    pub interrupt_master_enable: bool,
    pub interrupt_master_enable_pending: bool,
}

/// The state that instructions act on: the processor and the bus.
#[verifier::ext_equal]
pub ghost struct Machine {
    pub cpu: CpuView,
    pub bus: BusView,
}

/// `value + delta` modulo 2^16.
pub open spec fn add16(value: u16, delta: int) -> u16 {
    ((value + delta) % 0x10000) as u16
}

/// `value + delta` modulo 2^8.
pub open spec fn add8(value: u8, delta: int) -> u8 {
    ((value + delta) % 0x100) as u8
}

/// Rotation of a byte one bit to the left.
pub open spec fn rotl(value: u8) -> u8 {
    (value << 1u8) | (value >> 7u8)
}

/// Rotation of a byte one bit to the right.
pub open spec fn rotr(value: u8) -> u8 {
    (value >> 1u8) | (value << 7u8)
}

/// The registers with the four flags set as given.
pub open spec fn with_flags(registers: Registers, z: bool, n: bool, h: bool, c: bool) -> Registers {
    registers.with_flag(Flag::Zero, z).with_flag(Flag::Negative, n).with_flag(
        Flag::HalfCarry,
        h,
    ).with_flag(Flag::Carry, c)
}

pub open spec fn carry_bit(registers: Registers) -> int {
    if registers.flag(Flag::Carry) {
        1
    } else {
        0
    }
}

/// STOP and HALT, which the processor consumes without running an instruction.
pub open spec fn is_stop_or_halt(opcode: u8) -> bool {
    opcode == 0b00010000 || opcode == 0b01110110
}

impl CpuView {
    pub open spec fn initial() -> CpuView {
        CpuView {
            registers: Registers::initial(),
            interrupt_master_enable: false,
            interrupt_master_enable_pending: false,
        }
    }
}

impl Machine {
    pub open spec fn of(cpu: CpuView, bus: BusView) -> Machine {
        Machine { cpu, bus }
    }

    pub open spec fn regs(self) -> Registers {
        self.cpu.registers
    }

    pub open spec fn with_regs(self, registers: Registers) -> Machine {
        Machine { cpu: CpuView { registers, ..self.cpu }, ..self }
    }

    pub open spec fn read(self, address: u16) -> u8 {
        self.bus.read_spec(address)
    }

    pub open spec fn write(self, address: u16, value: u8) -> Machine {
        Machine { bus: self.bus.write_spec(address, value), ..self }
    }

    pub open spec fn set16(self, register: Register16, value: u16) -> Machine {
        self.with_regs(self.regs().with16(register, value))
    }

    pub open spec fn set8(self, register: Register8, value: u8) -> Machine {
        self.with_regs(self.regs().with8(register, value))
    }

    pub open spec fn flags(self, z: bool, n: bool, h: bool, c: bool) -> Machine {
        self.with_regs(with_flags(self.regs(), z, n, h, c))
    }

    pub open spec fn flag(self, flag: Flag, value: bool) -> Machine {
        self.with_regs(self.regs().with_flag(flag, value))
    }

    /// The byte at PC, and the machine with PC advanced past it.
    pub open spec fn fetch(self) -> (u8, Machine) {
        (self.read(self.regs().pc), self.set16(Register16::PC, add16(self.regs().pc, 1)))
    }

    /// The little-endian word at PC, and the machine with PC advanced past it.
    pub open spec fn fetch16(self) -> (u16, Machine) {
        let (low, m1) = self.fetch();
        let (high, m2) = m1.fetch();
        (word(high, low), m2)
    }

    pub open spec fn get_r8(self, operand: R8) -> u8 {
        r8_value(operand, self.regs(), self.bus)
    }

    pub open spec fn set_r8(self, operand: R8, value: u8) -> Machine {
        let (registers, bus) = r8_store(operand, value, self.regs(), self.bus);
        Machine { cpu: CpuView { registers, ..self.cpu }, bus }
    }

    /// Pushes a word: the high byte at SP - 1, the low byte at SP - 2, and SP moves down by 2.
    pub open spec fn push(self, value: u16) -> Machine {
        let sp1 = add16(self.regs().sp, -1);
        let m1 = self.write(sp1, high_byte(value));
        let sp2 = add16(sp1, -1);
        let m2 = m1.write(sp2, low_byte(value));
        m2.set16(Register16::SP, sp2)
    }

    /// Pops a word: the low byte from SP, the high byte from SP + 1, and SP moves up by 2.
    pub open spec fn pop(self) -> (u16, Machine) {
        let sp = self.regs().sp;
        let low = self.read(sp);
        let high = self.read(add16(sp, 1));
        (word(high, low), self.set16(Register16::SP, add16(sp, 2)))
    }
}

// ---------------------------------------------------------------------------------------------
// The instructions, each as the machine it leaves and its length in machine cycles.
// ---------------------------------------------------------------------------------------------

#[verifier::opaque]
pub open spec fn ld_r16_imm16_spec(m: Machine, r16: R16) -> (Machine, u8) {
    let (value, m1) = m.fetch16();
    (m1.set16(r16_register(r16), value), 3)
}

/// HLI increments and HLD decrements HL after the access.
pub open spec fn step_hl(m: Machine, r16mem: R16mem) -> Machine {
    let hl = m.regs().value16(Register16::HL);
    match r16mem {
        R16mem::HLI => m.set16(Register16::HL, add16(hl, 1)),
        R16mem::HLD => m.set16(Register16::HL, add16(hl, -1)),
        _ => m,
    }
}

#[verifier::opaque]
pub open spec fn ld_r16mem_a_spec(m: Machine, r16mem: R16mem) -> (Machine, u8) {
    let address = m.regs().value16(r16mem_register(r16mem));
    (step_hl(m.write(address, m.regs().a), r16mem), 2)
}

#[verifier::opaque]
pub open spec fn ld_a_r16mem_spec(m: Machine, r16mem: R16mem) -> (Machine, u8) {
    let address = m.regs().value16(r16mem_register(r16mem));
    (step_hl(m.set8(Register8::A, m.read(address)), r16mem), 2)
}

#[verifier::opaque]
pub open spec fn ld_imm16_sp_spec(m: Machine) -> (Machine, u8) {
    let (address, m1) = m.fetch16();
    let sp = m1.regs().sp;
    (m1.write(address, low_byte(sp)).write(add16(address, 1), high_byte(sp)), 5)
}

#[verifier::opaque]
pub open spec fn inc_r16_spec(m: Machine, r16: R16) -> (Machine, u8) {
    let value = m.regs().value16(r16_register(r16));
    (m.set16(r16_register(r16), add16(value, 1)), 2)
}

#[verifier::opaque]
pub open spec fn dec_r16_spec(m: Machine, r16: R16) -> (Machine, u8) {
    let value = m.regs().value16(r16_register(r16));
    (m.set16(r16_register(r16), add16(value, -1)), 2)
}

/// HL gets HL + r16; the half carry is the carry out of bit 11 and the carry out of bit 15.
#[verifier::opaque]
pub open spec fn add_hl_r16_spec(m: Machine, r16: R16) -> (Machine, u8) {
    let hl = m.regs().value16(Register16::HL);
    let value = m.regs().value16(r16_register(r16));
    let m1 = m.set16(Register16::HL, add16(hl, value as int));
    let m2 = m1.flag(Flag::Negative, false).flag(
        Flag::HalfCarry,
        (hl & 0xFFF) + (value & 0xFFF) > 0xFFF,
    ).flag(Flag::Carry, hl + value > 0xFFFF);
    (m2, 2)
}

#[verifier::opaque]
pub open spec fn inc_r8_spec(m: Machine, r8: R8) -> (Machine, u8) {
    let value = m.get_r8(r8);
    let result = add8(value, 1);
    let m1 = m.set_r8(r8, result);
    (
        m1.flag(Flag::Zero, result == 0).flag(Flag::Negative, false).flag(
            Flag::HalfCarry,
            (value & 0xF) + 1 > 0xF,
        ),
        1,
    )
}

#[verifier::opaque]
pub open spec fn dec_r8_spec(m: Machine, r8: R8) -> (Machine, u8) {
    let value = m.get_r8(r8);
    let result = add8(value, -1);
    let m1 = m.set_r8(r8, result);
    (
        m1.flag(Flag::Zero, result == 0).flag(Flag::Negative, true).flag(
            Flag::HalfCarry,
            value & 0xF == 0,
        ),
        1,
    )
}

#[verifier::opaque]
pub open spec fn ld_r8_imm8_spec(m: Machine, r8: R8) -> (Machine, u8) {
    let (value, m1) = m.fetch();
    (m1.set_r8(r8, value), 2)
}

#[verifier::opaque]
pub open spec fn rlca_spec(m: Machine) -> (Machine, u8) {
    let value = m.regs().a;
    (m.set8(Register8::A, rotl(value)).flags(false, false, false, value >> 7u8 == 1), 1)
}

#[verifier::opaque]
pub open spec fn rrca_spec(m: Machine) -> (Machine, u8) {
    let value = m.regs().a;
    (m.set8(Register8::A, rotr(value)).flags(false, false, false, value & 1 == 1), 1)
}

/// Rotates A left through the carry flag.
#[verifier::opaque]
pub open spec fn rla_spec(m: Machine) -> (Machine, u8) {
    let value = m.regs().a;
    let result = if m.regs().flag(Flag::Carry) {
        (value << 1u8) | 1
    } else {
        value << 1u8
    };
    (m.set8(Register8::A, result).flags(false, false, false, value >> 7u8 == 1), 1)
}

/// Rotates A right through the carry flag.
#[verifier::opaque]
pub open spec fn rra_spec(m: Machine) -> (Machine, u8) {
    let value = m.regs().a;
    let result = if m.regs().flag(Flag::Carry) {
        (value >> 1u8) | 0x80
    } else {
        value >> 1u8
    };
    (m.set8(Register8::A, result).flags(false, false, false, value & 1 == 1), 1)
}

/// Decimal adjustment of A after a BCD addition or subtraction.
#[verifier::opaque]
pub open spec fn daa_spec(m: Machine) -> (Machine, u8) {
    let a = m.regs().a;
    let half_carry = m.regs().flag(Flag::HalfCarry);
    let carry = m.regs().flag(Flag::Carry);
    let m1 = if m.regs().flag(Flag::Negative) {
        let adjustment = (if half_carry { 0x6int } else { 0 }) + (if carry { 0x60int } else { 0 });
        m.set8(Register8::A, add8(a, -adjustment))
    } else {
        let adjustment = (if half_carry || a & 0xF > 0x9 { 0x6int } else { 0 }) + (if carry || a
            > 0x99 {
            0x60int
        } else {
            0
        });
        let m0 = if carry || a > 0x99 { m.flag(Flag::Carry, true) } else { m };
        m0.set8(Register8::A, add8(a, adjustment))
    };
    (m1.flag(Flag::Zero, m1.regs().a == 0).flag(Flag::HalfCarry, false), 1)
}

#[verifier::opaque]
pub open spec fn cpl_spec(m: Machine) -> (Machine, u8) {
    (m.set8(Register8::A, !m.regs().a).flag(Flag::Negative, true).flag(Flag::HalfCarry, true), 1)
}

#[verifier::opaque]
pub open spec fn scf_spec(m: Machine) -> (Machine, u8) {
    (m.flag(Flag::Negative, false).flag(Flag::HalfCarry, false).flag(Flag::Carry, true), 1)
}

#[verifier::opaque]
pub open spec fn ccf_spec(m: Machine) -> (Machine, u8) {
    let m1 = m.flag(Flag::Negative, false).flag(Flag::HalfCarry, false);
    (m1.flag(Flag::Carry, !m1.regs().flag(Flag::Carry)), 1)
}

/// Relative jump by the signed byte after the opcode, from the address after it.
#[verifier::opaque]
pub open spec fn jr_imm8_spec(m: Machine) -> (Machine, u8) {
    let (offset, m1) = m.fetch();
    (m1.set16(Register16::PC, add16(m1.regs().pc, signed_byte(offset))), 3)
}

/// When the condition fails, PC moves past one byte.
#[verifier::opaque]
pub open spec fn jr_cond_imm8_spec(m: Machine, cond: Cond) -> (Machine, u8) {
    if cond_holds(cond, m.regs()) {
        (jr_imm8_spec(m).0, 3)
    } else {
        (m.set16(Register16::PC, add16(m.regs().pc, 1)), 2)
    }
}

#[verifier::opaque]
pub open spec fn ld_r8_r8_spec(m: Machine, r8a: R8, r8b: R8) -> (Machine, u8) {
    (m.set_r8(r8a, m.get_r8(r8b)), 1)
}

/// A gets A + value + carry_in; the half carry is the carry out of bit 3.
#[verifier::opaque]
pub open spec fn add_spec(m: Machine, value: u8, carry_in: int, cycles: u8) -> (Machine, u8) {
    let a = m.regs().a;
    let result = add8(a, value + carry_in);
    (
        m.set8(Register8::A, result).flags(
            result == 0,
            false,
            (a & 0xF) + (value & 0xF) + carry_in > 0xF,
            a + value + carry_in > 0xFF,
        ),
        cycles,
    )
}

/// A gets A - value - carry_in; the half carry is the borrow from bit 4.
#[verifier::opaque]
pub open spec fn sub_spec(m: Machine, value: u8, carry_in: int, cycles: u8) -> (Machine, u8) {
    let a = m.regs().a;
    let result = add8(a, -(value + carry_in));
    (
        m.set8(Register8::A, result).flags(
            result == 0,
            true,
            (a & 0xF) < (value & 0xF) + carry_in,
            a < value + carry_in,
        ),
        cycles,
    )
}

#[verifier::opaque]
pub open spec fn and_spec(m: Machine, value: u8, cycles: u8) -> (Machine, u8) {
    let result = m.regs().a & value;
    (m.set8(Register8::A, result).flags(result == 0, false, true, false), cycles)
}

#[verifier::opaque]
pub open spec fn xor_spec(m: Machine, value: u8, cycles: u8) -> (Machine, u8) {
    let result = m.regs().a ^ value;
    (m.set8(Register8::A, result).flags(result == 0, false, false, false), cycles)
}

#[verifier::opaque]
pub open spec fn or_spec(m: Machine, value: u8, cycles: u8) -> (Machine, u8) {
    let result = m.regs().a | value;
    (m.set8(Register8::A, result).flags(result == 0, false, false, false), cycles)
}

/// The flags of A - value; A is kept.
#[verifier::opaque]
pub open spec fn cp_spec(m: Machine, value: u8, cycles: u8) -> (Machine, u8) {
    let a = m.regs().a;
    (m.flags(add8(a, -value) == 0, true, (a & 0xF) < (value & 0xF), a < value), cycles)
}

#[verifier::opaque]
pub open spec fn ret_spec(m: Machine) -> (Machine, u8) {
    let (address, m1) = m.pop();
    (m1.set16(Register16::PC, address), 4)
}

/// When the condition fails, PC moves past two bytes.
#[verifier::opaque]
pub open spec fn ret_cond_spec(m: Machine, cond: Cond) -> (Machine, u8) {
    if cond_holds(cond, m.regs()) {
        (ret_spec(m).0, 5)
    } else {
        (m.set16(Register16::PC, add16(m.regs().pc, 2)), 2)
    }
}

/// `reti` enables interrupts (after the next instruction) and returns.
#[verifier::opaque]
pub open spec fn reti_spec(m: Machine) -> (Machine, u8) {
    let m1 = Machine { cpu: CpuView { interrupt_master_enable_pending: true, ..m.cpu }, ..m };
    (ret_spec(m1).0, 4)
}

#[verifier::opaque]
pub open spec fn jp_imm16_spec(m: Machine) -> (Machine, u8) {
    let (address, m1) = m.fetch16();
    (m1.set16(Register16::PC, address), 4)
}

#[verifier::opaque]
pub open spec fn jp_cond_imm16_spec(m: Machine, cond: Cond) -> (Machine, u8) {
    if cond_holds(cond, m.regs()) {
        (jp_imm16_spec(m).0, 4)
    } else {
        (m.set16(Register16::PC, add16(m.regs().pc, 2)), 3)
    }
}

#[verifier::opaque]
pub open spec fn jp_hl_spec(m: Machine) -> (Machine, u8) {
    (m.set16(Register16::PC, m.regs().value16(Register16::HL)), 1)
}

/// Pushes the address after the instruction and jumps to the operand.
#[verifier::opaque]
pub open spec fn call_imm16_spec(m: Machine) -> (Machine, u8) {
    let (address, m1) = m.fetch16();
    (m1.push(m1.regs().pc).set16(Register16::PC, address), 6)
}

#[verifier::opaque]
pub open spec fn call_cond_imm16_spec(m: Machine, cond: Cond) -> (Machine, u8) {
    if cond_holds(cond, m.regs()) {
        (call_imm16_spec(m).0, 6)
    } else {
        (m.set16(Register16::PC, add16(m.regs().pc, 2)), 3)
    }
}

#[verifier::opaque]
pub open spec fn rst_tgt3_spec(m: Machine, tgt3: u8) -> (Machine, u8) {
    (m.push(m.regs().pc).set16(Register16::PC, (8 * tgt3) as u16), 4)
}

#[verifier::opaque]
pub open spec fn pop_r16stk_spec(m: Machine, r16stk: R16stk) -> (Machine, u8) {
    let (value, m1) = m.pop();
    (m1.set16(r16stk_register(r16stk), value), 3)
}

#[verifier::opaque]
pub open spec fn push_r16stk_spec(m: Machine, r16stk: R16stk) -> (Machine, u8) {
    (m.push(m.regs().value16(r16stk_register(r16stk))), 4)
}

/// A shift or rotation of an 8-bit operand: the operand gets `result`, Z tells whether it is
/// 0, N and H are cleared, and C gets `carry`.
#[verifier::opaque]
pub open spec fn shift_spec(m: Machine, r8: R8, result: u8, carry: bool) -> (Machine, u8) {
    (m.set_r8(r8, result).flags(result == 0, false, false, carry), 2)
}

#[verifier::opaque]
pub open spec fn rlc_r8_spec(m: Machine, r8: R8) -> (Machine, u8) {
    let value = m.get_r8(r8);
    shift_spec(m, r8, rotl(value), value >> 7u8 == 1)
}

#[verifier::opaque]
pub open spec fn rrc_r8_spec(m: Machine, r8: R8) -> (Machine, u8) {
    let value = m.get_r8(r8);
    shift_spec(m, r8, rotr(value), value & 1 == 1)
}

#[verifier::opaque]
pub open spec fn rl_r8_spec(m: Machine, r8: R8) -> (Machine, u8) {
    let value = m.get_r8(r8);
    let result = if m.regs().flag(Flag::Carry) {
        (value << 1u8) | 1
    } else {
        value << 1u8
    };
    shift_spec(m, r8, result, value >> 7u8 == 1)
}

#[verifier::opaque]
pub open spec fn rr_r8_spec(m: Machine, r8: R8) -> (Machine, u8) {
    let value = m.get_r8(r8);
    let result = if m.regs().flag(Flag::Carry) {
        (value >> 1u8) | 0x80
    } else {
        value >> 1u8
    };
    shift_spec(m, r8, result, value & 1 == 1)
}

#[verifier::opaque]
pub open spec fn sla_r8_spec(m: Machine, r8: R8) -> (Machine, u8) {
    let value = m.get_r8(r8);
    shift_spec(m, r8, value << 1u8, value >> 7u8 == 1)
}

/// Arithmetic shift right: bit 7 is kept.
#[verifier::opaque]
pub open spec fn sra_r8_spec(m: Machine, r8: R8) -> (Machine, u8) {
    let value = m.get_r8(r8);
    let result = if value >> 7u8 == 1 {
        (value >> 1u8) | 0x80
    } else {
        value >> 1u8
    };
    shift_spec(m, r8, result, value & 1 == 1)
}

#[verifier::opaque]
pub open spec fn swap_r8_spec(m: Machine, r8: R8) -> (Machine, u8) {
    let value = m.get_r8(r8);
    shift_spec(m, r8, (value << 4u8) | (value >> 4u8), false)
}

/// `srl` stores the operand back unchanged; its flags are those of the shifted value.
#[verifier::opaque]
pub open spec fn srl_r8_spec(m: Machine, r8: R8) -> (Machine, u8) {
    let value = m.get_r8(r8);
    let result = value >> 1u8;
    (m.set_r8(r8, value).flags(result == 0, false, false, value & 1 == 1), 2)
}

#[verifier::opaque]
pub open spec fn bit_b3_r8_spec(m: Machine, b3: u8, r8: R8) -> (Machine, u8) {
    let value = m.get_r8(r8);
    let bit = (value >> b3) & 1;
    (m.flag(Flag::Zero, bit == 0).flag(Flag::Negative, false).flag(Flag::HalfCarry, true), 2)
}

#[verifier::opaque]
pub open spec fn res_b3_r8_spec(m: Machine, b3: u8, r8: R8) -> (Machine, u8) {
    let value = m.get_r8(r8);
    (m.set_r8(r8, value & !(1u8 << b3)), 2)
}

#[verifier::opaque]
pub open spec fn set_b3_r8_spec(m: Machine, b3: u8, r8: R8) -> (Machine, u8) {
    let value = m.get_r8(r8);
    (m.set_r8(r8, value | (1u8 << b3)), 2)
}

#[verifier::opaque]
pub open spec fn ldh_c_a_spec(m: Machine) -> (Machine, u8) {
    (m.write((0xFF00 + m.regs().c) as u16, m.regs().a), 2)
}

#[verifier::opaque]
pub open spec fn ldh_imm8_a_spec(m: Machine) -> (Machine, u8) {
    let (offset, m1) = m.fetch();
    (m1.write((0xFF00 + offset) as u16, m1.regs().a), 3)
}

#[verifier::opaque]
pub open spec fn ld_imm16_a_spec(m: Machine) -> (Machine, u8) {
    let (address, m1) = m.fetch16();
    (m1.write(address, m1.regs().a), 4)
}

#[verifier::opaque]
pub open spec fn ldh_a_c_spec(m: Machine) -> (Machine, u8) {
    (m.set8(Register8::A, m.read((0xFF00 + m.regs().c) as u16)), 2)
}

#[verifier::opaque]
pub open spec fn ldh_a_imm8_spec(m: Machine) -> (Machine, u8) {
    let (offset, m1) = m.fetch();
    (m1.set8(Register8::A, m1.read((0xFF00 + offset) as u16)), 3)
}

#[verifier::opaque]
pub open spec fn ld_a_imm16_spec(m: Machine) -> (Machine, u8) {
    let (address, m1) = m.fetch16();
    (m1.set8(Register8::A, m1.read(address)), 4)
}

/// SP gets SP plus the signed operand. The half carry compares the low nibbles; the carry
/// tells whether SP plus the operand byte, modulo 2^16, is above 0xFF.
#[verifier::opaque]
pub open spec fn add_sp_imm8_spec(m: Machine) -> (Machine, u8) {
    let sp = m.regs().sp;
    let (value, m1) = m.fetch();
    let m2 = m1.set16(Register16::SP, add16(sp, signed_byte(value)));
    (m2.flags(false, false, ((sp as u8) & 0xF) + (value & 0xF) > 0xF, add16(sp, value as int) > 0xFF), 4)
}

/// HL gets SP plus the signed operand; the flags are the carries out of bits 3 and 7.
#[verifier::opaque]
pub open spec fn ld_hl_sp_imm8_spec(m: Machine) -> (Machine, u8) {
    let (value, m1) = m.fetch();
    let sp = m1.regs().sp;
    let m2 = m1.set16(Register16::HL, add16(sp, signed_byte(value)));
    (
        m2.flags(
            false,
            false,
            (sp & 0xF) + ((value as u16) & 0xF) > 0xF,
            (sp & 0xFF) + ((value as u16) & 0xFF) > 0xFF,
        ),
        3,
    )
}

#[verifier::opaque]
pub open spec fn ld_sp_hl_spec(m: Machine) -> (Machine, u8) {
    (m.set16(Register16::SP, m.regs().value16(Register16::HL)), 2)
}

#[verifier::opaque]
pub open spec fn di_spec(m: Machine) -> (Machine, u8) {
    (Machine { cpu: CpuView { interrupt_master_enable: false, ..m.cpu }, ..m }, 1)
}

#[verifier::opaque]
pub open spec fn ei_spec(m: Machine) -> (Machine, u8) {
    (Machine { cpu: CpuView { interrupt_master_enable_pending: true, ..m.cpu }, ..m }, 1)
}

/// The instructions with the 0xCB prefix: the byte after the prefix selects the operation.
pub open spec fn execute_cb_spec(m0: Machine) -> (Machine, u8) {
    let (opcode, m) = m0.fetch();
    let r8 = r8_of(operand_field(opcode, 0, OperandType::R8));
    let b3 = operand_field(opcode, 3, OperandType::B3);
    if opcode & 0b11111000 == 0b00000000 {
        rlc_r8_spec(m, r8)
    } else if opcode & 0b11111000 == 0b00001000 {
        rrc_r8_spec(m, r8)
    } else if opcode & 0b11111000 == 0b00010000 {
        rl_r8_spec(m, r8)
    } else if opcode & 0b11111000 == 0b00011000 {
        rr_r8_spec(m, r8)
    } else if opcode & 0b11111000 == 0b00100000 {
        sla_r8_spec(m, r8)
    } else if opcode & 0b11111000 == 0b00101000 {
        sra_r8_spec(m, r8)
    } else if opcode & 0b11111000 == 0b00110000 {
        swap_r8_spec(m, r8)
    } else if opcode & 0b11111000 == 0b00111000 {
        srl_r8_spec(m, r8)
    } else if opcode & 0b11000000 == 0b01000000 {
        bit_b3_r8_spec(m, b3, r8)
    } else if opcode & 0b11000000 == 0b10000000 {
        res_b3_r8_spec(m, b3, r8)
    } else if opcode & 0b11000000 == 0b11000000 {
        set_b3_r8_spec(m, b3, r8)
    } else {
        (m, 1)
    }
}

/// The instruction `opcode`, with PC already past the opcode byte. Opcodes that name no
/// instruction do nothing and take 1 cycle. The opcode table is read in order, in five parts.
pub open spec fn execute_spec(m: Machine, opcode: u8) -> (Machine, u8) {
    let r16_4 = r16_of(operand_field(opcode, 4, OperandType::R16));
    let r16mem_4 = r16mem_of(operand_field(opcode, 4, OperandType::R16mem));
    let r8_3 = r8_of(operand_field(opcode, 3, OperandType::R8));
    let r8_0 = r8_of(operand_field(opcode, 0, OperandType::R8));
    let cond_3 = cond_of(operand_field(opcode, 3, OperandType::Cond));
    let r16stk_3 = r16stk_of(operand_field(opcode, 3, OperandType::R16stk));
    if opcode == 0b00000000 {
        (m, 1)
    } else if opcode & 0b11001111 == 0b00000001 {
        ld_r16_imm16_spec(m, r16_4)
    } else if opcode & 0b11001111 == 0b00000010 {
        ld_r16mem_a_spec(m, r16mem_4)
    } else if opcode & 0b11001111 == 0b00001010 {
        ld_a_r16mem_spec(m, r16mem_4)
    } else if opcode == 0b00001000 {
        ld_imm16_sp_spec(m)
    } else if opcode & 0b11001111 == 0b00000011 {
        inc_r16_spec(m, r16_4)
    } else if opcode & 0b11001111 == 0b00001011 {
        dec_r16_spec(m, r16_4)
    } else if opcode & 0b11001111 == 0b00001001 {
        add_hl_r16_spec(m, r16_4)
    } else if opcode & 0b11000111 == 0b00000100 {
        inc_r8_spec(m, r8_3)
    } else if opcode & 0b11000111 == 0b00000101 {
        dec_r8_spec(m, r8_3)
    } else if opcode & 0b11000111 == 0b00000110 {
        ld_r8_imm8_spec(m, r8_3)
    } else {
        execute_misc_spec(m, opcode)
    }
}

/// The rotations of A, the flag instructions and the relative jumps, then the 8-bit loads.
pub open spec fn execute_misc_spec(m: Machine, opcode: u8) -> (Machine, u8) {
    let r16_4 = r16_of(operand_field(opcode, 4, OperandType::R16));
    let r16mem_4 = r16mem_of(operand_field(opcode, 4, OperandType::R16mem));
    let r8_3 = r8_of(operand_field(opcode, 3, OperandType::R8));
    let r8_0 = r8_of(operand_field(opcode, 0, OperandType::R8));
    let cond_3 = cond_of(operand_field(opcode, 3, OperandType::Cond));
    let r16stk_3 = r16stk_of(operand_field(opcode, 3, OperandType::R16stk));
    if opcode == 0b00000111 {
        rlca_spec(m)
    } else if opcode == 0b00001111 {
        rrca_spec(m)
    } else if opcode == 0b00010111 {
        rla_spec(m)
    } else if opcode == 0b00011111 {
        rra_spec(m)
    } else if opcode == 0b00100111 {
        daa_spec(m)
    } else if opcode == 0b00101111 {
        cpl_spec(m)
    } else if opcode == 0b00110111 {
        scf_spec(m)
    } else if opcode == 0b00111111 {
        ccf_spec(m)
    } else if opcode == 0b00011000 {
        jr_imm8_spec(m)
    } else if opcode & 0b11100111 == 0b00100000 {
        jr_cond_imm8_spec(m, cond_3)
    } else {
        execute_alu_spec(m, opcode)
    }
}

/// The arithmetic and logic on A.
pub open spec fn execute_alu_spec(m: Machine, opcode: u8) -> (Machine, u8) {
    let r16_4 = r16_of(operand_field(opcode, 4, OperandType::R16));
    let r16mem_4 = r16mem_of(operand_field(opcode, 4, OperandType::R16mem));
    let r8_3 = r8_of(operand_field(opcode, 3, OperandType::R8));
    let r8_0 = r8_of(operand_field(opcode, 0, OperandType::R8));
    let cond_3 = cond_of(operand_field(opcode, 3, OperandType::Cond));
    let r16stk_3 = r16stk_of(operand_field(opcode, 3, OperandType::R16stk));
    if opcode & 0b11000000 == 0b01000000 {
        ld_r8_r8_spec(m, r8_3, r8_0)
    } else if opcode & 0b11111000 == 0b10000000 {
        add_spec(m, m.get_r8(r8_0), 0, 1)
    } else if opcode & 0b11111000 == 0b10001000 {
        add_spec(m, m.get_r8(r8_0), carry_bit(m.regs()), 1)
    } else if opcode & 0b11111000 == 0b10010000 {
        sub_spec(m, m.get_r8(r8_0), 0, 1)
    } else if opcode & 0b11111000 == 0b10011000 {
        sub_spec(m, m.get_r8(r8_0), carry_bit(m.regs()), 1)
    } else if opcode & 0b11111000 == 0b10100000 {
        and_spec(m, m.get_r8(r8_0), 1)
    } else if opcode & 0b11111000 == 0b10101000 {
        xor_spec(m, m.get_r8(r8_0), 1)
    } else if opcode & 0b11111000 == 0b10110000 {
        or_spec(m, m.get_r8(r8_0), 1)
    } else if opcode & 0b11111000 == 0b10111000 {
        cp_spec(m, m.get_r8(r8_0), 1)
    } else if opcode == 0b11000110 {
        add_spec(m.fetch().1, m.fetch().0, 0, 2)
    } else if opcode == 0b11001110 {
        add_spec(m.fetch().1, m.fetch().0, carry_bit(m.regs()), 2)
    } else if opcode == 0b11010110 {
        sub_spec(m.fetch().1, m.fetch().0, 0, 2)
    } else if opcode == 0b11011110 {
        sub_spec(m.fetch().1, m.fetch().0, carry_bit(m.regs()), 2)
    } else if opcode == 0b11100110 {
        and_spec(m.fetch().1, m.fetch().0, 2)
    } else if opcode == 0b11101110 {
        xor_spec(m.fetch().1, m.fetch().0, 2)
    } else if opcode == 0b11110110 {
        or_spec(m.fetch().1, m.fetch().0, 2)
    } else {
        execute_flow_spec(m, opcode)
    }
}

/// Returns, jumps, calls, restarts, pops and pushes.
pub open spec fn execute_flow_spec(m: Machine, opcode: u8) -> (Machine, u8) {
    let r16_4 = r16_of(operand_field(opcode, 4, OperandType::R16));
    let r16mem_4 = r16mem_of(operand_field(opcode, 4, OperandType::R16mem));
    let r8_3 = r8_of(operand_field(opcode, 3, OperandType::R8));
    let r8_0 = r8_of(operand_field(opcode, 0, OperandType::R8));
    let cond_3 = cond_of(operand_field(opcode, 3, OperandType::Cond));
    let r16stk_3 = r16stk_of(operand_field(opcode, 3, OperandType::R16stk));
    if opcode == 0b11111110 {
        cp_spec(m.fetch().1, m.fetch().0, 2)
    } else if opcode & 0b11100111 == 0b11000000 {
        ret_cond_spec(m, cond_3)
    } else if opcode == 0b11001001 {
        ret_spec(m)
    } else if opcode == 0b11011001 {
        reti_spec(m)
    } else if opcode & 0b11100111 == 0b11000010 {
        jp_cond_imm16_spec(m, cond_3)
    } else if opcode == 0b11000011 {
        jp_imm16_spec(m)
    } else if opcode == 0b11101001 {
        jp_hl_spec(m)
    } else if opcode & 0b11100111 == 0b11000100 {
        call_cond_imm16_spec(m, cond_3)
    } else if opcode == 0b11001101 {
        call_imm16_spec(m)
    } else if opcode & 0b11000111 == 0b11000111 {
        rst_tgt3_spec(m, operand_field(opcode, 3, OperandType::Tgt3))
    } else if opcode & 0b11001111 == 0b11000001 {
        pop_r16stk_spec(m, r16stk_3)
    } else {
        execute_other_spec(m, opcode)
    }
}

/// The prefixed instructions, the high-page and absolute loads, the stack pointer
/// arithmetic and the interrupt enable instructions.
pub open spec fn execute_other_spec(m: Machine, opcode: u8) -> (Machine, u8) {
    let r16_4 = r16_of(operand_field(opcode, 4, OperandType::R16));
    let r16mem_4 = r16mem_of(operand_field(opcode, 4, OperandType::R16mem));
    let r8_3 = r8_of(operand_field(opcode, 3, OperandType::R8));
    let r8_0 = r8_of(operand_field(opcode, 0, OperandType::R8));
    let cond_3 = cond_of(operand_field(opcode, 3, OperandType::Cond));
    let r16stk_3 = r16stk_of(operand_field(opcode, 3, OperandType::R16stk));
    if opcode & 0b11001111 == 0b11000101 {
        push_r16stk_spec(m, r16stk_3)
    } else if opcode == 0b11001011 {
        execute_cb_spec(m)
    } else if opcode == 0b11100010 {
        ldh_c_a_spec(m)
    } else if opcode == 0b11100000 {
        ldh_imm8_a_spec(m)
    } else if opcode == 0b11101010 {
        ld_imm16_a_spec(m)
    } else if opcode == 0b11110010 {
        ldh_a_c_spec(m)
    } else if opcode == 0b11110000 {
        ldh_a_imm8_spec(m)
    } else if opcode == 0b11111010 {
        ld_a_imm16_spec(m)
    } else if opcode == 0b11101000 {
        add_sp_imm8_spec(m)
    } else if opcode == 0b11111000 {
        ld_hl_sp_imm8_spec(m)
    } else if opcode == 0b11111001 {
        ld_sp_hl_spec(m)
    } else if opcode == 0b11110011 {
        di_spec(m)
    } else if opcode == 0b11111011 {
        ei_spec(m)
    } else {
        (m, 1)
    }
}

/// Interrupt `i`: its request bit in IF is cleared and IME is cleared; when it is both enabled
/// (IE) and requested (IF), PC is pushed and execution continues at 0x40 + 8 * i.
pub open spec fn interrupt_spec(m: Machine, i: u16) -> Machine {
    let interrupts = m.bus.interrupts;
    let enabled = (interrupts.enable >> i) & 1 == 1;
    let requested = (interrupts.flag >> i) & 1 == 1;
    let m1 = Machine {
        cpu: CpuView { interrupt_master_enable: false, ..m.cpu },
        bus: BusView {
            interrupts: Interrupts { flag: interrupts.flag & !(1u8 << i), ..interrupts },
            ..m.bus
        },
    };
    if enabled && requested {
        let m2 = m1.push(m1.regs().pc);
        m2.set16(Register16::PC, (0x40 + i * 0x8) as u16)
    } else {
        m1
    }
}

/// Interrupts `i` to 4 handled in order.
pub open spec fn interrupts_from(m: Machine, i: u16) -> Machine
    decreases 5 - i,
{
    if i >= 5 {
        m
    } else {
        interrupts_from(interrupt_spec(m, i), (i + 1) as u16)
    }
}

/// What happens before the opcode is fetched: a pending IME takes effect, and when IME is set
/// the interrupts are handled.
pub open spec fn before_fetch(m: Machine) -> Machine {
    let m1 = if m.cpu.interrupt_master_enable_pending {
        Machine {
            cpu: CpuView {
                interrupt_master_enable: true,
                interrupt_master_enable_pending: false,
                ..m.cpu
            },
            ..m
        }
    } else {
        m
    };
    if m1.cpu.interrupt_master_enable {
        interrupts_from(m1, 0)
    } else {
        m1
    }
}

/// One step of the processor: the machine after it, and the number of machine cycles of the
/// instruction (`None` for STOP and HALT, which are consumed and do nothing more).
pub open spec fn step_spec(m0: Machine) -> (Machine, Option<u8>) {
    let (opcode, m1) = before_fetch(m0).fetch();
    if is_stop_or_halt(opcode) {
        (m1, None)
    } else {
        let (m, cycles) = execute_spec(m1, opcode);
        (m, Some(cycles))
    }
}

/// The three bytes from the address in PC onwards.
pub open spec fn next_bytes(m: Machine) -> Seq<u8> {
    let pc = m.regs().pc;
    seq![m.read(pc), m.read(add16(pc, 1)), m.read(add16(pc, 2))]
}

/// The byte that the compare instruction `opcode` (0xFE `cp a, n`, or 0xB8 to 0xBF
/// `cp a, r`) at PC compares A with: the byte after the opcode, or the register B, C, D, E, H,
/// L, the byte at HL, or A.
pub open spec fn compared_value(m: Machine, opcode: u8) -> u8 {
    let r = m.regs();
    if opcode == 0xFE {
        m.read(add16(r.pc, 1))
    } else if opcode == 0xB8 {
        r.b
    } else if opcode == 0xB9 {
        r.c
    } else if opcode == 0xBA {
        r.d
    } else if opcode == 0xBB {
        r.e
    } else if opcode == 0xBC {
        r.h
    } else if opcode == 0xBD {
        r.l
    } else if opcode == 0xBE {
        m.read((r.h as int * 256 + r.l as int) as u16)
    } else {
        r.a
    }
}

proof fn lemma_compare_decode(op: u8)
    by (bit_vector)
    requires
        op == 0xFE || (0xB8 <= op && op <= 0xBF),
    ensures
        op & 0b11001111 != 0b00000001,
        op & 0b11001111 != 0b00000010,
        op & 0b11001111 != 0b00001010,
        op & 0b11001111 != 0b00000011,
        op & 0b11001111 != 0b00001011,
        op & 0b11001111 != 0b00001001,
        op & 0b11000111 != 0b00000100,
        op & 0b11000111 != 0b00000101,
        op & 0b11000111 != 0b00000110,
        op & 0b11100111 != 0b00100000,
        op & 0b11000000 != 0b01000000,
        op & 0b11111000 != 0b10000000,
        op & 0b11111000 != 0b10001000,
        op & 0b11111000 != 0b10010000,
        op & 0b11111000 != 0b10011000,
        op & 0b11111000 != 0b10100000,
        op & 0b11111000 != 0b10101000,
        op & 0b11111000 != 0b10110000,
        (op & 0b11111000 == 0b10111000) == (op != 0xFE),
        op != 0xFE ==> (op >> 0u8) & (((1u8 << 3u8) - 1) as u8) == op - 0xB8,
{
}

/// A compare instruction (`cp a, n` or `cp a, r`), run with no interrupt to handle, leaves A as
/// it was and sets the flags of A - n: Z exactly when A equals n, N, and C exactly when A is
/// below n as unsigned bytes (the subtraction borrows).
pub proof fn lemma_compare_flags(m: Machine)
    requires
        !m.cpu.interrupt_master_enable,
        !m.cpu.interrupt_master_enable_pending,
        m.read(m.regs().pc) == 0xFE || (0xB8 <= m.read(m.regs().pc) <= 0xBF),
    ensures
        ({
            let opcode = m.read(m.regs().pc);
            let n = compared_value(m, opcode);
            let a = m.regs().a;
            let after = step_spec(m);
            &&& after.1 == Some(if opcode == 0xFE { 2u8 } else { 1u8 })
            &&& after.0.regs().a == a
            &&& after.0.regs().flag(Flag::Carry) == (a < n)
            &&& after.0.regs().flag(Flag::Zero) == (a == n)
            &&& after.0.regs().flag(Flag::Negative)
        }),
{
    let opcode = m.read(m.regs().pc);
    lemma_compare_decode(opcode);
    let m1 = m.fetch().1;
    assert(before_fetch(m) == m);
    reveal(cp_spec);
    let value = if opcode == 0xFE { m1.fetch().0 } else { m1.get_r8(r8_of(operand_field(opcode, 0, OperandType::R8))) };
    let base = if opcode == 0xFE { m1.fetch().1 } else { m1 };
    assert(value == compared_value(m, opcode));
    assert(base.regs().a == m.regs().a);
    let a = m.regs().a;
    let r = base.regs();
    let z = add8(a, -value) == 0;
    let h = (a & 0xF) < (value & 0xF);
    let c = a < value;
    assert(z == (a == value));
    let r1 = r.with_flag(Flag::Zero, z);
    let r2 = r1.with_flag(Flag::Negative, true);
    let r3 = r2.with_flag(Flag::HalfCarry, h);
    let r4 = r3.with_flag(Flag::Carry, c);
    crate::machine::registers::lemma_flag_roundtrip(r3, Flag::Carry, Flag::Carry, c);
    crate::machine::registers::lemma_flag_roundtrip(r3, Flag::Carry, Flag::Zero, c);
    crate::machine::registers::lemma_flag_roundtrip(r3, Flag::Carry, Flag::Negative, c);
    crate::machine::registers::lemma_flag_roundtrip(r2, Flag::HalfCarry, Flag::Zero, h);
    crate::machine::registers::lemma_flag_roundtrip(r2, Flag::HalfCarry, Flag::Negative, h);
    crate::machine::registers::lemma_flag_roundtrip(r1, Flag::Negative, Flag::Negative, true);
    crate::machine::registers::lemma_flag_roundtrip(r1, Flag::Negative, Flag::Zero, true);
    crate::machine::registers::lemma_flag_roundtrip(r, Flag::Zero, Flag::Zero, z);
    assert(step_spec(m).0 == base.flags(z, true, h, c));
}

/// A word pushed onto a stack that lies in RAM is popped back unchanged, and the stack pointer
/// returns to where it was.
pub proof fn lemma_push_pop(m: Machine, value: u16)
    requires
        m.bus.inv(),
        is_ram_address(add16(m.regs().sp, -1)),
        is_ram_address(add16(m.regs().sp, -2)),
    ensures
        m.push(value).pop().0 == value,
        m.push(value).pop().1.regs() == m.regs(),
{
    let sp = m.regs().sp;
    let s1 = add16(sp, -1);
    let s2 = add16(s1, -1);
    let m1 = m.write(s1, high_byte(value));
    lemma_ram_read_after_write(m.bus, s1, high_byte(value));
    lemma_ram_read_after_write(m1.bus, s2, low_byte(value));
    lemma_ram_write_frame(m1.bus, s2, s1, low_byte(value));
    assert(add16(s2, 1) == s1);
    assert(add16(s2, 2) == sp);
    assert(high_byte(value) as int * 256 + low_byte(value) as int == value as int);
    assert(m.push(value).pop().1.regs() =~= m.regs());
}

/// A call to an address, followed by a return, comes back to the instruction after the call
/// (two bytes past the call's opcode) with the stack pointer where it was, when the stack lies
/// in RAM.
pub proof fn lemma_call_then_ret(m: Machine)
    requires
        m.bus.inv(),
        is_ram_address(add16(m.regs().sp, -1)),
        is_ram_address(add16(m.regs().sp, -2)),
    ensures
        ret_spec(call_imm16_spec(m).0).0.regs().pc == add16(m.regs().pc, 2),
        ret_spec(call_imm16_spec(m).0).0.regs().sp == m.regs().sp,
{
    reveal(call_imm16_spec);
    reveal(ret_spec);
    let m1 = m.fetch16().1;
    assert(m1.regs().sp == m.regs().sp);
    assert(m1.bus == m.bus);
    assert(m1.regs().pc == add16(m.regs().pc, 2));
    lemma_push_pop(m1, m1.regs().pc);
}

/// Incrementing a 16-bit register and then decrementing it gives back the machine.
pub proof fn lemma_inc_then_dec_r16(m: Machine, r16: R16)
    ensures
        dec_r16_spec(inc_r16_spec(m, r16).0, r16).0 == m,
{
    reveal(inc_r16_spec);
    reveal(dec_r16_spec);
    let register = r16_register(r16);
    let value = m.regs().value16(register);
    crate::machine::registers::lemma_register16_roundtrip(m.regs(), register, add16(value, 1));
    let m1 = inc_r16_spec(m, r16).0;
    assert(m1.regs().value16(register) == add16(value, 1));
    crate::machine::registers::lemma_register16_roundtrip(m1.regs(), register, value);
    assert(add16(add16(value, 1), -1) == value);
    assert(m1.regs().with16(register, value) =~= m.regs()) by {
        assert(m.regs().with16(register, value) == m.regs()) by {
            assert(high_byte(value) as int * 256 + low_byte(value) as int == value as int);
        }
    }
    assert(dec_r16_spec(m1, r16).0 =~= m);
}

/// Complementing A twice gives back A.
pub proof fn lemma_cpl_twice(m: Machine)
    ensures
        cpl_spec(cpl_spec(m).0).0.regs().a == m.regs().a,
{
    reveal(cpl_spec);
    let a = m.regs().a;
    assert(!(!a) == a) by (bit_vector);
}

/// Swapping the nibbles of a byte twice gives back the byte.
pub proof fn lemma_swap_twice(value: u8)
    ensures
        ({
            let swapped = (value << 4u8) | (value >> 4u8);
            (swapped << 4u8) | (swapped >> 4u8) == value
        }),
{
    assert(((((value << 4u8) | (value >> 4u8)) << 4u8) | (((value << 4u8) | (value >> 4u8)) >> 4u8))
        == value) by (bit_vector);
}

/// Every instruction starts with IME and its pending flag cleared: a pending IME (from `ei` or
/// `reti`) takes effect for exactly one interrupt dispatch, and each dispatch clears IME.
pub proof fn lemma_dispatch_clears_ime(m: Machine)
    ensures
        !before_fetch(m).cpu.interrupt_master_enable,
        !before_fetch(m).cpu.interrupt_master_enable_pending,
        (m.cpu.interrupt_master_enable || m.cpu.interrupt_master_enable_pending) ==>
            before_fetch(m) == interrupts_from(
            Machine {
                cpu: CpuView {
                    interrupt_master_enable: true,
                    interrupt_master_enable_pending: false,
                    ..m.cpu
                },
                ..m
            },
            0,
        ),
{
    let m1 = if m.cpu.interrupt_master_enable_pending {
        Machine {
            cpu: CpuView {
                interrupt_master_enable: true,
                interrupt_master_enable_pending: false,
                ..m.cpu
            },
            ..m
        }
    } else {
        m
    };
    if m1.cpu.interrupt_master_enable {
        lemma_interrupts_clear_ime(m1, 0);
    }
}

/// Handling interrupts `i` to 4 leaves IME cleared (when there is one to handle) and never
/// touches the pending flag.
pub proof fn lemma_interrupts_clear_ime(m: Machine, i: u16)
    requires
        i <= 5,
    ensures
        i < 5 ==> !interrupts_from(m, i).cpu.interrupt_master_enable,
        interrupts_from(m, i).cpu.interrupt_master_enable_pending
            == m.cpu.interrupt_master_enable_pending,
    decreases 5 - i,
{
    if i < 5 {
        lemma_interrupts_clear_ime(interrupt_spec(m, i), (i + 1) as u16);
    }
}

impl View for Cpu {
    type V = CpuView;

    closed spec fn view(&self) -> CpuView {
        CpuView {
            registers: self.registers,
            interrupt_master_enable: self.interrupt_master_enable,
            interrupt_master_enable_pending: self.interrupt_master_enable_pending,
        }
    }
}

broadcast use {crate::machine::bits::lemma_mask_bound_u8, crate::machine::bits::lemma_mask_bound_u16};

/// The low byte of `low` joined with the high byte `high`, as `ret` and `pop` assemble it.
fn assemble(low: u8, high: u8) -> (value: u16)
    ensures
        value == word(high, low),
{
    let mut value = low as u16;
    assert((high as u16) << 8u16 == high as u16 * 256) by (bit_vector);
    value += (high as u16) << 8;
    value
}

impl Cpu {
    pub fn new() -> (cpu: Self)
        ensures
            cpu@ == CpuView::initial(),
    {
        Self {
            registers: Registers::new(),
            interrupt_master_enable: false,
            interrupt_master_enable_pending: false,
        }
    }

    pub fn registers(&self) -> (registers: Registers)
        ensures
            registers == self@.registers,
    {
        self.registers
    }

    fn fetch(&mut self, bus: &mut Bus) -> (value: u8)
        requires
            old(bus)@.inv(),
        ensures
            (value, Machine::of(final(self)@, final(bus)@)) == Machine::of(old(self)@, old(bus)@).fetch(),
            *final(bus) == *old(bus),
    {
        let pc = self.registers.get_register16(Register16::PC);
        self.registers.set_register16(Register16::PC, pc.wrapping_add(1));
        bus.read(pc)
    }

    fn fetch_16(&mut self, bus: &mut Bus) -> (value: u16)
        requires
            old(bus)@.inv(),
        ensures
            (value, Machine::of(final(self)@, final(bus)@)) == Machine::of(old(self)@, old(bus)@).fetch16(),
            *final(bus) == *old(bus),
    {
        // Little-endian order
        let low = self.fetch(bus);
        let high = self.fetch(bus);
        join_bytes(high, low)
    }

    /// Pushes `value` onto the stack.
    fn push(&mut self, value: u16, bus: &mut Bus)
        requires
            old(bus)@.inv(),
        ensures
            Machine::of(final(self)@, final(bus)@) == Machine::of(old(self)@, old(bus)@).push(value),
            final(bus)@.inv(),
    {
        let mut sp = self.registers.get_register16(Register16::SP);

        sp = sp.wrapping_sub(1);
        bus.write(sp, upper_byte(value));

        sp = sp.wrapping_sub(1);
        bus.write(sp, lower_byte(value));

        self.registers.set_register16(Register16::SP, sp);
    }

    /// Pops a word from the stack.
    fn pop(&mut self, bus: &mut Bus) -> (value: u16)
        requires
            old(bus)@.inv(),
        ensures
            (value, Machine::of(final(self)@, final(bus)@)) == Machine::of(old(self)@, old(bus)@).pop(),
            *final(bus) == *old(bus),
    {
        let mut sp = self.registers.get_register16(Register16::SP);

        let low = bus.read(sp);
        sp = sp.wrapping_add(1);

        let high = bus.read(sp);
        sp = sp.wrapping_add(1);

        self.registers.set_register16(Register16::SP, sp);
        assemble(low, high)
    }

    fn handle_interrupts(&mut self, bus: &mut Bus)
        requires
            old(bus)@.inv(),
        ensures
            Machine::of(final(self)@, final(bus)@) == interrupts_from(
                Machine::of(old(self)@, old(bus)@),
                0,
            ),
            final(bus)@.inv(),
    {
        let mut i: u16 = 0;
        while i < 5
            invariant
                0 <= i <= 5,
                bus@.inv(),
                interrupts_from(Machine::of(self@, bus@), i) == interrupts_from(
                    Machine::of(old(self)@, old(bus)@),
                    0,
                ),
            decreases 5 - i,
        {
            let ghost before = Machine::of(self@, bus@);
            let enabled = (bus.interrupts.enable >> i) & 1 == 1;
            let requested = (bus.interrupts.flag >> i) & 1 == 1;

            bus.interrupts.flag = bus.interrupts.flag & !(1u8 << i);
            self.interrupt_master_enable = false;

            if enabled && requested {
                // Push PC to stack
                let pc = self.registers.get_register16(Register16::PC);
                self.push(pc, bus);

                // Jump to interrupt service routine
                let address = 0x40 + i * 0x8;
                self.registers.set_register16(Register16::PC, address);
            }
            assert(Machine::of(self@, bus@) == interrupt_spec(before, i));
            i += 1;
        }
    }

    /// The three bytes from the address in PC onwards, and that address.
    pub fn get_next_opcode(&self, bus: &mut Bus) -> (next: ([u8; 3], u16))
        requires
            old(bus)@.inv(),
        ensures
            next.0@ == next_bytes(Machine::of(self@, old(bus)@)),
            next.1 == self@.registers.pc,
            *final(bus) == *old(bus),
    {
        let opcode_bytes = [
            bus.read(self.registers.pc),
            bus.read(self.registers.pc.wrapping_add(1)),
            bus.read(self.registers.pc.wrapping_add(2)),
        ];
        let opcode_address = self.registers.pc;

        assert(opcode_bytes@ =~= next_bytes(Machine::of(self@, old(bus)@)));
        (opcode_bytes, opcode_address)
    }
}

impl Cpu {
    fn ld_r16_imm16(&mut self, r16: R16, bus: &mut Bus) -> (cycles: u8)
        requires
            old(bus)@.inv(),
        ensures
            1 <= cycles <= 6,
            (Machine::of(final(self)@, final(bus)@), cycles) == ld_r16_imm16_spec(Machine::of(old(self)@, old(bus)@), r16),
            final(bus)@.inv(),
    {
        proof {
            reveal(ld_r16_imm16_spec);
        }
        let value = self.fetch_16(bus);
        set_r16(r16, value, &mut self.registers);
        3
    }

    fn ld_r16mem_a(&mut self, r16mem: R16mem, bus: &mut Bus) -> (cycles: u8)
        requires
            old(bus)@.inv(),
        ensures
            1 <= cycles <= 6,
            (Machine::of(final(self)@, final(bus)@), cycles) == ld_r16mem_a_spec(Machine::of(old(self)@, old(bus)@), r16mem),
            final(bus)@.inv(),
    {
        proof {
            reveal(ld_r16mem_a_spec);
        }
        let address = get_r16mem(r16mem, &self.registers);
        bus.write(address, self.registers.a);

        match r16mem {
            R16mem::HLI => {
                let hl = self.registers.get_register16(Register16::HL);
                self.registers.set_register16(Register16::HL, hl.wrapping_add(1));
            },
            R16mem::HLD => {
                let hl = self.registers.get_register16(Register16::HL);
                self.registers.set_register16(Register16::HL, hl.wrapping_sub(1));
            },
            _ => (),
        }

        2
    }

    fn ld_a_r16mem(&mut self, r16mem: R16mem, bus: &mut Bus) -> (cycles: u8)
        requires
            old(bus)@.inv(),
        ensures
            1 <= cycles <= 6,
            (Machine::of(final(self)@, final(bus)@), cycles) == ld_a_r16mem_spec(Machine::of(old(self)@, old(bus)@), r16mem),
            final(bus)@.inv(),
    {
        proof {
            reveal(ld_a_r16mem_spec);
        }
        let address = get_r16mem(r16mem, &self.registers);
        self.registers.a = bus.read(address);

        match r16mem {
            R16mem::HLI => {
                let hl = self.registers.get_register16(Register16::HL);
                self.registers.set_register16(Register16::HL, hl.wrapping_add(1));
            },
            R16mem::HLD => {
                let hl = self.registers.get_register16(Register16::HL);
                self.registers.set_register16(Register16::HL, hl.wrapping_sub(1));
            },
            _ => (),
        }

        2
    }

    fn ld_imm16_sp(&mut self, bus: &mut Bus) -> (cycles: u8)
        requires
            old(bus)@.inv(),
        ensures
            1 <= cycles <= 6,
            (Machine::of(final(self)@, final(bus)@), cycles) == ld_imm16_sp_spec(Machine::of(old(self)@, old(bus)@)),
            final(bus)@.inv(),
    {
        proof {
            reveal(ld_imm16_sp_spec);
        }
        let address = self.fetch_16(bus);
        let value = self.registers.sp;
        bus.write(address, lower_byte(value));
        bus.write(address.wrapping_add(1), upper_byte(value));
        5
    }

    fn inc_r16(&mut self, r16: R16) -> (cycles: u8)
        ensures
            1 <= cycles <= 6,
            forall|bus: BusView|
                #![trigger inc_r16_spec(Machine::of(old(self)@, bus), r16)]
                (Machine::of(final(self)@, bus), cycles) == inc_r16_spec(Machine::of(old(self)@, bus), r16),
    {
        proof {
            reveal(inc_r16_spec);
        }
        let value = get_r16(r16, &self.registers);
        let result = value.wrapping_add(1);
        set_r16(r16, result, &mut self.registers);
        2
    }

    fn dec_r16(&mut self, r16: R16) -> (cycles: u8)
        ensures
            1 <= cycles <= 6,
            forall|bus: BusView|
                #![trigger dec_r16_spec(Machine::of(old(self)@, bus), r16)]
                (Machine::of(final(self)@, bus), cycles) == dec_r16_spec(Machine::of(old(self)@, bus), r16),
    {
        proof {
            reveal(dec_r16_spec);
        }
        let value = get_r16(r16, &self.registers);
        let result = value.wrapping_sub(1);
        set_r16(r16, result, &mut self.registers);
        2
    }

    fn add_hl_r16(&mut self, r16: R16) -> (cycles: u8)
        ensures
            1 <= cycles <= 6,
            forall|bus: BusView|
                #![trigger add_hl_r16_spec(Machine::of(old(self)@, bus), r16)]
                (Machine::of(final(self)@, bus), cycles) == add_hl_r16_spec(Machine::of(old(self)@, bus), r16),
    {
        proof {
            reveal(add_hl_r16_spec);
        }
        let hl = self.registers.get_register16(Register16::HL);
        let value = get_r16(r16, &self.registers);

        let result = hl.wrapping_add(value);
        let carry = (hl as u32) + (value as u32) > 0xFFFF;
        self.registers.set_register16(Register16::HL, result);

        let half_carry = (hl & 0xFFF) + (value & 0xFFF) > 0xFFF;

        self.registers.set_flag(Flag::Negative, false);
        self.registers.set_flag(Flag::HalfCarry, half_carry);
        self.registers.set_flag(Flag::Carry, carry);

        2
    }

    fn inc_r8(&mut self, r8: R8, bus: &mut Bus) -> (cycles: u8)
        requires
            old(bus)@.inv(),
        ensures
            1 <= cycles <= 6,
            (Machine::of(final(self)@, final(bus)@), cycles) == inc_r8_spec(Machine::of(old(self)@, old(bus)@), r8),
            final(bus)@.inv(),
    {
        proof {
            reveal(inc_r8_spec);
        }
        let value = get_r8(r8, &self.registers, bus);
        let result = value.wrapping_add(1);
        set_r8(r8, result, &mut self.registers, bus);

        let half_carry = (value & 0xF) + 1 > 0xF;

        self.registers.set_flag(Flag::Zero, result == 0);
        self.registers.set_flag(Flag::Negative, false);
        self.registers.set_flag(Flag::HalfCarry, half_carry);

        1
    }

    fn dec_r8(&mut self, r8: R8, bus: &mut Bus) -> (cycles: u8)
        requires
            old(bus)@.inv(),
        ensures
            1 <= cycles <= 6,
            (Machine::of(final(self)@, final(bus)@), cycles) == dec_r8_spec(Machine::of(old(self)@, old(bus)@), r8),
            final(bus)@.inv(),
    {
        proof {
            reveal(dec_r8_spec);
        }
        let value = get_r8(r8, &self.registers, bus);
        let result = value.wrapping_sub(1);
        set_r8(r8, result, &mut self.registers, bus);

        let half_carry = value & 0xF == 0;

        self.registers.set_flag(Flag::Zero, result == 0);
        self.registers.set_flag(Flag::Negative, true);
        self.registers.set_flag(Flag::HalfCarry, half_carry);

        1
    }

    fn ld_r8_imm8(&mut self, r8: R8, bus: &mut Bus) -> (cycles: u8)
        requires
            old(bus)@.inv(),
        ensures
            1 <= cycles <= 6,
            (Machine::of(final(self)@, final(bus)@), cycles) == ld_r8_imm8_spec(Machine::of(old(self)@, old(bus)@), r8),
            final(bus)@.inv(),
    {
        proof {
            reveal(ld_r8_imm8_spec);
        }
        let value = self.fetch(bus);
        set_r8(r8, value, &mut self.registers, bus);
        2
    }

    fn rlca(&mut self) -> (cycles: u8)
        ensures
            1 <= cycles <= 6,
            forall|bus: BusView|
                #![trigger rlca_spec(Machine::of(old(self)@, bus))]
                (Machine::of(final(self)@, bus), cycles) == rlca_spec(Machine::of(old(self)@, bus)),
    {
        proof {
            reveal(rlca_spec);
        }
        let value = self.registers.get_register8(Register8::A);
        self.registers.set_register8(Register8::A, (value << 1u8) | (value >> 7u8));

        self.registers.set_flag(Flag::Zero, false);
        self.registers.set_flag(Flag::Negative, false);
        self.registers.set_flag(Flag::HalfCarry, false);
        self.registers.set_flag(Flag::Carry, value >> 7u8 == 1);

        1
    }

    fn rrca(&mut self) -> (cycles: u8)
        ensures
            1 <= cycles <= 6,
            forall|bus: BusView|
                #![trigger rrca_spec(Machine::of(old(self)@, bus))]
                (Machine::of(final(self)@, bus), cycles) == rrca_spec(Machine::of(old(self)@, bus)),
    {
        proof {
            reveal(rrca_spec);
        }
        let value = self.registers.get_register8(Register8::A);
        self.registers.set_register8(Register8::A, (value >> 1u8) | (value << 7u8));

        self.registers.set_flag(Flag::Zero, false);
        self.registers.set_flag(Flag::Negative, false);
        self.registers.set_flag(Flag::HalfCarry, false);
        self.registers.set_flag(Flag::Carry, value & 1 == 1);

        1
    }

    fn rla(&mut self) -> (cycles: u8)
        ensures
            1 <= cycles <= 6,
            forall|bus: BusView|
                #![trigger rla_spec(Machine::of(old(self)@, bus))]
                (Machine::of(final(self)@, bus), cycles) == rla_spec(Machine::of(old(self)@, bus)),
    {
        proof {
            reveal(rla_spec);
        }
        let value = self.registers.get_register8(Register8::A);
        let carry = (value >> 7u8) == 1;
        let mut result = value << 1u8;

        if self.registers.get_flag(Flag::Carry) {
            result |= 1;
        }

        self.registers.set_register8(Register8::A, result);

        self.registers.set_flag(Flag::Zero, false);
        self.registers.set_flag(Flag::Negative, false);
        self.registers.set_flag(Flag::HalfCarry, false);
        self.registers.set_flag(Flag::Carry, carry);

        1
    }

    fn rra(&mut self) -> (cycles: u8)
        ensures
            1 <= cycles <= 6,
            forall|bus: BusView|
                #![trigger rra_spec(Machine::of(old(self)@, bus))]
                (Machine::of(final(self)@, bus), cycles) == rra_spec(Machine::of(old(self)@, bus)),
    {
        proof {
            reveal(rra_spec);
        }
        let value = self.registers.get_register8(Register8::A);
        let carry = value & 1 == 1;
        let mut result = value >> 1u8;

        if self.registers.get_flag(Flag::Carry) {
            result |= 1u8 << 7u8;
            assert(1u8 << 7u8 == 0x80) by (bit_vector);
        }

        self.registers.set_register8(Register8::A, result);

        self.registers.set_flag(Flag::Zero, false);
        self.registers.set_flag(Flag::Negative, false);
        self.registers.set_flag(Flag::HalfCarry, false);
        self.registers.set_flag(Flag::Carry, carry);

        1
    }

    fn daa(&mut self) -> (cycles: u8)
        ensures
            1 <= cycles <= 6,
            forall|bus: BusView|
                #![trigger daa_spec(Machine::of(old(self)@, bus))]
                (Machine::of(final(self)@, bus), cycles) == daa_spec(Machine::of(old(self)@, bus)),
    {
        proof {
            reveal(daa_spec);
        }
        let a = self.registers.get_register8(Register8::A);
        let half_carry = self.registers.get_flag(Flag::HalfCarry);
        let carry = self.registers.get_flag(Flag::Carry);

        if self.registers.get_flag(Flag::Negative) {
            let mut adjustment: u8 = 0;

            if half_carry {
                adjustment += 0x6;
            }

            if carry {
                adjustment += 0x60;
            }

            self.registers.set_register8(Register8::A, a.wrapping_sub(adjustment));
        } else {
            let mut adjustment: u8 = 0;

            if half_carry || a & 0xF > 0x9 {
                adjustment += 0x6;
            }

            if carry || a > 0x99 {
                adjustment += 0x60;
                self.registers.set_flag(Flag::Carry, true);
            }

            self.registers.set_register8(Register8::A, a.wrapping_add(adjustment));
        }

        self.registers.set_flag(Flag::Zero, self.registers.get_register8(Register8::A) == 0);
        self.registers.set_flag(Flag::HalfCarry, false);

        1
    }

    fn cpl(&mut self) -> (cycles: u8)
        ensures
            1 <= cycles <= 6,
            forall|bus: BusView|
                #![trigger cpl_spec(Machine::of(old(self)@, bus))]
                (Machine::of(final(self)@, bus), cycles) == cpl_spec(Machine::of(old(self)@, bus)),
    {
        proof {
            reveal(cpl_spec);
        }
        let a = self.registers.get_register8(Register8::A);
        self.registers.set_register8(Register8::A, !a);

        self.registers.set_flag(Flag::Negative, true);
        self.registers.set_flag(Flag::HalfCarry, true);

        1
    }

    fn scf(&mut self) -> (cycles: u8)
        ensures
            1 <= cycles <= 6,
            forall|bus: BusView|
                #![trigger scf_spec(Machine::of(old(self)@, bus))]
                (Machine::of(final(self)@, bus), cycles) == scf_spec(Machine::of(old(self)@, bus)),
    {
        proof {
            reveal(scf_spec);
        }
        self.registers.set_flag(Flag::Negative, false);
        self.registers.set_flag(Flag::HalfCarry, false);
        self.registers.set_flag(Flag::Carry, true);

        1
    }

    fn ccf(&mut self) -> (cycles: u8)
        ensures
            1 <= cycles <= 6,
            forall|bus: BusView|
                #![trigger ccf_spec(Machine::of(old(self)@, bus))]
                (Machine::of(final(self)@, bus), cycles) == ccf_spec(Machine::of(old(self)@, bus)),
    {
        proof {
            reveal(ccf_spec);
        }
        self.registers.set_flag(Flag::Negative, false);
        self.registers.set_flag(Flag::HalfCarry, false);

        let carry = self.registers.get_flag(Flag::Carry);
        self.registers.set_flag(Flag::Carry, !carry);

        1
    }

    fn jr_imm8(&mut self, bus: &mut Bus) -> (cycles: u8)
        requires
            old(bus)@.inv(),
        ensures
            1 <= cycles <= 6,
            (Machine::of(final(self)@, final(bus)@), cycles) == jr_imm8_spec(Machine::of(old(self)@, old(bus)@)),
            final(bus)@.inv(),
    {
        proof {
            reveal(jr_imm8_spec);
        }
        let offset = sign_extend(self.fetch(bus));
        let pc = self.registers.get_register16(Register16::PC);

        self.registers.set_register16(Register16::PC, pc.wrapping_add_signed(offset));

        3
    }

    fn jr_cond_imm8(&mut self, cond: Cond, bus: &mut Bus) -> (cycles: u8)
        requires
            old(bus)@.inv(),
        ensures
            1 <= cycles <= 6,
            (Machine::of(final(self)@, final(bus)@), cycles) == jr_cond_imm8_spec(Machine::of(old(self)@, old(bus)@), cond),
            final(bus)@.inv(),
    {
        proof {
            reveal(jr_cond_imm8_spec);
            reveal(jr_imm8_spec);
        }
        if get_cond(cond, &self.registers) {
            self.jr_imm8(bus);
            3
        } else {
            let pc = self.registers.get_register16(Register16::PC);
            self.registers.set_register16(Register16::PC, pc.wrapping_add(1));
            2
        }
    }

    fn ld_r8_r8(&mut self, r8a: R8, r8b: R8, bus: &mut Bus) -> (cycles: u8)
        requires
            old(bus)@.inv(),
        ensures
            1 <= cycles <= 6,
            (Machine::of(final(self)@, final(bus)@), cycles) == ld_r8_r8_spec(Machine::of(old(self)@, old(bus)@), r8a, r8b),
            final(bus)@.inv(),
    {
        proof {
            reveal(ld_r8_r8_spec);
        }
        let value = get_r8(r8b, &self.registers, bus);
        set_r8(r8a, value, &mut self.registers, bus);
        1
    }

    fn add_a_r8(&mut self, r8: R8, bus: &mut Bus) -> (cycles: u8)
        requires
            old(bus)@.inv(),
        ensures
            1 <= cycles <= 6,
            (Machine::of(final(self)@, final(bus)@), cycles) == add_spec(Machine::of(old(self)@, old(bus)@), Machine::of(old(self)@, old(bus)@).get_r8(r8), 0, 1),
            final(bus)@.inv(),
    {
        proof {
            reveal(add_spec);
        }
        let a = self.registers.get_register8(Register8::A);
        let value = get_r8(r8, &self.registers, bus);
        let result = a.wrapping_add(value);
        let carry = (a as u16) + (value as u16) > 0xFF;

        self.registers.set_register8(Register8::A, result);

        let half_carry = (a & 0xF) + (value & 0xF) > 0xF;

        self.registers.set_flag(Flag::Zero, result == 0);
        self.registers.set_flag(Flag::Negative, false);
        self.registers.set_flag(Flag::HalfCarry, half_carry);
        self.registers.set_flag(Flag::Carry, carry);

        1
    }

    fn add_a_imm8(&mut self, bus: &mut Bus) -> (cycles: u8)
        requires
            old(bus)@.inv(),
        ensures
            1 <= cycles <= 6,
            (Machine::of(final(self)@, final(bus)@), cycles) == add_spec(Machine::of(old(self)@, old(bus)@).fetch().1, Machine::of(old(self)@, old(bus)@).fetch().0, 0, 2),
            final(bus)@.inv(),
    {
        proof {
            reveal(add_spec);
        }
        let a = self.registers.get_register8(Register8::A);
        let value = self.fetch(bus);
        let result = a.wrapping_add(value);
        let carry = (a as u16) + (value as u16) > 0xFF;

        self.registers.set_register8(Register8::A, result);

        let half_carry = (a & 0xF) + (value & 0xF) > 0xF;

        self.registers.set_flag(Flag::Zero, result == 0);
        self.registers.set_flag(Flag::Negative, false);
        self.registers.set_flag(Flag::HalfCarry, half_carry);
        self.registers.set_flag(Flag::Carry, carry);

        2
    }

    #[verifier::spinoff_prover]
    fn adc_a_r8(&mut self, r8: R8, bus: &mut Bus) -> (cycles: u8)
        requires
            old(bus)@.inv(),
        ensures
            1 <= cycles <= 6,
            (Machine::of(final(self)@, final(bus)@), cycles) == add_spec(Machine::of(old(self)@, old(bus)@), Machine::of(old(self)@, old(bus)@).get_r8(r8), carry_bit(Machine::of(old(self)@, old(bus)@).regs()), 1),
            final(bus)@.inv(),
    {
        proof {
            reveal(add_spec);
        }
        let a = self.registers.get_register8(Register8::A);
        let value = get_r8(r8, &self.registers, bus);
        let carry_value: u8 = if self.registers.get_flag(Flag::Carry) {
            1
        } else {
            0
        };

        let result = a.wrapping_add(value).wrapping_add(carry_value);

        self.registers.set_register8(Register8::A, result);

        let half_carry = (a & 0xF) + (value & 0xF) + carry_value > 0xF;
        assert((a as u16) & 0xFF == a as u16 && (value as u16) & 0xFF == value as u16) by (bit_vector);
        let carry = ((a as u16) & 0xFF) + ((value as u16) & 0xFF) + (carry_value as u16) > 0xFF;

        self.registers.set_flag(Flag::Zero, result == 0);
        self.registers.set_flag(Flag::Negative, false);
        self.registers.set_flag(Flag::HalfCarry, half_carry);
        self.registers.set_flag(Flag::Carry, carry);

        1
    }

    fn adc_a_imm8(&mut self, bus: &mut Bus) -> (cycles: u8)
        requires
            old(bus)@.inv(),
        ensures
            1 <= cycles <= 6,
            (Machine::of(final(self)@, final(bus)@), cycles) == add_spec(Machine::of(old(self)@, old(bus)@).fetch().1, Machine::of(old(self)@, old(bus)@).fetch().0, carry_bit(Machine::of(old(self)@, old(bus)@).regs()), 2),
            final(bus)@.inv(),
    {
        proof {
            reveal(add_spec);
        }
        let a = self.registers.get_register8(Register8::A);
        let value = self.fetch(bus);
        let carry_value: u8 = if self.registers.get_flag(Flag::Carry) {
            1
        } else {
            0
        };

        let result = a.wrapping_add(value).wrapping_add(carry_value);

        self.registers.set_register8(Register8::A, result);

        let half_carry = (a & 0xF) + (value & 0xF) + carry_value > 0xF;
        assert((a as u16) & 0xFF == a as u16 && (value as u16) & 0xFF == value as u16) by (bit_vector);
        let carry = ((a as u16) & 0xFF) + ((value as u16) & 0xFF) + (carry_value as u16) > 0xFF;

        self.registers.set_flag(Flag::Zero, result == 0);
        self.registers.set_flag(Flag::Negative, false);
        self.registers.set_flag(Flag::HalfCarry, half_carry);
        self.registers.set_flag(Flag::Carry, carry);

        2
    }

    fn sub_a_r8(&mut self, r8: R8, bus: &mut Bus) -> (cycles: u8)
        requires
            old(bus)@.inv(),
        ensures
            1 <= cycles <= 6,
            (Machine::of(final(self)@, final(bus)@), cycles) == sub_spec(Machine::of(old(self)@, old(bus)@), Machine::of(old(self)@, old(bus)@).get_r8(r8), 0, 1),
            final(bus)@.inv(),
    {
        proof {
            reveal(sub_spec);
        }
        let a = self.registers.get_register8(Register8::A);
        let value = get_r8(r8, &self.registers, bus);
        let result = a.wrapping_sub(value);

        self.registers.set_register8(Register8::A, result);

        let half_carry = (a & 0xF) < (value & 0xF);
        let carry = a < value;

        self.registers.set_flag(Flag::Zero, result == 0);
        self.registers.set_flag(Flag::Negative, true);
        self.registers.set_flag(Flag::HalfCarry, half_carry);
        self.registers.set_flag(Flag::Carry, carry);

        1
    }

    fn sub_a_imm8(&mut self, bus: &mut Bus) -> (cycles: u8)
        requires
            old(bus)@.inv(),
        ensures
            1 <= cycles <= 6,
            (Machine::of(final(self)@, final(bus)@), cycles) == sub_spec(Machine::of(old(self)@, old(bus)@).fetch().1, Machine::of(old(self)@, old(bus)@).fetch().0, 0, 2),
            final(bus)@.inv(),
    {
        proof {
            reveal(sub_spec);
        }
        let a = self.registers.get_register8(Register8::A);
        let value = self.fetch(bus);
        let result = a.wrapping_sub(value);

        self.registers.set_register8(Register8::A, result);

        let half_carry = (a & 0xF) < (value & 0xF);
        let carry = a < value;

        self.registers.set_flag(Flag::Zero, result == 0);
        self.registers.set_flag(Flag::Negative, true);
        self.registers.set_flag(Flag::HalfCarry, half_carry);
        self.registers.set_flag(Flag::Carry, carry);

        2
    }

    fn sbc_a_r8(&mut self, r8: R8, bus: &mut Bus) -> (cycles: u8)
        requires
            old(bus)@.inv(),
        ensures
            1 <= cycles <= 6,
            (Machine::of(final(self)@, final(bus)@), cycles) == sub_spec(Machine::of(old(self)@, old(bus)@), Machine::of(old(self)@, old(bus)@).get_r8(r8), carry_bit(Machine::of(old(self)@, old(bus)@).regs()), 1),
            final(bus)@.inv(),
    {
        proof {
            reveal(sub_spec);
        }
        let a = self.registers.get_register8(Register8::A);
        let value = get_r8(r8, &self.registers, bus);
        let carry_value: u8 = if self.registers.get_flag(Flag::Carry) {
            1
        } else {
            0
        };

        let result = a.wrapping_sub(value).wrapping_sub(carry_value);

        self.registers.set_register8(Register8::A, result);

        let half_carry = (a & 0xF) < (value & 0xF) + carry_value;
        let carry = (a as u16) < (value as u16) + (carry_value as u16);

        self.registers.set_flag(Flag::Zero, result == 0);
        self.registers.set_flag(Flag::Negative, true);
        self.registers.set_flag(Flag::HalfCarry, half_carry);
        self.registers.set_flag(Flag::Carry, carry);

        1
    }

    fn sbc_a_imm8(&mut self, bus: &mut Bus) -> (cycles: u8)
        requires
            old(bus)@.inv(),
        ensures
            1 <= cycles <= 6,
            (Machine::of(final(self)@, final(bus)@), cycles) == sub_spec(Machine::of(old(self)@, old(bus)@).fetch().1, Machine::of(old(self)@, old(bus)@).fetch().0, carry_bit(Machine::of(old(self)@, old(bus)@).regs()), 2),
            final(bus)@.inv(),
    {
        proof {
            reveal(sub_spec);
        }
        let a = self.registers.get_register8(Register8::A);
        let value = self.fetch(bus);
        let carry_value: u8 = if self.registers.get_flag(Flag::Carry) {
            1
        } else {
            0
        };

        let result = a.wrapping_sub(value).wrapping_sub(carry_value);

        self.registers.set_register8(Register8::A, result);

        let half_carry = (a & 0xF) < (value & 0xF) + carry_value;
        let carry = (a as u16) < (value as u16) + (carry_value as u16);

        self.registers.set_flag(Flag::Zero, result == 0);
        self.registers.set_flag(Flag::Negative, true);
        self.registers.set_flag(Flag::HalfCarry, half_carry);
        self.registers.set_flag(Flag::Carry, carry);

        2
    }

    fn and_a_r8(&mut self, r8: R8, bus: &mut Bus) -> (cycles: u8)
        requires
            old(bus)@.inv(),
        ensures
            1 <= cycles <= 6,
            (Machine::of(final(self)@, final(bus)@), cycles) == and_spec(Machine::of(old(self)@, old(bus)@), Machine::of(old(self)@, old(bus)@).get_r8(r8), 1),
            final(bus)@.inv(),
    {
        proof {
            reveal(and_spec);
        }
        let a = self.registers.get_register8(Register8::A);
        let value = get_r8(r8, &self.registers, bus);
        let result = a & value;

        self.registers.set_register8(Register8::A, result);

        self.registers.set_flag(Flag::Zero, result == 0);
        self.registers.set_flag(Flag::Negative, false);
        self.registers.set_flag(Flag::HalfCarry, true);
        self.registers.set_flag(Flag::Carry, false);

        1
    }

    fn and_a_imm8(&mut self, bus: &mut Bus) -> (cycles: u8)
        requires
            old(bus)@.inv(),
        ensures
            1 <= cycles <= 6,
            (Machine::of(final(self)@, final(bus)@), cycles) == and_spec(Machine::of(old(self)@, old(bus)@).fetch().1, Machine::of(old(self)@, old(bus)@).fetch().0, 2),
            final(bus)@.inv(),
    {
        proof {
            reveal(and_spec);
        }
        let a = self.registers.get_register8(Register8::A);
        let value = self.fetch(bus);
        let result = a & value;

        self.registers.set_register8(Register8::A, result);

        self.registers.set_flag(Flag::Zero, result == 0);
        self.registers.set_flag(Flag::Negative, false);
        self.registers.set_flag(Flag::HalfCarry, true);
        self.registers.set_flag(Flag::Carry, false);

        2
    }

    fn xor_a_r8(&mut self, r8: R8, bus: &mut Bus) -> (cycles: u8)
        requires
            old(bus)@.inv(),
        ensures
            1 <= cycles <= 6,
            (Machine::of(final(self)@, final(bus)@), cycles) == xor_spec(Machine::of(old(self)@, old(bus)@), Machine::of(old(self)@, old(bus)@).get_r8(r8), 1),
            final(bus)@.inv(),
    {
        proof {
            reveal(xor_spec);
        }
        let a = self.registers.get_register8(Register8::A);
        let value = get_r8(r8, &self.registers, bus);
        let result = a ^ value;

        self.registers.set_register8(Register8::A, result);

        self.registers.set_flag(Flag::Zero, result == 0);
        self.registers.set_flag(Flag::Negative, false);
        self.registers.set_flag(Flag::HalfCarry, false);
        self.registers.set_flag(Flag::Carry, false);

        1
    }

    fn xor_a_imm8(&mut self, bus: &mut Bus) -> (cycles: u8)
        requires
            old(bus)@.inv(),
        ensures
            1 <= cycles <= 6,
            (Machine::of(final(self)@, final(bus)@), cycles) == xor_spec(Machine::of(old(self)@, old(bus)@).fetch().1, Machine::of(old(self)@, old(bus)@).fetch().0, 2),
            final(bus)@.inv(),
    {
        proof {
            reveal(xor_spec);
        }
        let a = self.registers.get_register8(Register8::A);
        let value = self.fetch(bus);
        let result = a ^ value;

        self.registers.set_register8(Register8::A, result);

        self.registers.set_flag(Flag::Zero, result == 0);
        self.registers.set_flag(Flag::Negative, false);
        self.registers.set_flag(Flag::HalfCarry, false);
        self.registers.set_flag(Flag::Carry, false);

        2
    }

    fn or_a_r8(&mut self, r8: R8, bus: &mut Bus) -> (cycles: u8)
        requires
            old(bus)@.inv(),
        ensures
            1 <= cycles <= 6,
            (Machine::of(final(self)@, final(bus)@), cycles) == or_spec(Machine::of(old(self)@, old(bus)@), Machine::of(old(self)@, old(bus)@).get_r8(r8), 1),
            final(bus)@.inv(),
    {
        proof {
            reveal(or_spec);
        }
        let a = self.registers.get_register8(Register8::A);
        let value = get_r8(r8, &self.registers, bus);
        let result = a | value;

        self.registers.set_register8(Register8::A, result);

        self.registers.set_flag(Flag::Zero, result == 0);
        self.registers.set_flag(Flag::Negative, false);
        self.registers.set_flag(Flag::HalfCarry, false);
        self.registers.set_flag(Flag::Carry, false);

        1
    }

    fn or_a_imm8(&mut self, bus: &mut Bus) -> (cycles: u8)
        requires
            old(bus)@.inv(),
        ensures
            1 <= cycles <= 6,
            (Machine::of(final(self)@, final(bus)@), cycles) == or_spec(Machine::of(old(self)@, old(bus)@).fetch().1, Machine::of(old(self)@, old(bus)@).fetch().0, 2),
            final(bus)@.inv(),
    {
        proof {
            reveal(or_spec);
        }
        let a = self.registers.get_register8(Register8::A);
        let value = self.fetch(bus);
        let result = a | value;

        self.registers.set_register8(Register8::A, result);

        self.registers.set_flag(Flag::Zero, result == 0);
        self.registers.set_flag(Flag::Negative, false);
        self.registers.set_flag(Flag::HalfCarry, false);
        self.registers.set_flag(Flag::Carry, false);

        2
    }

    fn cp_a_r8(&mut self, r8: R8, bus: &mut Bus) -> (cycles: u8)
        requires
            old(bus)@.inv(),
        ensures
            1 <= cycles <= 6,
            (Machine::of(final(self)@, final(bus)@), cycles) == cp_spec(Machine::of(old(self)@, old(bus)@), Machine::of(old(self)@, old(bus)@).get_r8(r8), 1),
            final(bus)@.inv(),
    {
        proof {
            reveal(cp_spec);
        }
        let a = self.registers.get_register8(Register8::A);
        let value = get_r8(r8, &self.registers, bus);
        let result = a.wrapping_sub(value);

        let half_carry = (a & 0xF) < (value & 0xF);
        let carry = a < value;

        self.registers.set_flag(Flag::Zero, result == 0);
        self.registers.set_flag(Flag::Negative, true);
        self.registers.set_flag(Flag::HalfCarry, half_carry);
        self.registers.set_flag(Flag::Carry, carry);

        1
    }

    fn cp_a_imm8(&mut self, bus: &mut Bus) -> (cycles: u8)
        requires
            old(bus)@.inv(),
        ensures
            1 <= cycles <= 6,
            (Machine::of(final(self)@, final(bus)@), cycles) == cp_spec(Machine::of(old(self)@, old(bus)@).fetch().1, Machine::of(old(self)@, old(bus)@).fetch().0, 2),
            final(bus)@.inv(),
    {
        proof {
            reveal(cp_spec);
        }
        let a = self.registers.get_register8(Register8::A);
        let value = self.fetch(bus);
        let result = a.wrapping_sub(value);

        let half_carry = (a & 0xF) < (value & 0xF);
        let carry = a < value;

        self.registers.set_flag(Flag::Zero, result == 0);
        self.registers.set_flag(Flag::Negative, true);
        self.registers.set_flag(Flag::HalfCarry, half_carry);
        self.registers.set_flag(Flag::Carry, carry);

        2
    }

    fn ret_cond(&mut self, cond: Cond, bus: &mut Bus) -> (cycles: u8)
        requires
            old(bus)@.inv(),
        ensures
            1 <= cycles <= 6,
            (Machine::of(final(self)@, final(bus)@), cycles) == ret_cond_spec(Machine::of(old(self)@, old(bus)@), cond),
            final(bus)@.inv(),
    {
        proof {
            reveal(ret_cond_spec);
            reveal(ret_spec);
        }
        if get_cond(cond, &self.registers) {
            self.ret(bus);
            5
        } else {
            let pc = self.registers.get_register16(Register16::PC);
            self.registers.set_register16(Register16::PC, pc.wrapping_add(2));
            2
        }
    }

    fn ret(&mut self, bus: &mut Bus) -> (cycles: u8)
        requires
            old(bus)@.inv(),
        ensures
            1 <= cycles <= 6,
            (Machine::of(final(self)@, final(bus)@), cycles) == ret_spec(Machine::of(old(self)@, old(bus)@)),
            final(bus)@.inv(),
    {
        proof {
            reveal(ret_spec);
        }
        let value = self.pop(bus);
        self.registers.set_register16(Register16::PC, value);

        4
    }

    fn reti(&mut self, bus: &mut Bus) -> (cycles: u8)
        requires
            old(bus)@.inv(),
        ensures
            1 <= cycles <= 6,
            (Machine::of(final(self)@, final(bus)@), cycles) == reti_spec(Machine::of(old(self)@, old(bus)@)),
            final(bus)@.inv(),
    {
        proof {
            reveal(reti_spec);
            reveal(ei_spec);
            reveal(ret_spec);
        }
        let ghost before = Machine::of(self@, bus@);
        self.ei();
        assert(Machine::of(self@, bus@) == ei_spec(before).0);
        self.ret(bus);
        4
    }

    fn jp_cond_imm16(&mut self, cond: Cond, bus: &mut Bus) -> (cycles: u8)
        requires
            old(bus)@.inv(),
        ensures
            1 <= cycles <= 6,
            (Machine::of(final(self)@, final(bus)@), cycles) == jp_cond_imm16_spec(Machine::of(old(self)@, old(bus)@), cond),
            final(bus)@.inv(),
    {
        proof {
            reveal(jp_cond_imm16_spec);
            reveal(jp_imm16_spec);
        }
        if get_cond(cond, &self.registers) {
            self.jp_imm16(bus);
            4
        } else {
            let pc = self.registers.get_register16(Register16::PC);
            self.registers.set_register16(Register16::PC, pc.wrapping_add(2));
            3
        }
    }

    fn jp_imm16(&mut self, bus: &mut Bus) -> (cycles: u8)
        requires
            old(bus)@.inv(),
        ensures
            1 <= cycles <= 6,
            (Machine::of(final(self)@, final(bus)@), cycles) == jp_imm16_spec(Machine::of(old(self)@, old(bus)@)),
            final(bus)@.inv(),
    {
        proof {
            reveal(jp_imm16_spec);
        }
        let address = self.fetch_16(bus);
        self.registers.set_register16(Register16::PC, address);
        4
    }

    fn jp_hl(&mut self) -> (cycles: u8)
        ensures
            1 <= cycles <= 6,
            forall|bus: BusView|
                #![trigger jp_hl_spec(Machine::of(old(self)@, bus))]
                (Machine::of(final(self)@, bus), cycles) == jp_hl_spec(Machine::of(old(self)@, bus)),
    {
        proof {
            reveal(jp_hl_spec);
        }
        let hl = self.registers.get_register16(Register16::HL);
        self.registers.set_register16(Register16::PC, hl);
        1
    }

    fn call_cond_imm16(&mut self, cond: Cond, bus: &mut Bus) -> (cycles: u8)
        requires
            old(bus)@.inv(),
        ensures
            1 <= cycles <= 6,
            (Machine::of(final(self)@, final(bus)@), cycles) == call_cond_imm16_spec(Machine::of(old(self)@, old(bus)@), cond),
            final(bus)@.inv(),
    {
        proof {
            reveal(call_cond_imm16_spec);
            reveal(call_imm16_spec);
        }
        if get_cond(cond, &self.registers) {
            self.call_imm16(bus);
            6
        } else {
            let pc = self.registers.get_register16(Register16::PC);
            self.registers.set_register16(Register16::PC, pc.wrapping_add(2));
            3
        }
    }

    fn call_imm16(&mut self, bus: &mut Bus) -> (cycles: u8)
        requires
            old(bus)@.inv(),
        ensures
            1 <= cycles <= 6,
            (Machine::of(final(self)@, final(bus)@), cycles) == call_imm16_spec(Machine::of(old(self)@, old(bus)@)),
            final(bus)@.inv(),
    {
        proof {
            reveal(call_imm16_spec);
        }
        let address = self.fetch_16(bus);

        let pc = self.registers.get_register16(Register16::PC);
        self.push(pc, bus);
        self.registers.set_register16(Register16::PC, address);

        6
    }

    fn rst_tgt3(&mut self, tgt3: u8, bus: &mut Bus) -> (cycles: u8)
        requires
            old(bus)@.inv(),
            tgt3 < 8,
        ensures
            1 <= cycles <= 6,
            (Machine::of(final(self)@, final(bus)@), cycles) == rst_tgt3_spec(Machine::of(old(self)@, old(bus)@), tgt3),
            final(bus)@.inv(),
    {
        proof {
            reveal(rst_tgt3_spec);
        }
        let address = 8 * (tgt3 as u16);

        let pc = self.registers.get_register16(Register16::PC);
        self.push(pc, bus);
        self.registers.set_register16(Register16::PC, address);

        4
    }

    fn pop_r16stk(&mut self, r16stk: R16stk, bus: &mut Bus) -> (cycles: u8)
        requires
            old(bus)@.inv(),
        ensures
            1 <= cycles <= 6,
            (Machine::of(final(self)@, final(bus)@), cycles) == pop_r16stk_spec(Machine::of(old(self)@, old(bus)@), r16stk),
            final(bus)@.inv(),
    {
        proof {
            reveal(pop_r16stk_spec);
        }
        let value = self.pop(bus);
        set_r16stk(r16stk, value, &mut self.registers);

        3
    }

    fn push_r16stk(&mut self, r16stk: R16stk, bus: &mut Bus) -> (cycles: u8)
        requires
            old(bus)@.inv(),
        ensures
            1 <= cycles <= 6,
            (Machine::of(final(self)@, final(bus)@), cycles) == push_r16stk_spec(Machine::of(old(self)@, old(bus)@), r16stk),
            final(bus)@.inv(),
    {
        proof {
            reveal(push_r16stk_spec);
        }
        let value = get_r16stk(r16stk, &self.registers);
        self.push(value, bus);

        4
    }

    fn rlc_r8(&mut self, r8: R8, bus: &mut Bus) -> (cycles: u8)
        requires
            old(bus)@.inv(),
        ensures
            1 <= cycles <= 6,
            (Machine::of(final(self)@, final(bus)@), cycles) == rlc_r8_spec(Machine::of(old(self)@, old(bus)@), r8),
            final(bus)@.inv(),
    {
        proof {
            reveal(rlc_r8_spec);
            reveal(shift_spec);
        }
        let value = get_r8(r8, &self.registers, bus);
        let result = (value << 1u8) | (value >> 7u8);
        set_r8(r8, result, &mut self.registers, bus);

        self.registers.set_flag(Flag::Zero, result == 0);
        self.registers.set_flag(Flag::Negative, false);
        self.registers.set_flag(Flag::HalfCarry, false);
        self.registers.set_flag(Flag::Carry, value >> 7u8 == 1);

        2
    }

    fn rrc_r8(&mut self, r8: R8, bus: &mut Bus) -> (cycles: u8)
        requires
            old(bus)@.inv(),
        ensures
            1 <= cycles <= 6,
            (Machine::of(final(self)@, final(bus)@), cycles) == rrc_r8_spec(Machine::of(old(self)@, old(bus)@), r8),
            final(bus)@.inv(),
    {
        proof {
            reveal(rrc_r8_spec);
            reveal(shift_spec);
        }
        let value = get_r8(r8, &self.registers, bus);
        let result = (value >> 1u8) | (value << 7u8);
        set_r8(r8, result, &mut self.registers, bus);

        self.registers.set_flag(Flag::Zero, result == 0);
        self.registers.set_flag(Flag::Negative, false);
        self.registers.set_flag(Flag::HalfCarry, false);
        self.registers.set_flag(Flag::Carry, value & 1 == 1);

        2
    }

    fn rl_r8(&mut self, r8: R8, bus: &mut Bus) -> (cycles: u8)
        requires
            old(bus)@.inv(),
        ensures
            1 <= cycles <= 6,
            (Machine::of(final(self)@, final(bus)@), cycles) == rl_r8_spec(Machine::of(old(self)@, old(bus)@), r8),
            final(bus)@.inv(),
    {
        proof {
            reveal(rl_r8_spec);
            reveal(shift_spec);
        }
        let value = get_r8(r8, &self.registers, bus);
        let carry = (value >> 7u8) == 1;
        let mut result = value << 1u8;

        if self.registers.get_flag(Flag::Carry) {
            result |= 1;
        }
        set_r8(r8, result, &mut self.registers, bus);

        self.registers.set_flag(Flag::Zero, result == 0);
        self.registers.set_flag(Flag::Negative, false);
        self.registers.set_flag(Flag::HalfCarry, false);
        self.registers.set_flag(Flag::Carry, carry);

        2
    }

    fn rr_r8(&mut self, r8: R8, bus: &mut Bus) -> (cycles: u8)
        requires
            old(bus)@.inv(),
        ensures
            1 <= cycles <= 6,
            (Machine::of(final(self)@, final(bus)@), cycles) == rr_r8_spec(Machine::of(old(self)@, old(bus)@), r8),
            final(bus)@.inv(),
    {
        proof {
            reveal(rr_r8_spec);
            reveal(shift_spec);
        }
        let value = get_r8(r8, &self.registers, bus);
        let carry = value & 1 == 1;
        let mut result = value >> 1u8;

        if self.registers.get_flag(Flag::Carry) {
            result |= 1u8 << 7u8;
            assert(1u8 << 7u8 == 0x80) by (bit_vector);
        }
        set_r8(r8, result, &mut self.registers, bus);

        self.registers.set_flag(Flag::Zero, result == 0);
        self.registers.set_flag(Flag::Negative, false);
        self.registers.set_flag(Flag::HalfCarry, false);
        self.registers.set_flag(Flag::Carry, carry);

        2
    }

    fn sla_r8(&mut self, r8: R8, bus: &mut Bus) -> (cycles: u8)
        requires
            old(bus)@.inv(),
        ensures
            1 <= cycles <= 6,
            (Machine::of(final(self)@, final(bus)@), cycles) == sla_r8_spec(Machine::of(old(self)@, old(bus)@), r8),
            final(bus)@.inv(),
    {
        proof {
            reveal(sla_r8_spec);
            reveal(shift_spec);
        }
        let value = get_r8(r8, &self.registers, bus);
        let result = value << 1u8;
        let carry = value >> 7u8 == 1;
        set_r8(r8, result, &mut self.registers, bus);

        self.registers.set_flag(Flag::Zero, result == 0);
        self.registers.set_flag(Flag::Negative, false);
        self.registers.set_flag(Flag::HalfCarry, false);
        self.registers.set_flag(Flag::Carry, carry);

        2
    }

    fn sra_r8(&mut self, r8: R8, bus: &mut Bus) -> (cycles: u8)
        requires
            old(bus)@.inv(),
        ensures
            1 <= cycles <= 6,
            (Machine::of(final(self)@, final(bus)@), cycles) == sra_r8_spec(Machine::of(old(self)@, old(bus)@), r8),
            final(bus)@.inv(),
    {
        proof {
            reveal(sra_r8_spec);
            reveal(shift_spec);
        }
        let value = get_r8(r8, &self.registers, bus);
        let mut result = value >> 1u8;

        if value >> 7u8 == 1 {
            result |= 0b10000000;
        }
        set_r8(r8, result, &mut self.registers, bus);

        self.registers.set_flag(Flag::Zero, result == 0);
        self.registers.set_flag(Flag::Negative, false);
        self.registers.set_flag(Flag::HalfCarry, false);
        self.registers.set_flag(Flag::Carry, value & 1 == 1);

        2
    }

    fn swap_r8(&mut self, r8: R8, bus: &mut Bus) -> (cycles: u8)
        requires
            old(bus)@.inv(),
        ensures
            1 <= cycles <= 6,
            (Machine::of(final(self)@, final(bus)@), cycles) == swap_r8_spec(Machine::of(old(self)@, old(bus)@), r8),
            final(bus)@.inv(),
    {
        proof {
            reveal(swap_r8_spec);
            reveal(shift_spec);
        }
        let value = get_r8(r8, &self.registers, bus);
        let result = (value << 4u8) | (value >> 4u8);
        set_r8(r8, result, &mut self.registers, bus);

        self.registers.set_flag(Flag::Zero, result == 0);
        self.registers.set_flag(Flag::Negative, false);
        self.registers.set_flag(Flag::HalfCarry, false);
        self.registers.set_flag(Flag::Carry, false);

        2
    }

    fn srl_r8(&mut self, r8: R8, bus: &mut Bus) -> (cycles: u8)
        requires
            old(bus)@.inv(),
        ensures
            1 <= cycles <= 6,
            (Machine::of(final(self)@, final(bus)@), cycles) == srl_r8_spec(Machine::of(old(self)@, old(bus)@), r8),
            final(bus)@.inv(),
    {
        proof {
            reveal(srl_r8_spec);
        }
        let value = get_r8(r8, &self.registers, bus);
        let result = value >> 1u8;
        set_r8(r8, value, &mut self.registers, bus);

        self.registers.set_flag(Flag::Zero, result == 0);
        self.registers.set_flag(Flag::Negative, false);
        self.registers.set_flag(Flag::HalfCarry, false);
        self.registers.set_flag(Flag::Carry, value & 1 == 1);

        2
    }

    fn bit_b3_r8(&mut self, b3: u8, r8: R8, bus: &mut Bus) -> (cycles: u8)
        requires
            old(bus)@.inv(),
            b3 < 8,
        ensures
            1 <= cycles <= 6,
            (Machine::of(final(self)@, final(bus)@), cycles) == bit_b3_r8_spec(Machine::of(old(self)@, old(bus)@), b3, r8),
            final(bus)@.inv(),
    {
        proof {
            reveal(bit_b3_r8_spec);
        }
        let value = get_r8(r8, &self.registers, bus);
        let bit = (value >> b3) & 1;

        self.registers.set_flag(Flag::Zero, bit == 0);
        self.registers.set_flag(Flag::Negative, false);
        self.registers.set_flag(Flag::HalfCarry, true);

        2
    }

    fn res_b3_r8(&mut self, b3: u8, r8: R8, bus: &mut Bus) -> (cycles: u8)
        requires
            old(bus)@.inv(),
            b3 < 8,
        ensures
            1 <= cycles <= 6,
            (Machine::of(final(self)@, final(bus)@), cycles) == res_b3_r8_spec(Machine::of(old(self)@, old(bus)@), b3, r8),
            final(bus)@.inv(),
    {
        proof {
            reveal(res_b3_r8_spec);
        }
        let value = get_r8(r8, &self.registers, bus);
        let result = value & !(1u8 << b3);
        set_r8(r8, result, &mut self.registers, bus);
        2
    }

    fn set_b3_r8(&mut self, b3: u8, r8: R8, bus: &mut Bus) -> (cycles: u8)
        requires
            old(bus)@.inv(),
            b3 < 8,
        ensures
            1 <= cycles <= 6,
            (Machine::of(final(self)@, final(bus)@), cycles) == set_b3_r8_spec(Machine::of(old(self)@, old(bus)@), b3, r8),
            final(bus)@.inv(),
    {
        proof {
            reveal(set_b3_r8_spec);
        }
        let value = get_r8(r8, &self.registers, bus);
        let result = value | (1u8 << b3);
        set_r8(r8, result, &mut self.registers, bus);
        2
    }

    fn ldh_c_a(&mut self, bus: &mut Bus) -> (cycles: u8)
        requires
            old(bus)@.inv(),
        ensures
            1 <= cycles <= 6,
            (Machine::of(final(self)@, final(bus)@), cycles) == ldh_c_a_spec(Machine::of(old(self)@, old(bus)@)),
            final(bus)@.inv(),
    {
        proof {
            reveal(ldh_c_a_spec);
        }
        let address = 0xFF00 + (self.registers.get_register8(Register8::C) as u16);
        let a = self.registers.get_register8(Register8::A);
        bus.write(address, a);
        2
    }

    fn ldh_imm8_a(&mut self, bus: &mut Bus) -> (cycles: u8)
        requires
            old(bus)@.inv(),
        ensures
            1 <= cycles <= 6,
            (Machine::of(final(self)@, final(bus)@), cycles) == ldh_imm8_a_spec(Machine::of(old(self)@, old(bus)@)),
            final(bus)@.inv(),
    {
        proof {
            reveal(ldh_imm8_a_spec);
        }
        let address = 0xFF00 + (self.fetch(bus) as u16);
        let a = self.registers.get_register8(Register8::A);
        bus.write(address, a);
        3
    }

    fn ld_imm16_a(&mut self, bus: &mut Bus) -> (cycles: u8)
        requires
            old(bus)@.inv(),
        ensures
            1 <= cycles <= 6,
            (Machine::of(final(self)@, final(bus)@), cycles) == ld_imm16_a_spec(Machine::of(old(self)@, old(bus)@)),
            final(bus)@.inv(),
    {
        proof {
            reveal(ld_imm16_a_spec);
        }
        let imm16 = self.fetch_16(bus);
        let a = self.registers.get_register8(Register8::A);
        bus.write(imm16, a);
        4
    }

    fn ldh_a_c(&mut self, bus: &mut Bus) -> (cycles: u8)
        requires
            old(bus)@.inv(),
        ensures
            1 <= cycles <= 6,
            (Machine::of(final(self)@, final(bus)@), cycles) == ldh_a_c_spec(Machine::of(old(self)@, old(bus)@)),
            final(bus)@.inv(),
    {
        proof {
            reveal(ldh_a_c_spec);
        }
        let address = 0xFF00 + (self.registers.get_register8(Register8::C) as u16);
        let value = bus.read(address);
        self.registers.set_register8(Register8::A, value);
        2
    }

    fn ldh_a_imm8(&mut self, bus: &mut Bus) -> (cycles: u8)
        requires
            old(bus)@.inv(),
        ensures
            1 <= cycles <= 6,
            (Machine::of(final(self)@, final(bus)@), cycles) == ldh_a_imm8_spec(Machine::of(old(self)@, old(bus)@)),
            final(bus)@.inv(),
    {
        proof {
            reveal(ldh_a_imm8_spec);
        }
        let address = 0xFF00 + self.fetch(bus) as u16;
        let value = bus.read(address);
        self.registers.set_register8(Register8::A, value);
        3
    }

    fn ld_a_imm16(&mut self, bus: &mut Bus) -> (cycles: u8)
        requires
            old(bus)@.inv(),
        ensures
            1 <= cycles <= 6,
            (Machine::of(final(self)@, final(bus)@), cycles) == ld_a_imm16_spec(Machine::of(old(self)@, old(bus)@)),
            final(bus)@.inv(),
    {
        proof {
            reveal(ld_a_imm16_spec);
        }
        let imm16 = self.fetch_16(bus);
        let value = bus.read(imm16);
        self.registers.set_register8(Register8::A, value);
        4
    }

    fn add_sp_imm8(&mut self, bus: &mut Bus) -> (cycles: u8)
        requires
            old(bus)@.inv(),
        ensures
            1 <= cycles <= 6,
            (Machine::of(final(self)@, final(bus)@), cycles) == add_sp_imm8_spec(Machine::of(old(self)@, old(bus)@)),
            final(bus)@.inv(),
    {
        proof {
            reveal(add_sp_imm8_spec);
        }
        let sp = self.registers.get_register16(Register16::SP);
        let value = self.fetch(bus);
        let result = sp.wrapping_add_signed(sign_extend(value));

        self.registers.set_register16(Register16::SP, result);

        let half_carry = ((sp as u8) & 0xF) + (value & 0xF) > 0xF;
        let carry = sp.wrapping_add(value as u16) > 0xFF;

        self.registers.set_flag(Flag::Zero, false);
        self.registers.set_flag(Flag::Negative, false);
        self.registers.set_flag(Flag::HalfCarry, half_carry);
        self.registers.set_flag(Flag::Carry, carry);

        4
    }

    fn ld_hl_sp_imm8(&mut self, bus: &mut Bus) -> (cycles: u8)
        requires
            old(bus)@.inv(),
        ensures
            1 <= cycles <= 6,
            (Machine::of(final(self)@, final(bus)@), cycles) == ld_hl_sp_imm8_spec(Machine::of(old(self)@, old(bus)@)),
            final(bus)@.inv(),
    {
        proof {
            reveal(ld_hl_sp_imm8_spec);
        }
        let value = self.fetch(bus);
        let sp = self.registers.get_register16(Register16::SP);

        self.registers.set_register16(Register16::HL, sp.wrapping_add_signed(sign_extend(value)));

        let half_carry = (sp & 0xF) + ((value as u16) & 0xF) > 0xF;
        let carry = (sp & 0xFF) + ((value as u16) & 0xFF) > 0xFF;

        self.registers.set_flag(Flag::Zero, false);
        self.registers.set_flag(Flag::Negative, false);
        self.registers.set_flag(Flag::HalfCarry, half_carry);
        self.registers.set_flag(Flag::Carry, carry);

        3
    }

    fn ld_sp_hl(&mut self) -> (cycles: u8)
        ensures
            1 <= cycles <= 6,
            forall|bus: BusView|
                #![trigger ld_sp_hl_spec(Machine::of(old(self)@, bus))]
                (Machine::of(final(self)@, bus), cycles) == ld_sp_hl_spec(Machine::of(old(self)@, bus)),
    {
        proof {
            reveal(ld_sp_hl_spec);
        }
        let hl = self.registers.get_register16(Register16::HL);
        self.registers.set_register16(Register16::SP, hl);
        2
    }

    fn di(&mut self) -> (cycles: u8)
        ensures
            1 <= cycles <= 6,
            forall|bus: BusView|
                #![trigger di_spec(Machine::of(old(self)@, bus))]
                (Machine::of(final(self)@, bus), cycles) == di_spec(Machine::of(old(self)@, bus)),
    {
        proof {
            reveal(di_spec);
        }
        self.interrupt_master_enable = false;
        1
    }

    fn ei(&mut self) -> (cycles: u8)
        ensures
            1 <= cycles <= 6,
            forall|bus: BusView|
                #![trigger ei_spec(Machine::of(old(self)@, bus))]
                (Machine::of(final(self)@, bus), cycles) == ei_spec(Machine::of(old(self)@, bus)),
    {
        proof {
            reveal(ei_spec);
        }
        self.interrupt_master_enable_pending = true;
        1
    }

}


impl Cpu {
    fn nop(&self) -> (cycles: u8)
        ensures
            cycles == 1,
    {
        1
    }

    /// STOP: reads the interrupt registers and does nothing more.
    fn stop(&mut self, bus: &mut Bus) -> (cycles: u8)
        requires
            old(bus)@.inv(),
        ensures
            cycles == 1,
            *final(self) == *old(self),
            *final(bus) == *old(bus),
    {
        let interrupt_enable = bus.read(0xFFFF);
        let interrupt_flag = bus.read(0xFF0F);

        if self.interrupt_master_enable {
            if interrupt_enable & interrupt_flag & 0x1F == 0 {
            } else {
            }
        }

        1
    }

    /// HALT: does nothing.
    fn halt(&mut self) -> (cycles: u8)
        ensures
            cycles == 1,
            *final(self) == *old(self),
    {
        1
    }

    /// Executes an instruction with the 0xCB prefix (PC is past the prefix).
    fn execute_cb(&mut self, bus: &mut Bus) -> (cycles: u8)
        requires
            old(bus)@.inv(),
        ensures
            1 <= cycles <= 6,
            (Machine::of(final(self)@, final(bus)@), cycles) == execute_cb_spec(
                Machine::of(old(self)@, old(bus)@),
            ),
            final(bus)@.inv(),
    {
        let opcode = self.fetch(bus);
        proof {
            crate::machine::opcodes::lemma_decode_total(opcode, 0);
            crate::machine::opcodes::lemma_decode_total(opcode, 3);
        }

        if opcode & 0b11111000 == 0b00000000 {
            let r8 = decode_r8(parse_operand(opcode, 0, OperandType::R8));
            self.rlc_r8(r8, bus)
        } else if opcode & 0b11111000 == 0b00001000 {
            let r8 = decode_r8(parse_operand(opcode, 0, OperandType::R8));
            self.rrc_r8(r8, bus)
        } else if opcode & 0b11111000 == 0b00010000 {
            let r8 = decode_r8(parse_operand(opcode, 0, OperandType::R8));
            self.rl_r8(r8, bus)
        } else if opcode & 0b11111000 == 0b00011000 {
            let r8 = decode_r8(parse_operand(opcode, 0, OperandType::R8));
            self.rr_r8(r8, bus)
        } else if opcode & 0b11111000 == 0b00100000 {
            let r8 = decode_r8(parse_operand(opcode, 0, OperandType::R8));
            self.sla_r8(r8, bus)
        } else if opcode & 0b11111000 == 0b00101000 {
            let r8 = decode_r8(parse_operand(opcode, 0, OperandType::R8));
            self.sra_r8(r8, bus)
        } else if opcode & 0b11111000 == 0b00110000 {
            let r8 = decode_r8(parse_operand(opcode, 0, OperandType::R8));
            self.swap_r8(r8, bus)
        } else if opcode & 0b11111000 == 0b00111000 {
            let r8 = decode_r8(parse_operand(opcode, 0, OperandType::R8));
            self.srl_r8(r8, bus)
        } else if opcode & 0b11000000 == 0b01000000 {
            let b3 = parse_operand(opcode, 3, OperandType::B3);
            let r8 = decode_r8(parse_operand(opcode, 0, OperandType::R8));
            self.bit_b3_r8(b3, r8, bus)
        } else if opcode & 0b11000000 == 0b10000000 {
            let b3 = parse_operand(opcode, 3, OperandType::B3);
            let r8 = decode_r8(parse_operand(opcode, 0, OperandType::R8));
            self.res_b3_r8(b3, r8, bus)
        } else if opcode & 0b11000000 == 0b11000000 {
            let b3 = parse_operand(opcode, 3, OperandType::B3);
            let r8 = decode_r8(parse_operand(opcode, 0, OperandType::R8));
            self.set_b3_r8(b3, r8, bus)
        } else {
            // An opcode with no instruction does nothing for one cycle.
            1
        }
    }

    /// Executes the instruction `opcode` (PC is past the opcode byte).
    fn execute(&mut self, opcode: u8, bus: &mut Bus) -> (cycles: u8)
        requires
            old(bus)@.inv(),
            !is_stop_or_halt(opcode),
        ensures
            1 <= cycles <= 6,
            (Machine::of(final(self)@, final(bus)@), cycles) == execute_spec(
                Machine::of(old(self)@, old(bus)@),
                opcode,
            ),
            final(bus)@.inv(),
    {
        proof {
            crate::machine::opcodes::lemma_decode_total(opcode, 0);
            crate::machine::opcodes::lemma_decode_total(opcode, 3);
            crate::machine::opcodes::lemma_decode_total(opcode, 4);
        }
        if opcode == 0b00000000 {
            self.nop()
        } else if opcode & 0b11001111 == 0b00000001 {
            let r16 = decode_r16(parse_operand(opcode, 4, OperandType::R16));
            self.ld_r16_imm16(r16, bus)
        } else if opcode & 0b11001111 == 0b00000010 {
            let r16mem = decode_r16mem(parse_operand(opcode, 4, OperandType::R16mem));
            self.ld_r16mem_a(r16mem, bus)
        } else if opcode & 0b11001111 == 0b00001010 {
            let r16mem = decode_r16mem(parse_operand(opcode, 4, OperandType::R16mem));
            self.ld_a_r16mem(r16mem, bus)
        } else if opcode == 0b00001000 {
            self.ld_imm16_sp(bus)
        } else if opcode & 0b11001111 == 0b00000011 {
            let r16 = decode_r16(parse_operand(opcode, 4, OperandType::R16));
            self.inc_r16(r16)
        } else if opcode & 0b11001111 == 0b00001011 {
            let r16 = decode_r16(parse_operand(opcode, 4, OperandType::R16));
            self.dec_r16(r16)
        } else if opcode & 0b11001111 == 0b00001001 {
            let r16 = decode_r16(parse_operand(opcode, 4, OperandType::R16));
            self.add_hl_r16(r16)
        } else if opcode & 0b11000111 == 0b00000100 {
            let r8 = decode_r8(parse_operand(opcode, 3, OperandType::R8));
            self.inc_r8(r8, bus)
        } else if opcode & 0b11000111 == 0b00000101 {
            let r8 = decode_r8(parse_operand(opcode, 3, OperandType::R8));
            self.dec_r8(r8, bus)
        } else if opcode & 0b11000111 == 0b00000110 {
            let r8 = decode_r8(parse_operand(opcode, 3, OperandType::R8));
            self.ld_r8_imm8(r8, bus)
        } else {
            self.execute_misc(opcode, bus)
        }
    }

    /// Executes `opcode` when it is none of the instructions that `execute` tries first.
    fn execute_misc(&mut self, opcode: u8, bus: &mut Bus) -> (cycles: u8)
        requires
            old(bus)@.inv(),
            !is_stop_or_halt(opcode),
        ensures
            1 <= cycles <= 6,
            (Machine::of(final(self)@, final(bus)@), cycles) == execute_misc_spec(
                Machine::of(old(self)@, old(bus)@),
                opcode,
            ),
            final(bus)@.inv(),
    {
        proof {
            crate::machine::opcodes::lemma_decode_total(opcode, 0);
            crate::machine::opcodes::lemma_decode_total(opcode, 3);
            crate::machine::opcodes::lemma_decode_total(opcode, 4);
        }
        if opcode == 0b00000111 {
            self.rlca()
        } else if opcode == 0b00001111 {
            self.rrca()
        } else if opcode == 0b00010111 {
            self.rla()
        } else if opcode == 0b00011111 {
            self.rra()
        } else if opcode == 0b00100111 {
            self.daa()
        } else if opcode == 0b00101111 {
            self.cpl()
        } else if opcode == 0b00110111 {
            self.scf()
        } else if opcode == 0b00111111 {
            self.ccf()
        } else if opcode == 0b00011000 {
            self.jr_imm8(bus)
        } else if opcode & 0b11100111 == 0b00100000 {
            let cond = decode_cond(parse_operand(opcode, 3, OperandType::Cond));
            self.jr_cond_imm8(cond, bus)
        } else {
            self.execute_alu(opcode, bus)
        }
    }

    /// Executes `opcode` when it is none of the instructions tried before the arithmetic.
    fn execute_alu(&mut self, opcode: u8, bus: &mut Bus) -> (cycles: u8)
        requires
            old(bus)@.inv(),
            !is_stop_or_halt(opcode),
        ensures
            1 <= cycles <= 6,
            (Machine::of(final(self)@, final(bus)@), cycles) == execute_alu_spec(
                Machine::of(old(self)@, old(bus)@),
                opcode,
            ),
            final(bus)@.inv(),
    {
        proof {
            crate::machine::opcodes::lemma_decode_total(opcode, 0);
            crate::machine::opcodes::lemma_decode_total(opcode, 3);
            crate::machine::opcodes::lemma_decode_total(opcode, 4);
        }
        if opcode & 0b11000000 == 0b01000000 && opcode != 0b01110110 {
            let r8a = decode_r8(parse_operand(opcode, 3, OperandType::R8));
            let r8b = decode_r8(parse_operand(opcode, 0, OperandType::R8));
            self.ld_r8_r8(r8a, r8b, bus)
        } else if opcode & 0b11111000 == 0b10000000 {
            let r8 = decode_r8(parse_operand(opcode, 0, OperandType::R8));
            self.add_a_r8(r8, bus)
        } else if opcode & 0b11111000 == 0b10001000 {
            let r8 = decode_r8(parse_operand(opcode, 0, OperandType::R8));
            self.adc_a_r8(r8, bus)
        } else if opcode & 0b11111000 == 0b10010000 {
            let r8 = decode_r8(parse_operand(opcode, 0, OperandType::R8));
            self.sub_a_r8(r8, bus)
        } else if opcode & 0b11111000 == 0b10011000 {
            let r8 = decode_r8(parse_operand(opcode, 0, OperandType::R8));
            self.sbc_a_r8(r8, bus)
        } else if opcode & 0b11111000 == 0b10100000 {
            let r8 = decode_r8(parse_operand(opcode, 0, OperandType::R8));
            self.and_a_r8(r8, bus)
        } else if opcode & 0b11111000 == 0b10101000 {
            let r8 = decode_r8(parse_operand(opcode, 0, OperandType::R8));
            self.xor_a_r8(r8, bus)
        } else if opcode & 0b11111000 == 0b10110000 {
            let r8 = decode_r8(parse_operand(opcode, 0, OperandType::R8));
            self.or_a_r8(r8, bus)
        } else if opcode & 0b11111000 == 0b10111000 {
            let r8 = decode_r8(parse_operand(opcode, 0, OperandType::R8));
            self.cp_a_r8(r8, bus)
        } else if opcode == 0b11000110 {
            self.add_a_imm8(bus)
        } else if opcode == 0b11001110 {
            self.adc_a_imm8(bus)
        } else if opcode == 0b11010110 {
            self.sub_a_imm8(bus)
        } else if opcode == 0b11011110 {
            self.sbc_a_imm8(bus)
        } else if opcode == 0b11100110 {
            self.and_a_imm8(bus)
        } else if opcode == 0b11101110 {
            self.xor_a_imm8(bus)
        } else if opcode == 0b11110110 {
            self.or_a_imm8(bus)
        } else {
            self.execute_flow(opcode, bus)
        }
    }

    /// Executes `opcode` when it is none of the instructions tried before the jumps.
    fn execute_flow(&mut self, opcode: u8, bus: &mut Bus) -> (cycles: u8)
        requires
            old(bus)@.inv(),
            !is_stop_or_halt(opcode),
        ensures
            1 <= cycles <= 6,
            (Machine::of(final(self)@, final(bus)@), cycles) == execute_flow_spec(
                Machine::of(old(self)@, old(bus)@),
                opcode,
            ),
            final(bus)@.inv(),
    {
        proof {
            crate::machine::opcodes::lemma_decode_total(opcode, 0);
            crate::machine::opcodes::lemma_decode_total(opcode, 3);
            crate::machine::opcodes::lemma_decode_total(opcode, 4);
        }
        if opcode == 0b11111110 {
            self.cp_a_imm8(bus)
        } else if opcode & 0b11100111 == 0b11000000 {
            let cond = decode_cond(parse_operand(opcode, 3, OperandType::Cond));
            self.ret_cond(cond, bus)
        } else if opcode == 0b11001001 {
            self.ret(bus)
        } else if opcode == 0b11011001 {
            self.reti(bus)
        } else if opcode & 0b11100111 == 0b11000010 {
            let cond = decode_cond(parse_operand(opcode, 3, OperandType::Cond));
            self.jp_cond_imm16(cond, bus)
        } else if opcode == 0b11000011 {
            self.jp_imm16(bus)
        } else if opcode == 0b11101001 {
            self.jp_hl()
        } else if opcode & 0b11100111 == 0b11000100 {
            let cond = decode_cond(parse_operand(opcode, 3, OperandType::Cond));
            self.call_cond_imm16(cond, bus)
        } else if opcode == 0b11001101 {
            self.call_imm16(bus)
        } else if opcode & 0b11000111 == 0b11000111 {
            let tgt3 = parse_operand(opcode, 3, OperandType::Tgt3);
            self.rst_tgt3(tgt3, bus)
        } else if opcode & 0b11001111 == 0b11000001 {
            let r16stk = decode_r16stk(parse_operand(opcode, 3, OperandType::R16stk));
            self.pop_r16stk(r16stk, bus)
        } else {
            self.execute_other(opcode, bus)
        }
    }

    /// Executes `opcode` when it is none of the instructions tried before the prefixed ones.
    fn execute_other(&mut self, opcode: u8, bus: &mut Bus) -> (cycles: u8)
        requires
            old(bus)@.inv(),
            !is_stop_or_halt(opcode),
        ensures
            1 <= cycles <= 6,
            (Machine::of(final(self)@, final(bus)@), cycles) == execute_other_spec(
                Machine::of(old(self)@, old(bus)@),
                opcode,
            ),
            final(bus)@.inv(),
    {
        proof {
            crate::machine::opcodes::lemma_decode_total(opcode, 0);
            crate::machine::opcodes::lemma_decode_total(opcode, 3);
            crate::machine::opcodes::lemma_decode_total(opcode, 4);
        }
        if opcode & 0b11001111 == 0b11000101 {
            let r16stk = decode_r16stk(parse_operand(opcode, 3, OperandType::R16stk));
            self.push_r16stk(r16stk, bus)
        } else if opcode == 0b11001011 {
            self.execute_cb(bus)
        } else if opcode == 0b11100010 {
            self.ldh_c_a(bus)
        } else if opcode == 0b11100000 {
            self.ldh_imm8_a(bus)
        } else if opcode == 0b11101010 {
            self.ld_imm16_a(bus)
        } else if opcode == 0b11110010 {
            self.ldh_a_c(bus)
        } else if opcode == 0b11110000 {
            self.ldh_a_imm8(bus)
        } else if opcode == 0b11111010 {
            self.ld_a_imm16(bus)
        } else if opcode == 0b11101000 {
            self.add_sp_imm8(bus)
        } else if opcode == 0b11111000 {
            self.ld_hl_sp_imm8(bus)
        } else if opcode == 0b11111001 {
            self.ld_sp_hl()
        } else if opcode == 0b11110011 {
            self.di()
        } else if opcode == 0b11111011 {
            self.ei()
        } else {
            // An opcode with no instruction does nothing for one cycle.
            1
        }
    }

    /// Runs one instruction: a pending IME takes effect, pending interrupts are handled when
    /// IME is set, then the opcode at PC is fetched and executed. Returns what was executed,
    /// or `None` for STOP and HALT, which the processor does not implement: they are consumed
    /// and do nothing more.
    pub fn cycle(&mut self, bus: &mut Bus) -> (info: Option<CycleInfo>)
        requires
            old(bus)@.inv(),
        ensures
            final(bus)@.inv(),
            ({
                let m0 = Machine::of(old(self)@, old(bus)@);
                let m = Machine::of(final(self)@, final(bus)@);
                &&& m == step_spec(m0).0
                &&& match info {
                    None => step_spec(m0).1 is None,
                    Some(info) => {
                        &&& step_spec(m0).1 == Some(info.cycle_count)
                        &&& 1 <= info.cycle_count <= 6
                        &&& info.opcode_bytes@ == next_bytes(m0)
                        &&& info.opcode_address == m0.regs().pc
                        &&& info.next_opcode_bytes@ == next_bytes(m)
                        &&& info.next_opcode_address == m.regs().pc
                        &&& info.registers == m.regs()
                    },
                }
            }),
    {
        let (opcode_bytes, opcode_address) = self.get_next_opcode(bus);

        if self.interrupt_master_enable_pending {
            self.interrupt_master_enable = true;
            self.interrupt_master_enable_pending = false;
        }

        if self.interrupt_master_enable {
            self.handle_interrupts(bus);
        }

        let opcode = self.fetch(bus);

        if opcode == 0b00010000 {
            // STOP is not implemented
            self.stop(bus);
            return None;
        } else if opcode == 0b01110110 {
            // HALT is not implemented
            self.halt();
            return None;
        }

        let cycle_count = self.execute(opcode, bus);

        let (next_opcode_bytes, next_opcode_address) = self.get_next_opcode(bus);

        Some(
            CycleInfo {
                cycle_count,
                opcode_bytes,
                opcode_address,
                next_opcode_bytes,
                next_opcode_address,
                registers: self.registers,
            },
        )
    }
}

} // verus!
