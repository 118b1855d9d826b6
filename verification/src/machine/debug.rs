use vstd::prelude::*;
use crate::machine::opcodes::{
    OperandType, cond_of, cond_text, decode_cond, decode_r8, decode_r16, decode_r16mem,
    decode_r16stk, lemma_decode_total, operand_field, parse_operand, r16_of, r16_text, r16mem_of,
    r16mem_text, r16stk_of, r16stk_text, r8_of, r8_text,
};
use crate::machine::registers::{high_byte, low_byte, lower_byte, upper_byte, word};

verus! {

/// The disassembler.
pub struct Debug;

/// The uppercase hexadecimal digit of a value below 16.
pub open spec fn hex_digit_text(n: u8) -> Seq<char> {
    if n == 0 {
        "0"@
    } else if n == 1 {
        "1"@
    } else if n == 2 {
        "2"@
    } else if n == 3 {
        "3"@
    } else if n == 4 {
        "4"@
    } else if n == 5 {
        "5"@
    } else if n == 6 {
        "6"@
    } else if n == 7 {
        "7"@
    } else if n == 8 {
        "8"@
    } else if n == 9 {
        "9"@
    } else if n == 10 {
        "A"@
    } else if n == 11 {
        "B"@
    } else if n == 12 {
        "C"@
    } else if n == 13 {
        "D"@
    } else if n == 14 {
        "E"@
    } else {
        "F"@
    }
}

/// A byte as two uppercase hexadecimal digits.
pub open spec fn hex8_text(value: u8) -> Seq<char> {
    hex_digit_text(value / 16) + hex_digit_text(value % 16)
}

/// A word as four uppercase hexadecimal digits.
pub open spec fn hex16_text(value: u16) -> Seq<char> {
    hex8_text(high_byte(value)) + hex8_text(low_byte(value))
}

/// A byte read as a signed offset: its magnitude in two hexadecimal digits, after a minus sign
/// when it is negative.
pub open spec fn signed_text(value: u8) -> Seq<char> {
    if value < 128 {
        hex8_text(value)
    } else {
        "-"@ + hex8_text((256 - value) as u8)
    }
}

/// The assembly text of the instruction whose bytes start with `bytes` (three bytes: the
/// opcode and the two that follow it). The opcode table is read in order, in five parts.
pub open spec fn disassembly(bytes: Seq<u8>) -> Seq<char> {
    let b0 = bytes[0];
    let b1 = bytes[1];
    let b2 = bytes[2];
    if b0 == 0b00000000 {
        "nop"@
    } else if b0 & 0b11001111 == 0b00000001 {
        "ld "@ + r16_text(r16_of(operand_field(b0, 4, OperandType::R16))) + ", "@ + hex16_text(word(b2, b1))
    } else if b0 & 0b11001111 == 0b00000010 {
        "ld ["@ + r16mem_text(r16mem_of(operand_field(b0, 4, OperandType::R16mem))) + "], a"@
    } else if b0 & 0b11001111 == 0b00001010 {
        "ld a, ["@ + r16mem_text(r16mem_of(operand_field(b0, 4, OperandType::R16mem))) + "]"@
    } else if b0 == 0b00001000 {
        "ld ["@ + hex16_text(word(b2, b1)) + "], sp"@
    } else if b0 & 0b11001111 == 0b00000011 {
        "inc "@ + r16_text(r16_of(operand_field(b0, 4, OperandType::R16)))
    } else if b0 & 0b11001111 == 0b00001011 {
        "dec "@ + r16_text(r16_of(operand_field(b0, 4, OperandType::R16)))
    } else if b0 & 0b11001111 == 0b00001001 {
        "add hl, "@ + r16_text(r16_of(operand_field(b0, 4, OperandType::R16)))
    } else if b0 & 0b11000111 == 0b00000100 {
        "inc "@ + r8_text(r8_of(operand_field(b0, 3, OperandType::R8)))
    } else if b0 & 0b11000111 == 0b00000101 {
        "dec "@ + r8_text(r8_of(operand_field(b0, 3, OperandType::R8)))
    } else if b0 & 0b11000111 == 0b00000110 {
        "ld "@ + r8_text(r8_of(operand_field(b0, 3, OperandType::R8))) + ", "@ + hex8_text(b1)
    } else {
        disassembly_misc(bytes)
    }
}

pub open spec fn disassembly_misc(bytes: Seq<u8>) -> Seq<char> {
    let b0 = bytes[0];
    let b1 = bytes[1];
    let b2 = bytes[2];
    if b0 == 0b00000111 {
        "rlca"@
    } else if b0 == 0b00001111 {
        "rrca"@
    } else if b0 == 0b00010111 {
        "rla"@
    } else if b0 == 0b00011111 {
        "rra"@
    } else if b0 == 0b00100111 {
        "daa"@
    } else if b0 == 0b00101111 {
        "cpl"@
    } else if b0 == 0b00110111 {
        "scf"@
    } else if b0 == 0b00111111 {
        "ccf"@
    } else if b0 == 0b00011000 {
        "jr "@ + signed_text(b1)
    } else if b0 & 0b11100111 == 0b00100000 {
        "jr "@ + cond_text(cond_of(operand_field(b0, 3, OperandType::Cond))) + ", "@ + signed_text(b1)
    } else if b0 == 0b00010000 {
        "stop"@
    } else if b0 & 0b11000000 == 0b01000000 && b0 != 0b01110110 {
        "ld "@ + r8_text(r8_of(operand_field(b0, 3, OperandType::R8))) + ", "@ + r8_text(r8_of(operand_field(b0, 0, OperandType::R8)))
    } else if b0 == 0b01110110 {
        "halt"@
    } else {
        disassembly_alu(bytes)
    }
}

pub open spec fn disassembly_alu(bytes: Seq<u8>) -> Seq<char> {
    let b0 = bytes[0];
    let b1 = bytes[1];
    let b2 = bytes[2];
    if b0 & 0b11111000 == 0b10000000 {
        "add a, "@ + r8_text(r8_of(operand_field(b0, 0, OperandType::R8)))
    } else if b0 & 0b11111000 == 0b10001000 {
        "adc a, "@ + r8_text(r8_of(operand_field(b0, 0, OperandType::R8)))
    } else if b0 & 0b11111000 == 0b10010000 {
        "sub a, "@ + r8_text(r8_of(operand_field(b0, 0, OperandType::R8)))
    } else if b0 & 0b11111000 == 0b10011000 {
        "sbc a, "@ + r8_text(r8_of(operand_field(b0, 0, OperandType::R8)))
    } else if b0 & 0b11111000 == 0b10100000 {
        "and a, "@ + r8_text(r8_of(operand_field(b0, 0, OperandType::R8)))
    } else if b0 & 0b11111000 == 0b10101000 {
        "xor a, "@ + r8_text(r8_of(operand_field(b0, 0, OperandType::R8)))
    } else if b0 & 0b11111000 == 0b10110000 {
        "or a, "@ + r8_text(r8_of(operand_field(b0, 0, OperandType::R8)))
    } else if b0 & 0b11111000 == 0b10111000 {
        "cp a, "@ + r8_text(r8_of(operand_field(b0, 0, OperandType::R8)))
    } else if b0 == 0b11000110 {
        "add a, "@ + hex8_text(b1)
    } else if b0 == 0b11001110 {
        "adc a, "@ + hex8_text(b1)
    } else if b0 == 0b11010110 {
        "sub a, "@ + hex8_text(b1)
    } else if b0 == 0b11011110 {
        "sbc a, "@ + hex8_text(b1)
    } else if b0 == 0b11100110 {
        "and a, "@ + hex8_text(b1)
    } else if b0 == 0b11101110 {
        "xor a, "@ + hex8_text(b1)
    } else if b0 == 0b11110110 {
        "or a, "@ + hex8_text(b1)
    } else if b0 == 0b11111110 {
        "cp a, "@ + hex8_text(b1)
    } else {
        disassembly_flow(bytes)
    }
}

pub open spec fn disassembly_flow(bytes: Seq<u8>) -> Seq<char> {
    let b0 = bytes[0];
    let b1 = bytes[1];
    let b2 = bytes[2];
    if b0 & 0b11100111 == 0b11000000 {
        "ret "@ + cond_text(cond_of(operand_field(b0, 3, OperandType::Cond)))
    } else if b0 == 0b11001001 {
        "ret"@
    } else if b0 == 0b11011001 {
        "reti"@
    } else if b0 & 0b11100111 == 0b11000010 {
        "jp "@ + cond_text(cond_of(operand_field(b0, 3, OperandType::Cond))) + ", "@ + hex16_text(word(b2, b1))
    } else if b0 == 0b11000011 {
        "jp "@ + hex16_text(word(b2, b1))
    } else if b0 == 0b11101001 {
        "jp hl"@
    } else if b0 & 0b11100111 == 0b11000100 {
        "call "@ + cond_text(cond_of(operand_field(b0, 3, OperandType::Cond))) + ", "@ + hex16_text(word(b2, b1))
    } else if b0 == 0b11001101 {
        "call "@ + hex16_text(word(b2, b1))
    } else if b0 & 0b11000111 == 0b11000111 {
        "rst "@ + hex8_text((operand_field(b0, 3, OperandType::Tgt3) * 8) as u8)
    } else if b0 & 0b11001111 == 0b11000001 {
        "pop "@ + r16stk_text(r16stk_of(operand_field(b0, 3, OperandType::R16stk)))
    } else if b0 & 0b11001111 == 0b11000101 {
        "push "@ + r16stk_text(r16stk_of(operand_field(b0, 3, OperandType::R16stk)))
    } else {
        disassembly_other(bytes)
    }
}

pub open spec fn disassembly_other(bytes: Seq<u8>) -> Seq<char> {
    let b0 = bytes[0];
    let b1 = bytes[1];
    let b2 = bytes[2];
    if b0 == 0b11001011 {
        cb_disassembly(b1)
    } else if b0 == 0b11100010 {
        "ldh [c], a"@
    } else if b0 == 0b11100000 {
        "ldh ["@ + hex8_text(b1) + "], a"@
    } else if b0 == 0b11101010 {
        "ld ["@ + hex16_text(word(b2, b1)) + "], a"@
    } else if b0 == 0b11110010 {
        "ldh a, [c]"@
    } else if b0 == 0b11110000 {
        "ldh a, ["@ + hex8_text(b1) + "]"@
    } else if b0 == 0b11111010 {
        "ld a, ["@ + hex16_text(word(b2, b1)) + "]"@
    } else if b0 == 0b11101000 {
        "add sp, "@ + signed_text(b1)
    } else if b0 == 0b11111000 {
        "jr hl, sp, "@ + signed_text(b1)
    } else if b0 == 0b11111001 {
        "ldh sp, hl"@
    } else if b0 == 0b11110011 {
        "di"@
    } else if b0 == 0b11111011 {
        "ei"@
    } else {
        "invalid"@
    }
}

/// The assembly text of the instruction after the 0xCB prefix.
pub open spec fn cb_disassembly(b1: u8) -> Seq<char> {
    if b1 & 0b11111000 == 0b00000000 {
        "rlc "@ + r8_text(r8_of(operand_field(b1, 0, OperandType::R8)))
    } else if b1 & 0b11111000 == 0b00001000 {
        "rrc "@ + r8_text(r8_of(operand_field(b1, 0, OperandType::R8)))
    } else if b1 & 0b11111000 == 0b00010000 {
        "rl "@ + r8_text(r8_of(operand_field(b1, 0, OperandType::R8)))
    } else if b1 & 0b11111000 == 0b00011000 {
        "rr "@ + r8_text(r8_of(operand_field(b1, 0, OperandType::R8)))
    } else if b1 & 0b11111000 == 0b00100000 {
        "sla "@ + r8_text(r8_of(operand_field(b1, 0, OperandType::R8)))
    } else if b1 & 0b11111000 == 0b00101000 {
        "sra "@ + r8_text(r8_of(operand_field(b1, 0, OperandType::R8)))
    } else if b1 & 0b11111000 == 0b00110000 {
        "swap "@ + r8_text(r8_of(operand_field(b1, 0, OperandType::R8)))
    } else if b1 & 0b11111000 == 0b00111000 {
        "srl "@ + r8_text(r8_of(operand_field(b1, 0, OperandType::R8)))
    } else if b1 & 0b11000000 == 0b01000000 {
        "bit "@ + hex_digit_text(operand_field(b1, 3, OperandType::B3)) + ", "@ + r8_text(r8_of(operand_field(b1, 0, OperandType::R8)))
    } else if b1 & 0b11000000 == 0b10000000 {
        "res "@ + hex_digit_text(operand_field(b1, 3, OperandType::B3)) + ", "@ + r8_text(r8_of(operand_field(b1, 0, OperandType::R8)))
    } else {
        "set "@ + hex_digit_text(operand_field(b1, 3, OperandType::B3)) + ", "@ + r8_text(r8_of(operand_field(b1, 0, OperandType::R8)))
    }
}

fn hex_digit(n: u8) -> (digit: &'static str)
    requires
        n < 16,
    ensures
        digit@ == hex_digit_text(n),
{
    if n == 0 {
        "0"
    } else if n == 1 {
        "1"
    } else if n == 2 {
        "2"
    } else if n == 3 {
        "3"
    } else if n == 4 {
        "4"
    } else if n == 5 {
        "5"
    } else if n == 6 {
        "6"
    } else if n == 7 {
        "7"
    } else if n == 8 {
        "8"
    } else if n == 9 {
        "9"
    } else if n == 10 {
        "A"
    } else if n == 11 {
        "B"
    } else if n == 12 {
        "C"
    } else if n == 13 {
        "D"
    } else if n == 14 {
        "E"
    } else {
        "F"
    }
}

pub(crate) fn push_hex8(text: &mut String, value: u8)
    ensures
        final(text)@ == old(text)@ + hex8_text(value),
{
    text.append(hex_digit(value / 16));
    text.append(hex_digit(value % 16));
}

pub(crate) fn push_hex16(text: &mut String, value: u16)
    ensures
        final(text)@ == old(text)@ + hex16_text(value),
{
    push_hex8(text, upper_byte(value));
    push_hex8(text, lower_byte(value));
    assert(final(text)@ =~= old(text)@ + hex16_text(value));
}

fn push_signed(text: &mut String, value: u8)
    ensures
        final(text)@ == old(text)@ + signed_text(value),
{
    if value < 128 {
        push_hex8(text, value);
    } else {
        text.append("-");
        push_hex8(text, (256 - value as u16) as u8);
        assert(final(text)@ =~= old(text)@ + signed_text(value));
    }
}

/// The little-endian word of two bytes.
pub fn merge_bytes(byte1: u8, byte2: u8) -> (value: u16)
    ensures
        value == word(byte2, byte1),
{
    assert((byte1 as u16) | ((byte2 as u16) << 8u16) == byte2 as u16 * 256 + byte1 as u16)
        by (bit_vector);
    (byte1 as u16) | ((byte2 as u16) << 8)
}

impl Debug {
    /// The assembly text of the instruction whose bytes start with `bytes`.
    pub fn opcode_to_string(bytes: [u8; 3]) -> (text: String)
        ensures
            text@ == disassembly(bytes@),
    {
        proof {
            lemma_decode_total(bytes[0], 0);
            lemma_decode_total(bytes[0], 3);
            lemma_decode_total(bytes[0], 4);
        }
        if bytes[0] == 0b00000000 {
            String::from_str("nop")
        } else if bytes[0] & 0b11001111 == 0b00000001 {
            let mut text = String::from_str("ld ");
            text.append(decode_r16(parse_operand(bytes[0], 4, OperandType::R16)).name());
            text.append(", ");
            push_hex16(&mut text, merge_bytes(bytes[1], bytes[2]));
            text
        } else if bytes[0] & 0b11001111 == 0b00000010 {
            let mut text = String::from_str("ld [");
            text.append(decode_r16mem(parse_operand(bytes[0], 4, OperandType::R16mem)).name());
            text.append("], a");
            text
        } else if bytes[0] & 0b11001111 == 0b00001010 {
            let mut text = String::from_str("ld a, [");
            text.append(decode_r16mem(parse_operand(bytes[0], 4, OperandType::R16mem)).name());
            text.append("]");
            text
        } else if bytes[0] == 0b00001000 {
            let mut text = String::from_str("ld [");
            push_hex16(&mut text, merge_bytes(bytes[1], bytes[2]));
            text.append("], sp");
            text
        } else if bytes[0] & 0b11001111 == 0b00000011 {
            let mut text = String::from_str("inc ");
            text.append(decode_r16(parse_operand(bytes[0], 4, OperandType::R16)).name());
            text
        } else if bytes[0] & 0b11001111 == 0b00001011 {
            let mut text = String::from_str("dec ");
            text.append(decode_r16(parse_operand(bytes[0], 4, OperandType::R16)).name());
            text
        } else if bytes[0] & 0b11001111 == 0b00001001 {
            let mut text = String::from_str("add hl, ");
            text.append(decode_r16(parse_operand(bytes[0], 4, OperandType::R16)).name());
            text
        } else if bytes[0] & 0b11000111 == 0b00000100 {
            let mut text = String::from_str("inc ");
            text.append(decode_r8(parse_operand(bytes[0], 3, OperandType::R8)).name());
            text
        } else if bytes[0] & 0b11000111 == 0b00000101 {
            let mut text = String::from_str("dec ");
            text.append(decode_r8(parse_operand(bytes[0], 3, OperandType::R8)).name());
            text
        } else if bytes[0] & 0b11000111 == 0b00000110 {
            let mut text = String::from_str("ld ");
            text.append(decode_r8(parse_operand(bytes[0], 3, OperandType::R8)).name());
            text.append(", ");
            push_hex8(&mut text, bytes[1]);
            text
        } else {
            Self::misc_to_string(bytes)
        }
    }

    fn misc_to_string(bytes: [u8; 3]) -> (text: String)
        ensures
            text@ == disassembly_misc(bytes@),
    {
        proof {
            lemma_decode_total(bytes[0], 0);
            lemma_decode_total(bytes[0], 3);
            lemma_decode_total(bytes[0], 4);
        }
        if bytes[0] == 0b00000111 {
            String::from_str("rlca")
        } else if bytes[0] == 0b00001111 {
            String::from_str("rrca")
        } else if bytes[0] == 0b00010111 {
            String::from_str("rla")
        } else if bytes[0] == 0b00011111 {
            String::from_str("rra")
        } else if bytes[0] == 0b00100111 {
            String::from_str("daa")
        } else if bytes[0] == 0b00101111 {
            String::from_str("cpl")
        } else if bytes[0] == 0b00110111 {
            String::from_str("scf")
        } else if bytes[0] == 0b00111111 {
            String::from_str("ccf")
        } else if bytes[0] == 0b00011000 {
            let mut text = String::from_str("jr ");
            push_signed(&mut text, bytes[1]);
            text
        } else if bytes[0] & 0b11100111 == 0b00100000 {
            let mut text = String::from_str("jr ");
            text.append(decode_cond(parse_operand(bytes[0], 3, OperandType::Cond)).name());
            text.append(", ");
            push_signed(&mut text, bytes[1]);
            text
        } else if bytes[0] == 0b00010000 {
            String::from_str("stop")
        } else if bytes[0] & 0b11000000 == 0b01000000 && bytes[0] != 0b01110110 {
            let mut text = String::from_str("ld ");
            text.append(decode_r8(parse_operand(bytes[0], 3, OperandType::R8)).name());
            text.append(", ");
            text.append(decode_r8(parse_operand(bytes[0], 0, OperandType::R8)).name());
            text
        } else if bytes[0] == 0b01110110 {
            String::from_str("halt")
        } else {
            Self::alu_to_string(bytes)
        }
    }

    fn alu_to_string(bytes: [u8; 3]) -> (text: String)
        ensures
            text@ == disassembly_alu(bytes@),
    {
        proof {
            lemma_decode_total(bytes[0], 0);
            lemma_decode_total(bytes[0], 3);
            lemma_decode_total(bytes[0], 4);
        }
        if bytes[0] & 0b11111000 == 0b10000000 {
            let mut text = String::from_str("add a, ");
            text.append(decode_r8(parse_operand(bytes[0], 0, OperandType::R8)).name());
            text
        } else if bytes[0] & 0b11111000 == 0b10001000 {
            let mut text = String::from_str("adc a, ");
            text.append(decode_r8(parse_operand(bytes[0], 0, OperandType::R8)).name());
            text
        } else if bytes[0] & 0b11111000 == 0b10010000 {
            let mut text = String::from_str("sub a, ");
            text.append(decode_r8(parse_operand(bytes[0], 0, OperandType::R8)).name());
            text
        } else if bytes[0] & 0b11111000 == 0b10011000 {
            let mut text = String::from_str("sbc a, ");
            text.append(decode_r8(parse_operand(bytes[0], 0, OperandType::R8)).name());
            text
        } else if bytes[0] & 0b11111000 == 0b10100000 {
            let mut text = String::from_str("and a, ");
            text.append(decode_r8(parse_operand(bytes[0], 0, OperandType::R8)).name());
            text
        } else if bytes[0] & 0b11111000 == 0b10101000 {
            let mut text = String::from_str("xor a, ");
            text.append(decode_r8(parse_operand(bytes[0], 0, OperandType::R8)).name());
            text
        } else if bytes[0] & 0b11111000 == 0b10110000 {
            let mut text = String::from_str("or a, ");
            text.append(decode_r8(parse_operand(bytes[0], 0, OperandType::R8)).name());
            text
        } else if bytes[0] & 0b11111000 == 0b10111000 {
            let mut text = String::from_str("cp a, ");
            text.append(decode_r8(parse_operand(bytes[0], 0, OperandType::R8)).name());
            text
        } else if bytes[0] == 0b11000110 {
            let mut text = String::from_str("add a, ");
            push_hex8(&mut text, bytes[1]);
            text
        } else if bytes[0] == 0b11001110 {
            let mut text = String::from_str("adc a, ");
            push_hex8(&mut text, bytes[1]);
            text
        } else if bytes[0] == 0b11010110 {
            let mut text = String::from_str("sub a, ");
            push_hex8(&mut text, bytes[1]);
            text
        } else if bytes[0] == 0b11011110 {
            let mut text = String::from_str("sbc a, ");
            push_hex8(&mut text, bytes[1]);
            text
        } else if bytes[0] == 0b11100110 {
            let mut text = String::from_str("and a, ");
            push_hex8(&mut text, bytes[1]);
            text
        } else if bytes[0] == 0b11101110 {
            let mut text = String::from_str("xor a, ");
            push_hex8(&mut text, bytes[1]);
            text
        } else if bytes[0] == 0b11110110 {
            let mut text = String::from_str("or a, ");
            push_hex8(&mut text, bytes[1]);
            text
        } else if bytes[0] == 0b11111110 {
            let mut text = String::from_str("cp a, ");
            push_hex8(&mut text, bytes[1]);
            text
        } else {
            Self::flow_to_string(bytes)
        }
    }

    fn flow_to_string(bytes: [u8; 3]) -> (text: String)
        ensures
            text@ == disassembly_flow(bytes@),
    {
        proof {
            lemma_decode_total(bytes[0], 0);
            lemma_decode_total(bytes[0], 3);
            lemma_decode_total(bytes[0], 4);
        }
        if bytes[0] & 0b11100111 == 0b11000000 {
            let mut text = String::from_str("ret ");
            text.append(decode_cond(parse_operand(bytes[0], 3, OperandType::Cond)).name());
            text
        } else if bytes[0] == 0b11001001 {
            String::from_str("ret")
        } else if bytes[0] == 0b11011001 {
            String::from_str("reti")
        } else if bytes[0] & 0b11100111 == 0b11000010 {
            let mut text = String::from_str("jp ");
            text.append(decode_cond(parse_operand(bytes[0], 3, OperandType::Cond)).name());
            text.append(", ");
            push_hex16(&mut text, merge_bytes(bytes[1], bytes[2]));
            text
        } else if bytes[0] == 0b11000011 {
            let mut text = String::from_str("jp ");
            push_hex16(&mut text, merge_bytes(bytes[1], bytes[2]));
            text
        } else if bytes[0] == 0b11101001 {
            String::from_str("jp hl")
        } else if bytes[0] & 0b11100111 == 0b11000100 {
            let mut text = String::from_str("call ");
            text.append(decode_cond(parse_operand(bytes[0], 3, OperandType::Cond)).name());
            text.append(", ");
            push_hex16(&mut text, merge_bytes(bytes[1], bytes[2]));
            text
        } else if bytes[0] == 0b11001101 {
            let mut text = String::from_str("call ");
            push_hex16(&mut text, merge_bytes(bytes[1], bytes[2]));
            text
        } else if bytes[0] & 0b11000111 == 0b11000111 {
            let mut text = String::from_str("rst ");
            push_hex8(&mut text, parse_operand(bytes[0], 3, OperandType::Tgt3) * 8);
            text
        } else if bytes[0] & 0b11001111 == 0b11000001 {
            let mut text = String::from_str("pop ");
            text.append(decode_r16stk(parse_operand(bytes[0], 3, OperandType::R16stk)).name());
            text
        } else if bytes[0] & 0b11001111 == 0b11000101 {
            let mut text = String::from_str("push ");
            text.append(decode_r16stk(parse_operand(bytes[0], 3, OperandType::R16stk)).name());
            text
        } else {
            Self::other_to_string(bytes)
        }
    }

    fn other_to_string(bytes: [u8; 3]) -> (text: String)
        ensures
            text@ == disassembly_other(bytes@),
    {
        proof {
            lemma_decode_total(bytes[0], 0);
            lemma_decode_total(bytes[0], 3);
            lemma_decode_total(bytes[0], 4);
        }
        if bytes[0] == 0b11001011 {
            Self::cb_opcode_to_string(bytes[1])
        } else if bytes[0] == 0b11100010 {
            String::from_str("ldh [c], a")
        } else if bytes[0] == 0b11100000 {
            let mut text = String::from_str("ldh [");
            push_hex8(&mut text, bytes[1]);
            text.append("], a");
            text
        } else if bytes[0] == 0b11101010 {
            let mut text = String::from_str("ld [");
            push_hex16(&mut text, merge_bytes(bytes[1], bytes[2]));
            text.append("], a");
            text
        } else if bytes[0] == 0b11110010 {
            String::from_str("ldh a, [c]")
        } else if bytes[0] == 0b11110000 {
            let mut text = String::from_str("ldh a, [");
            push_hex8(&mut text, bytes[1]);
            text.append("]");
            text
        } else if bytes[0] == 0b11111010 {
            let mut text = String::from_str("ld a, [");
            push_hex16(&mut text, merge_bytes(bytes[1], bytes[2]));
            text.append("]");
            text
        } else if bytes[0] == 0b11101000 {
            let mut text = String::from_str("add sp, ");
            push_signed(&mut text, bytes[1]);
            text
        } else if bytes[0] == 0b11111000 {
            let mut text = String::from_str("jr hl, sp, ");
            push_signed(&mut text, bytes[1]);
            text
        } else if bytes[0] == 0b11111001 {
            String::from_str("ldh sp, hl")
        } else if bytes[0] == 0b11110011 {
            String::from_str("di")
        } else if bytes[0] == 0b11111011 {
            String::from_str("ei")
        } else {
            String::from_str("invalid")
        }
    }

    fn cb_opcode_to_string(byte: u8) -> (text: String)
        ensures
            text@ == cb_disassembly(byte),
    {
        proof {
            lemma_decode_total(byte, 0);
            lemma_decode_total(byte, 3);
        }
        if byte & 0b11111000 == 0b00000000 {
            let mut text = String::from_str("rlc ");
            text.append(decode_r8(parse_operand(byte, 0, OperandType::R8)).name());
            text
        } else if byte & 0b11111000 == 0b00001000 {
            let mut text = String::from_str("rrc ");
            text.append(decode_r8(parse_operand(byte, 0, OperandType::R8)).name());
            text
        } else if byte & 0b11111000 == 0b00010000 {
            let mut text = String::from_str("rl ");
            text.append(decode_r8(parse_operand(byte, 0, OperandType::R8)).name());
            text
        } else if byte & 0b11111000 == 0b00011000 {
            let mut text = String::from_str("rr ");
            text.append(decode_r8(parse_operand(byte, 0, OperandType::R8)).name());
            text
        } else if byte & 0b11111000 == 0b00100000 {
            let mut text = String::from_str("sla ");
            text.append(decode_r8(parse_operand(byte, 0, OperandType::R8)).name());
            text
        } else if byte & 0b11111000 == 0b00101000 {
            let mut text = String::from_str("sra ");
            text.append(decode_r8(parse_operand(byte, 0, OperandType::R8)).name());
            text
        } else if byte & 0b11111000 == 0b00110000 {
            let mut text = String::from_str("swap ");
            text.append(decode_r8(parse_operand(byte, 0, OperandType::R8)).name());
            text
        } else if byte & 0b11111000 == 0b00111000 {
            let mut text = String::from_str("srl ");
            text.append(decode_r8(parse_operand(byte, 0, OperandType::R8)).name());
            text
        } else if byte & 0b11000000 == 0b01000000 {
            let mut text = String::from_str("bit ");
            text.append(hex_digit(parse_operand(byte, 3, OperandType::B3)));
            text.append(", ");
            text.append(decode_r8(parse_operand(byte, 0, OperandType::R8)).name());
            text
        } else if byte & 0b11000000 == 0b10000000 {
            let mut text = String::from_str("res ");
            text.append(hex_digit(parse_operand(byte, 3, OperandType::B3)));
            text.append(", ");
            text.append(decode_r8(parse_operand(byte, 0, OperandType::R8)).name());
            text
        } else {
            let mut text = String::from_str("set ");
            text.append(hex_digit(parse_operand(byte, 3, OperandType::B3)));
            text.append(", ");
            text.append(decode_r8(parse_operand(byte, 0, OperandType::R8)).name());
            text
        }
    }

}

/// The character of a hexadecimal digit below 16: '0' to '9', then 'A' to 'F'.
pub open spec fn hex_char(n: int) -> char {
    if n < 10 {
        (48 + n) as char
    } else {
        (55 + n) as char
    }
}

proof fn lemma_hex_digit(n: u8)
    requires
        n < 16,
    ensures
        hex_digit_text(n) == seq![hex_char(n as int)],
{
    reveal_strlit("0");
    reveal_strlit("1");
    reveal_strlit("2");
    reveal_strlit("3");
    reveal_strlit("4");
    reveal_strlit("5");
    reveal_strlit("6");
    reveal_strlit("7");
    reveal_strlit("8");
    reveal_strlit("9");
    reveal_strlit("A");
    reveal_strlit("B");
    reveal_strlit("C");
    reveal_strlit("D");
    reveal_strlit("E");
    reveal_strlit("F");
    assert(hex_digit_text(n) =~= seq![hex_char(n as int)]);
}

proof fn lemma_immediate_alu_decode(op: u8)
    by (bit_vector)
    requires
        op == 0xC6 || op == 0xCE || op == 0xD6 || op == 0xDE || op == 0xE6 || op == 0xEE || op
            == 0xF6 || op == 0xFE,
    ensures
        op & 0b11001111 != 0b00000001,
        op & 0b11001111 != 0b00000010,
        op & 0b11001111 != 0b00001010,
        op & 0b11001111 != 0b00000011,
        op & 0b11001111 != 0b00001011,
        op & 0b11001111 != 0b00001001,
        op & 0b11000111 != 0b00000100,
        op & 0b11000111 != 0b00000101,
        op & 0b11000111 != 0b00000110,
        op & 0b11100111 != 0b00100000,
        op & 0b11000000 != 0b01000000,
        op & 0b11111000 != 0b10000000,
        op & 0b11111000 != 0b10001000,
        op & 0b11111000 != 0b10010000,
        op & 0b11111000 != 0b10011000,
        op & 0b11111000 != 0b10100000,
        op & 0b11111000 != 0b10101000,
        op & 0b11111000 != 0b10110000,
        op & 0b11111000 != 0b10111000,
{
}

/// The mnemonic and first operand of the immediate ALU instruction `op`.
pub open spec fn immediate_alu_prefix(op: u8) -> Seq<char> {
    if op == 0xC6 {
        "add a, "@
    } else if op == 0xCE {
        "adc a, "@
    } else if op == 0xD6 {
        "sub a, "@
    } else if op == 0xDE {
        "sbc a, "@
    } else if op == 0xE6 {
        "and a, "@
    } else if op == 0xEE {
        "xor a, "@
    } else if op == 0xF6 {
        "or a, "@
    } else {
        "cp a, "@
    }
}

/// An immediate ALU instruction (opcodes C6, CE, D6, DE, E6, EE, F6 and FE) reads as its
/// mnemonic, "a, ", then the byte right after the opcode as two uppercase hexadecimal digits,
/// high digit first; the byte after that does not show.
pub proof fn lemma_immediate_alu_text(op: u8, b1: u8, b2: u8)
    requires
        op == 0xC6 || op == 0xCE || op == 0xD6 || op == 0xDE || op == 0xE6 || op == 0xEE || op
            == 0xF6 || op == 0xFE,
    ensures
        disassembly(seq![op, b1, b2]) == immediate_alu_prefix(op) + seq![
            hex_char(b1 as int / 16),
            hex_char(b1 as int % 16),
        ],
{
    lemma_immediate_alu_decode(op);
    lemma_hex_digit(b1 / 16);
    lemma_hex_digit(b1 % 16);
    let bytes = seq![op, b1, b2];
    assert(bytes[0] == op && bytes[1] == b1 && bytes[2] == b2);
    assert(hex8_text(b1) =~= seq![hex_char(b1 as int / 16), hex_char(b1 as int % 16)]);
}

} // verus!
