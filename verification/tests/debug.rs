use gameboy::machine::debug::merge_bytes;

fn text(bytes: [u8; 3]) -> String {
    gameboy::machine::debug::Debug::opcode_to_string(bytes)
}

#[test]
fn merge_bytes_is_little_endian() {
    assert_eq!(merge_bytes(0x34, 0x12), 0x1234);
    assert_eq!(merge_bytes(0xFF, 0x00), 0x00FF);
}

#[test]
fn disassembles_loads() {
    assert_eq!(text([0x00, 0x00, 0x00]), "nop");
    assert_eq!(text([0x01, 0x34, 0x12]), "ld bc, 1234");
    assert_eq!(text([0x31, 0xFE, 0xFF]), "ld sp, FFFE");
    assert_eq!(text([0x22, 0x00, 0x00]), "ld [hl+], a");
    assert_eq!(text([0x3A, 0x00, 0x00]), "ld a, [hl-]");
    assert_eq!(text([0x08, 0xCD, 0xAB]), "ld [ABCD], sp");
    assert_eq!(text([0x3E, 0x7F, 0x00]), "ld a, 7F");
    assert_eq!(text([0x36, 0x0A, 0x00]), "ld [hl], 0A");
    assert_eq!(text([0x41, 0x00, 0x00]), "ld b, c");
    assert_eq!(text([0x7E, 0x00, 0x00]), "ld a, [hl]");
    assert_eq!(text([0xEA, 0x00, 0xC0]), "ld [C000], a");
    assert_eq!(text([0xFA, 0x00, 0xC0]), "ld a, [C000]");
    assert_eq!(text([0xE0, 0x44, 0x00]), "ldh [44], a");
    assert_eq!(text([0xF0, 0x44, 0x00]), "ldh a, [44]");
    assert_eq!(text([0xE2, 0x00, 0x00]), "ldh [c], a");
    assert_eq!(text([0xF2, 0x00, 0x00]), "ldh a, [c]");
    assert_eq!(text([0xF9, 0x00, 0x00]), "ldh sp, hl");
}

#[test]
fn disassembles_arithmetic() {
    assert_eq!(text([0x03, 0x00, 0x00]), "inc bc");
    assert_eq!(text([0x2B, 0x00, 0x00]), "dec hl");
    assert_eq!(text([0x39, 0x00, 0x00]), "add hl, sp");
    assert_eq!(text([0x3C, 0x00, 0x00]), "inc a");
    assert_eq!(text([0x35, 0x00, 0x00]), "dec [hl]");
    assert_eq!(text([0x80, 0x00, 0x00]), "add a, b");
    assert_eq!(text([0x8E, 0x00, 0x00]), "adc a, [hl]");
    assert_eq!(text([0x92, 0x00, 0x00]), "sub a, d");
    assert_eq!(text([0x9B, 0x00, 0x00]), "sbc a, e");
    assert_eq!(text([0xA4, 0x00, 0x00]), "and a, h");
    assert_eq!(text([0xAF, 0x00, 0x00]), "xor a, a");
    assert_eq!(text([0xB5, 0x00, 0x00]), "or a, l");
    assert_eq!(text([0xB8, 0x00, 0x00]), "cp a, b");
    assert_eq!(text([0xC6, 0x05, 0x00]), "add a, 05");
    assert_eq!(text([0xFE, 0x90, 0x00]), "cp a, 90");
    assert_eq!(text([0xE8, 0x10, 0x00]), "add sp, 10");
    assert_eq!(text([0xE8, 0xF0, 0x00]), "add sp, -10");
    assert_eq!(text([0xF8, 0xFE, 0x00]), "jr hl, sp, -02");
    assert_eq!(text([0xF8, 0x02, 0x00]), "jr hl, sp, 02");
}

#[test]
fn disassembles_single_byte_instructions() {
    assert_eq!(text([0x07, 0x00, 0x00]), "rlca");
    assert_eq!(text([0x0F, 0x00, 0x00]), "rrca");
    assert_eq!(text([0x17, 0x00, 0x00]), "rla");
    assert_eq!(text([0x1F, 0x00, 0x00]), "rra");
    assert_eq!(text([0x27, 0x00, 0x00]), "daa");
    assert_eq!(text([0x2F, 0x00, 0x00]), "cpl");
    assert_eq!(text([0x37, 0x00, 0x00]), "scf");
    assert_eq!(text([0x3F, 0x00, 0x00]), "ccf");
    assert_eq!(text([0x10, 0x00, 0x00]), "stop");
    assert_eq!(text([0x76, 0x00, 0x00]), "halt");
    assert_eq!(text([0xF3, 0x00, 0x00]), "di");
    assert_eq!(text([0xFB, 0x00, 0x00]), "ei");
    assert_eq!(text([0xD3, 0x00, 0x00]), "invalid");
}

#[test]
fn disassembles_jumps() {
    assert_eq!(text([0x18, 0x05, 0x00]), "jr 05");
    assert_eq!(text([0x18, 0xFE, 0x00]), "jr -02");
    assert_eq!(text([0x20, 0xFF, 0x00]), "jr nz, -01");
    assert_eq!(text([0x38, 0x10, 0x00]), "jr c, 10");
    assert_eq!(text([0xC3, 0x50, 0x01]), "jp 0150");
    assert_eq!(text([0xCA, 0x00, 0x02]), "jp z, 0200");
    assert_eq!(text([0xE9, 0x00, 0x00]), "jp hl");
    assert_eq!(text([0xCD, 0x00, 0x40]), "call 4000");
    assert_eq!(text([0xD4, 0x34, 0x12]), "call nc, 1234");
    assert_eq!(text([0xC9, 0x00, 0x00]), "ret");
    assert_eq!(text([0xC0, 0x00, 0x00]), "ret nz");
    assert_eq!(text([0xD9, 0x00, 0x00]), "reti");
    assert_eq!(text([0xFF, 0x00, 0x00]), "rst 38");
    assert_eq!(text([0xC7, 0x00, 0x00]), "rst 00");
}

#[test]
fn disassembles_stack_operations() {
    assert_eq!(text([0xC5, 0x00, 0x00]), "push bc");
    // The register pair is read from bits 3 and 4 of the opcode.
    assert_eq!(text([0xF1, 0x00, 0x00]), "pop hl");
    assert_eq!(text([0xD5, 0x00, 0x00]), "push hl");
    assert_eq!(text([0xE5, 0x00, 0x00]), "push bc");
}

#[test]
fn disassembles_prefixed_instructions() {
    assert_eq!(text([0xCB, 0x00, 0x00]), "rlc b");
    assert_eq!(text([0xCB, 0x09, 0x00]), "rrc c");
    assert_eq!(text([0xCB, 0x12, 0x00]), "rl d");
    assert_eq!(text([0xCB, 0x1B, 0x00]), "rr e");
    assert_eq!(text([0xCB, 0x24, 0x00]), "sla h");
    assert_eq!(text([0xCB, 0x2D, 0x00]), "sra l");
    assert_eq!(text([0xCB, 0x37, 0x00]), "swap a");
    assert_eq!(text([0xCB, 0x3E, 0x00]), "srl [hl]");
    assert_eq!(text([0xCB, 0x7C, 0x00]), "bit 7, h");
    assert_eq!(text([0xCB, 0x87, 0x00]), "res 0, a");
    assert_eq!(text([0xCB, 0xF1, 0x00]), "set 6, c");
}
