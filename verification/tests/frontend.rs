use gameboy::control::{run_cycle_state, Command, CycleState};
use gameboy::frontend::{
    grey, instruction_line, parse_count, type_step_count_char, uppercase, FrontendState, Pointer,
};
use gameboy::machine::cartridge::Cartridge;
use gameboy::machine::cpu::CycleInfo as CpuCycleInfo;
use gameboy::machine::gameboy::{CycleInfo, Gameboy};
use gameboy::machine::joypad::JoypadState;
use gameboy::machine::registers::Registers;

fn buttons(a: bool) -> JoypadState {
    JoypadState {
        start: false,
        select: false,
        b: false,
        a,
        down: false,
        up: false,
        left: false,
        right: false,
    }
}

fn pointer(left_down: bool) -> Pointer {
    Pointer {
        left_down,
        over_pause_button: false,
        over_restart_button: false,
        over_step_button: false,
        over_step_count_box: false,
    }
}

fn state() -> FrontendState {
    FrontendState::new([0u8; 23040], [0x00, 0x00, 0x00], 0x0100, &Registers::new())
}

#[test]
fn grey_levels_of_the_shades() {
    assert_eq!([grey(0), grey(1), grey(2), grey(3)], [255, 170, 85, 0]);
}

#[test]
fn uppercase_maps_ascii_letters_only() {
    assert_eq!(uppercase("ld a, [hl+]"), "LD A, [HL+]");
    assert_eq!(uppercase("jr -0f é"), "JR -0F é");
    assert_eq!(uppercase(""), "");
}

#[test]
fn parse_count_reads_decimal_counts() {
    assert_eq!(parse_count("1"), Some(1));
    assert_eq!(parse_count("123"), Some(123));
    assert_eq!(parse_count("007"), Some(7));
    assert_eq!(parse_count("+5"), Some(5));
    assert_eq!(parse_count(""), None);
    assert_eq!(parse_count("+"), None);
    assert_eq!(parse_count("-5"), None);
    assert_eq!(parse_count("12a"), None);
    assert_eq!(parse_count("\u{0663}"), None);
    assert_eq!(parse_count(&usize::MAX.to_string()), Some(usize::MAX));
    assert_eq!(parse_count(&format!("{}0", usize::MAX)), None);
    for text in ["0", "42", "999999999", "+17", "x", " 1", "1 "] {
        assert_eq!(parse_count(text), text.parse::<usize>().ok());
    }
}

#[test]
fn instruction_lines_are_uppercase() {
    assert_eq!(instruction_line([0x3E, 0x12, 0x00], 0x0100), "0100: LD A, 12");
    assert_eq!(instruction_line([0x22, 0x00, 0x00], 0xC0DE), "C0DE: LD [HL+], A");
    assert_eq!(instruction_line([0x18, 0xFE, 0x00], 0x0000), "0000: JR -02");
}

#[test]
fn frontend_state_at_power_on() {
    let mut pixels = [0u8; 23040];
    pixels[0] = 1;
    pixels[160] = 2;
    pixels[23039] = 3;
    let state = FrontendState::new(pixels, [0x00, 0x00, 0x00], 0x0100, &Registers::new());
    assert_eq!(state.framebuffer[0], 170);
    assert_eq!(state.framebuffer[1], 255);
    assert_eq!(state.framebuffer[160], 85);
    assert_eq!(state.framebuffer[23039], 0);
    assert!(!state.mouse_left_down);
    assert_eq!(state.opcode, "");
    assert_eq!(state.next_opcode, "0100: NOP");
    assert_eq!(state.af, "AF: 00 00");
    assert_eq!(state.bc, "BC: 00 00");
    assert_eq!(state.sp, "SP: FFFE");
    assert_eq!(state.pc, "PC: 0100");
    assert_eq!(state.flags, "ZNHC: 0000");
    assert_eq!(state.step_count_input, "1");
}

#[test]
fn frontend_traces_registers() {
    let mut state = state();
    let mut registers = Registers::new();
    registers.a = 0x12;
    registers.f = 0xB0;
    registers.d = 0xDE;
    registers.e = 0xAD;
    registers.h = 0x80;
    registers.l = 0x01;
    registers.sp = 0xC0DE;
    registers.pc = 0x1234;
    state.trace_registers(&registers);
    assert_eq!(state.af, "AF: 12 B0");
    assert_eq!(state.de, "DE: DE AD");
    assert_eq!(state.hl, "HL: 80 01");
    assert_eq!(state.sp, "SP: C0DE");
    assert_eq!(state.pc, "PC: 1234");
    assert_eq!(state.flags, "ZNHC: 1011");
    assert_eq!(state.next_opcode, "0100: NOP");
}

#[test]
fn frontend_traces_a_step() {
    let mut state = state();
    let mut registers = Registers::new();
    registers.a = 0x42;
    registers.pc = 0x0102;
    let info = CycleInfo {
        cpu_cycle_info: Some(CpuCycleInfo {
            cycle_count: 2,
            opcode_bytes: [0x3E, 0x42, 0x00],
            opcode_address: 0x0100,
            next_opcode_bytes: [0xC3, 0x50, 0x01],
            next_opcode_address: 0x0102,
            registers,
        }),
    };
    state.trace_cycle_info(info);
    assert_eq!(state.opcode, "0100: LD A, 42");
    assert_eq!(state.next_opcode, "0102: JP 0150");
    assert_eq!(state.af, "AF: 42 00");
    assert_eq!(state.pc, "PC: 0102");

    state.trace_cycle_info(CycleInfo { cpu_cycle_info: None });
    assert_eq!(state.opcode, "0100: LD A, 42");
}

#[test]
fn frontend_set_pixels() {
    let mut state = state();
    let mut pixels = [3u8; 23040];
    pixels[5] = 1;
    state.set_pixels(pixels);
    assert_eq!(state.framebuffer[4], 0);
    assert_eq!(state.framebuffer[5], 170);
    assert_eq!(state.af, "AF: 00 00");
}

#[test]
fn frontend_update_sends_buttons_and_clicks() {
    let mut state = state();
    let commands = state.update(buttons(true), pointer(false), None, false);
    assert_eq!(commands.len(), 1);
    assert!(matches!(commands[0], Command::UpdateJoypad(JoypadState { a: true, b: false, .. })));

    let mut click = pointer(true);
    click.over_step_button = true;
    let commands = state.update(buttons(false), click, None, false);
    assert_eq!(commands.len(), 2);
    assert!(matches!(commands[1], Command::Step(1)));
    assert!(state.mouse_left_down);

    // Holding the button down is no new click.
    let commands = state.update(buttons(false), click, None, false);
    assert_eq!(commands.len(), 1);

    state.update(buttons(false), pointer(false), None, false);
    let mut click = pointer(true);
    click.over_pause_button = true;
    click.over_restart_button = true;
    let commands = state.update(buttons(false), click, None, false);
    assert!(matches!(commands[1], Command::TogglePause));

    state.update(buttons(false), pointer(false), None, false);
    let mut click = pointer(true);
    click.over_restart_button = true;
    let commands = state.update(buttons(false), click, None, false);
    assert!(matches!(commands[1], Command::Restart));
}

#[test]
fn frontend_step_count_editing() {
    let mut state = state();
    let mut over_box = pointer(false);
    over_box.over_step_count_box = true;

    state.update(buttons(false), over_box, Some('2'), false);
    assert_eq!(state.step_count_input, "12");
    state.update(buttons(false), over_box, Some('x'), false);
    assert_eq!(state.step_count_input, "12");
    state.update(buttons(false), over_box, None, true);
    state.update(buttons(false), over_box, None, true);
    assert_eq!(state.step_count_input, "");
    state.update(buttons(false), over_box, None, true);
    assert_eq!(state.step_count_input, "");
    // No leading zero.
    state.update(buttons(false), over_box, Some('0'), false);
    assert_eq!(state.step_count_input, "");
    for _ in 0..12 {
        state.update(buttons(false), over_box, Some('9'), false);
    }
    assert_eq!(state.step_count_input, "999999999");
    // Away from the box, typing changes nothing.
    state.update(buttons(false), pointer(false), Some('1'), true);
    assert_eq!(state.step_count_input, "999999999");

    let mut click = pointer(true);
    click.over_step_button = true;
    let commands = state.update(buttons(false), click, None, false);
    assert!(matches!(commands[1], Command::Step(999999999)));
}

#[test]
fn step_count_input_takes_numeric_characters() {
    let mut input = String::from("1");
    type_step_count_char(&mut input, '5', true);
    assert_eq!(input, "15");
    type_step_count_char(&mut input, 'a', false);
    assert_eq!(input, "15");
    let mut empty = String::new();
    type_step_count_char(&mut empty, '0', true);
    assert_eq!(empty, "");
    // A numeric character outside ASCII is taken too, and counts by its bytes.
    let mut input = String::from("1234567");
    type_step_count_char(&mut input, '\u{0663}', true);
    assert_eq!(input, "1234567\u{0663}");
    type_step_count_char(&mut input, '1', true);
    assert_eq!(input, "1234567\u{0663}");
}

fn console() -> Gameboy {
    let mut gameboy = Gameboy::new([0u8; 256]);
    gameboy.load_cartridge(Cartridge::from_rom(vec![0u8; 0x8000]).ok().unwrap());
    gameboy
}

#[test]
fn main_loop_states() {
    let mut gameboy = console();

    let advance = run_cycle_state(&mut gameboy, CycleState::Paused, false);
    assert!(matches!(advance.state, CycleState::Paused));
    assert!(advance.cycle_info.is_none());
    assert!(!advance.reinitialise);
    assert_eq!(gameboy.get_registers().pc, 0x100);

    let advance = run_cycle_state(&mut gameboy, CycleState::Restarted, false);
    assert!(matches!(advance.state, CycleState::Paused));
    assert!(advance.reinitialise);
    assert!(!advance.frame_rendered);

    let advance = run_cycle_state(&mut gameboy, CycleState::Step(5), false);
    assert!(matches!(advance.state, CycleState::Paused));
    assert!(advance.frame_rendered);
    assert_eq!(advance.cycle_info.unwrap().cpu_cycle_info.unwrap().next_opcode_address, 0x105);
    assert_eq!(gameboy.get_registers().pc, 0x105);

    let advance = run_cycle_state(&mut gameboy, CycleState::Unpaused, false);
    assert!(matches!(advance.state, CycleState::Unpaused));
    assert!(advance.frame_rendered);
    assert!(advance.cycle_info.is_some());
    assert!(gameboy.frame_ready());
    assert_eq!(gameboy.get_registers().pc as usize, 0x100 + 144 * 456 / 4 + 1);
}

#[test]
fn stepping_stops_at_a_frame_and_keeps_the_steps_left() {
    let mut gameboy = console();
    let advance = run_cycle_state(&mut gameboy, CycleState::Step(20000), false);
    let steps = 144 * 456 / 4 + 1;
    assert!(matches!(advance.state, CycleState::Step(left) if left == 20000 - steps));
    assert!(advance.frame_rendered);
}
