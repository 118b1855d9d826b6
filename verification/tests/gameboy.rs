use gameboy::control::{handle_command, run_steps, Command, CycleState};
use gameboy::machine::cartridge::Cartridge;
use gameboy::machine::gameboy::Gameboy;
use gameboy::machine::joypad::JoypadState;

/// Steps after which the graphics unit first enters the vertical blank when every instruction
/// takes one machine cycle (144 lines of 456 dots, four dots per machine cycle, plus one).
const STEPS_TO_FIRST_FRAME: usize = 144 * 456 / 4 + 1;

fn console_with_program(program: &[u8]) -> Gameboy {
    let mut image = vec![0u8; 0x8000];
    image[0x100..0x100 + program.len()].copy_from_slice(program);
    let mut gameboy = Gameboy::new([0u8; 256]);
    gameboy.load_cartridge(Cartridge::from_rom(image).ok().unwrap());
    gameboy
}

fn no_buttons() -> JoypadState {
    JoypadState {
        start: false,
        select: false,
        b: false,
        a: false,
        down: false,
        up: false,
        left: false,
        right: false,
    }
}

#[test]
fn gameboy_power_on_state() {
    let mut gameboy = Gameboy::new([0x31; 256]);
    let registers = gameboy.get_registers();
    assert_eq!(registers.pc, 0x100);
    assert_eq!(registers.sp, 0xFFFE);
    assert!(!gameboy.frame_ready());
    assert!(gameboy.get_pixels().iter().all(|p| *p == 0));
    // No cartridge: the bytes at PC read 0.
    assert_eq!(gameboy.get_next_opcode(), ([0, 0, 0], 0x100));
}

#[test]
fn gameboy_cycle_reports_the_instruction() {
    let mut gameboy = console_with_program(&[0x3E, 0x42, 0x00]);
    assert_eq!(gameboy.get_next_opcode(), ([0x3E, 0x42, 0x00], 0x100));
    let info = gameboy.cycle().cpu_cycle_info.unwrap();
    assert_eq!(info.opcode_address, 0x100);
    assert_eq!(info.opcode_bytes, [0x3E, 0x42, 0x00]);
    assert_eq!(info.next_opcode_address, 0x102);
    assert_eq!(info.registers.a, 0x42);
    assert_eq!(gameboy.get_registers().a, 0x42);
}

#[test]
fn gameboy_stop_reports_no_instruction() {
    let mut gameboy = console_with_program(&[0x10, 0x00]);
    assert!(gameboy.cycle().cpu_cycle_info.is_none());
}

#[test]
fn gameboy_frame_is_ready_at_the_vertical_blank() {
    let mut gameboy = console_with_program(&[]);
    for _ in 0..STEPS_TO_FIRST_FRAME - 1 {
        gameboy.cycle();
    }
    assert!(!gameboy.frame_ready());
    gameboy.cycle();
    assert!(gameboy.frame_ready());
}

#[test]
fn gameboy_unload_cartridge() {
    let mut gameboy = console_with_program(&[0x3E]);
    gameboy.unload_cartridge();
    assert_eq!(gameboy.get_next_opcode(), ([0, 0, 0], 0x100));
}

#[test]
fn gameboy_restart_keeps_the_cartridge() {
    let mut gameboy = console_with_program(&[0x3E, 0x42, 0x00]);
    gameboy.cycle();
    gameboy.restart();
    let registers = gameboy.get_registers();
    assert_eq!(registers.pc, 0x100);
    assert_eq!(registers.a, 0);
    assert_eq!(gameboy.get_next_opcode(), ([0x3E, 0x42, 0x00], 0x100));
}

#[test]
fn run_steps_stops_at_a_new_frame() {
    let mut gameboy = console_with_program(&[]);
    let run = run_steps(&mut gameboy, 20000, false);
    assert_eq!(run.remaining_steps, 20000 - STEPS_TO_FIRST_FRAME);
    assert!(!run.frame_rendered);
    assert!(run.cycle_info.is_some());
    assert!(gameboy.frame_ready());

    // The frame is ready and not rendered: nothing runs.
    let run = run_steps(&mut gameboy, 10, false);
    assert_eq!(run.remaining_steps, 10);
    assert!(run.cycle_info.is_none());

    // Once rendered, stepping goes on through the vertical blank.
    let run = run_steps(&mut gameboy, 10, true);
    assert_eq!(run.remaining_steps, 0);
    assert!(run.frame_rendered);
    assert!(run.cycle_info.is_some());
}

#[test]
fn run_steps_with_no_steps_does_nothing() {
    let mut gameboy = console_with_program(&[0x3E, 0x42]);
    let run = run_steps(&mut gameboy, 0, true);
    assert_eq!(run.remaining_steps, 0);
    assert!(run.frame_rendered);
    assert!(run.cycle_info.is_none());
    assert_eq!(gameboy.get_registers().pc, 0x100);
}

#[test]
fn commands_change_the_state() {
    let mut gameboy = console_with_program(&[]);
    assert!(matches!(handle_command(&mut gameboy, CycleState::Unpaused, Command::Pause), CycleState::Paused));
    assert!(matches!(handle_command(&mut gameboy, CycleState::Paused, Command::Unpause), CycleState::Unpaused));
    assert!(matches!(handle_command(&mut gameboy, CycleState::Paused, Command::TogglePause), CycleState::Unpaused));
    assert!(matches!(handle_command(&mut gameboy, CycleState::Unpaused, Command::TogglePause), CycleState::Paused));
    assert!(matches!(handle_command(&mut gameboy, CycleState::Step(2), Command::TogglePause), CycleState::Paused));
    assert!(matches!(handle_command(&mut gameboy, CycleState::Paused, Command::Step(5)), CycleState::Step(5)));
    assert!(matches!(handle_command(&mut gameboy, CycleState::Step(5), Command::Step(3)), CycleState::Step(8)));
    assert!(matches!(handle_command(&mut gameboy, CycleState::Unpaused, Command::Step(3)), CycleState::Unpaused));
    assert!(matches!(
        handle_command(&mut gameboy, CycleState::Step(4), Command::UpdateJoypad(no_buttons())),
        CycleState::Step(4)
    ));
}

#[test]
fn restart_command_resets_the_console() {
    let mut gameboy = console_with_program(&[0x3E, 0x42]);
    gameboy.cycle();
    assert_eq!(gameboy.get_registers().pc, 0x102);
    let state = handle_command(&mut gameboy, CycleState::Paused, Command::Restart);
    assert!(matches!(state, CycleState::Restarted));
    assert_eq!(gameboy.get_registers().pc, 0x100);
    assert_eq!(gameboy.get_next_opcode(), ([0x3E, 0x42, 0x00], 0x100));
}
