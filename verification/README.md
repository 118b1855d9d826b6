# gameboy

A Game Boy (DMG) emulator core whose behaviour is specified and proved with Verus.

- `src/machine/` holds the console: registers, opcode decoding, the processor, the memory bus,
  the cartridge and its MBC1 controller, the timer, the joypad, the interrupt registers, the
  graphics unit and the disassembler. Each component has a ghost view; every executable
  function states its effect on that view.
- `src/control.rs` holds the decisions of the main loop: how a user command changes the run
  state and the console, and how many steps run before a frame is shown.
- `src/frontend.rs` holds what the window shows: the screen as grey levels, the text of the
  registers and instructions, and the editing of the step count.
- `src/registers.rs`, `src/memory.rs`, `src/mbc.rs`, `src/cartridge.rs`, `src/interrupts.rs`,
  `src/joypad.rs` and `src/serial.rs` are a simpler set of parts: a flat memory map, a
  register file with flag accessors, and passive peripherals.
- `app/` is the program: it reads the boot ROM and a cartridge from disk, draws the window with
  raylib, and runs the main loop with the library's decisions.
