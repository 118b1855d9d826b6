pub mod audio;
pub mod bits;
pub mod bus;
pub mod cpu;
pub mod debug;
pub mod gameboy;
pub mod cartridge;
pub mod graphics;
pub mod interrupts;
pub mod joypad;
pub mod mbc;
pub mod opcodes;
pub mod ppu;
pub mod registers;
pub mod timer;
