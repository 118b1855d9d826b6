pub mod cartridge;
pub mod control;
pub mod frontend;
pub mod interrupts;
pub mod joypad;
pub mod machine;
pub mod mbc;
pub mod memory;
pub mod registers;
pub mod serial;
