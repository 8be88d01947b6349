//! A Game Boy emulator core: register file, timed operand programs, CPU
//! instruction engine, memory bus and picture processing unit, each step
//! stated as a contract and proved.

pub mod bootrom;
pub mod cartridge;
pub mod cpu;
pub mod decode;
pub mod instructions;
pub mod laws;
pub mod operand;
pub mod peripherals;
pub mod ppu;
pub mod registers;
pub mod timing;
pub mod wram;
