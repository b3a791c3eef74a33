//! Core of an emulator for an 8-bit handheld game console: register file,
//! memory bus, interrupt controller, display timer and instruction engine.

pub mod alu;
pub mod bus;
pub mod cpu;
pub mod game;
pub mod gpu;
pub mod handlers;
pub mod instruction;
pub mod interrupts;
pub mod machine;
pub mod memory;
pub mod registers;
