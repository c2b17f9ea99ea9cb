//! A cycle-counting functional emulator of the MOS 6502 processor, with a
//! small memory-mapped 16x16 framebuffer.

pub mod bits;
pub mod cpu;
pub mod graphics_adapter;
pub mod instructions;
pub mod laws;
pub mod memory;
pub mod semantics;
