//! A verified emulator core for the Nintendo Entertainment System: a MOS 6502
//! CPU interpreter, the picture processing unit (PPU) with its timing and
//! memory mirroring rules, and the bus that routes every memory access between
//! them, together with the cartridge (mapper 0), the joypads and the frame
//! buffer.
//!
//! The host (window, input, files) lives outside this crate; it talks to the
//! core through plain values: ROM bytes in, frames and register state out.

pub mod addr;
pub mod bus;
pub mod cartridge;
pub mod cpu;
pub mod graphics;
pub mod joypad;
pub mod mapper;
pub mod mapper_0;
pub mod opcodes;
pub mod ppu;
pub mod registers;
pub mod render;
