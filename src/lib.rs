//! The core of an 8-bit console emulator: a 6502 interpreter, the CPU's
//! address bus, the picture processing unit and its registers, the
//! gamepad, the renderer, the iNES cartridge parser and a trace formatter.
//! Each state is modelled by a view of plain values, and every operation
//! is stated and proved against that model.

pub mod bus;
pub mod cpu;
pub mod joypad;
pub mod opcodes;
pub mod ppu;
pub mod renderer;
pub mod rom;
pub mod screen;
pub mod tile_viewer;
pub mod trace;
