//! A cycle-accurate functional emulator for a small 8-bit AVR microcontroller
//! board: the instruction-set interpreter, the layered memory map, the
//! interrupt dispatcher, the clocked peripherals, the four-valued net resolver
//! and the off-chip hardware models, each with a machine-checked contract.

pub mod bits;
pub mod boards;
pub mod cores;
pub mod devices;
pub mod events;
pub mod hardware;
pub mod hex;
pub mod instruction;
pub mod memory;
pub mod nets;
pub mod peripherals;
pub mod text;
