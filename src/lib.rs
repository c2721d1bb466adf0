//! Core of a cycle-driven emulator for the monochrome handheld console:
//! the memory bus, the CPU interpreter, the picture processor, the timer
//! and the joypad latch, each with its behaviour stated as contracts.

pub mod consts;
pub mod mem;
pub mod cpu;
pub mod isa;
pub mod timer;
pub mod input;
pub mod gpu;
pub mod emu;
pub mod laws;
