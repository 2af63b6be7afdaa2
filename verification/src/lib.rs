//! Cycle-stepped emulator core for the Sharp LR35902 handheld console.
//!
//! The crate models the processor, the memory bus, the cartridge bank
//! controllers, the pixel generator, the timer and the joypad. Every
//! executable function carries a contract over a mathematical model of the
//! machine state; the host front end (windowing, file I/O) lives outside
//! this library and drives it through plain values.

pub mod bits;
pub mod registers;
pub mod interrupt;
pub mod timer;
pub mod joypad;
pub mod mbc;
pub mod cart;
pub mod render;
pub mod ppu;
pub mod mmu;
pub mod cpu;
pub mod gameboy;
pub mod laws;
