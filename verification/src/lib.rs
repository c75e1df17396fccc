//! A verified CHIP-8 virtual machine core.
//!
//! The library simulates the classic CHIP-8 byte-code architecture: an 8-bit
//! register machine with 4 KiB of flat memory, a 16-slot call stack, a 64x32
//! monochrome framebuffer, a 16-key hex keypad, and two 60 Hz timers. The
//! host (terminal or windowed front end) loads a ROM, drives `Cpu::tick` and
//! `Cpu::tick_60hz`, delivers key events, and reads the framebuffer back.

pub mod cli;
pub mod cpu;
pub mod decode;
pub mod display;
pub mod laws;
pub mod utils;

pub use cli::CliOptions;
pub use cpu::{Chip8Error, Cpu};
pub use decode::Opcode;
pub use display::Display;
pub use utils::get_nth_hex_digit;
