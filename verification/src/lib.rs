//! A verified interpreter for a small 8-bit virtual machine: 4096 bytes of
//! memory, 16 general registers, a 16-entry call stack, two countdown timers,
//! a 64x32 monochrome framebuffer and a 16-key input surface.
//!
//! The library holds the fetch-decode-execute core with full functional
//! contracts; rendering, input polling and program-file reading are left to
//! the host around it.
use vstd::prelude::*;

pub mod colors;
pub mod cpu;
pub mod decode;
pub mod laws;

verus! {

/// Width of the framebuffer in pixels.
pub const CHIP8_DEFAULT_WIDTH: usize = 64;

/// Height of the framebuffer in pixels.
pub const CHIP8_DEFAULT_HEIGHT: usize = 32;

/// Number of cells in the framebuffer (width times height).
pub const CHIP8_FRAMEBUFFER_SIZE: usize = 2048;

/// Number of addressable bytes of memory.
pub const CHIP8_MEMORY_SIZE: usize = 4096;

/// Address at which loaded programs begin, and at which the cursor starts.
pub const CHIP8_PROGRAM_START: usize = 0x200;

} // verus!
