//! A CHIP-8 virtual machine core: memory and register model, instruction
//! decoding, opcode dispatch and the sprite drawing algorithm. The host drives
//! it one instruction at a time and handles timing, input and rendering.
use vstd::prelude::*;

pub mod audio;
pub mod chip8;
pub mod cli;
pub mod config;
pub mod host;
pub mod instruction;
pub mod laws;
pub mod machine;
pub mod operations;
pub mod program_counter;

verus! {

/// Width of the monochrome display, in pixels.
pub const DISPLAY_WIDTH: usize = 64;

/// Height of the monochrome display, in pixels.
pub const DISPLAY_HEIGHT: usize = 32;

} // verus!
