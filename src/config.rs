use vstd::prelude::*;

verus! {

/// How often the host loop runs, in Hz; timers count down once per run.
pub const MAIN_LOOP_FREQUENCY: u32 = 60;

/// The built-in glyphs for the hex digits 0 to F, five rows of one byte each.
pub const FONT: [u8; 80] = [
    0xF0, 0x90, 0x90, 0x90, 0xF0,
    0x20, 0x60, 0x20, 0x20, 0x70,
    0xF0, 0x10, 0xF0, 0x80, 0xF0,
    0xF0, 0x10, 0xF0, 0x10, 0xF0,
    0x90, 0x90, 0xF0, 0x10, 0x10,
    0xF0, 0x80, 0xF0, 0x10, 0xF0,
    0xF0, 0x80, 0xF0, 0x90, 0xF0,
    0xF0, 0x10, 0x20, 0x40, 0x40,
    0xF0, 0x90, 0xF0, 0x90, 0xF0,
    0xF0, 0x90, 0xF0, 0x10, 0xF0,
    0xF0, 0x90, 0xF0, 0x90, 0x90,
    0xE0, 0x90, 0xE0, 0x90, 0xE0,
    0xF0, 0x80, 0x80, 0x80, 0xF0,
    0xE0, 0x90, 0x90, 0x90, 0xE0,
    0xF0, 0x80, 0xF0, 0x80, 0xF0,
    0xF0, 0x80, 0xF0, 0x80, 0x80,
];

/// An RGB colour.
#[derive(Clone, Copy, Debug, PartialEq, Eq, Structural)]
pub struct Rgb {
    pub r: u8,
    pub g: u8,
    pub b: u8,
}

/// The host's settings.
pub struct Config {
    /// How many screen pixels one display cell spans on each side.
    pub screen_size: u32,
    /// How fast the machine runs, in Hz, an instruction taking two cycles.
    pub emu_speed: u32,
    pub background_color: Rgb,
    pub foreground_color: Rgb,
    pub debug_mode: bool,
    pub c48_mode: bool,
}

impl Config {
    /// How many instructions to run per run of the host loop.
    pub fn instructions_per_cycle(&self) -> (r: u32)
        ensures
            r == self.emu_speed / MAIN_LOOP_FREQUENCY / 2,
    {
        (self.emu_speed / MAIN_LOOP_FREQUENCY) / 2
    }
}

} // verus!
