use vstd::prelude::*;

use crate::instruction::Instruction;

verus! {

/// Size of the addressable memory, in bytes.
pub const MEMORY_SIZE: usize = 4096;

/// Number of cells of the display grid.
pub const DISPLAY_CELLS: usize = 2048;

/// Where programs are loaded and where execution starts.
pub const PROGRAM_START: u16 = 0x200;

/// Where the built-in glyphs are loaded.
pub const FONT_START: u16 = 0x050;

/// The register that reports carry, borrow and collision.
pub const FLAG_REGISTER: usize = 15;

/// What a step can report instead of completing. In every case the machine
/// state is left as it was before the failing part of the step.
#[derive(Clone, Copy, Debug, PartialEq, Eq, Structural)]
pub enum StepError {
    /// The word matches no operation of its family. The host reports it and
    /// goes on with the next instruction.
    UnknownInstruction { raw: u16, pc: u16 },
    /// The operation would read or write memory past its end.
    AddressOutOfRange { raw: u16, pc: u16 },
    /// The program counter would leave memory or its 16-bit range.
    ProgramCounterOutOfRange { pc: u16 },
}

/// Why a program was not loaded.
#[derive(Clone, Copy, Debug, PartialEq, Eq, Structural)]
pub enum LoadError {
    /// The program, `len` bytes long, does not fit between the program's
    /// origin and the end of memory.
    ProgramTooLarge { len: usize },
}

/// The whole machine as plain mathematical values.
#[verifier::ext_equal]
pub struct MachineView {
    pub memory: Seq<u8>,
    pub pc: u16,
    pub v: Seq<u8>,
    pub i: u16,
    pub stack: Seq<u16>,
    pub display: Seq<bool>,
    pub refresh: bool,
    pub delay_timer: u8,
    pub sound_timer: u8,
    pub input: Seq<u8>,
    pub c48_mode: bool,
}

/// An unlit display.
pub open spec fn blank_display() -> Seq<bool> {
    Seq::new(DISPLAY_CELLS as nat, |p: int| false)
}

impl MachineView {
    pub open spec fn wf(self) -> bool {
        &&& self.memory.len() == MEMORY_SIZE
        &&& self.v.len() == 16
        &&& self.display.len() == DISPLAY_CELLS
    }

    pub open spec fn set_reg(self, x: int, val: u8) -> MachineView {
        MachineView { v: self.v.update(x, val), ..self }
    }

    pub open spec fn with_pc(self, pc: u16) -> MachineView {
        MachineView { pc: pc, ..self }
    }

    /// Skips one instruction when `cond` holds.
    pub open spec fn skip_if(self, cond: bool) -> Result<MachineView, StepError> {
        if !cond {
            Ok(self)
        } else if self.pc > 0xFFFD {
            Err(StepError::ProgramCounterOutOfRange { pc: self.pc })
        } else {
            Ok(self.with_pc((self.pc + 2) as u16))
        }
    }

    pub open spec fn unknown(self, ins: Instruction) -> Result<MachineView, StepError> {
        Err(StepError::UnknownInstruction { raw: ins.0, pc: self.pc })
    }

    pub open spec fn out_of_range(self, ins: Instruction) -> Result<MachineView, StepError> {
        Err(StepError::AddressOutOfRange { raw: ins.0, pc: self.pc })
    }
}

/// The result `r` of an operation, with the state `after` it left, is what
/// `expected` describes; a failed operation changes nothing.
pub open spec fn step_matches(
    before: MachineView,
    after: MachineView,
    r: Result<(), StepError>,
    expected: Result<MachineView, StepError>,
) -> bool {
    match r {
        Ok(_) => expected == Ok::<MachineView, StepError>(after),
        Err(e) => expected == Err::<MachineView, StepError>(e) && after == before,
    }
}

} // verus!
