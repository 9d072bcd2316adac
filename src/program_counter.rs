use vstd::prelude::*;

verus! {

/// A cursor over memory, stepped by whole instructions of two bytes.
#[derive(Copy, Clone)]
pub struct ProgramCounter(pub u16);

impl ProgramCounter {
    pub fn new_with_value(val: u16) -> (r: ProgramCounter)
        ensures
            r.0 == val,
    {
        ProgramCounter(val)
    }

    pub fn set_to(&mut self, val: u16)
        ensures
            final(self).0 == val,
    {
        self.0 = val;
    }

    pub fn value(&self) -> (r: u16)
        ensures
            r == self.0,
    {
        self.0
    }

    /// Moves past one instruction.
    pub fn increment(&mut self)
        requires
            old(self).0 <= 0xFFFD,
        ensures
            final(self).0 == old(self).0 + 2,
    {
        self.0 = self.0 + 2;
    }

    /// Moves past one instruction when `condition` holds.
    pub fn increment_if(&mut self, condition: bool)
        requires
            condition ==> old(self).0 <= 0xFFFD,
        ensures
            final(self).0 == if condition { (old(self).0 + 2) as u16 } else { old(self).0 },
    {
        if condition {
            self.increment();
        }
    }

    /// Moves back one instruction when `condition` holds.
    pub fn decrement_if(&mut self, condition: bool)
        requires
            condition ==> old(self).0 >= 2,
        ensures
            final(self).0 == if condition { (old(self).0 - 2) as u16 } else { old(self).0 },
    {
        if condition {
            self.0 = self.0 - 2;
        }
    }
}

} // verus!
