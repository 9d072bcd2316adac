use vstd::prelude::*;

verus! {

/// One decoded 16-bit instruction word. Decoding never fails: every field is
/// defined for every word, and whether the word means anything is decided at
/// dispatch.
#[derive(Copy, Clone)]
pub struct Instruction(pub u16);

/// The word formed by two bytes, the first one being the most significant.
pub open spec fn word_of(b1: u8, b2: u8) -> u16 {
    (b1 as int * 256 + b2 as int) as u16
}

impl Instruction {
    /// The opcode family, bits 12 to 15.
    pub open spec fn family(self) -> u8 {
        (self.0 / 4096) as u8
    }

    /// The lowest nibble, bits 0 to 3.
    pub open spec fn n(self) -> u8 {
        (self.0 % 16) as u8
    }

    /// The first register index, bits 8 to 11.
    pub open spec fn vx(self) -> usize {
        ((self.0 / 256) % 16) as usize
    }

    /// The second register index, bits 4 to 7.
    pub open spec fn vy(self) -> usize {
        ((self.0 / 16) % 16) as usize
    }

    /// The 12-bit address, bits 0 to 11.
    pub open spec fn addr(self) -> u16 {
        (self.0 % 4096) as u16
    }

    /// The 8-bit immediate, bits 0 to 7.
    pub open spec fn byte(self) -> u8 {
        (self.0 % 256) as u8
    }

    pub fn new_from_bytes(b1: u8, b2: u8) -> (r: Instruction)
        ensures
            r.0 == word_of(b1, b2),
    {
        Instruction((b1 as u16) * 256 + (b2 as u16))
    }

    pub fn to_raw_instr(self) -> (r: u16)
        ensures
            r == self.0,
    {
        self.0
    }

    pub fn first_nibble(self) -> (r: u8)
        ensures
            r == self.family(),
            r < 16,
    {
        (self.0 / 4096) as u8
    }

    pub fn last_nibble(self) -> (r: u8)
        ensures
            r == self.n(),
            r < 16,
    {
        (self.0 % 16) as u8
    }

    pub fn x(self) -> (r: usize)
        ensures
            r == self.vx(),
            r < 16,
    {
        ((self.0 / 256) % 16) as usize
    }

    pub fn x_y(self) -> (r: (usize, usize))
        ensures
            r.0 == self.vx(),
            r.1 == self.vy(),
            r.0 < 16,
            r.1 < 16,
    {
        let x = ((self.0 / 256) % 16) as usize;
        let y = ((self.0 / 16) % 16) as usize;
        (x, y)
    }

    pub fn nnn(self) -> (r: u16)
        ensures
            r == self.addr(),
            r < 4096,
    {
        self.0 % 4096
    }

    pub fn kk(self) -> (r: u8)
        ensures
            r == self.byte(),
    {
        (self.0 % 256) as u8
    }
}

/// Splitting a word into its two bytes and decoding them gives the word back,
/// and the word is the sum of its fields at their places.
pub proof fn lemma_decode_round_trip(raw: u16)
    ensures
        word_of((raw / 256) as u8, (raw % 256) as u8) == raw,
        Instruction(raw).family() as int * 4096 + Instruction(raw).vx() as int * 256
            + Instruction(raw).vy() as int * 16 + Instruction(raw).n() as int == raw as int,
        Instruction(raw).family() as int * 4096 + Instruction(raw).addr() as int == raw as int,
        Instruction(raw).vx() as int * 256 + Instruction(raw).byte() as int
            == Instruction(raw).addr() as int,
{
    assert(raw / 256 < 256) by (bit_vector);
    assert((raw / 256) * 256 + raw % 256 == raw) by (bit_vector);
    assert(raw / 4096 < 16 && raw / 4096 * 4096 <= raw) by (bit_vector);
    assert((raw / 4096) * 4096 + ((raw / 256) % 16) * 256 + ((raw / 16) % 16) * 16 + raw % 16
        == raw) by (bit_vector);
    assert((raw / 4096) * 4096 + raw % 4096 == raw) by (bit_vector);
    assert(((raw / 256) % 16) * 256 + raw % 256 == raw % 4096) by (bit_vector);
}

} // verus!
