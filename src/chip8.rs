use vstd::arithmetic::div_mod::lemma_fundamental_div_mod;
use vstd::arithmetic::div_mod::lemma_fundamental_div_mod_converse;
use vstd::prelude::*;

use crate::config::FONT;
use crate::instruction::{word_of, Instruction};
use crate::machine::{
    blank_display, step_matches, LoadError, MachineView, StepError, DISPLAY_CELLS, FLAG_REGISTER,
    FONT_START, MEMORY_SIZE, PROGRAM_START,
};
use crate::operations::{
    execute_spec, op_1nnn, op_2nnn, op_3xkk, op_4xkk, op_5xy0, op_6xkk, op_7xkk, op_9xy0, op_annn,
    op_bnnn, op_cxkk, op_dxyn, op_table_0, op_table_8, op_table_e, op_table_f, random_byte,
};
use crate::program_counter::ProgramCounter;

verus! {

/// The display grid, row-major, and whether it changed since the host last
/// drew it.
pub struct Screen {
    pub display: [bool; 2048],
    pub refresh: bool,
}

impl Screen {
    pub fn new() -> (r: Screen)
        ensures
            r.display@ == blank_display(),
            !r.refresh,
    {
        let r = Screen { display: [false; 2048], refresh: false };
        assert(r.display@ =~= blank_display());
        r
    }

    /// Turns every cell off.
    pub fn clear(&mut self)
        ensures
            final(self).display@ == blank_display(),
            final(self).refresh == old(self).refresh,
    {
        self.display = [false; 2048];
        assert(self.display@ =~= blank_display());
    }

    /// Tells whether the display changed since the last call, and consumes
    /// that notice.
    pub fn should_refresh(&mut self) -> (r: bool)
        ensures
            r == old(self).refresh,
            !final(self).refresh,
            final(self).display == old(self).display,
    {
        if !self.refresh {
            return false;
        }
        self.refresh = false;
        true
    }
}

/// Whether bit `k` of `b` is set, counting from the most significant bit.
pub open spec fn sprite_bit(b: u8, k: int) -> bool {
    (b >> ((7 - k) as u8)) & 1u8 == 1u8
}

/// Whether the sprite of `n` rows read at `addr`, placed with its top left
/// corner at column `x0` and row `y0`, covers cell `p` with a set bit. Bits
/// that would fall right of the last column or below the last row are dropped.
pub open spec fn sprite_hit(memory: Seq<u8>, addr: int, n: int, x0: int, y0: int, p: int) -> bool {
    let row = p / 64;
    let col = p % 64;
    &&& y0 <= row < y0 + n
    &&& x0 <= col < x0 + 8
    &&& sprite_bit(memory[addr + row - y0], col - x0)
}

/// The part of `sprite_hit` that a drawing pass has reached before bit `bit`
/// of sprite row `row`.
pub open spec fn sprite_hit_before(
    memory: Seq<u8>,
    addr: int,
    n: int,
    x0: int,
    y0: int,
    p: int,
    row: int,
    bit: int,
) -> bool {
    &&& sprite_hit(memory, addr, n, x0, y0, p)
    &&& (p / 64 - y0 < row || (p / 64 - y0 == row && p % 64 - x0 < bit))
}

/// The display after the sprite is XORed onto it.
pub open spec fn drawn_display(
    display: Seq<bool>,
    memory: Seq<u8>,
    addr: int,
    n: int,
    x0: int,
    y0: int,
) -> Seq<bool> {
    Seq::new(display.len(), |p: int| display[p] != sprite_hit(memory, addr, n, x0, y0, p))
}

/// Whether the sprite turns off a lit cell.
pub open spec fn draw_collides(
    display: Seq<bool>,
    memory: Seq<u8>,
    addr: int,
    n: int,
    x0: int,
    y0: int,
) -> bool {
    exists|p: int|
        0 <= p < DISPLAY_CELLS && #[trigger] sprite_hit(memory, addr, n, x0, y0, p) && display[p]
}

/// The sprite drawing operation `Dxyn`.
pub open spec fn draw_spec(s: MachineView, ins: Instruction) -> Result<MachineView, StepError> {
    let n = ins.n() as int;
    let addr = s.i as int;
    if addr + n > MEMORY_SIZE {
        s.out_of_range(ins)
    } else {
        let x0 = (s.v[ins.vx() as int] % 64) as int;
        let y0 = (s.v[ins.vy() as int] % 32) as int;
        let collided = draw_collides(s.display, s.memory, addr, n, x0, y0);
        Ok(
            MachineView {
                display: drawn_display(s.display, s.memory, addr, n, x0, y0),
                refresh: true,
                v: s.v.update(FLAG_REGISTER as int, if collided { 1u8 } else { 0u8 }),
                ..s
            },
        )
    }
}

proof fn lemma_cell_position(row: int, col: int)
    requires
        0 <= row,
        0 <= col < 64,
    ensures
        (row * 64 + col) / 64 == row,
        (row * 64 + col) % 64 == col,
{
    lemma_fundamental_div_mod_converse(row * 64 + col, 64, row, col);
}

/// A register that an operation writes: a general-purpose one, or the
/// address register.
pub enum Reg {
    V(usize),
    I,
}

/// The machine as it is made: the glyphs at their place, the rest of memory,
/// the registers, timers and display zero, nothing pressed, and execution
/// about to start at the program's origin.
pub open spec fn initial_state(c48_mode: bool) -> MachineView {
    MachineView {
        memory: Seq::new(
            MEMORY_SIZE as nat,
            |a: int|
                if FONT_START <= a < FONT_START + 80 {
                    FONT@[a - FONT_START]
                } else {
                    0u8
                },
        ),
        pc: PROGRAM_START,
        v: Seq::new(16, |r: int| 0u8),
        i: 0,
        stack: Seq::empty(),
        display: blank_display(),
        refresh: false,
        delay_timer: 0,
        sound_timer: 0,
        input: Seq::empty(),
        c48_mode: c48_mode,
    }
}

/// The memory after `program` is copied to the program's origin.
pub open spec fn loaded_memory(memory: Seq<u8>, program: Seq<u8>) -> Seq<u8> {
    Seq::new(
        memory.len(),
        |a: int|
            if PROGRAM_START <= a < PROGRAM_START + program.len() {
                program[a - PROGRAM_START]
            } else {
                memory[a]
            },
    )
}

/// Fetching: the word at the program counter, with the counter moved past it.
pub open spec fn fetch_spec(s: MachineView) -> Result<(MachineView, Instruction), StepError> {
    if s.pc as int + 1 >= MEMORY_SIZE {
        Err(StepError::ProgramCounterOutOfRange { pc: s.pc })
    } else {
        Ok(
            (
                s.with_pc((s.pc + 2) as u16),
                Instruction(word_of(s.memory[s.pc as int], s.memory[s.pc + 1])),
            ),
        )
    }
}

/// One step from `before` to `after` with result `r`: a failed fetch changes
/// nothing; otherwise the fetched word is executed on the machine whose
/// counter is already past it, `rnd` being the byte that `Cxkk` draws.
pub open spec fn stepped(before: MachineView, after: MachineView, r: Result<(), StepError>, rnd: u8) -> bool {
    match fetch_spec(before) {
        Err(e) => r == Err::<(), StepError>(e) && after == before,
        Ok((s, ins)) => step_matches(s, after, r, execute_spec(s, ins, rnd)),
    }
}

/// The value that a register write stores in an 8-bit register: the value
/// when it fits, else 0.
pub open spec fn to_register(val: u16) -> u8 {
    if val < 256 {
        val as u8
    } else {
        0u8
    }
}

/// The whole machine: memory, registers, call stack, display, timers, the
/// keys pressed now, and the compatibility flag fixed at construction.
pub struct Chip8 {
    pub memory: [u8; 4096],
    pub pc: ProgramCounter,
    pub v: [u8; 16],
    pub i: u16,
    pub stack: Vec<u16>,
    pub screen: Screen,
    pub delay_timer: u8,
    pub sound_timer: u8,
    pub input: Vec<u8>,
    pub c48_mode: bool,
}

impl View for Chip8 {
    type V = MachineView;

    open spec fn view(&self) -> MachineView {
        MachineView {
            memory: self.memory@,
            pc: self.pc.0,
            v: self.v@,
            i: self.i,
            stack: self.stack@,
            display: self.screen.display@,
            refresh: self.screen.refresh,
            delay_timer: self.delay_timer,
            sound_timer: self.sound_timer,
            input: self.input@,
            c48_mode: self.c48_mode,
        }
    }
}

impl Chip8 {
    pub fn new(c48_mode: bool) -> (r: Chip8)
        ensures
            r@ == initial_state(c48_mode),
    {
        let mut c = Chip8 {
            memory: [0u8; 4096],
            pc: ProgramCounter::new_with_value(PROGRAM_START),
            v: [0u8; 16],
            i: 0,
            stack: Vec::new(),
            screen: Screen::new(),
            delay_timer: 0,
            sound_timer: 0,
            input: Vec::new(),
            c48_mode,
        };
        assert(c.v@ =~= Seq::new(16, |r: int| 0u8));
        c.load_font();
        assert(c@ =~~= initial_state(c48_mode));
        c
    }

    /// Copies the glyphs to their place in memory.
    fn load_font(&mut self)
        requires
            forall|a: int| 0 <= a < MEMORY_SIZE ==> old(self).memory@[a] == 0u8,
        ensures
            final(self)@ == (MachineView { memory: initial_state(old(self).c48_mode).memory, ..old(self)@ }),
    {
        let mut k: usize = 0;
        while k < 80
            invariant
                k <= 80,
                self.memory@.len() == MEMORY_SIZE,
                self.pc == old(self).pc,
                self.v == old(self).v,
                self.i == old(self).i,
                self.stack@ == old(self).stack@,
                self.screen.display == old(self).screen.display,
                self.screen.refresh == old(self).screen.refresh,
                self.delay_timer == old(self).delay_timer,
                self.sound_timer == old(self).sound_timer,
                self.input@ == old(self).input@,
                self.c48_mode == old(self).c48_mode,
                forall|a: int|
                    0 <= a < MEMORY_SIZE ==> self.memory@[a] == if FONT_START <= a < FONT_START + k {
                        FONT@[a - FONT_START]
                    } else {
                        0u8
                    },
            decreases 80 - k,
        {
            self.memory[FONT_START as usize + k] = FONT[k];
            k = k + 1;
        }
        assert(self.memory@ =~= initial_state(old(self).c48_mode).memory);
        assert(self@ =~~= MachineView { memory: initial_state(old(self).c48_mode).memory, ..old(self)@ });
    }

    /// Copies `program` to memory from the program's origin on. A program that
    /// does not fit is refused and nothing is written.
    pub fn load_program_to_memory(&mut self, program: &[u8]) -> (r: Result<(), LoadError>)
        ensures
            r is Ok <==> PROGRAM_START + program@.len() <= MEMORY_SIZE,
            r is Ok ==> final(self)@ == (MachineView { memory: loaded_memory(old(self)@.memory, program@), ..old(self)@ }),
            r is Err ==> final(self)@ == old(self)@ && r == Err::<(), LoadError>(
                LoadError::ProgramTooLarge { len: program@.len() as usize },
            ),
    {
        let len = program.len();
        if len > MEMORY_SIZE - PROGRAM_START as usize {
            return Err(LoadError::ProgramTooLarge { len });
        }
        let ghost start = self@;
        let mut k: usize = 0;
        while k < len
            invariant
                k <= len,
                len == program@.len(),
                PROGRAM_START + len <= MEMORY_SIZE,
                self.memory@.len() == MEMORY_SIZE,
                start == old(self)@,
                self@ == (MachineView { memory: self.memory@, ..start }),
                forall|a: int|
                    0 <= a < MEMORY_SIZE ==> self.memory@[a] == if PROGRAM_START <= a < PROGRAM_START + k {
                        program@[a - PROGRAM_START]
                    } else {
                        start.memory[a]
                    },
            decreases len - k,
        {
            self.memory[PROGRAM_START as usize + k] = program[k];
            k = k + 1;
        }
        assert(self.memory@ =~= loaded_memory(start.memory, program@));
        assert(self@ =~~= MachineView { memory: loaded_memory(start.memory, program@), ..start });
        Ok(())
    }

    /// Executes `instr` on the machine, `rnd` being the byte that the random
    /// operation `Cxkk` draws.
    pub fn execute(&mut self, instr: Instruction, rnd: u8) -> (r: Result<(), StepError>)
        ensures
            step_matches(old(self)@, final(self)@, r, execute_spec(old(self)@, instr, rnd)),
    {
        let f = instr.first_nibble();
        if f == 0x0 {
            op_table_0(self, instr)
        } else if f == 0x1 {
            op_1nnn(self, instr)
        } else if f == 0x2 {
            op_2nnn(self, instr)
        } else if f == 0x3 {
            op_3xkk(self, instr)
        } else if f == 0x4 {
            op_4xkk(self, instr)
        } else if f == 0x5 {
            op_5xy0(self, instr)
        } else if f == 0x6 {
            op_6xkk(self, instr)
        } else if f == 0x7 {
            op_7xkk(self, instr)
        } else if f == 0x8 {
            op_table_8(self, instr)
        } else if f == 0x9 {
            op_9xy0(self, instr)
        } else if f == 0xA {
            op_annn(self, instr)
        } else if f == 0xB {
            op_bnnn(self, instr)
        } else if f == 0xC {
            op_cxkk(self, instr, rnd)
        } else if f == 0xD {
            op_dxyn(self, instr)
        } else if f == 0xE {
            op_table_e(self, instr)
        } else {
            op_table_f(self, instr)
        }
    }

    /// Executes `instr`, drawing a fresh random byte for `Cxkk`. Every other
    /// operation behaves as `execute` does, whatever the byte.
    pub fn decode_and_execute(&mut self, instr: Instruction) -> (r: Result<(), StepError>)
        ensures
            exists|rnd: u8| step_matches(old(self)@, final(self)@, r, execute_spec(old(self)@, instr, rnd)),
            instr.family() != 0xC ==> step_matches(old(self)@, final(self)@, r, execute_spec(old(self)@, instr, 0)),
    {
        let rnd = random_byte();
        let r = self.execute(instr, rnd);
        assert(step_matches(old(self)@, self@, r, execute_spec(old(self)@, instr, rnd)));
        r
    }

    /// One step: fetches the word at the program counter, moves the counter
    /// past it, and executes it with `rnd` as the byte that `Cxkk` draws. When
    /// the execution fails, the counter stays past the word, so that the host
    /// can go on with the next one.
    pub fn step(&mut self, rnd: u8) -> (r: Result<(), StepError>)
        ensures
            stepped(old(self)@, final(self)@, r, rnd),
    {
        let instr = self.fetch()?;
        self.execute(instr, rnd)
    }

    /// One step with a fresh random byte for `Cxkk`.
    pub fn run_instruction(&mut self) -> (r: Result<(), StepError>)
        ensures
            exists|rnd: u8| #[trigger] stepped(old(self)@, final(self)@, r, rnd),
    {
        let rnd = random_byte();
        let r = self.step(rnd);
        assert(stepped(old(self)@, self@, r, rnd));
        r
    }

    /// Reads the word at the program counter and moves the counter past it.
    pub(crate) fn fetch(&mut self) -> (r: Result<Instruction, StepError>)
        ensures
            match fetch_spec(old(self)@) {
                Ok((s, ins)) => r == Ok::<Instruction, StepError>(ins) && final(self)@ == s,
                Err(e) => r == Err::<Instruction, StepError>(e) && final(self)@ == old(self)@,
            },
    {
        let addr = self.pc.value() as usize;
        if addr + 1 >= MEMORY_SIZE {
            return Err(StepError::ProgramCounterOutOfRange { pc: self.pc.value() });
        }
        let instr = Instruction::new_from_bytes(self.memory[addr], self.memory[addr + 1]);
        self.pc.increment();
        assert(self@ =~~= old(self)@.with_pc((old(self)@.pc + 2) as u16));
        Ok(instr)
    }

    /// Writes `val` to register `r`; an 8-bit register takes it only where it
    /// fits, and 0 otherwise.
    pub(crate) fn set_reg_to(&mut self, r: Reg, val: u16)
        requires
            r matches Reg::V(x) ==> x < 16,
        ensures
            match r {
                Reg::V(x) => final(self)@ == old(self)@.set_reg(x as int, to_register(val)),
                Reg::I => final(self)@ == (MachineView { i: val, ..old(self)@ }),
            },
    {
        match r {
            Reg::V(x) => {
                self.v[x] = if val < 256 { val as u8 } else { 0u8 };
                assert(self@ =~~= old(self)@.set_reg(x as int, to_register(val)));
            },
            Reg::I => {
                self.i = val;
                assert(self@ =~~= MachineView { i: val, ..old(self)@ });
            },
        }
    }

    /// Adds `val` to register `r`, wrapping around; an 8-bit register adds it
    /// only where it fits, and 0 otherwise.
    pub(crate) fn add_to_reg(&mut self, r: Reg, val: u16)
        requires
            r matches Reg::V(x) ==> x < 16,
        ensures
            match r {
                Reg::V(x) => final(self)@ == old(self)@.set_reg(
                    x as int,
                    ((old(self)@.v[x as int] + to_register(val)) % 256) as u8,
                ),
                Reg::I => final(self)@ == (MachineView { i: ((old(self)@.i + val) % 65536) as u16, ..old(self)@ }),
            },
    {
        match r {
            Reg::V(x) => {
                let add = if val < 256 { val as u8 } else { 0u8 };
                self.v[x] = ((self.v[x] as u16 + add as u16) % 256) as u8;
                assert(self@ =~~= old(self)@.set_reg(x as int, ((old(self)@.v[x as int] + to_register(val)) % 256) as u8));
            },
            Reg::I => {
                self.i = ((self.i as u32 + val as u32) % 65536) as u16;
                assert(self@ =~~= MachineView { i: ((old(self)@.i + val) % 65536) as u16, ..old(self)@ });
            },
        }
    }

    /// Sets the flag register to 1 when `condition` holds, else to 0.
    pub(crate) fn set_register_flag_if_else_0(&mut self, condition: bool)
        ensures
            final(self)@ == old(self)@.set_reg(FLAG_REGISTER as int, if condition { 1u8 } else { 0u8 }),
    {
        if condition {
            self.set_reg_to(Reg::V(FLAG_REGISTER), 1)
        } else {
            self.set_reg_to(Reg::V(FLAG_REGISTER), 0)
        }
    }

    /// The report for a word that no operation of its family matches.
    pub(crate) fn handle_unknown_instr(&self, instr: Instruction) -> (r: Result<(), StepError>)
        ensures
            r == Err::<(), StepError>(StepError::UnknownInstruction { raw: instr.0, pc: self.pc.0 }),
    {
        Err(StepError::UnknownInstruction { raw: instr.to_raw_instr(), pc: self.pc.value() })
    }

    /// XORs the sprite of instruction `Dxyn` onto the display and sets the
    /// flag register to whether a lit cell was turned off.
    pub(crate) fn draw(&mut self, instr: Instruction) -> (r: Result<(), StepError>)
        ensures
            step_matches(old(self)@, final(self)@, r, draw_spec(old(self)@, instr)),
    {
        let (x, y) = instr.x_y();
        let n = instr.last_nibble() as usize;
        let addr = self.i as usize;
        if addr + n > MEMORY_SIZE {
            return Err(StepError::AddressOutOfRange { raw: instr.to_raw_instr(), pc: self.pc.value() });
        }
        let x0 = (self.v[x] % 64) as usize;
        let y0 = (self.v[y] % 32) as usize;
        let ghost mem = self.memory@;
        let ghost old_display = self.screen.display@;
        let mut display = self.screen.display;
        let mut collided = false;
        let mut row: usize = 0;
        while row < n
            invariant
                row <= n,
                n < 16,
                x0 < 64,
                y0 < 32,
                addr + n <= MEMORY_SIZE,
                mem == self.memory@,
                old_display.len() == DISPLAY_CELLS,
                display@.len() == DISPLAY_CELLS,
                forall|p: int|
                    0 <= p < DISPLAY_CELLS ==> display@[p] == (old_display[p]
                        != sprite_hit_before(mem, addr as int, n as int, x0 as int, y0 as int, p, row as int, 0)),
                collided == exists|p: int|
                    0 <= p < DISPLAY_CELLS && #[trigger] sprite_hit_before(mem, addr as int, n as int, x0 as int, y0 as int, p, row as int, 0)
                        && old_display[p],
            decreases n - row,
        {
            let byte = self.memory[addr + row];
            let py = y0 + row;
            let mut bit: usize = 0;
            while bit < 8
                invariant
                    row < n,
                    n < 16,
                    bit <= 8,
                    x0 < 64,
                    y0 < 32,
                    py == y0 + row,
                    addr + n <= MEMORY_SIZE,
                    mem == self.memory@,
                    byte == mem[addr + row],
                    old_display.len() == DISPLAY_CELLS,
                    display@.len() == DISPLAY_CELLS,
                    forall|p: int|
                        0 <= p < DISPLAY_CELLS ==> display@[p] == (old_display[p]
                            != sprite_hit_before(mem, addr as int, n as int, x0 as int, y0 as int, p, row as int, bit as int)),
                    collided == exists|p: int|
                        0 <= p < DISPLAY_CELLS && #[trigger] sprite_hit_before(mem, addr as int, n as int, x0 as int, y0 as int, p, row as int, bit as int)
                            && old_display[p],
                decreases 8 - bit,
            {
                let px = x0 + bit;
                let set = (byte >> (7 - bit as u8)) & 1u8 == 1u8;
                let ghost before = display@;
                let ghost was_collided = collided;
                if px < 64 && py < 32 && set {
                    let pos = py * 64 + px;
                    proof {
                        lemma_cell_position(py as int, px as int);
                    }
                    if display[pos] {
                        display[pos] = false;
                        collided = true;
                    } else {
                        display[pos] = true;
                    }
                }
                proof {
                    let a = addr as int;
                    let nn = n as int;
                    let xi = x0 as int;
                    let yi = y0 as int;
                    let r = row as int;
                    let b = bit as int;
                    assert forall|p: int| 0 <= p < DISPLAY_CELLS implies
                        sprite_hit_before(mem, a, nn, xi, yi, p, r, b + 1) == (
                        sprite_hit_before(mem, a, nn, xi, yi, p, r, b)
                            || (p == py * 64 + px && px < 64 && py < 32 && set)) by {
                        lemma_fundamental_div_mod(p, 64);
                        if px < 64 && py < 32 {
                            lemma_cell_position(py as int, px as int);
                        }
                        if p / 64 - yi == r && p % 64 - xi == b {
                            assert(p == py * 64 + px);
                        }
                    }
                    assert forall|p: int| 0 <= p < DISPLAY_CELLS implies display@[p] == (old_display[p]
                        != sprite_hit_before(mem, a, nn, xi, yi, p, r, b + 1)) by {
                        if p == py * 64 + px && px < 64 && py < 32 && set {
                            assert(!sprite_hit_before(mem, a, nn, xi, yi, p, r, b));
                        }
                    }
                    let pos = py * 64 + px;
                    if exists|p: int|
                        0 <= p < DISPLAY_CELLS && #[trigger] sprite_hit_before(mem, a, nn, xi, yi, p, r, b + 1)
                            && old_display[p] {
                        let p = choose|p: int|
                            0 <= p < DISPLAY_CELLS && #[trigger] sprite_hit_before(mem, a, nn, xi, yi, p, r, b + 1)
                                && old_display[p];
                        if p == pos && px < 64 && py < 32 && set {
                            assert(!sprite_hit_before(mem, a, nn, xi, yi, p, r, b));
                            assert(before[p]);
                        } else {
                            assert(sprite_hit_before(mem, a, nn, xi, yi, p, r, b));
                        }
                    }
                    if collided && !was_collided {
                        assert(!sprite_hit_before(mem, a, nn, xi, yi, pos, r, b));
                        assert(sprite_hit_before(mem, a, nn, xi, yi, pos, r, b + 1));
                    }
                    if was_collided {
                        let p = choose|p: int|
                            0 <= p < DISPLAY_CELLS && #[trigger] sprite_hit_before(mem, a, nn, xi, yi, p, r, b)
                                && old_display[p];
                        assert(sprite_hit_before(mem, a, nn, xi, yi, p, r, b + 1));
                    }
                }
                bit = bit + 1;
            }
            proof {
                assert forall|p: int| #![auto] 0 <= p < DISPLAY_CELLS implies
                    sprite_hit_before(mem, addr as int, n as int, x0 as int, y0 as int, p, row as int, 8)
                        == sprite_hit_before(mem, addr as int, n as int, x0 as int, y0 as int, p, row as int + 1, 0) by {}
            }
            row = row + 1;
        }
        proof {
            assert forall|p: int| #![auto] 0 <= p < DISPLAY_CELLS implies
                sprite_hit_before(mem, addr as int, n as int, x0 as int, y0 as int, p, n as int, 0)
                    == sprite_hit(mem, addr as int, n as int, x0 as int, y0 as int, p) by {}
        }
        self.screen.display = display;
        self.screen.refresh = true;
        self.v[FLAG_REGISTER] = if collided { 1u8 } else { 0u8 };
        proof {
            let s = old(self)@;
            assert(x0 as int == (s.v[instr.vx() as int] % 64) as int);
            assert(self.screen.display@ =~= drawn_display(old_display, mem, addr as int, n as int, x0 as int, y0 as int));
            assert(collided == draw_collides(old_display, mem, addr as int, n as int, x0 as int, y0 as int));
            assert(self@ =~~= draw_spec(s, instr).unwrap());
        }
        Ok(())
    }
}

} // verus!
