use vstd::prelude::*;

use crate::chip8::{draw_spec, fetch_spec, sprite_hit, stepped};
use crate::instruction::Instruction;
use crate::machine::{MachineView, StepError, DISPLAY_CELLS, FLAG_REGISTER, MEMORY_SIZE};
use crate::operations::execute_spec;

verus! {

/// Loading an immediate into a register and reading the register back gives
/// the immediate, for every register and every byte.
pub proof fn lemma_load_immediate(s: MachineView, x: u16, k: u8, rnd: u8)
    requires
        s.wf(),
        x < 16,
    ensures
        ({
            let ins = Instruction((0x6000 + x * 256 + k) as u16);
            execute_spec(s, ins, rnd) is Ok && execute_spec(s, ins, rnd).unwrap().v[x as int] == k
        }),
{
    let ins = Instruction((0x6000 + x * 256 + k) as u16);
    assert(ins.family() == 6 && ins.vx() == x && ins.byte() == k) by (nonlinear_arith)
        requires
            ins.0 == 0x6000 + x * 256 + k,
            x < 16,
            k < 256,
    ;
}

/// Adding an immediate to a register wraps around at 256 and never fails.
pub proof fn lemma_add_immediate_wraps(s: MachineView, x: u16, k: u8, rnd: u8)
    requires
        s.wf(),
        x < 16,
    ensures
        ({
            let ins = Instruction((0x7000 + x * 256 + k) as u16);
            execute_spec(s, ins, rnd) is Ok && execute_spec(s, ins, rnd).unwrap().v[x as int] == (
            s.v[x as int] + k) % 256
        }),
{
    let ins = Instruction((0x7000 + x * 256 + k) as u16);
    assert(ins.family() == 7 && ins.vx() == x && ins.byte() == k) by (nonlinear_arith)
        requires
            ins.0 == 0x7000 + x * 256 + k,
            x < 16,
            k < 256,
    ;
}

/// Whether the skip instruction `ins` skips on machine `s`.
pub open spec fn skip_condition(s: MachineView, ins: Instruction) -> bool {
    let vx = s.v[ins.vx() as int];
    let vy = s.v[ins.vy() as int];
    if ins.family() == 0x3 {
        vx == ins.byte()
    } else if ins.family() == 0x4 {
        vx != ins.byte()
    } else if ins.family() == 0x5 {
        vx == vy
    } else {
        vx != vy
    }
}

/// A step over a conditional skip moves the program counter by 4 when the
/// condition holds and by 2 otherwise, and does not fail.
pub proof fn lemma_skip_advances(s: MachineView, after: MachineView, r: Result<(), StepError>, rnd: u8)
    requires
        s.wf(),
        s.pc as int + 1 < MEMORY_SIZE,
        ({
            let f = fetch_spec(s).unwrap().1.family();
            f == 0x3 || f == 0x4 || f == 0x5 || f == 0x9
        }),
        stepped(s, after, r, rnd),
    ensures
        r is Ok,
        after.pc == s.pc + if skip_condition(s, fetch_spec(s).unwrap().1) { 4int } else { 2int },
{
}

/// Drawing a sprite on a blank display reports no collision. Drawing the same
/// sprite again at the same place, with the coordinates in registers other
/// than the flag register, turns off every cell the first drawing lit and
/// reports a collision, provided the sprite lit at least one cell.
pub proof fn lemma_draw_twice_restores(s: MachineView, ins: Instruction)
    requires
        s.wf(),
        ins.family() == 0xD,
        forall|p: int| 0 <= p < DISPLAY_CELLS ==> !s.display[p],
        ins.vx() != FLAG_REGISTER,
        ins.vy() != FLAG_REGISTER,
        draw_spec(s, ins) is Ok,
        exists|p: int|
            0 <= p < DISPLAY_CELLS && #[trigger] sprite_hit(
                s.memory,
                s.i as int,
                ins.n() as int,
                (s.v[ins.vx() as int] % 64) as int,
                (s.v[ins.vy() as int] % 32) as int,
                p,
            ),
    ensures
        draw_spec(s, ins).unwrap().v[FLAG_REGISTER as int] == 0,
        draw_spec(draw_spec(s, ins).unwrap(), ins) is Ok,
        draw_spec(draw_spec(s, ins).unwrap(), ins).unwrap().display == s.display,
        draw_spec(draw_spec(s, ins).unwrap(), ins).unwrap().v[FLAG_REGISTER as int] == 1,
{
    let s1 = draw_spec(s, ins).unwrap();
    let s2 = draw_spec(s1, ins).unwrap();
    let a = s.i as int;
    let n = ins.n() as int;
    let x0 = (s.v[ins.vx() as int] % 64) as int;
    let y0 = (s.v[ins.vy() as int] % 32) as int;
    assert(s1.v[ins.vx() as int] == s.v[ins.vx() as int]);
    assert(s1.v[ins.vy() as int] == s.v[ins.vy() as int]);
    assert(s2.display =~= s.display);
    let p = choose|p: int| 0 <= p < DISPLAY_CELLS && #[trigger] sprite_hit(s.memory, a, n, x0, y0, p);
    assert(s1.display[p]);
}

/// A sprite that reaches past the right edge is cut there: no cell left of
/// its starting column changes, so nothing wraps to the start of a line.
pub proof fn lemma_draw_clips_right_edge(s: MachineView, ins: Instruction)
    requires
        s.wf(),
        ins.family() == 0xD,
        draw_spec(s, ins) is Ok,
    ensures
        forall|p: int|
            0 <= p < DISPLAY_CELLS && p % 64 < s.v[ins.vx() as int] % 64 ==> #[trigger] draw_spec(
                s,
                ins,
            ).unwrap().display[p] == s.display[p],
{
}

/// Splitting a register into decimal digits writes three digits below ten
/// whose value is the register's.
pub proof fn lemma_decimal_digits(s: MachineView, x: u16, rnd: u8)
    requires
        s.wf(),
        x < 16,
        s.i as int + 3 <= MEMORY_SIZE,
    ensures
        ({
            let ins = Instruction((0xF033 + x * 256) as u16);
            let m = execute_spec(s, ins, rnd).unwrap().memory;
            &&& execute_spec(s, ins, rnd) is Ok
            &&& m[s.i as int] < 10 && m[s.i + 1] < 10 && m[s.i + 2] < 10
            &&& m[s.i as int] * 100 + m[s.i + 1] * 10 + m[s.i + 2] == s.v[x as int]
        }),
{
    let ins = Instruction((0xF033 + x * 256) as u16);
    assert(ins.family() == 0xF && ins.vx() == x && ins.byte() == 0x33) by (nonlinear_arith)
        requires
            ins.0 == 0xF033 + x * 256,
            x < 16,
    ;
}

/// Without compatibility mode a shift first copies the source register into
/// the destination, so the destination ends up with the shifted source; in
/// compatibility mode the destination shifts in place and the source is not
/// read.
pub proof fn lemma_shift_modes(s: MachineView, ins: Instruction, rnd: u8)
    requires
        s.wf(),
        ins.family() == 0x8,
        ins.n() == 0x6 || ins.n() == 0xE,
        ins.vx() != FLAG_REGISTER,
    ensures
        execute_spec(s, ins, rnd) is Ok,
        ({
            let src = if s.c48_mode { s.v[ins.vx() as int] } else { s.v[ins.vy() as int] };
            execute_spec(s, ins, rnd).unwrap().v[ins.vx() as int] == if ins.n() == 0x6 {
                src / 2
            } else {
                ((src * 2) % 256) as u8
            }
        }),
{
}

} // verus!
