use vstd::prelude::*;

use crate::chip8::{draw_spec, Chip8, Reg};
use crate::instruction::Instruction;
use crate::machine::{
    blank_display, step_matches, MachineView, StepError, FLAG_REGISTER, FONT_START, MEMORY_SIZE,
};

verus! {

/// Family `0`: clear the display, or return from a subroutine. Returning with
/// an empty stack jumps to address 0.
pub open spec fn table_0_spec(s: MachineView, ins: Instruction) -> Result<MachineView, StepError> {
    if ins.byte() == 0xE0 {
        Ok(MachineView { display: blank_display(), refresh: true, ..s })
    } else if ins.byte() == 0xEE {
        if s.stack.len() == 0 {
            Ok(s.with_pc(0))
        } else {
            Ok(MachineView { pc: s.stack.last(), stack: s.stack.drop_last(), ..s })
        }
    } else {
        s.unknown(ins)
    }
}

/// Family `8`: register to register arithmetic. The flag register is written
/// before the destination, so a destination of 15 keeps the result.
pub open spec fn table_8_spec(s: MachineView, ins: Instruction) -> Result<MachineView, StepError> {
    let x = ins.vx() as int;
    let y = ins.vy() as int;
    let f = FLAG_REGISTER as int;
    let vx = s.v[x];
    let vy = s.v[y];
    let src = if s.c48_mode { vx } else { vy };
    if ins.n() == 0x0 {
        Ok(s.set_reg(x, vy))
    } else if ins.n() == 0x1 {
        Ok(s.set_reg(x, vx | vy))
    } else if ins.n() == 0x2 {
        Ok(s.set_reg(x, vx & vy))
    } else if ins.n() == 0x3 {
        Ok(s.set_reg(x, vx ^ vy))
    } else if ins.n() == 0x4 {
        Ok(s.set_reg(f, if vx + vy > 255 { 1u8 } else { 0u8 }).set_reg(x, ((vx + vy) % 256) as u8))
    } else if ins.n() == 0x5 {
        Ok(s.set_reg(f, if vx >= vy { 1u8 } else { 0u8 }).set_reg(x, ((vx - vy + 256) % 256) as u8))
    } else if ins.n() == 0x6 {
        Ok(s.set_reg(f, src % 2).set_reg(x, src / 2))
    } else if ins.n() == 0x7 {
        Ok(s.set_reg(f, if vy >= vx { 1u8 } else { 0u8 }).set_reg(x, ((vy - vx + 256) % 256) as u8))
    } else if ins.n() == 0xE {
        Ok(s.set_reg(f, src / 128).set_reg(x, ((src * 2) % 256) as u8))
    } else {
        s.unknown(ins)
    }
}

/// Family `E`: skip on the state of the key named by a register.
pub open spec fn table_e_spec(s: MachineView, ins: Instruction) -> Result<MachineView, StepError> {
    let pressed = s.input.contains(s.v[ins.vx() as int]);
    if ins.byte() == 0x9E {
        s.skip_if(pressed)
    } else if ins.byte() == 0xA1 {
        s.skip_if(!pressed)
    } else {
        s.unknown(ins)
    }
}

/// Family `F`: timers, key wait, address register, decimal digits and block
/// transfers between registers and memory. Waiting for a key with none
/// pressed moves the counter back onto the instruction and changes nothing
/// else, so that the next step runs it again.
pub open spec fn table_f_spec(s: MachineView, ins: Instruction) -> Result<MachineView, StepError> {
    let x = ins.vx() as int;
    let vx = s.v[x];
    let i = s.i as int;
    if ins.byte() == 0x07 {
        Ok(s.set_reg(x, s.delay_timer))
    } else if ins.byte() == 0x0A {
        if s.input.len() == 0 {
            if s.pc < 2 {
                Err(StepError::ProgramCounterOutOfRange { pc: s.pc })
            } else {
                Ok(s.with_pc((s.pc - 2) as u16))
            }
        } else {
            Ok(s.set_reg(x, s.input[0]))
        }
    } else if ins.byte() == 0x15 {
        Ok(MachineView { delay_timer: vx, ..s })
    } else if ins.byte() == 0x18 {
        Ok(MachineView { sound_timer: vx, ..s })
    } else if ins.byte() == 0x1E {
        let ni = ((i + vx) % 65536) as u16;
        Ok(
            MachineView {
                i: ni,
                v: if ni > 0x1000 { s.v.update(FLAG_REGISTER as int, 1u8) } else { s.v },
                ..s
            },
        )
    } else if ins.byte() == 0x29 {
        Ok(MachineView { i: (FONT_START + 5 * (vx % 16)) as u16, ..s })
    } else if ins.byte() == 0x33 {
        if i + 3 > MEMORY_SIZE {
            s.out_of_range(ins)
        } else {
            Ok(
                MachineView {
                    memory: s.memory.update(i, vx / 100).update(i + 1, (vx % 100) / 10).update(
                        i + 2,
                        vx % 10,
                    ),
                    ..s
                },
            )
        }
    } else if ins.byte() == 0x55 {
        if i + x + 1 > MEMORY_SIZE {
            s.out_of_range(ins)
        } else {
            Ok(
                MachineView {
                    memory: Seq::new(
                        s.memory.len(),
                        |a: int|
                            if i <= a <= i + x {
                                s.v[a - i]
                            } else {
                                s.memory[a]
                            },
                    ),
                    ..s
                },
            )
        }
    } else if ins.byte() == 0x65 {
        if i + x + 1 > MEMORY_SIZE {
            s.out_of_range(ins)
        } else {
            Ok(
                MachineView {
                    v: Seq::new(
                        s.v.len(),
                        |r: int|
                            if r <= x {
                                s.memory[i + r]
                            } else {
                                s.v[r]
                            },
                    ),
                    ..s
                },
            )
        }
    } else {
        s.unknown(ins)
    }
}

/// Where the indexed jump `Bnnn` goes: the address plus register 0, or in
/// compatibility mode the low byte plus the register that the high nibble
/// names.
pub open spec fn jump_offset_target(s: MachineView, ins: Instruction) -> u16 {
    if s.c48_mode {
        (ins.byte() + s.v[ins.vx() as int]) as u16
    } else {
        (ins.addr() + s.v[0]) as u16
    }
}

/// What executing `ins` does to the machine `s`, where `rnd` is the random
/// byte that `Cxkk` draws.
pub open spec fn execute_spec(s: MachineView, ins: Instruction, rnd: u8) -> Result<MachineView, StepError> {
    let x = ins.vx() as int;
    let y = ins.vy() as int;
    let f = ins.family();
    if f == 0x0 {
        table_0_spec(s, ins)
    } else if f == 0x1 {
        Ok(s.with_pc(ins.addr()))
    } else if f == 0x2 {
        Ok(MachineView { stack: s.stack.push(s.pc), pc: ins.addr(), ..s })
    } else if f == 0x3 {
        s.skip_if(s.v[x] == ins.byte())
    } else if f == 0x4 {
        s.skip_if(s.v[x] != ins.byte())
    } else if f == 0x5 {
        s.skip_if(s.v[x] == s.v[y])
    } else if f == 0x6 {
        Ok(s.set_reg(x, ins.byte()))
    } else if f == 0x7 {
        Ok(s.set_reg(x, ((s.v[x] + ins.byte()) % 256) as u8))
    } else if f == 0x8 {
        table_8_spec(s, ins)
    } else if f == 0x9 {
        s.skip_if(s.v[x] != s.v[y])
    } else if f == 0xA {
        Ok(MachineView { i: ins.addr(), ..s })
    } else if f == 0xB {
        Ok(s.with_pc(jump_offset_target(s, ins)))
    } else if f == 0xC {
        Ok(s.set_reg(x, rnd & ins.byte()))
    } else if f == 0xD {
        draw_spec(s, ins)
    } else if f == 0xE {
        table_e_spec(s, ins)
    } else {
        table_f_spec(s, ins)
    }
}

/// Relies on rand's `thread_rng` and `Rng::gen` for one byte. Nothing is known
/// of which byte comes back.
#[verifier::external_body]
pub(crate) fn random_byte() -> (r: u8) {
    rand::Rng::gen::<u8>(&mut rand::thread_rng())
}

/// Skips the next instruction when `condition` holds.
fn skip_if(c: &mut Chip8, condition: bool) -> (r: Result<(), StepError>)
    ensures
        step_matches(old(c)@, final(c)@, r, old(c)@.skip_if(condition)),
{
    if condition && c.pc.value() > 0xFFFD {
        return Err(StepError::ProgramCounterOutOfRange { pc: c.pc.value() });
    }
    c.pc.increment_if(condition);
    assert(condition ==> c@ =~~= old(c)@.with_pc((old(c)@.pc + 2) as u16));
    assert(!condition ==> c@ =~~= old(c)@);
    Ok(())
}

/// Whether `key` is among the pressed keys.
fn key_pressed(input: &Vec<u8>, key: u8) -> (r: bool)
    ensures
        r == input@.contains(key),
{
    let mut k: usize = 0;
    while k < input.len()
        invariant
            k <= input@.len(),
            forall|j: int| 0 <= j < k ==> input@[j] != key,
        decreases input@.len() - k,
    {
        if input[k] == key {
            return true;
        }
        k = k + 1;
    }
    false
}

pub(crate) fn op_table_0(c: &mut Chip8, instr: Instruction) -> (r: Result<(), StepError>)
    requires
        instr.family() == 0,
    ensures
        step_matches(old(c)@, final(c)@, r, execute_spec(old(c)@, instr, 0)),
{
    let kk = instr.kk();
    if kk == 0xE0 {
        c.screen.clear();
        c.screen.refresh = true;
        assert(c@ =~~= MachineView { display: blank_display(), refresh: true, ..old(c)@ });
        Ok(())
    } else if kk == 0xEE {
        let target = match c.stack.pop() {
            Some(a) => a,
            None => 0,
        };
        c.pc.set_to(target);
        proof {
            if old(c)@.stack.len() == 0 {
                assert(c@ =~~= old(c)@.with_pc(0));
            } else {
                assert(c@ =~~= MachineView { pc: old(c)@.stack.last(), stack: old(c)@.stack.drop_last(), ..old(c)@ });
            }
        }
        Ok(())
    } else {
        c.handle_unknown_instr(instr)
    }
}

pub(crate) fn op_table_8(c: &mut Chip8, instr: Instruction) -> (r: Result<(), StepError>)
    requires
        instr.family() == 8,
    ensures
        step_matches(old(c)@, final(c)@, r, execute_spec(old(c)@, instr, 0)),
{
    let (x, y) = instr.x_y();
    let vx = c.v[x];
    let vy = c.v[y];
    let src = if c.c48_mode { vx } else { vy };
    let n = instr.last_nibble();
    if n == 0x0 {
        c.set_reg_to(Reg::V(x), vy as u16);
    } else if n == 0x1 {
        c.set_reg_to(Reg::V(x), (vx | vy) as u16);
    } else if n == 0x2 {
        c.set_reg_to(Reg::V(x), (vx & vy) as u16);
    } else if n == 0x3 {
        c.set_reg_to(Reg::V(x), (vx ^ vy) as u16);
    } else if n == 0x4 {
        let sum = vx as u16 + vy as u16;
        c.set_register_flag_if_else_0(sum > 255);
        c.set_reg_to(Reg::V(x), sum % 256);
    } else if n == 0x5 {
        c.set_register_flag_if_else_0(vx >= vy);
        c.set_reg_to(Reg::V(x), (vx as u16 + 256 - vy as u16) % 256);
    } else if n == 0x6 {
        c.set_reg_to(Reg::V(FLAG_REGISTER), (src % 2) as u16);
        c.set_reg_to(Reg::V(x), (src / 2) as u16);
    } else if n == 0x7 {
        c.set_register_flag_if_else_0(vy >= vx);
        c.set_reg_to(Reg::V(x), (vy as u16 + 256 - vx as u16) % 256);
    } else if n == 0xE {
        c.set_reg_to(Reg::V(FLAG_REGISTER), (src / 128) as u16);
        c.set_reg_to(Reg::V(x), (src as u16 * 2) % 256);
    } else {
        return c.handle_unknown_instr(instr);
    }
    Ok(())
}

pub(crate) fn op_table_e(c: &mut Chip8, instr: Instruction) -> (r: Result<(), StepError>)
    requires
        instr.family() == 0xE,
    ensures
        step_matches(old(c)@, final(c)@, r, execute_spec(old(c)@, instr, 0)),
{
    let pressed = key_pressed(&c.input, c.v[instr.x()]);
    let kk = instr.kk();
    if kk == 0x9E {
        skip_if(c, pressed)
    } else if kk == 0xA1 {
        skip_if(c, !pressed)
    } else {
        c.handle_unknown_instr(instr)
    }
}

pub(crate) fn op_table_f(c: &mut Chip8, instr: Instruction) -> (r: Result<(), StepError>)
    requires
        instr.family() == 0xF,
    ensures
        step_matches(old(c)@, final(c)@, r, execute_spec(old(c)@, instr, 0)),
{
    let x = instr.x();
    let vx = c.v[x];
    let kk = instr.kk();
    let ghost s = old(c)@;
    if kk == 0x07 {
        c.set_reg_to(Reg::V(x), c.delay_timer as u16);
    } else if kk == 0x0A {
        let waiting = c.input.len() == 0;
        if waiting && c.pc.value() < 2 {
            return Err(StepError::ProgramCounterOutOfRange { pc: c.pc.value() });
        }
        if waiting {
            c.pc.decrement_if(true);
            assert(c@ =~~= s.with_pc((s.pc - 2) as u16));
        } else {
            let key = c.input[0];
            c.set_reg_to(Reg::V(x), key as u16);
        }
    } else if kk == 0x15 {
        c.delay_timer = vx;
        assert(c@ =~~= MachineView { delay_timer: vx, ..s });
    } else if kk == 0x18 {
        c.sound_timer = vx;
        assert(c@ =~~= MachineView { sound_timer: vx, ..s });
    } else if kk == 0x1E {
        c.add_to_reg(Reg::I, vx as u16);
        if c.i > 0x1000 {
            c.set_reg_to(Reg::V(FLAG_REGISTER), 1);
        }
        assert(c@ =~~= execute_spec(s, instr, 0).unwrap());
    } else if kk == 0x29 {
        c.set_reg_to(Reg::I, FONT_START + 5 * ((vx % 16) as u16));
    } else if kk == 0x33 {
        let i = c.i as usize;
        if i + 3 > MEMORY_SIZE {
            return Err(StepError::AddressOutOfRange { raw: instr.to_raw_instr(), pc: c.pc.value() });
        }
        c.memory[i] = vx / 100;
        c.memory[i + 1] = (vx % 100) / 10;
        c.memory[i + 2] = vx % 10;
        assert(c@ =~~= execute_spec(s, instr, 0).unwrap());
    } else if kk == 0x55 {
        let i = c.i as usize;
        if i + x + 1 > MEMORY_SIZE {
            return Err(StepError::AddressOutOfRange { raw: instr.to_raw_instr(), pc: c.pc.value() });
        }
        let mut k: usize = 0;
        while k <= x
            invariant
                x < 16,
                k <= x + 1,
                i == s.i,
                i + x + 1 <= MEMORY_SIZE,
                c.memory@.len() == MEMORY_SIZE,
                c@ == (MachineView { memory: c.memory@, ..s }),
                forall|a: int|
                    0 <= a < MEMORY_SIZE ==> c.memory@[a] == if i <= a < i + k {
                        s.v[a - i]
                    } else {
                        s.memory[a]
                    },
            decreases x + 1 - k,
        {
            c.memory[i + k] = c.v[k];
            k = k + 1;
        }
        assert(c@ =~~= execute_spec(s, instr, 0).unwrap());
    } else if kk == 0x65 {
        let i = c.i as usize;
        if i + x + 1 > MEMORY_SIZE {
            return Err(StepError::AddressOutOfRange { raw: instr.to_raw_instr(), pc: c.pc.value() });
        }
        let mut k: usize = 0;
        while k <= x
            invariant
                x < 16,
                k <= x + 1,
                i == s.i,
                i + x + 1 <= MEMORY_SIZE,
                c.v@.len() == 16,
                c@ == (MachineView { v: c.v@, ..s }),
                forall|r: int|
                    0 <= r < 16 ==> c.v@[r] == if r < k {
                        s.memory[i + r]
                    } else {
                        s.v[r]
                    },
            decreases x + 1 - k,
        {
            c.v[k] = c.memory[i + k];
            k = k + 1;
        }
        assert(c@ =~~= execute_spec(s, instr, 0).unwrap());
    } else {
        return c.handle_unknown_instr(instr);
    }
    Ok(())
}

pub(crate) fn op_1nnn(c: &mut Chip8, instr: Instruction) -> (r: Result<(), StepError>)
    requires
        instr.family() == 0x1,
    ensures
        step_matches(old(c)@, final(c)@, r, execute_spec(old(c)@, instr, 0)),
{
    c.pc.set_to(instr.nnn());
    assert(c@ =~~= old(c)@.with_pc(instr.addr()));
    Ok(())
}

pub(crate) fn op_2nnn(c: &mut Chip8, instr: Instruction) -> (r: Result<(), StepError>)
    requires
        instr.family() == 0x2,
    ensures
        step_matches(old(c)@, final(c)@, r, execute_spec(old(c)@, instr, 0)),
{
    let ret = c.pc.value();
    c.stack.push(ret);
    c.pc.set_to(instr.nnn());
    assert(c@ =~~= MachineView { stack: old(c)@.stack.push(old(c)@.pc), pc: instr.addr(), ..old(c)@ });
    Ok(())
}

pub(crate) fn op_3xkk(c: &mut Chip8, instr: Instruction) -> (r: Result<(), StepError>)
    requires
        instr.family() == 0x3,
    ensures
        step_matches(old(c)@, final(c)@, r, execute_spec(old(c)@, instr, 0)),
{
    let cond = c.v[instr.x()] == instr.kk();
    skip_if(c, cond)
}

pub(crate) fn op_4xkk(c: &mut Chip8, instr: Instruction) -> (r: Result<(), StepError>)
    requires
        instr.family() == 0x4,
    ensures
        step_matches(old(c)@, final(c)@, r, execute_spec(old(c)@, instr, 0)),
{
    let cond = c.v[instr.x()] != instr.kk();
    skip_if(c, cond)
}

pub(crate) fn op_5xy0(c: &mut Chip8, instr: Instruction) -> (r: Result<(), StepError>)
    requires
        instr.family() == 0x5,
    ensures
        step_matches(old(c)@, final(c)@, r, execute_spec(old(c)@, instr, 0)),
{
    let (x, y) = instr.x_y();
    let cond = c.v[x] == c.v[y];
    skip_if(c, cond)
}

pub(crate) fn op_6xkk(c: &mut Chip8, instr: Instruction) -> (r: Result<(), StepError>)
    requires
        instr.family() == 0x6,
    ensures
        step_matches(old(c)@, final(c)@, r, execute_spec(old(c)@, instr, 0)),
{
    c.set_reg_to(Reg::V(instr.x()), instr.kk() as u16);
    Ok(())
}

pub(crate) fn op_7xkk(c: &mut Chip8, instr: Instruction) -> (r: Result<(), StepError>)
    requires
        instr.family() == 0x7,
    ensures
        step_matches(old(c)@, final(c)@, r, execute_spec(old(c)@, instr, 0)),
{
    c.add_to_reg(Reg::V(instr.x()), instr.kk() as u16);
    Ok(())
}

pub(crate) fn op_9xy0(c: &mut Chip8, instr: Instruction) -> (r: Result<(), StepError>)
    requires
        instr.family() == 0x9,
    ensures
        step_matches(old(c)@, final(c)@, r, execute_spec(old(c)@, instr, 0)),
{
    let (x, y) = instr.x_y();
    let cond = c.v[x] != c.v[y];
    skip_if(c, cond)
}

pub(crate) fn op_annn(c: &mut Chip8, instr: Instruction) -> (r: Result<(), StepError>)
    requires
        instr.family() == 0xA,
    ensures
        step_matches(old(c)@, final(c)@, r, execute_spec(old(c)@, instr, 0)),
{
    c.set_reg_to(Reg::I, instr.nnn());
    Ok(())
}

pub(crate) fn op_bnnn(c: &mut Chip8, instr: Instruction) -> (r: Result<(), StepError>)
    requires
        instr.family() == 0xB,
    ensures
        step_matches(old(c)@, final(c)@, r, execute_spec(old(c)@, instr, 0)),
{
    if c.c48_mode {
        c.pc.set_to(instr.kk() as u16 + c.v[instr.x()] as u16);
    } else {
        c.pc.set_to(instr.nnn() + c.v[0] as u16);
    }
    assert(c@ =~~= old(c)@.with_pc(jump_offset_target(old(c)@, instr)));
    Ok(())
}

pub(crate) fn op_cxkk(c: &mut Chip8, instr: Instruction, rnd: u8) -> (r: Result<(), StepError>)
    requires
        instr.family() == 0xC,
    ensures
        step_matches(old(c)@, final(c)@, r, execute_spec(old(c)@, instr, rnd)),
{
    c.set_reg_to(Reg::V(instr.x()), (rnd & instr.kk()) as u16);
    Ok(())
}

pub(crate) fn op_dxyn(c: &mut Chip8, instr: Instruction) -> (r: Result<(), StepError>)
    requires
        instr.family() == 0xD,
    ensures
        step_matches(old(c)@, final(c)@, r, execute_spec(old(c)@, instr, 0)),
{
    c.draw(instr)
}

} // verus!
