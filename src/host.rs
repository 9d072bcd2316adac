use vstd::prelude::*;

use crate::chip8::Chip8;
use crate::machine::MachineView;

verus! {

/// How long one run of the host loop should take, in microseconds.
pub const SLEEP_TIME: u128 = 10000;

/// The pause and single-step state of the host loop in debug mode.
pub struct DebugState {
    pub running: bool,
    pub step_exec: bool,
}

/// A key that the host loop reads in debug mode.
#[derive(Clone, Copy, Debug, PartialEq, Eq, Structural)]
pub enum DebugKey {
    PrintState,
    TogglePause,
    StepCycle,
    Other,
}

/// What the host should do after a debug key.
#[derive(Clone, Copy, Debug, PartialEq, Eq, Structural)]
pub enum DebugAction {
    /// Print the machine's state.
    PrintState,
    /// Emulation was paused or resumed; `running` is the new state.
    Toggled { running: bool },
    /// One run of the loop will execute although emulation is paused.
    StepRequested,
    /// Nothing to do.
    Ignored,
}

impl DebugState {
    pub fn new() -> (r: DebugState)
        ensures
            r.running,
            !r.step_exec,
    {
        DebugState { running: true, step_exec: false }
    }

    /// Whether the loop skips execution: in debug mode, paused, and no single
    /// step asked for.
    pub fn is_paused(&self, debug_mode: bool) -> (r: bool)
        ensures
            r == (debug_mode && !self.running && !self.step_exec),
    {
        debug_mode && !self.running && !self.step_exec
    }

    pub fn toggle_state(&mut self)
        ensures
            final(self).running == !old(self).running,
            final(self).step_exec == old(self).step_exec,
    {
        self.running = !self.running;
    }

    /// Ends a single step once its run of the loop is over.
    pub fn reset_exec_step(&mut self)
        ensures
            !final(self).step_exec,
            final(self).running == old(self).running,
    {
        if self.step_exec {
            self.step_exec = false;
        }
    }

    /// Reacts to a debug key: print, pause or resume, or ask for one step,
    /// which only a paused loop takes.
    pub fn handle_debug_input(&mut self, key: DebugKey) -> (r: DebugAction)
        ensures
            key == DebugKey::PrintState ==> r == DebugAction::PrintState && *final(self) == *old(self),
            key == DebugKey::TogglePause ==> r == (DebugAction::Toggled { running: !old(self).running })
                && final(self).running == !old(self).running && final(self).step_exec == old(self).step_exec,
            key == DebugKey::StepCycle && old(self).running ==> r == DebugAction::Ignored && *final(self) == *old(self),
            key == DebugKey::StepCycle && !old(self).running ==> r == DebugAction::StepRequested
                && final(self).step_exec && final(self).running == old(self).running,
            key == DebugKey::Other ==> r == DebugAction::Ignored && *final(self) == *old(self),
    {
        match key {
            DebugKey::PrintState => DebugAction::PrintState,
            DebugKey::TogglePause => {
                self.toggle_state();
                DebugAction::Toggled { running: self.running }
            },
            DebugKey::StepCycle => {
                if self.running {
                    DebugAction::Ignored
                } else {
                    self.step_exec = true;
                    DebugAction::StepRequested
                }
            },
            DebugKey::Other => DebugAction::Ignored,
        }
    }
}

/// The host's once-per-run timer tick: each timer that is not zero counts
/// down by one. The result tells whether the sound timer was running, that is
/// whether the tone should play.
pub fn handle_timers(machine: &mut Chip8) -> (sound_on: bool)
    ensures
        sound_on == (old(machine).sound_timer > 0),
        final(machine)@ == (MachineView {
            delay_timer: if old(machine).delay_timer > 0 { (old(machine).delay_timer - 1) as u8 } else { 0u8 },
            sound_timer: if old(machine).sound_timer > 0 { (old(machine).sound_timer - 1) as u8 } else { 0u8 },
            ..old(machine)@
        }),
{
    if machine.delay_timer > 0 {
        machine.delay_timer = machine.delay_timer - 1;
    }
    let sound_on = machine.sound_timer > 0;
    if sound_on {
        machine.sound_timer = machine.sound_timer - 1;
    }
    sound_on
}

/// How long to sleep after a run of the loop that took `elapsed_micros`, so
/// that runs start at a steady rate.
pub fn handle_loop_sync(elapsed_micros: u128) -> (r: u128)
    ensures
        r == if elapsed_micros <= SLEEP_TIME { SLEEP_TIME - elapsed_micros } else { 0 },
{
    if elapsed_micros <= SLEEP_TIME {
        SLEEP_TIME - elapsed_micros
    } else {
        0
    }
}

} // verus!
