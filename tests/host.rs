use chip8_core::chip8::Chip8;
use chip8_core::host::{handle_loop_sync, handle_timers, DebugAction, DebugKey, DebugState};

#[test]
fn timers_count_down_to_zero() {
    let mut machine = Chip8::new(false);
    machine.delay_timer = 2;
    machine.sound_timer = 1;
    assert!(handle_timers(&mut machine));
    assert_eq!((machine.delay_timer, machine.sound_timer), (1, 0));
    assert!(!handle_timers(&mut machine));
    assert_eq!((machine.delay_timer, machine.sound_timer), (0, 0));
    assert!(!handle_timers(&mut machine));
    assert_eq!((machine.delay_timer, machine.sound_timer), (0, 0));
}

#[test]
fn loop_sleeps_for_the_rest_of_the_period() {
    assert_eq!(handle_loop_sync(0), 10000);
    assert_eq!(handle_loop_sync(2500), 7500);
    assert_eq!(handle_loop_sync(10000), 0);
    assert_eq!(handle_loop_sync(12000), 0);
}

#[test]
fn debug_keys_pause_and_step() {
    let mut debug = DebugState::new();
    assert!(!debug.is_paused(true));
    assert!(!debug.is_paused(false));
    assert_eq!(debug.handle_debug_input(DebugKey::StepCycle), DebugAction::Ignored);
    assert_eq!(debug.handle_debug_input(DebugKey::TogglePause), DebugAction::Toggled { running: false });
    assert!(debug.is_paused(true));
    assert!(!debug.is_paused(false));
    assert_eq!(debug.handle_debug_input(DebugKey::StepCycle), DebugAction::StepRequested);
    assert!(!debug.is_paused(true));
    debug.reset_exec_step();
    assert!(debug.is_paused(true));
    assert_eq!(debug.handle_debug_input(DebugKey::PrintState), DebugAction::PrintState);
    assert_eq!(debug.handle_debug_input(DebugKey::Other), DebugAction::Ignored);
    debug.toggle_state();
    assert!(debug.running);
}
