use chip8_core::audio::generate_sound;
use chip8_core::chip8::Chip8;
use chip8_core::config::{Config, Rgb, FONT};
use chip8_core::instruction::Instruction;
use chip8_core::machine::{LoadError, StepError};

fn exec(machine: &mut Chip8, b1: u8, b2: u8) -> Result<(), StepError> {
    machine.decode_and_execute(Instruction::new_from_bytes(b1, b2))
}

#[test]
fn set_register_instructions_are_decoded_and_executed() {
    let mut machine = Chip8::new(false);

    machine.decode_and_execute(Instruction::new_from_bytes(0x65, 0x42)).unwrap();
    assert_eq!(machine.v[5], 0x42);

    machine.decode_and_execute(Instruction::new_from_bytes(0x86, 0x50)).unwrap();
    assert_eq!(machine.v[6], 0x42);
}

#[test]
fn pressed_key_instruction_is_decoded_and_executed() {
    let mut machine = Chip8::new(false);

    machine.decode_and_execute(Instruction::new_from_bytes(0x65, 0xA)).unwrap();
    assert_eq!(machine.v[5], 0xA);

    machine.input.push(0xA);
    machine.decode_and_execute(Instruction::new_from_bytes(0xE5, 0x9E)).unwrap();
    assert_eq!(machine.pc.value(), 0x202);
}

#[test]
fn b_c_d_instruction_is_decoded_and_executed() {
    let mut machine = Chip8::new(false);

    machine.decode_and_execute(Instruction::new_from_bytes(0x61, 0x7B)).unwrap();
    assert_eq!(machine.v[1], 0x7B);
    machine.decode_and_execute(Instruction::new_from_bytes(0xA6, 0x66)).unwrap();
    assert_eq!(machine.i, 0x666);
    machine.decode_and_execute(Instruction::new_from_bytes(0xF1, 0x33)).unwrap();

    assert_eq!(machine.memory[0x666], 1);
    assert_eq!(machine.memory[0x667], 2);
    assert_eq!(machine.memory[0x668], 3);
}

#[test]
fn draw_instructions_are_decoded_and_executed() {
    let mut machine = Chip8::new(false);

    machine.decode_and_execute(Instruction::new_from_bytes(0x60, 0x1)).unwrap();
    assert_eq!(machine.v[0], 0x1);
    machine.decode_and_execute(Instruction::new_from_bytes(0x61, 0x1)).unwrap();
    assert_eq!(machine.v[1], 0x1);

    machine.decode_and_execute(Instruction::new_from_bytes(0xA6, 0x66)).unwrap();
    assert_eq!(machine.i, 0x666);
    machine.memory[0x666] = 0b01010101;

    machine.decode_and_execute(Instruction::new_from_bytes(0xD0, 0x11)).unwrap();
    assert_eq!(machine.screen.display[65], false);
    assert_eq!(machine.screen.display[66], true);
    assert_eq!(machine.screen.display[67], false);
    assert_eq!(machine.screen.display[68], true);
    assert_eq!(machine.screen.display[69], false);
    assert_eq!(machine.screen.display[70], true);
    assert_eq!(machine.screen.display[71], false);
    assert_eq!(machine.screen.display[72], true);
}

#[test]
fn new_machine_holds_font_and_starts_at_program_origin() {
    let machine = Chip8::new(true);
    assert_eq!(machine.pc.value(), 0x200);
    for k in 0..80 {
        assert_eq!(machine.memory[0x50 + k], FONT[k]);
    }
    assert_eq!(machine.memory[0x4F], 0);
    assert_eq!(machine.memory[0xA0], 0);
    assert!(machine.c48_mode);
    assert!(machine.stack.is_empty());
}

#[test]
fn load_immediate_then_read_back() {
    let mut machine = Chip8::new(false);
    for x in 0..16u8 {
        for k in [0u8, 1, 0x7F, 0xFF] {
            exec(&mut machine, 0x60 | x, k).unwrap();
            assert_eq!(machine.v[x as usize], k);
        }
    }
}

#[test]
fn add_immediate_wraps_around() {
    let mut machine = Chip8::new(false);
    exec(&mut machine, 0x63, 0xFF).unwrap();
    assert_eq!(exec(&mut machine, 0x73, 0x01), Ok(()));
    assert_eq!(machine.v[3], 0x00);
    assert_eq!(machine.v[15], 0);
}

#[test]
fn skip_if_equal_advances_by_four_or_two() {
    let mut machine = Chip8::new(false);
    machine.load_program_to_memory(&[0x30, 0x00, 0x00, 0x00, 0x00, 0x00]).unwrap();
    machine.step(0).unwrap();
    assert_eq!(machine.pc.value(), 0x204);

    let mut machine = Chip8::new(false);
    machine.load_program_to_memory(&[0x30, 0x01]).unwrap();
    machine.step(0).unwrap();
    assert_eq!(machine.pc.value(), 0x202);

    let mut machine = Chip8::new(false);
    machine.load_program_to_memory(&[0x40, 0x01]).unwrap();
    machine.step(0).unwrap();
    assert_eq!(machine.pc.value(), 0x204);

    let mut machine = Chip8::new(false);
    machine.load_program_to_memory(&[0x50, 0x10, 0x91, 0x20]).unwrap();
    machine.step(0).unwrap();
    assert_eq!(machine.pc.value(), 0x204);
}

#[test]
fn drawing_twice_clears_and_reports_collision() {
    let mut machine = Chip8::new(false);
    exec(&mut machine, 0x60, 10).unwrap();
    exec(&mut machine, 0x61, 5).unwrap();
    exec(&mut machine, 0xA3, 0x00).unwrap();
    machine.memory[0x300] = 0b1100_0011;
    machine.memory[0x301] = 0b0001_1000;

    exec(&mut machine, 0xD0, 0x12).unwrap();
    assert_eq!(machine.v[15], 0);
    let lit: Vec<usize> = (0..2048).filter(|&p| machine.screen.display[p]).collect();
    assert_eq!(lit, vec![5 * 64 + 10, 5 * 64 + 11, 5 * 64 + 16, 5 * 64 + 17, 6 * 64 + 13, 6 * 64 + 14]);
    assert!(machine.screen.should_refresh());
    assert!(!machine.screen.should_refresh());

    exec(&mut machine, 0xD0, 0x12).unwrap();
    assert_eq!(machine.v[15], 1);
    assert!(machine.screen.display.iter().all(|&c| !c));
}

#[test]
fn draw_stops_at_right_edge() {
    let mut machine = Chip8::new(false);
    exec(&mut machine, 0x60, 60).unwrap();
    exec(&mut machine, 0x61, 0).unwrap();
    exec(&mut machine, 0xA3, 0x00).unwrap();
    machine.memory[0x300] = 0xFF;
    exec(&mut machine, 0xD0, 0x11).unwrap();
    for p in 60..64 {
        assert!(machine.screen.display[p]);
    }
    for p in 64..72 {
        assert!(!machine.screen.display[p]);
    }
    assert_eq!(machine.screen.display.iter().filter(|&&c| c).count(), 4);
}

#[test]
fn draw_stops_at_bottom_edge_and_wraps_start() {
    let mut machine = Chip8::new(false);
    exec(&mut machine, 0x60, 64 + 3).unwrap();
    exec(&mut machine, 0x61, 31 + 32).unwrap();
    exec(&mut machine, 0xA3, 0x00).unwrap();
    machine.memory[0x300] = 0x80;
    machine.memory[0x301] = 0x80;
    exec(&mut machine, 0xD0, 0x12).unwrap();
    assert!(machine.screen.display[31 * 64 + 3]);
    assert_eq!(machine.screen.display.iter().filter(|&&c| c).count(), 1);
}

#[test]
fn bcd_of_255() {
    let mut machine = Chip8::new(false);
    exec(&mut machine, 0x64, 255).unwrap();
    exec(&mut machine, 0xA4, 0x00).unwrap();
    exec(&mut machine, 0xF4, 0x33).unwrap();
    assert_eq!(machine.memory[0x400], 2);
    assert_eq!(machine.memory[0x401], 5);
    assert_eq!(machine.memory[0x402], 5);
}

#[test]
fn shift_follows_compatibility_mode() {
    let mut machine = Chip8::new(false);
    exec(&mut machine, 0x61, 0b0000_0110).unwrap();
    exec(&mut machine, 0x62, 0b0000_0011).unwrap();
    exec(&mut machine, 0x81, 0x26).unwrap();
    assert_eq!(machine.v[1], 0b0000_0001);
    assert_eq!(machine.v[15], 1);

    let mut machine = Chip8::new(true);
    exec(&mut machine, 0x61, 0b0000_0110).unwrap();
    exec(&mut machine, 0x62, 0b0000_0011).unwrap();
    exec(&mut machine, 0x81, 0x26).unwrap();
    assert_eq!(machine.v[1], 0b0000_0011);
    assert_eq!(machine.v[2], 0b0000_0011);
    assert_eq!(machine.v[15], 0);

    let mut machine = Chip8::new(false);
    exec(&mut machine, 0x61, 0x01).unwrap();
    exec(&mut machine, 0x62, 0x81).unwrap();
    exec(&mut machine, 0x81, 0x2E).unwrap();
    assert_eq!(machine.v[1], 0x02);
    assert_eq!(machine.v[15], 1);

    let mut machine = Chip8::new(true);
    exec(&mut machine, 0x61, 0x01).unwrap();
    exec(&mut machine, 0x62, 0x81).unwrap();
    exec(&mut machine, 0x81, 0x2E).unwrap();
    assert_eq!(machine.v[1], 0x02);
    assert_eq!(machine.v[15], 0);
}

#[test]
fn program_runs_end_to_end() {
    let mut machine = Chip8::new(false);
    machine
        .load_program_to_memory(&[0x60, 0x05, 0x70, 0x03, 0x30, 0x08, 0x60, 0x63])
        .unwrap();
    machine.run_instruction().unwrap();
    machine.run_instruction().unwrap();
    machine.run_instruction().unwrap();
    assert_eq!(machine.pc.value(), 0x208);
    let fourth = machine.run_instruction();
    assert_eq!(fourth, Err(StepError::UnknownInstruction { raw: 0x0000, pc: 0x20A }));
    assert_eq!(machine.v[0], 8);
}

#[test]
fn arithmetic_sets_carry_and_borrow() {
    let mut machine = Chip8::new(false);
    exec(&mut machine, 0x61, 200).unwrap();
    exec(&mut machine, 0x62, 100).unwrap();
    exec(&mut machine, 0x81, 0x24).unwrap();
    assert_eq!(machine.v[1], 44);
    assert_eq!(machine.v[15], 1);
    exec(&mut machine, 0x81, 0x25).unwrap();
    assert_eq!(machine.v[1], 200);
    assert_eq!(machine.v[15], 0);
    exec(&mut machine, 0x81, 0x25).unwrap();
    assert_eq!(machine.v[1], 100);
    assert_eq!(machine.v[15], 1);
    exec(&mut machine, 0x81, 0x27).unwrap();
    assert_eq!(machine.v[1], 0);
    assert_eq!(machine.v[15], 1);
    exec(&mut machine, 0x63, 0x0F).unwrap();
    exec(&mut machine, 0x64, 0xF0).unwrap();
    exec(&mut machine, 0x83, 0x41).unwrap();
    assert_eq!(machine.v[3], 0xFF);
    exec(&mut machine, 0x83, 0x42).unwrap();
    assert_eq!(machine.v[3], 0xF0);
    exec(&mut machine, 0x83, 0x43).unwrap();
    assert_eq!(machine.v[3], 0x00);
}

#[test]
fn call_and_return() {
    let mut machine = Chip8::new(false);
    machine.load_program_to_memory(&[0x23, 0x00]).unwrap();
    machine.memory[0x300] = 0x00;
    machine.memory[0x301] = 0xEE;
    machine.step(0).unwrap();
    assert_eq!(machine.pc.value(), 0x300);
    assert_eq!(machine.stack, vec![0x202]);
    machine.step(0).unwrap();
    assert_eq!(machine.pc.value(), 0x202);
    assert!(machine.stack.is_empty());
    exec(&mut machine, 0x00, 0xEE).unwrap();
    assert_eq!(machine.pc.value(), 0);
}

#[test]
fn jumps_with_offset_in_both_modes() {
    let mut machine = Chip8::new(false);
    exec(&mut machine, 0x60, 0x10).unwrap();
    exec(&mut machine, 0x13, 0x45).unwrap();
    assert_eq!(machine.pc.value(), 0x345);
    exec(&mut machine, 0xB3, 0x00).unwrap();
    assert_eq!(machine.pc.value(), 0x310);

    let mut machine = Chip8::new(true);
    exec(&mut machine, 0x63, 0x22).unwrap();
    exec(&mut machine, 0xB3, 0x10).unwrap();
    assert_eq!(machine.pc.value(), 0x32);
}

#[test]
fn clear_display_sets_refresh() {
    let mut machine = Chip8::new(false);
    machine.screen.display[100] = true;
    exec(&mut machine, 0x00, 0xE0).unwrap();
    assert!(machine.screen.display.iter().all(|&c| !c));
    assert!(machine.screen.refresh);
}

#[test]
fn timers_font_and_address_register() {
    let mut machine = Chip8::new(false);
    exec(&mut machine, 0x65, 0x1C).unwrap();
    exec(&mut machine, 0xF5, 0x15).unwrap();
    exec(&mut machine, 0xF5, 0x18).unwrap();
    assert_eq!(machine.delay_timer, 0x1C);
    assert_eq!(machine.sound_timer, 0x1C);
    exec(&mut machine, 0xF6, 0x07).unwrap();
    assert_eq!(machine.v[6], 0x1C);
    exec(&mut machine, 0xF5, 0x29).unwrap();
    assert_eq!(machine.i, 0x50 + 5 * 0xC);
    exec(&mut machine, 0xAF, 0xFF).unwrap();
    exec(&mut machine, 0xF5, 0x1E).unwrap();
    assert_eq!(machine.i, 0x101B);
    assert_eq!(machine.v[15], 1);
}

#[test]
fn block_transfer_between_registers_and_memory() {
    let mut machine = Chip8::new(false);
    for x in 0..4u8 {
        exec(&mut machine, 0x60 | x, 10 + x).unwrap();
    }
    exec(&mut machine, 0xA5, 0x00).unwrap();
    exec(&mut machine, 0xF3, 0x55).unwrap();
    assert_eq!(&machine.memory[0x500..0x505], &[10, 11, 12, 13, 0]);
    machine.memory[0x500] = 7;
    machine.memory[0x504] = 9;
    exec(&mut machine, 0xF1, 0x65).unwrap();
    assert_eq!(&machine.v[0..5], &[7, 11, 12, 13, 0]);
}

#[test]
fn wait_for_key_rewinds_until_pressed() {
    let mut machine = Chip8::new(false);
    machine.load_program_to_memory(&[0xF3, 0x0A]).unwrap();
    machine.v[3] = 0x42;
    machine.step(0).unwrap();
    assert_eq!(machine.pc.value(), 0x200);
    assert_eq!(machine.v[3], 0x42);
    machine.step(0).unwrap();
    assert_eq!(machine.pc.value(), 0x200);
    assert_eq!(machine.v[3], 0x42);
    machine.input.push(0x7);
    machine.step(0).unwrap();
    assert_eq!(machine.pc.value(), 0x202);
    assert_eq!(machine.v[3], 0x7);
}

#[test]
fn key_not_pressed_skips() {
    let mut machine = Chip8::new(false);
    machine.input.push(0x3);
    exec(&mut machine, 0x62, 0x4).unwrap();
    exec(&mut machine, 0xE2, 0xA1).unwrap();
    assert_eq!(machine.pc.value(), 0x202);
    exec(&mut machine, 0xE2, 0x9E).unwrap();
    assert_eq!(machine.pc.value(), 0x202);
}

#[test]
fn random_is_masked_by_immediate() {
    let mut machine = Chip8::new(false);
    exec(&mut machine, 0xC4, 0x00).unwrap();
    assert_eq!(machine.v[4], 0);
    machine.execute(Instruction::new_from_bytes(0xC4, 0x0F), 0xAB).unwrap();
    assert_eq!(machine.v[4], 0x0B);
}

#[test]
fn unknown_instructions_are_reported() {
    let mut machine = Chip8::new(false);
    assert_eq!(exec(&mut machine, 0x00, 0x12), Err(StepError::UnknownInstruction { raw: 0x0012, pc: 0x200 }));
    assert_eq!(exec(&mut machine, 0x81, 0x28), Err(StepError::UnknownInstruction { raw: 0x8128, pc: 0x200 }));
    assert_eq!(exec(&mut machine, 0xE1, 0x00), Err(StepError::UnknownInstruction { raw: 0xE100, pc: 0x200 }));
    assert_eq!(exec(&mut machine, 0xF1, 0x99), Err(StepError::UnknownInstruction { raw: 0xF199, pc: 0x200 }));
}

#[test]
fn out_of_range_accesses_are_refused() {
    let mut machine = Chip8::new(false);
    exec(&mut machine, 0xAF, 0xFE).unwrap();
    assert_eq!(exec(&mut machine, 0xF0, 0x33), Err(StepError::AddressOutOfRange { raw: 0xF033, pc: 0x200 }));
    assert_eq!(exec(&mut machine, 0xD0, 0x05), Err(StepError::AddressOutOfRange { raw: 0xD005, pc: 0x200 }));
    assert_eq!(exec(&mut machine, 0xF2, 0x55), Err(StepError::AddressOutOfRange { raw: 0xF255, pc: 0x200 }));
    assert_eq!(exec(&mut machine, 0xF2, 0x65), Err(StepError::AddressOutOfRange { raw: 0xF265, pc: 0x200 }));
    assert_eq!(machine.memory[0xFFE], 0);

    exec(&mut machine, 0x1F, 0xFF).unwrap();
    assert_eq!(machine.step(0), Err(StepError::ProgramCounterOutOfRange { pc: 0xFFF }));
    assert_eq!(machine.pc.value(), 0xFFF);
}

#[test]
fn oversized_program_is_refused() {
    let mut machine = Chip8::new(false);
    let program = vec![1u8; 4096 - 0x200 + 1];
    assert_eq!(machine.load_program_to_memory(&program), Err(LoadError::ProgramTooLarge { len: 3585 }));
    assert_eq!(machine.memory[0x200], 0);
    let program = vec![1u8; 4096 - 0x200];
    assert!(machine.load_program_to_memory(&program).is_ok());
    assert_eq!(machine.memory[0xFFF], 1);
}

#[test]
fn square_wave_alternates() {
    let wave = generate_sound();
    assert_eq!(wave.len(), 8000);
    assert_eq!(wave[0], 1000);
    assert_eq!(wave[186], 1000);
    assert_eq!(wave[187], -1000);
    assert_eq!(wave[374], 1000);
    assert_eq!(wave[7999], 1000);
    assert_eq!(wave[7853], -1000);
}

#[test]
fn instructions_per_cycle_from_speed() {
    let black = Rgb { r: 0, g: 0, b: 0 };
    let config = Config {
        screen_size: 10,
        emu_speed: 500,
        background_color: black,
        foreground_color: black,
        debug_mode: false,
        c48_mode: false,
    };
    assert_eq!(config.instructions_per_cycle(), 4);
}
