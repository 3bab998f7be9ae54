use chip8::{
    move_cursor, Chip8, ExecutionError, Instruction, LoadError, MenuMove, Platform, Quirk, State, Target,
    VirtualMachine, MAX_PROGRAM_SIZE, PROGRAM_START_ADDRESS,
};

fn write_words(vm: &mut VirtualMachine, at: usize, words: &[u16]) {
    for (k, w) in words.iter().enumerate() {
        vm.ram[at + 2 * k] = (w >> 8) as u8;
        vm.ram[at + 2 * k + 1] = (w & 0xFF) as u8;
    }
}

fn run(vm: &mut VirtualMachine, platform: &Platform) -> Result<(), ExecutionError> {
    let word = vm.fetch()?;
    vm.execute(word, platform)
}

#[test]
fn load_then_add_immediate() {
    let platform = Platform::default();
    let mut vm = VirtualMachine::new();
    write_words(&mut vm, 0x200, &[0x6A02, 0x7A03]);

    run(&mut vm, &platform).unwrap();
    run(&mut vm, &platform).unwrap();

    assert_eq!(5, vm.registers[10]);
    assert_eq!(0x204, vm.pc);
}

#[test]
fn call_then_return() {
    let platform = Platform::default();
    let mut vm = VirtualMachine::new();
    write_words(&mut vm, 0x200, &[0x2300]);
    write_words(&mut vm, 0x300, &[0x00EE]);

    run(&mut vm, &platform).unwrap();
    assert_eq!(0x300, vm.pc);
    assert_eq!(1, vm.sp);
    run(&mut vm, &platform).unwrap();

    assert_eq!(0x202, vm.pc);
    assert_eq!(0, vm.sp);
}

#[test]
fn drawing_twice_erases_and_reports_collision() {
    let platform = Platform::default();
    let mut vm = VirtualMachine::new();
    vm.i = 0x300;
    vm.ram[0x300] = 0b1010_0110;
    vm.registers[0] = 3;
    vm.registers[1] = 2;

    vm.execute(0xD011, &platform).unwrap();
    let lit: Vec<usize> = (0..2048).filter(|&k| vm.video[k] == 1).collect();
    assert_eq!(vec![2 * 64 + 3, 2 * 64 + 5, 2 * 64 + 8, 2 * 64 + 9], lit);
    assert_eq!(0, vm.registers[0xF]);

    vm.execute(0xD011, &platform).unwrap();
    assert!(vm.video.iter().all(|&c| c == 0));
    assert_eq!(1, vm.registers[0xF]);
}

#[test]
fn sprite_is_clipped_at_the_right_edge_without_wrapping() {
    let platform = Platform::default();
    let mut vm = VirtualMachine::new();
    vm.i = 0x300;
    vm.ram[0x300] = 0xFF;
    vm.registers[0] = 60;
    vm.registers[1] = 0;

    vm.execute(0xD011, &platform).unwrap();

    let lit: Vec<usize> = (0..2048).filter(|&k| vm.video[k] == 1).collect();
    assert_eq!(vec![60, 61, 62, 63], lit);
}

#[test]
fn sprite_wraps_on_a_wrapping_platform() {
    let platform = Platform::new(Target::XoChip);
    let mut vm = VirtualMachine::for_platform(&platform, 1);
    assert_eq!(128 * 64, vm.video.len());
    vm.i = 0x300;
    vm.ram[0x300] = 0xFF;
    vm.ram[0x301] = 0x80;
    vm.registers[0] = 125;
    vm.registers[1] = 63;

    vm.execute(0xD012, &platform).unwrap();

    let lit: Vec<usize> = (0..8192).filter(|&k| vm.video[k] == 1).collect();
    let row = 63 * 128;
    assert_eq!(vec![125, row, row + 1, row + 2, row + 3, row + 4, row + 125, row + 126, row + 127], lit);
}

#[test]
fn origin_wraps_onto_the_screen() {
    let platform = Platform::default();
    let mut vm = VirtualMachine::new();
    vm.i = 0x300;
    vm.ram[0x300] = 0x80;
    vm.registers[0] = 64 + 5;
    vm.registers[1] = 32 + 1;

    vm.execute(0xD011, &platform).unwrap();

    assert_eq!(1, vm.video[64 + 5]);
}

#[test]
fn wait_for_key_holds_until_a_key_is_down() {
    let platform = Platform::default();
    let mut vm = VirtualMachine::new();
    write_words(&mut vm, 0x200, &[0xF30A]);

    for _ in 0..5 {
        run(&mut vm, &platform).unwrap();
        assert_eq!(0x200, vm.pc);
    }
    vm.keypad[9] = true;
    vm.keypad[4] = true;
    run(&mut vm, &platform).unwrap();

    assert_eq!(0x202, vm.pc);
    assert_eq!(4, vm.registers[3]);
}

#[test]
fn add_with_carry_sets_flag_on_overflow() {
    let mut vm = VirtualMachine::new();
    vm.registers[1] = 0xF0;
    vm.registers[2] = 0x20;
    vm.op_8xy4(1, 2);
    assert_eq!(0x10, vm.registers[1]);
    assert_eq!(1, vm.registers[0xF]);

    vm.registers[1] = 0x10;
    vm.registers[2] = 0x20;
    vm.op_8xy4(1, 2);
    assert_eq!(0x30, vm.registers[1]);
    assert_eq!(0, vm.registers[0xF]);

    vm.registers[1] = 0x80;
    vm.registers[2] = 0x80;
    vm.op_8xy4(1, 2);
    assert_eq!(0, vm.registers[1]);
    assert_eq!(1, vm.registers[0xF]);
}

#[test]
fn subtraction_flags_no_borrow() {
    let mut vm = VirtualMachine::new();
    vm.registers[1] = 5;
    vm.registers[2] = 7;
    vm.op_8xy5(1, 2);
    assert_eq!(254, vm.registers[1]);
    assert_eq!(0, vm.registers[0xF]);

    vm.registers[1] = 7;
    vm.registers[2] = 7;
    vm.op_8xy5(1, 2);
    assert_eq!(0, vm.registers[1]);
    assert_eq!(1, vm.registers[0xF]);

    vm.registers[1] = 5;
    vm.registers[2] = 7;
    vm.op_8xy7(1, 2);
    assert_eq!(2, vm.registers[1]);
    assert_eq!(1, vm.registers[0xF]);
}

#[test]
fn clear_screen_turns_every_pixel_off() {
    let mut chip = Chip8::new(Platform::default());
    chip.load_rom(&[0xA0, 0x00, 0xD0, 0x05, 0x00, 0xE0]).unwrap();
    chip.step().unwrap();
    chip.step().unwrap();
    assert!(chip.has_color(0, 0));
    assert!(chip.has_color(3, 4));

    chip.step().unwrap();

    for y in 0..32 {
        for x in 0..64 {
            assert!(!chip.has_color(x, y));
        }
    }
}

#[test]
fn largest_program_loads() {
    let mut chip = Chip8::new(Platform::default());
    let rom = vec![0xAB; MAX_PROGRAM_SIZE];
    assert_eq!(3584, MAX_PROGRAM_SIZE);

    assert_eq!(Ok(()), chip.load_rom(&rom));
    assert_eq!(State::Running, chip.state);
}

#[test]
fn oversized_program_is_refused_and_nothing_changes() {
    let mut chip = Chip8::new(Platform::default());
    let before = format!("{:?}", chip);
    let rom = vec![0xAB; 3585];

    assert_eq!(Err(LoadError::TooLarge { length: 3585 }), chip.load_rom(&rom));
    assert_eq!(before, format!("{:?}", chip));
    assert_eq!(State::Off, chip.state);
}

#[test]
fn unknown_words_are_invalid_opcodes() {
    let platform = Platform::default();
    for word in [0x0000u16, 0x00E1, 0x5121, 0x8128, 0x9121, 0xE1A2, 0xF1FF, 0xFFFF] {
        let mut vm = VirtualMachine::new();
        assert_eq!(Err(ExecutionError::InvalidOpcode(word)), vm.execute(word, &platform));
        assert_eq!(0x200, vm.pc);
    }
}

#[test]
fn stack_errors() {
    let platform = Platform::default();
    let mut vm = VirtualMachine::new();
    assert_eq!(Err(ExecutionError::StackUnderflow), vm.execute(0x00EE, &platform));

    for _ in 0..16 {
        vm.execute(0x2200, &platform).unwrap();
    }
    assert_eq!(16, vm.sp);
    assert_eq!(Err(ExecutionError::StackOverflow), vm.execute(0x2200, &platform));
    assert_eq!(16, vm.sp);
}

#[test]
fn memory_access_errors() {
    let platform = Platform::default();
    let mut vm = VirtualMachine::new();
    vm.pc = 0xFFF;
    assert_eq!(Err(ExecutionError::MemoryAccessError(0xFFF)), vm.fetch());

    vm.i = 0xFFE;
    assert_eq!(Err(ExecutionError::MemoryAccessError(0xFFE)), vm.execute(0xF033, &platform));
    assert_eq!(Err(ExecutionError::MemoryAccessError(0xFFE)), vm.execute(0xF255, &platform));
    assert_eq!(Err(ExecutionError::MemoryAccessError(0xFFE)), vm.execute(0xF265, &platform));
    assert_eq!(Err(ExecutionError::MemoryAccessError(0xFFE)), vm.execute(0xD003, &platform));
    assert_eq!(Ok(()), vm.execute(0xF155, &platform));
}

#[test]
fn key_outside_keypad_is_refused() {
    let platform = Platform::default();
    let mut vm = VirtualMachine::new();
    vm.registers[2] = 16;
    assert_eq!(Err(ExecutionError::InvalidKey(16)), vm.execute(0xE29E, &platform));
    assert_eq!(Err(ExecutionError::InvalidKey(16)), vm.execute(0xE2A1, &platform));
}

#[test]
fn shift_quirk_works_in_place() {
    let platform = Platform::new(Target::Chip48);
    assert!(platform.has_quirk(Quirk::ShiftUsesSecondOperand));
    let mut vm = VirtualMachine::new();
    vm.registers[1] = 0b1000_0011;
    vm.registers[2] = 0b0000_0100;

    vm.op_8xy6(&platform, 1, 2);
    assert_eq!(0b0100_0001, vm.registers[1]);
    assert_eq!(1, vm.registers[0xF]);

    vm.op_8xye(&platform, 1, 2);
    assert_eq!(0b1000_0010, vm.registers[1]);
    assert_eq!(0, vm.registers[0xF]);
}

#[test]
fn legacy_shift_copies_second_operand() {
    let platform = Platform::default();
    let mut vm = VirtualMachine::new();
    vm.registers[1] = 0xFF;
    vm.registers[2] = 0b1000_0100;

    vm.op_8xye(&platform, 1, 2);

    assert_eq!(0b0000_1000, vm.registers[1]);
    assert_eq!(1, vm.registers[0xF]);
}

#[test]
fn logic_keeps_flag_without_reset_quirk() {
    let platform = Platform::new(Target::Chip48);
    let mut vm = VirtualMachine::new();
    vm.registers[0xF] = 7;
    vm.registers[1] = 0b1100;
    vm.registers[2] = 0b1010;

    vm.op_8xy1(&platform, 1, 2);
    assert_eq!(0b1110, vm.registers[1]);
    assert_eq!(7, vm.registers[0xF]);

    vm.op_8xy2(&Platform::default(), 1, 2);
    assert_eq!(0b1010, vm.registers[1]);
    assert_eq!(0, vm.registers[0xF]);
}

#[test]
fn offset_jump_uses_register_x_on_chip48() {
    let mut vm = VirtualMachine::new();
    vm.registers[0] = 1;
    vm.registers[2] = 0x10;

    vm.op_bnnn(&Platform::new(Target::Chip48), 0x234);
    assert_eq!(0x244, vm.pc);

    vm.op_bnnn(&Platform::default(), 0x234);
    assert_eq!(0x235, vm.pc);
}

#[test]
fn block_transfer_moves_index_on_superchip() {
    let platform = Platform::new(Target::SuperChip);
    let mut vm = VirtualMachine::for_platform(&platform, 0);
    vm.i = 0x300;
    vm.registers[0] = 1;
    vm.registers[1] = 2;
    vm.registers[2] = 3;

    vm.op_fx55(&platform, 2);
    assert_eq!(0x303, vm.i);
    assert_eq!([1, 2, 3], vm.ram[0x300..0x303]);

    vm.i = 0x300;
    vm.op_fx65(&platform, 1);
    assert_eq!(0x302, vm.i);
}

#[test]
fn font_glyphs_sit_at_the_start_of_memory() {
    let vm = VirtualMachine::new();
    assert_eq!([0xF0, 0x90, 0x90, 0x90, 0xF0], vm.ram[0..5]);
    assert_eq!([0xF0, 0x80, 0xF0, 0x80, 0x80], vm.ram[75..80]);
    assert!(vm.ram[80..].iter().all(|&b| b == 0));

    let mut vm = VirtualMachine::new();
    vm.registers[3] = 0xA;
    vm.op_fx29(3);
    assert_eq!(50, vm.i);
}

#[test]
fn bcd_of_small_values() {
    let mut vm = VirtualMachine::new();
    vm.i = 0x400;
    vm.registers[0] = 7;
    vm.op_fx33(0);
    assert_eq!([0, 0, 7], vm.ram[0x400..0x403]);

    vm.registers[0] = 128;
    vm.op_fx33(0);
    assert_eq!([1, 2, 8], vm.ram[0x400..0x403]);
}

#[test]
fn add_immediate_and_index_wrap() {
    let mut vm = VirtualMachine::new();
    vm.registers[4] = 0xFF;
    vm.registers[0xF] = 9;
    vm.op_7xkk(4, 2);
    assert_eq!(1, vm.registers[4]);
    assert_eq!(9, vm.registers[0xF]);

    vm.i = 0xFFFF;
    vm.op_fx1e(4);
    assert_eq!(0, vm.i);
}

#[test]
fn random_byte_is_masked_and_injectable() {
    let platform = Platform::default();
    let mut vm = VirtualMachine::new();
    vm.execute_with(0xC30F, &platform, 0xAB).unwrap();
    assert_eq!(0x0B, vm.registers[3]);

    let mut a = VirtualMachine::for_platform(&platform, 42);
    let mut b = VirtualMachine::for_platform(&platform, 42);
    for _ in 0..8 {
        a.execute(0xC1FF, &platform).unwrap();
        b.execute(0xC1FF, &platform).unwrap();
        assert_eq!(a.registers[1], b.registers[1]);
    }
    for _ in 0..8 {
        a.execute(0xC10F, &platform).unwrap();
        assert_eq!(0, a.registers[1] & 0xF0);
    }
}

#[test]
fn platforms_have_their_geometry_and_quirks() {
    let vip = Platform::new(Target::CosmacVIP);
    assert_eq!((64, 32, 15), (vip.video_width, vip.video_height, vip.tick_rate));
    assert!(vip.has_quirk(Quirk::VfReset) && vip.has_quirk(Quirk::WaitForBlank));
    assert!(!vip.has_quirk(Quirk::WrapSprites));
    assert_eq!(vip, Platform::default());

    let modern = Platform::new(Target::Modern);
    assert_eq!(12, modern.tick_rate);

    let chip48 = Platform::new(Target::Chip48);
    assert_eq!(30, chip48.tick_rate);
    assert!(chip48.has_quirk(Quirk::JumpAddsRegisterX));
    assert!(!chip48.has_quirk(Quirk::VfReset));

    let schip = Platform::new(Target::SuperChip);
    assert_eq!((128, 64, 30), (schip.video_width, schip.video_height, schip.tick_rate));
    assert!(schip.has_quirk(Quirk::LoadStoreIncrementIndex));

    let xo = Platform::new(Target::XoChip);
    assert_eq!((128, 64, 100), (xo.video_width, xo.video_height, xo.tick_rate));
    assert!(xo.has_quirk(Quirk::WrapSprites));
    assert!(xo.is_valid());

    let tiny = Platform { video_width: 4, ..xo };
    assert!(!tiny.is_valid());
}

#[test]
fn step_finishes_at_the_end_of_the_program() {
    let mut chip = Chip8::new(Platform::default());
    chip.load_rom(&[0x60, 0x01]).unwrap();

    chip.step().unwrap();
    assert_eq!(State::Running, chip.state);
    chip.step().unwrap();
    assert_eq!(State::Finished, chip.state);

    chip.reset();
    assert_eq!(State::Running, chip.state);
}

#[test]
fn step_does_nothing_while_paused_or_off() {
    let mut chip = Chip8::new(Platform::default());
    chip.load_rom(&[0x00, 0xE0, 0x00, 0xE0]).unwrap();
    chip.state = State::Paused;
    chip.step().unwrap();
    chip.state = State::Running;
    chip.step().unwrap();
    chip.step().unwrap();
    assert_eq!(State::Running, chip.state);
    chip.step().unwrap();
    assert_eq!(State::Finished, chip.state);
}

#[test]
fn step_reports_invalid_opcodes() {
    let mut chip = Chip8::new(Platform::default());
    chip.load_rom(&[0xFF, 0xFF]).unwrap();
    assert_eq!(Err(ExecutionError::InvalidOpcode(0xFFFF)), chip.step());
}

#[test]
fn keys_and_timers() {
    let mut chip = Chip8::new(Platform::default());
    let rom = [
        0x63, 0x02, // V3 = 2
        0xF3, 0x15, // delay timer = V3
        0xF4, 0x07, // V4 = delay timer
        0x34, 0x01, // skip if V4 == 1
        0x00, 0x00, // (invalid, skipped)
        0xE1, 0x9E, // skip if key V1 is down
        0x00, 0x00, // (invalid, skipped)
        0x00, 0xE0,
    ];
    chip.load_rom(&rom).unwrap();
    chip.step().unwrap();
    chip.step().unwrap();
    chip.tick_timers();
    chip.step().unwrap();
    chip.step().unwrap();
    chip.key_down(0);
    chip.step().unwrap();
    chip.reset_keys();
    assert_eq!(Ok(()), chip.step());
    assert_eq!(State::Running, chip.state);
    chip.step().unwrap();
    assert_eq!(State::Finished, chip.state);
}

#[test]
fn reset_returns_memory_to_power_on() {
    let mut chip = Chip8::new(Platform::new(Target::SuperChip));
    chip.load_rom(&[0xA0, 0x00, 0xD0, 0x05]).unwrap();
    chip.step().unwrap();
    chip.step().unwrap();
    assert!(chip.has_color(0, 0));
    assert_eq!(128, chip.platform().video_width);

    chip.reset();

    assert!(!chip.has_color(0, 0));
    assert_eq!(State::Running, chip.state);
    assert_eq!(Err(ExecutionError::InvalidOpcode(0)), chip.step());
}

#[test]
fn frame_runs_until_the_program_ends() {
    let mut chip = Chip8::new(Platform::default());
    chip.load_rom(&[0xA0, 0x00, 0xD0, 0x05]).unwrap();

    assert_eq!(Ok(()), chip.run_frame());

    assert!(chip.has_color(0, 0));
    assert_eq!(State::Finished, chip.state);
}

#[test]
fn frame_stops_at_the_first_error() {
    let mut chip = Chip8::new(Platform::default());
    chip.load_rom(&[0x60, 0x01, 0xFF, 0xFF, 0xA0, 0x00, 0xD0, 0x05]).unwrap();

    assert_eq!(Err(ExecutionError::InvalidOpcode(0xFFFF)), chip.run_frame());

    assert!(!chip.has_color(0, 0));
    assert_eq!(State::Running, chip.state);
}

#[test]
fn timers_tick_once_per_frame() {
    let mut chip = Chip8::new(Platform::default());
    assert_eq!(15, chip.platform().tick_rate);
    let mut rom = vec![
        0x60, 0x03, // V0 = 3
        0xF0, 0x15, // delay timer = V0
    ];
    for _ in 0..13 {
        rom.extend_from_slice(&[0x61, 0x00]); // fill the first frame
    }
    rom.extend_from_slice(&[
        0xF1, 0x07, // V1 = delay timer
        0x31, 0x02, // skip if V1 == 2
        0xFF, 0xFF, // (invalid, skipped)
        0x00, 0xE0,
    ]);
    chip.load_rom(&rom).unwrap();

    assert_eq!(Ok(()), chip.run_frame());
    assert_eq!(Ok(()), chip.run_frame());
    assert_eq!(State::Finished, chip.state);
}

#[test]
fn pause_toggles_only_running_and_paused() {
    assert_eq!(State::Paused, State::Running.toggle_pause());
    assert_eq!(State::Running, State::Paused.toggle_pause());
    assert_eq!(State::Off, State::Off.toggle_pause());
    assert_eq!(State::Finished, State::Finished.toggle_pause());
}

#[test]
fn menu_cursor_moves() {
    assert_eq!(4, move_cursor(0, 5, MenuMove::Up));
    assert_eq!(1, move_cursor(2, 5, MenuMove::Up));
    assert_eq!(0, move_cursor(4, 5, MenuMove::Down));
    assert_eq!(3, move_cursor(2, 5, MenuMove::Down));
    assert_eq!(29, move_cursor(10, 30, MenuMove::PageUp));
    assert_eq!(1, move_cursor(11, 30, MenuMove::PageUp));
    assert_eq!(0, move_cursor(19, 30, MenuMove::PageDown));
    assert_eq!(28, move_cursor(18, 30, MenuMove::PageDown));
}

#[test]
fn program_start_is_after_the_reserved_area() {
    let vm = VirtualMachine::new();
    assert_eq!(PROGRAM_START_ADDRESS, vm.pc);
    assert_eq!(0x200, PROGRAM_START_ADDRESS);
}

#[test]
fn decoding_splits_the_word() {
    let ins = Instruction::decode(0xD1A5);
    assert_eq!(Instruction { class: 0xD, x: 1, y: 0xA, n: 5, nn: 0xA5, nnn: 0x1A5 }, ins);
}

#[test]
fn default_machine_is_off() {
    let chip = Chip8::default();
    assert_eq!(State::Off, chip.state);
    assert_eq!(Platform::default(), chip.platform());
    assert!(!chip.has_color(0, 0));
}
