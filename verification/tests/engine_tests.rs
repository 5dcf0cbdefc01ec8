use chip8_emulator::chip8::{Chip8, Chip8Error};

fn fresh_vm() -> Chip8 {
    let mut vm = Chip8::new();
    vm.initialize();
    vm
}

#[test]
fn fresh_engine_starts_at_program_offset() {
    let vm = fresh_vm();
    assert_eq!(vm.program_counter.read(), 0x200);
}

#[test]
fn initialize_loads_font_glyphs() {
    let vm = fresh_vm();
    assert_eq!(vm.memory.read(0), 0xF0);
    assert_eq!(vm.memory.read(5), 0x20);
    assert_eq!(vm.memory.read(79), 0x80);
}

#[test]
fn clear_screen_program_blanks_all_pixels() {
    let mut vm = fresh_vm();
    vm.load_program(&[0x00, 0xE0]);
    vm.screen.set(0, true);
    vm.screen.set(1000, true);
    vm.screen.set(2047, true);
    let outcome = vm.step(None);
    assert!(outcome.is_ok());
    for index in 0..2048 {
        assert!(!vm.screen.get(index));
    }
    assert_eq!(vm.program_counter.read(), 0x202);
}

#[test]
fn set_register_program() {
    let mut vm = fresh_vm();
    vm.load_program(&[0x6A, 0x05]);
    let outcome = vm.step(None);
    assert!(outcome.is_ok());
    assert_eq!(vm.data_registers.read_idx(0xA), Ok(5));
    assert_eq!(vm.program_counter.read(), 0x202);
}

#[test]
fn store_regs_writes_memory_and_keeps_address() {
    let mut vm = fresh_vm();
    let _ = vm.address_register.write(0x100);
    let _ = vm.data_registers.write_idx(0, 7);
    let _ = vm.data_registers.write_idx(1, 9);
    let outcome = vm.apply_opcode(0xF155, None);
    assert!(outcome.is_ok());
    assert_eq!(vm.memory.read(0x100), 7);
    assert_eq!(vm.memory.read(0x101), 9);
    assert_eq!(vm.address_register.read(), 0x100);
}

#[test]
fn load_regs_reads_memory_and_keeps_address() {
    let mut vm = fresh_vm();
    let _ = vm.address_register.write(0x180);
    vm.memory.write(0x180, 42);
    vm.memory.write(0x181, 43);
    vm.memory.write(0x182, 44);
    let outcome = vm.apply_opcode(0xF265, None);
    assert!(outcome.is_ok());
    assert_eq!(vm.data_registers.read_idx(0), Ok(42));
    assert_eq!(vm.data_registers.read_idx(1), Ok(43));
    assert_eq!(vm.data_registers.read_idx(2), Ok(44));
    assert_eq!(vm.data_registers.read_idx(3), Ok(0));
    assert_eq!(vm.address_register.read(), 0x180);
}

#[test]
fn draw_twice_restores_pixels_and_flags_collision() {
    let mut vm = fresh_vm();
    let _ = vm.address_register.write(0x300);
    vm.memory.write(0x300, 0xA0);
    let first = vm.apply_opcode(0xD001, None);
    assert!(first.is_ok());
    assert!(vm.screen.get(0));
    assert!(!vm.screen.get(1));
    assert!(vm.screen.get(2));
    assert_eq!(vm.data_registers.read_idx(15), Ok(0));
    assert!(vm.should_draw);

    let second = vm.apply_opcode(0xD001, None);
    assert!(second.is_ok());
    for index in 0..2048 {
        assert!(!vm.screen.get(index));
    }
    assert_eq!(vm.data_registers.read_idx(15), Ok(1));
}

#[test]
fn draw_clips_pixels_outside_grid() {
    let mut vm = fresh_vm();
    let _ = vm.address_register.write(0x300);
    vm.memory.write(0x300, 0xFF);
    let _ = vm.data_registers.write_idx(0, 60);
    let _ = vm.data_registers.write_idx(1, 31);
    let outcome = vm.apply_opcode(0xD011, None);
    assert!(outcome.is_ok());
    for column in 60..64 {
        assert!(vm.screen.get(column + 31 * 64));
    }
    assert_eq!(vm.data_registers.read_idx(15), Ok(0));
}

#[test]
fn add_reg_sets_carry_exactly_on_overflow() {
    let mut vm = fresh_vm();
    let _ = vm.data_registers.write_idx(0, 200);
    let _ = vm.data_registers.write_idx(1, 100);
    assert!(vm.apply_opcode(0x8014, None).is_ok());
    assert_eq!(vm.data_registers.read_idx(0), Ok(44));
    assert_eq!(vm.data_registers.read_idx(15), Ok(1));

    let mut vm = fresh_vm();
    let _ = vm.data_registers.write_idx(0, 10);
    let _ = vm.data_registers.write_idx(1, 20);
    assert!(vm.apply_opcode(0x8014, None).is_ok());
    assert_eq!(vm.data_registers.read_idx(0), Ok(30));
    assert_eq!(vm.data_registers.read_idx(15), Ok(0));
}

#[test]
fn sub_reg_sets_flag_exactly_when_no_borrow() {
    let mut vm = fresh_vm();
    let _ = vm.data_registers.write_idx(0, 50);
    let _ = vm.data_registers.write_idx(1, 60);
    assert!(vm.apply_opcode(0x8015, None).is_ok());
    assert_eq!(vm.data_registers.read_idx(0), Ok(246));
    assert_eq!(vm.data_registers.read_idx(15), Ok(0));

    let mut vm = fresh_vm();
    let _ = vm.data_registers.write_idx(0, 60);
    let _ = vm.data_registers.write_idx(1, 50);
    assert!(vm.apply_opcode(0x8015, None).is_ok());
    assert_eq!(vm.data_registers.read_idx(0), Ok(10));
    assert_eq!(vm.data_registers.read_idx(15), Ok(1));
}

#[test]
fn subn_reg_subtracts_the_other_way() {
    let mut vm = fresh_vm();
    let _ = vm.data_registers.write_idx(0, 10);
    let _ = vm.data_registers.write_idx(1, 200);
    assert!(vm.apply_opcode(0x8017, None).is_ok());
    assert_eq!(vm.data_registers.read_idx(0), Ok(190));
    assert_eq!(vm.data_registers.read_idx(15), Ok(1));
}

#[test]
fn shr_captures_low_bit_before_shifting() {
    let mut vm = fresh_vm();
    let _ = vm.data_registers.write_idx(0, 5);
    assert!(vm.apply_opcode(0x8006, None).is_ok());
    assert_eq!(vm.data_registers.read_idx(0), Ok(2));
    assert_eq!(vm.data_registers.read_idx(15), Ok(1));
}

#[test]
fn shl_captures_high_bit_before_shifting() {
    let mut vm = fresh_vm();
    let _ = vm.data_registers.write_idx(0, 0x81);
    assert!(vm.apply_opcode(0x800E, None).is_ok());
    assert_eq!(vm.data_registers.read_idx(0), Ok(2));
    assert_eq!(vm.data_registers.read_idx(15), Ok(1));
}

#[test]
fn bitwise_ops_combine_registers() {
    let mut vm = fresh_vm();
    let _ = vm.data_registers.write_idx(0, 0b1100);
    let _ = vm.data_registers.write_idx(1, 0b1010);
    assert!(vm.apply_opcode(0x8011, None).is_ok());
    assert_eq!(vm.data_registers.read_idx(0), Ok(0b1110));

    let _ = vm.data_registers.write_idx(0, 0b1100);
    assert!(vm.apply_opcode(0x8012, None).is_ok());
    assert_eq!(vm.data_registers.read_idx(0), Ok(0b1000));

    let _ = vm.data_registers.write_idx(0, 0b1100);
    assert!(vm.apply_opcode(0x8013, None).is_ok());
    assert_eq!(vm.data_registers.read_idx(0), Ok(0b0110));
}

#[test]
fn add_imm_wraps_without_flag() {
    let mut vm = fresh_vm();
    let _ = vm.data_registers.write_idx(0, 250);
    let _ = vm.data_registers.write_idx(15, 9);
    assert!(vm.apply_opcode(0x700A, None).is_ok());
    assert_eq!(vm.data_registers.read_idx(0), Ok(4));
    assert_eq!(vm.data_registers.read_idx(15), Ok(9));
}

#[test]
fn conditional_skips_advance_two_or_four() {
    let mut vm = fresh_vm();
    let _ = vm.data_registers.write_idx(0, 7);
    assert!(vm.apply_opcode(0x3007, None).is_ok());
    assert_eq!(vm.program_counter.read(), 0x204);

    let mut vm = fresh_vm();
    let _ = vm.data_registers.write_idx(0, 8);
    assert!(vm.apply_opcode(0x3007, None).is_ok());
    assert_eq!(vm.program_counter.read(), 0x202);

    let mut vm = fresh_vm();
    let _ = vm.data_registers.write_idx(0, 8);
    assert!(vm.apply_opcode(0x4007, None).is_ok());
    assert_eq!(vm.program_counter.read(), 0x204);

    let mut vm = fresh_vm();
    let _ = vm.data_registers.write_idx(0, 3);
    let _ = vm.data_registers.write_idx(1, 3);
    assert!(vm.apply_opcode(0x5010, None).is_ok());
    assert_eq!(vm.program_counter.read(), 0x204);

    let mut vm = fresh_vm();
    let _ = vm.data_registers.write_idx(0, 3);
    let _ = vm.data_registers.write_idx(1, 4);
    assert!(vm.apply_opcode(0x9010, None).is_ok());
    assert_eq!(vm.program_counter.read(), 0x204);
}

#[test]
fn call_then_return_round_trip() {
    let mut vm = fresh_vm();
    assert!(vm.apply_opcode(0x2300, None).is_ok());
    assert_eq!(vm.program_counter.read(), 0x300);
    assert_eq!(vm.stack_pointer, 1);
    assert_eq!(vm.stack[0], 0x200);

    assert!(vm.apply_opcode(0x00EE, None).is_ok());
    assert_eq!(vm.program_counter.read(), 0x202);
    assert_eq!(vm.stack_pointer, 0);
    assert_eq!(vm.stack[0], 0);
}

#[test]
fn jumps_assign_the_counter_directly() {
    let mut vm = fresh_vm();
    assert!(vm.apply_opcode(0x1ABC, None).is_ok());
    assert_eq!(vm.program_counter.read(), 0xABC);

    let mut vm = fresh_vm();
    let _ = vm.data_registers.write_idx(0, 0x23);
    assert!(vm.apply_opcode(0xB100, None).is_ok());
    assert_eq!(vm.program_counter.read(), 0x123);
}

#[test]
fn address_register_opcodes() {
    let mut vm = fresh_vm();
    assert!(vm.apply_opcode(0xA123, None).is_ok());
    assert_eq!(vm.address_register.read(), 0x123);

    let _ = vm.address_register.write(0xFFF);
    let _ = vm.data_registers.write_idx(0, 1);
    assert!(vm.apply_opcode(0xF01E, None).is_ok());
    assert_eq!(vm.address_register.read(), 0x000);

    let _ = vm.data_registers.write_idx(0, 0xF);
    assert!(vm.apply_opcode(0xF029, None).is_ok());
    assert_eq!(vm.address_register.read(), 4016 + 15 * 5);
}

#[test]
fn bcd_stores_decimal_digits_of_masked_value() {
    let mut vm = fresh_vm();
    let _ = vm.address_register.write(0x400);
    let _ = vm.data_registers.write_idx(0, 0xFF);
    assert!(vm.apply_opcode(0xF033, None).is_ok());
    assert_eq!(vm.memory.read(0x400), 0);
    assert_eq!(vm.memory.read(0x401), 1);
    assert_eq!(vm.memory.read(0x402), 5);
}

#[test]
fn rand_masks_with_immediate() {
    let mut vm = fresh_vm();
    let _ = vm.data_registers.write_idx(0, 99);
    assert!(vm.apply_opcode(0xC000, None).is_ok());
    assert_eq!(vm.data_registers.read_idx(0), Ok(0));
    assert_eq!(vm.program_counter.read(), 0x202);
}

#[test]
fn timer_opcodes_set_and_read() {
    let mut vm = fresh_vm();
    let _ = vm.data_registers.write_idx(0, 9);
    assert!(vm.apply_opcode(0xF015, None).is_ok());
    assert_eq!(vm.delay_timer.value(), 9);
    assert!(vm.apply_opcode(0xF107, None).is_ok());
    assert_eq!(vm.data_registers.read_idx(1), Ok(9));
    assert!(vm.apply_opcode(0xF018, None).is_ok());
    assert_eq!(vm.sound_timer.value(), 9);
}

#[test]
fn sound_timer_cues_at_one() {
    let mut vm = fresh_vm();
    vm.load_program(&[0x60, 0x01, 0xF0, 0x18]);
    assert_eq!(vm.step(None), Ok(false));
    assert_eq!(vm.step(None), Ok(true));
    assert_eq!(vm.sound_timer.value(), 0);
}

#[test]
fn wait_key_consumes_delivered_event() {
    let mut vm = fresh_vm();
    assert!(vm.apply_opcode(0xF00A, Some(0x17)).is_ok());
    assert_eq!(vm.data_registers.read_idx(0), Ok(7));
    assert_eq!(vm.program_counter.read(), 0x202);

    let mut vm = fresh_vm();
    let _ = vm.data_registers.write_idx(0, 5);
    assert!(vm.apply_opcode(0xF00A, None).is_ok());
    assert_eq!(vm.data_registers.read_idx(0), Ok(5));
    assert_eq!(vm.program_counter.read(), 0x202);
}

#[test]
fn key_skips_test_current_key_state() {
    let mut vm = fresh_vm();
    vm.keypad.press('3');
    let _ = vm.data_registers.write_idx(0, 3);
    assert!(vm.apply_opcode(0xE09E, None).is_ok());
    assert_eq!(vm.program_counter.read(), 0x204);

    let mut vm = fresh_vm();
    let _ = vm.data_registers.write_idx(0, 3);
    assert!(vm.apply_opcode(0xE0A1, None).is_ok());
    assert_eq!(vm.program_counter.read(), 0x204);
    vm.keypad.press('3');
    assert!(vm.apply_opcode(0xE09E, None).is_ok());
    assert_eq!(vm.program_counter.read(), 0x208);
}

#[test]
fn return_on_empty_stack_is_fatal() {
    let mut vm = fresh_vm();
    assert_eq!(vm.apply_opcode(0x00EE, None), Err(Chip8Error::StackUnderflow));
    assert_eq!(vm.program_counter.read(), 0x200);
}

#[test]
fn call_past_sixteen_frames_is_fatal() {
    let mut vm = fresh_vm();
    for _ in 0..16 {
        assert!(vm.apply_opcode(0x2300, None).is_ok());
    }
    assert_eq!(vm.stack_pointer, 16);
    assert_eq!(vm.apply_opcode(0x2300, None), Err(Chip8Error::StackOverflow));
    assert_eq!(vm.stack_pointer, 16);
}

#[test]
fn memory_opcodes_past_the_address_space_are_fatal() {
    let mut vm = fresh_vm();
    let _ = vm.address_register.write(0xFFF);
    assert_eq!(vm.apply_opcode(0xF155, None), Err(Chip8Error::MemoryOutOfBounds));
    assert_eq!(vm.apply_opcode(0xF165, None), Err(Chip8Error::MemoryOutOfBounds));
    assert_eq!(vm.apply_opcode(0xF033, None), Err(Chip8Error::MemoryOutOfBounds));
    vm.memory.write(0xFFE, 0x80);
    let _ = vm.address_register.write(0xFFE);
    assert_eq!(vm.apply_opcode(0xD003, None), Err(Chip8Error::MemoryOutOfBounds));
    assert_eq!(vm.program_counter.read(), 0x200);
}

#[test]
fn unknown_word_is_fatal_and_leaves_state() {
    let mut vm = fresh_vm();
    vm.load_program(&[0xFF, 0xFF]);
    assert_eq!(vm.step(None), Err(Chip8Error::UnknownOpcode(0xFFFF)));
    assert_eq!(vm.program_counter.read(), 0x200);
}

#[test]
fn empty_program_runs_the_legacy_call() {
    let mut vm = fresh_vm();
    vm.load_program(&[]);
    assert_eq!(vm.step(None), Ok(false));
    assert_eq!(vm.program_counter.read(), 0x202);
}

#[test]
fn assignment_copies_between_registers() {
    let mut vm = fresh_vm();
    let _ = vm.data_registers.write_idx(1, 77);
    assert!(vm.apply_opcode(0x8010, None).is_ok());
    assert_eq!(vm.data_registers.read_idx(0), Ok(77));
    assert_eq!(vm.data_registers.read_idx(1), Ok(77));
}

#[test]
fn timers_tick_once_per_cycle_and_floor_at_zero() {
    let mut vm = fresh_vm();
    vm.delay_timer.reset(2);
    vm.load_program(&[0x00, 0xE0, 0x00, 0xE0, 0x00, 0xE0]);
    assert_eq!(vm.step(None), Ok(false));
    assert_eq!(vm.delay_timer.value(), 1);
    assert_eq!(vm.step(None), Ok(false));
    assert_eq!(vm.delay_timer.value(), 0);
    assert_eq!(vm.step(None), Ok(false));
    assert_eq!(vm.delay_timer.value(), 0);
}
