use chip8::opcode::Opcode;
use chip8::system::{ChipSystem, ExError};

#[test]
fn opcode_decomposes_into_nibbles() {
    let op = Opcode::new(0xABCD);
    assert_eq!(op.h1, 0xA);
    assert_eq!(op.v1, 0xB);
    assert_eq!(op.v2, 0xC);
    assert_eq!(op.v3, 0xD);
}

#[test]
fn opcode_nibbles_recombine_exactly() {
    for &value in &[0x0000u16, 0x00E0, 0x1234, 0x8ABE, 0xCAFE, 0xFFFF] {
        let op = Opcode::new(value);
        let recombined = (op.h1 << 12) | (op.v1 << 8) | (op.v2 << 4) | op.v3;
        assert_eq!(recombined, value);
    }
}

#[test]
fn add_registers_sets_carry_flag() {
    let mut sys = ChipSystem::init();
    sys.registers.set_gp(1, 0xFF);
    sys.registers.set_gp(2, 0x01);
    assert!(sys.ex_opcode(0x8124).is_ok());
    assert_eq!(sys.registers.get_gp(1), 0x00);
    assert_eq!(sys.registers.get_gp(15), 1);

    let mut sys = ChipSystem::init();
    sys.registers.set_gp(1, 0x01);
    sys.registers.set_gp(2, 0x01);
    assert!(sys.ex_opcode(0x8124).is_ok());
    assert_eq!(sys.registers.get_gp(1), 0x02);
    assert_eq!(sys.registers.get_gp(15), 0);
}

#[test]
fn sub_registers_sets_borrow_flag() {
    let mut sys = ChipSystem::init();
    sys.registers.set_gp(1, 0x01);
    sys.registers.set_gp(2, 0x02);
    assert!(sys.ex_opcode(0x8125).is_ok());
    assert_eq!(sys.registers.get_gp(1), 0xFF);
    assert_eq!(sys.registers.get_gp(15), 0);

    let mut sys = ChipSystem::init();
    sys.registers.set_gp(1, 0x05);
    sys.registers.set_gp(2, 0x02);
    assert!(sys.ex_opcode(0x8125).is_ok());
    assert_eq!(sys.registers.get_gp(1), 0x03);
    assert_eq!(sys.registers.get_gp(15), 1);
}

#[test]
fn subn_registers_sets_borrow_flag() {
    let mut sys = ChipSystem::init();
    sys.registers.set_gp(1, 0x02);
    sys.registers.set_gp(2, 0x05);
    assert!(sys.ex_opcode(0x8127).is_ok());
    assert_eq!(sys.registers.get_gp(1), 0x03);
    assert_eq!(sys.registers.get_gp(15), 1);

    let mut sys = ChipSystem::init();
    sys.registers.set_gp(1, 0x05);
    sys.registers.set_gp(2, 0x02);
    assert!(sys.ex_opcode(0x8127).is_ok());
    assert_eq!(sys.registers.get_gp(1), 0xFD);
    assert_eq!(sys.registers.get_gp(15), 0);
}

#[test]
fn shifts_capture_the_moved_bit() {
    let mut sys = ChipSystem::init();
    sys.registers.set_gp(4, 0x05);
    assert!(sys.ex_opcode(0x8406).is_ok());
    assert_eq!(sys.registers.get_gp(4), 0x02);
    assert_eq!(sys.registers.get_gp(15), 1);

    sys.registers.set_gp(4, 0x81);
    assert!(sys.ex_opcode(0x840E).is_ok());
    assert_eq!(sys.registers.get_gp(4), 0x02);
    assert_eq!(sys.registers.get_gp(15), 1);

    sys.registers.set_gp(4, 0x40);
    assert!(sys.ex_opcode(0x840E).is_ok());
    assert_eq!(sys.registers.get_gp(4), 0x80);
    assert_eq!(sys.registers.get_gp(15), 0);
}

#[test]
fn logic_group_or_and_xor_load() {
    let mut sys = ChipSystem::init();
    sys.registers.set_gp(1, 0b1010);
    sys.registers.set_gp(2, 0b0110);
    assert!(sys.ex_opcode(0x8121).is_ok());
    assert_eq!(sys.registers.get_gp(1), 0b1110);
    sys.registers.set_gp(1, 0b1010);
    assert!(sys.ex_opcode(0x8122).is_ok());
    assert_eq!(sys.registers.get_gp(1), 0b0010);
    sys.registers.set_gp(1, 0b1010);
    assert!(sys.ex_opcode(0x8123).is_ok());
    assert_eq!(sys.registers.get_gp(1), 0b1100);
    assert!(sys.ex_opcode(0x8120).is_ok());
    assert_eq!(sys.registers.get_gp(1), 0b0110);
}

#[test]
fn call_and_return_restore_the_program_counter() {
    let mut sys = ChipSystem::init();
    assert_eq!(sys.registers.get_pc(), 0x200);
    assert!(sys.ex_opcode(0x2300).is_ok());
    assert_eq!(sys.registers.get_pc(), 0x300);
    assert!(sys.ex_opcode(0x00EE).is_ok());
    assert_eq!(sys.registers.get_pc(), 0x202);
}

#[test]
fn seventeenth_call_overflows_and_preserves_the_stack() {
    let mut sys = ChipSystem::init();
    for _ in 0..16 {
        assert!(sys.ex_opcode(0x2300).is_ok());
    }
    let pc_before = sys.registers.get_pc();
    assert_eq!(sys.ex_opcode(0x2400), Err(ExError::StackOverflow));
    assert_eq!(sys.registers.get_pc(), pc_before);
    // the sixteen stored return addresses are intact: the first call pushed
    // 0x200, every later one pushed 0x300
    let mut returns = Vec::new();
    for _ in 0..16 {
        assert!(sys.ex_opcode(0x00EE).is_ok());
        returns.push(sys.registers.get_pc());
    }
    assert_eq!(returns[0], 0x302);
    for k in 1..15 {
        assert_eq!(returns[k], 0x302);
    }
    assert_eq!(returns[15], 0x202);
    assert_eq!(sys.ex_opcode(0x00EE), Err(ExError::StackUnderflow));
}

#[test]
fn bcd_decomposes_into_decimal_digits() {
    let mut sys = ChipSystem::init();
    sys.registers.set_gp(0, 234);
    sys.registers.set_i(0x400);
    assert!(sys.ex_opcode(0xF033).is_ok());
    assert_eq!(sys.ram.get_byte(0x400), 2);
    assert_eq!(sys.ram.get_byte(0x401), 3);
    assert_eq!(sys.ram.get_byte(0x402), 4);

    sys.registers.set_gp(0, 7);
    assert!(sys.ex_opcode(0xF033).is_ok());
    assert_eq!(sys.ram.get_byte(0x400), 0);
    assert_eq!(sys.ram.get_byte(0x401), 0);
    assert_eq!(sys.ram.get_byte(0x402), 7);
}

#[test]
fn register_block_store_and_load_round_trip() {
    let mut sys = ChipSystem::init();
    for k in 0..4u8 {
        sys.registers.set_gp(k as usize, 0x10 + k);
    }
    sys.registers.set_i(0x400);
    assert!(sys.ex_opcode(0xF355).is_ok());
    for k in 0..4u16 {
        assert_eq!(sys.ram.get_byte(0x400 + k), 0x10 + k as u8);
    }
    // the store advances I by x + 1
    assert_eq!(sys.registers.get_i(), 0x404);
    // clobber the registers, then load them back
    for k in 0..4u8 {
        sys.registers.set_gp(k as usize, 0xEE);
    }
    sys.registers.set_gp(4, 0x44);
    sys.registers.set_i(0x400);
    assert!(sys.ex_opcode(0xF365).is_ok());
    for k in 0..4u8 {
        assert_eq!(sys.registers.get_gp(k as usize), 0x10 + k);
    }
    // registers past x, and I itself, are untouched by the load
    assert_eq!(sys.registers.get_gp(4), 0x44);
    assert_eq!(sys.registers.get_i(), 0x400);
}

#[test]
fn skip_instructions_advance_twice_when_taken() {
    let mut sys = ChipSystem::init();
    sys.registers.set_gp(1, 0x42);
    assert!(sys.ex_opcode(0x3142).is_ok());
    assert_eq!(sys.registers.get_pc(), 0x204);
    assert!(sys.ex_opcode(0x3100).is_ok());
    assert_eq!(sys.registers.get_pc(), 0x206);
    assert!(sys.ex_opcode(0x4100).is_ok());
    assert_eq!(sys.registers.get_pc(), 0x20A);
    sys.registers.set_gp(2, 0x42);
    assert!(sys.ex_opcode(0x5120).is_ok());
    assert_eq!(sys.registers.get_pc(), 0x20E);
    assert!(sys.ex_opcode(0x9120).is_ok());
    assert_eq!(sys.registers.get_pc(), 0x210);
    sys.registers.set_gp(2, 0x43);
    assert!(sys.ex_opcode(0x9120).is_ok());
    assert_eq!(sys.registers.get_pc(), 0x214);
}

#[test]
fn jumps_set_the_program_counter() {
    let mut sys = ChipSystem::init();
    assert!(sys.ex_opcode(0x1ABC).is_ok());
    assert_eq!(sys.registers.get_pc(), 0xABC);
    sys.registers.set_gp(0, 0x10);
    assert!(sys.ex_opcode(0xB300).is_ok());
    assert_eq!(sys.registers.get_pc(), 0x310);
}

#[test]
fn load_group_writes_registers_and_index() {
    let mut sys = ChipSystem::init();
    assert!(sys.ex_opcode(0x6A42).is_ok());
    assert_eq!(sys.registers.get_gp(0xA), 0x42);
    assert!(sys.ex_opcode(0x7A01).is_ok());
    assert_eq!(sys.registers.get_gp(0xA), 0x43);
    // 7xkk wraps without touching the flag register
    assert!(sys.ex_opcode(0x7AFF).is_ok());
    assert_eq!(sys.registers.get_gp(0xA), 0x42);
    assert_eq!(sys.registers.get_gp(15), 0);
    assert!(sys.ex_opcode(0xA123).is_ok());
    assert_eq!(sys.registers.get_i(), 0x123);
}

#[test]
fn timer_opcodes_move_values_both_ways() {
    let mut sys = ChipSystem::init();
    sys.registers.set_gp(3, 42);
    assert!(sys.ex_opcode(0xF315).is_ok());
    assert_eq!(sys.registers.get_d(), 42);
    assert!(sys.ex_opcode(0xF318).is_ok());
    assert_eq!(sys.registers.get_s(), 42);
    assert!(sys.ex_opcode(0xF507).is_ok());
    assert_eq!(sys.registers.get_gp(5), 42);
}

#[test]
fn index_add_wraps_and_font_lookup_points_at_glyph() {
    let mut sys = ChipSystem::init();
    sys.registers.set_i(0xFFFF);
    sys.registers.set_gp(1, 2);
    assert!(sys.ex_opcode(0xF11E).is_ok());
    assert_eq!(sys.registers.get_i(), 1);
    sys.registers.set_gp(2, 0x0A);
    assert!(sys.ex_opcode(0xF229).is_ok());
    assert_eq!(sys.registers.get_i(), 0x50 + 5 * 0x0A);
    // the glyph for A starts with 0xF0
    assert_eq!(sys.ram.get_byte(sys.registers.get_i()), 0xF0);
}

#[test]
fn random_register_is_masked_by_the_operand() {
    let mut sys = ChipSystem::init();
    assert!(sys.ex_opcode_with(0xC1FF, 0xAB).is_ok());
    assert_eq!(sys.registers.get_gp(1), 0xAB);
    assert!(sys.ex_opcode_with(0xC10F, 0xAB).is_ok());
    assert_eq!(sys.registers.get_gp(1), 0x0B);
    assert!(sys.ex_opcode_with(0xC100, 0xAB).is_ok());
    assert_eq!(sys.registers.get_gp(1), 0x00);
    // whatever the random byte, bits outside the mask stay clear
    assert!(sys.ex_opcode(0xC381).is_ok());
    assert_eq!(sys.registers.get_gp(3) & !0x81, 0);
}

#[test]
fn key_skip_opcodes_test_the_key_in_vx() {
    let mut sys = ChipSystem::init();
    sys.registers.set_gp(1, 7);
    assert!(sys.ex_opcode(0xE19E).is_ok());
    assert_eq!(sys.registers.get_pc(), 0x202);
    assert!(sys.ex_opcode(0xE1A1).is_ok());
    assert_eq!(sys.registers.get_pc(), 0x206);
    sys.keyboard.set_key(7, true);
    assert!(sys.ex_opcode(0xE19E).is_ok());
    assert_eq!(sys.registers.get_pc(), 0x20A);
    assert!(sys.ex_opcode(0xE1A1).is_ok());
    assert_eq!(sys.registers.get_pc(), 0x20C);
}

#[test]
fn wait_for_key_holds_until_a_key_is_pressed() {
    let mut sys = ChipSystem::init();
    assert!(sys.ex_opcode(0xF10A).is_ok());
    // no key pressed: no progress, the instruction will be retried
    assert_eq!(sys.registers.get_pc(), 0x200);
    assert_eq!(sys.registers.get_gp(1), 0);
    sys.keyboard.set_key(7, true);
    assert!(sys.ex_opcode(0xF10A).is_ok());
    assert_eq!(sys.registers.get_pc(), 0x202);
    assert_eq!(sys.registers.get_gp(1), 7);
}

#[test]
fn wait_for_key_returns_the_lowest_pressed_key() {
    let mut sys = ChipSystem::init();
    sys.keyboard.set_key(9, true);
    sys.keyboard.set_key(7, true);
    assert!(sys.ex_opcode(0xF10A).is_ok());
    assert_eq!(sys.registers.get_gp(1), 7);
}

#[test]
fn unrecognized_opcodes_yield_decode_errors() {
    let mut sys = ChipSystem::init();
    assert_eq!(sys.ex_opcode(0x812F), Err(ExError::Decode(0x812F)));
    assert_eq!(sys.ex_opcode(0xE1FF), Err(ExError::Decode(0xE1FF)));
    assert_eq!(sys.ex_opcode(0xF1FF), Err(ExError::Decode(0xF1FF)));
    // a failed decode has no effect at all
    assert_eq!(sys.registers.get_pc(), 0x200);
}

#[test]
fn return_on_empty_stack_underflows() {
    let mut sys = ChipSystem::init();
    assert_eq!(sys.ex_opcode(0x00EE), Err(ExError::StackUnderflow));
    assert_eq!(sys.registers.get_pc(), 0x200);
}

#[test]
fn group_zero_other_trailing_nibbles_are_ignored() {
    let mut sys = ChipSystem::init();
    assert!(sys.ex_opcode(0x0123).is_ok());
    assert_eq!(sys.registers.get_pc(), 0x202);
    assert_eq!(sys.registers.get_i(), 0);
}

#[test]
fn draw_opcode_sets_the_collision_flag() {
    let mut sys = ChipSystem::init();
    // draw the font glyph for 0 at (0, 0): I = 0x50, 5 rows
    sys.registers.set_i(0x50);
    assert!(sys.ex_opcode(0xD015).is_ok());
    assert_eq!(sys.registers.get_gp(15), 0);
    let grid = sys.display.get_display();
    assert!(grid[0] && grid[1] && grid[2] && grid[3]);
    assert!(!grid[4]);
    // drawing it again erases it and reports the collision
    assert!(sys.ex_opcode(0xD015).is_ok());
    assert_eq!(sys.registers.get_gp(15), 1);
    let grid = sys.display.get_display();
    for c in 0..2048 {
        assert!(!grid[c]);
    }
}

#[test]
fn clear_opcode_blanks_the_display() {
    let mut sys = ChipSystem::init();
    sys.registers.set_i(0x50);
    assert!(sys.ex_opcode(0xD013).is_ok());
    assert!(sys.ex_opcode(0x00E0).is_ok());
    let grid = sys.display.get_display();
    for c in 0..2048 {
        assert!(!grid[c]);
    }
}

#[test]
fn step_fetches_executes_and_reports_frames() {
    let mut sys = ChipSystem::init();
    sys.load_rom(vec![0x60, 0x0A, 0x00, 0xE0]);
    let (op, res, frame) = sys.step();
    assert_eq!(op, 0x600A);
    assert!(res.is_ok());
    assert!(frame.is_none());
    assert_eq!(sys.registers.get_gp(0), 0x0A);
    let (op, res, frame) = sys.step();
    assert_eq!(op, 0x00E0);
    assert!(res.is_ok());
    let frame = frame.expect("the clear marks the display modified");
    assert_eq!(frame.len(), 2048);
    assert!(frame.iter().all(|&p| !p));
}

#[test]
fn step_decrements_both_timers_once() {
    let mut sys = ChipSystem::init();
    sys.load_rom(vec![0x60, 0x0A]);
    sys.registers.set_d(3);
    sys.registers.set_s(1);
    let _ = sys.step();
    assert_eq!(sys.registers.get_d(), 2);
    assert_eq!(sys.registers.get_s(), 0);
}

#[test]
fn step_surfaces_decode_errors_and_leaves_state_alone() {
    let mut sys = ChipSystem::init();
    sys.load_rom(vec![0xFF, 0xFF]);
    let (op, res, frame) = sys.step();
    assert_eq!(op, 0xFFFF);
    assert_eq!(res, Err(ExError::Decode(0xFFFF)));
    assert!(frame.is_none());
    // the failed instruction itself had no effect; only the timers moved
    assert_eq!(sys.registers.get_pc(), 0x200);
}

#[test]
fn load_rom_marks_memory_loaded() {
    let mut sys = ChipSystem::init();
    assert!(!sys.ram.has_loaded());
    sys.load_rom(vec![0x12, 0x00]);
    assert!(sys.ram.has_loaded());
    assert_eq!(sys.ram.get_opcode(0x200), 0x1200);
}

#[test]
fn key_surface_feeds_the_wait_opcode() {
    let mut sys = ChipSystem::init();
    sys.key_down(7);
    sys.key_down(9);
    assert!(sys.ex_opcode(0xF10A).is_ok());
    assert_eq!(sys.registers.get_gp(1), 7);
    sys.key_up(7);
    assert!(sys.ex_opcode(0xF20A).is_ok());
    assert_eq!(sys.registers.get_gp(2), 9);
}

#[test]
fn snapshot_copies_the_grid() {
    let mut sys = ChipSystem::init();
    sys.registers.set_i(0x50);
    assert!(sys.ex_opcode(0xD011).is_ok());
    let grid = sys.snapshot();
    assert_eq!(grid.len(), 2048);
    assert!(grid[0] && grid[1] && grid[2] && grid[3]);
    assert!(!grid[4]);
}

#[test]
fn errors_describe_themselves() {
    assert_eq!(ExError::StackOverflow.describe(), "call stack overflow");
    assert_eq!(ExError::StackUnderflow.describe(), "call stack underflow");
    assert_eq!(
        ExError::Decode(0xFFFF).describe(),
        "invalid opcode provided for execution"
    );
}
