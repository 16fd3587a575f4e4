use chip8::display::ChipDisplay;
use chip8::keyboard::ChipKeyboard;
use chip8::memory::ChipMemory;
use chip8::registers::ChipRegisters;

#[test]
fn gp_add_wraps_without_flag() {
    let mut regs = ChipRegisters::init();
    regs.set_gp(3, 0x60);
    regs.add_gp(3, 0xA0);
    assert_eq!(regs.get_gp(3), 0x00);
    assert_eq!(regs.get_gp(15), 0x00);
}

#[test]
fn registers_start_zeroed_with_pc_at_program_start() {
    let regs = ChipRegisters::init();
    for i in 0..16 {
        assert_eq!(regs.get_gp(i), 0);
    }
    assert_eq!(regs.get_pc(), 0x200);
    assert_eq!(regs.get_i(), 0);
    assert_eq!(regs.get_d(), 0);
    assert_eq!(regs.get_s(), 0);
}

#[test]
fn timers_saturate_at_zero() {
    let mut regs = ChipRegisters::init();
    regs.set_d(2);
    regs.decr_d();
    assert_eq!(regs.get_d(), 1);
    regs.decr_d();
    assert_eq!(regs.get_d(), 0);
    regs.decr_d();
    assert_eq!(regs.get_d(), 0);
    regs.set_s(1);
    regs.decr_s();
    assert_eq!(regs.get_s(), 0);
    regs.decr_s();
    assert_eq!(regs.get_s(), 0);
}

#[test]
fn stack_is_lifo_and_bounded() {
    let mut regs = ChipRegisters::init();
    for k in 0..16u16 {
        assert!(regs.push_stack(0x200 + 2 * k).is_ok());
    }
    let overflow = regs.push_stack(0xBEEF);
    assert_eq!(overflow, Err(chip8::system::ExError::StackOverflow));
    for k in (0..16u16).rev() {
        assert_eq!(regs.pop_stack(), Ok(0x200 + 2 * k));
    }
    let underflow = regs.pop_stack();
    assert_eq!(underflow, Err(chip8::system::ExError::StackUnderflow));
}

#[test]
fn memory_holds_font_glyphs() {
    let mem = ChipMemory::init();
    // glyph for digit 0 starts at 0x50
    assert_eq!(mem.get_byte(0x50), 0xF0);
    assert_eq!(mem.get_byte(0x51), 0x90);
    // glyph for digit F ends at 0x9F
    assert_eq!(mem.get_byte(0x9B), 0xF0);
    assert_eq!(mem.get_byte(0x9F), 0x80);
    // outside the glyph table everything is zero
    assert_eq!(mem.get_byte(0x4F), 0);
    assert_eq!(mem.get_byte(0xA0), 0);
    assert_eq!(mem.get_byte(0x200), 0);
    assert!(!mem.has_loaded());
}

#[test]
fn memory_load_bytes_writes_program_region() {
    let mut mem = ChipMemory::init();
    mem.load_bytes(vec![0xAA, 0xBB, 0xCC]);
    assert!(mem.has_loaded());
    assert_eq!(mem.get_byte(0x200), 0xAA);
    assert_eq!(mem.get_byte(0x201), 0xBB);
    assert_eq!(mem.get_byte(0x202), 0xCC);
    assert_eq!(mem.get_byte(0x203), 0x00);
    assert_eq!(mem.get_opcode(0x200), 0xAABB);
}

#[test]
fn memory_load_bytes_accepts_maximum_image() {
    let mut mem = ChipMemory::init();
    let rom = vec![0x7E; 3584];
    mem.load_bytes(rom);
    assert_eq!(mem.get_byte(0x200), 0x7E);
    assert_eq!(mem.get_byte(0xFFF), 0x7E);
    assert_eq!(mem.get_byte(0x1FF), 0x00);
}

#[test]
fn memory_load_bytes_accepts_empty_image() {
    let mut mem = ChipMemory::init();
    mem.load_bytes(Vec::new());
    assert!(mem.has_loaded());
    assert_eq!(mem.get_byte(0x200), 0x00);
}

#[test]
fn memory_get_nbytes_wraps_around() {
    let mut mem = ChipMemory::init();
    mem.set_byte(0xFFF, 0x11);
    mem.set_byte(0x000, 0x22);
    let bytes = mem.get_nbytes(0xFFF, 2);
    assert_eq!(bytes, vec![0x11, 0x22]);
}

#[test]
fn draw_same_sprite_twice_erases_it() {
    let mut disp = ChipDisplay::init();
    let first = disp.draw_sprite(10, 5, vec![0xF0]);
    assert!(!first);
    let grid = disp.get_display();
    for b in 0..4 {
        assert!(grid[5 * 64 + 10 + b]);
    }
    assert!(!grid[5 * 64 + 14]);
    let second = disp.draw_sprite(10, 5, vec![0xF0]);
    assert!(second);
    let grid = disp.get_display();
    for b in 0..8 {
        assert!(!grid[5 * 64 + 10 + b]);
    }
}

#[test]
fn draw_sprite_wraps_toroidally() {
    let mut disp = ChipDisplay::init();
    // four leftmost bits of 0xF0 land on columns 62, 63, 0, 1 of row 31
    let collision = disp.draw_sprite(62, 31, vec![0xF0]);
    assert!(!collision);
    let grid = disp.get_display();
    assert!(grid[31 * 64 + 62]);
    assert!(grid[31 * 64 + 63]);
    assert!(grid[31 * 64 + 0]);
    assert!(grid[31 * 64 + 1]);
    // a second row would wrap to row 0
    let collision = disp.draw_sprite(5, 31, vec![0x80, 0x80]);
    assert!(!collision);
    let grid = disp.get_display();
    assert!(grid[31 * 64 + 5]);
    assert!(grid[0 * 64 + 5]);
}

#[test]
fn draw_sprite_reports_partial_collision() {
    let mut disp = ChipDisplay::init();
    assert!(!disp.draw_sprite(0, 0, vec![0xF0]));
    let collision = disp.draw_sprite(0, 0, vec![0xC0]);
    assert!(collision);
    let grid = disp.get_display();
    assert!(!grid[0]);
    assert!(!grid[1]);
    assert!(grid[2]);
    assert!(grid[3]);
}

#[test]
fn mod_check_is_edge_triggered() {
    let mut disp = ChipDisplay::init();
    assert!(!disp.mod_check());
    disp.clear_display();
    assert!(disp.mod_check());
    assert!(!disp.mod_check());
    let _ = disp.draw_sprite(0, 0, vec![0x80]);
    assert!(disp.mod_check());
    assert!(!disp.mod_check());
}

#[test]
fn clear_display_unlights_everything() {
    let mut disp = ChipDisplay::init();
    let _ = disp.draw_sprite(3, 4, vec![0xFF, 0xFF]);
    disp.clear_display();
    let grid = disp.get_display();
    assert_eq!(grid.len(), 2048);
    for c in 0..2048 {
        assert!(!grid[c]);
    }
}

#[test]
fn keyboard_tracks_presses() {
    let mut kb = ChipKeyboard::init();
    for k in 0..16 {
        assert!(!kb.get_key(k));
    }
    assert!(!kb.any_pressed());
    assert_eq!(kb.which_pressed(), 16);
    kb.set_key(7, true);
    assert!(kb.any_pressed());
    assert!(kb.get_key(7));
    assert_eq!(kb.which_pressed(), 7);
    kb.set_key(7, false);
    assert!(!kb.any_pressed());
    assert_eq!(kb.which_pressed(), 16);
}

#[test]
fn which_pressed_returns_lowest_index() {
    let mut kb = ChipKeyboard::init();
    kb.set_key(9, true);
    assert_eq!(kb.which_pressed(), 9);
    kb.set_key(7, true);
    assert_eq!(kb.which_pressed(), 7);
    kb.set_key(0, true);
    assert_eq!(kb.which_pressed(), 0);
}
