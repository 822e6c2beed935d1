use chip8::chip::Chip;
use chip8::error::ChipError;

fn put_op(chip: &mut Chip, addr: u16, op: u16) {
    chip.set_byte(addr, (op >> 8) as u8);
    chip.set_byte(addr + 1, (op & 0xFF) as u8);
}

fn step(chip: &mut Chip) {
    chip.step_with_random(0).unwrap();
}

fn cell(x: usize, y: usize) -> usize {
    y * 64 + x
}

#[test]
fn cls_clears_screen_and_advances_pc() {
    let mut chip = Chip::new();
    chip.set_pixel(5, 5, true);
    chip.set_pixel(63, 31, true);
    put_op(&mut chip, 0x200, 0x00E0);
    step(&mut chip);
    for c in chip.display_buffer.iter() {
        assert!(!*c);
    }
    assert_eq!(chip.pc, 0x202);
}

#[test]
fn empty_opcode_only_advances() {
    let mut chip = Chip::new();
    put_op(&mut chip, 0x200, 0x0123);
    step(&mut chip);
    assert_eq!(chip.pc, 0x202);
    assert_eq!(chip.stackpointer, 0);
}

#[test]
fn ld_then_add_immediate() {
    let mut chip = Chip::new();
    put_op(&mut chip, 0x200, 0x6005);
    put_op(&mut chip, 0x202, 0x700A);
    step(&mut chip);
    assert_eq!(chip.registers[0], 0x05);
    step(&mut chip);
    assert_eq!(chip.registers[0], 0x0F);
    assert_eq!(chip.pc, 0x204);
}

#[test]
fn add_immediate_wraps_without_touching_vf() {
    let mut chip = Chip::new();
    chip.registers[1] = 0xFF;
    chip.registers[0xF] = 0;
    put_op(&mut chip, 0x200, 0x7102);
    step(&mut chip);
    assert_eq!(chip.registers[1], 0x01);
    assert_eq!(chip.registers[0xF], 0);
}

#[test]
fn add_register_sets_carry() {
    let mut chip = Chip::new();
    chip.registers[0] = 0xFF;
    chip.registers[1] = 0x02;
    put_op(&mut chip, 0x200, 0x8014);
    step(&mut chip);
    assert_eq!(chip.registers[0], 0x01);
    assert_eq!(chip.registers[0xF], 1);
}

#[test]
fn add_register_without_carry() {
    let mut chip = Chip::new();
    chip.registers[0] = 0x10;
    chip.registers[1] = 0x20;
    put_op(&mut chip, 0x200, 0x8014);
    step(&mut chip);
    assert_eq!(chip.registers[0], 0x30);
    assert_eq!(chip.registers[0xF], 0);
}

#[test]
fn sub_register_with_borrow() {
    let mut chip = Chip::new();
    chip.registers[0] = 0x03;
    chip.registers[1] = 0x05;
    put_op(&mut chip, 0x200, 0x8015);
    step(&mut chip);
    assert_eq!(chip.registers[0], 0xFE);
    assert_eq!(chip.registers[0xF], 0);
}

#[test]
fn sub_register_without_borrow() {
    let mut chip = Chip::new();
    chip.registers[0] = 0x05;
    chip.registers[1] = 0x03;
    put_op(&mut chip, 0x200, 0x8015);
    step(&mut chip);
    assert_eq!(chip.registers[0], 0x02);
    assert_eq!(chip.registers[0xF], 1);
}

#[test]
fn subn_register_reverses_operands() {
    let mut chip = Chip::new();
    chip.registers[0] = 0x05;
    chip.registers[1] = 0x03;
    put_op(&mut chip, 0x200, 0x8017);
    step(&mut chip);
    assert_eq!(chip.registers[0], 0xFE);
    assert_eq!(chip.registers[0xF], 0);
}

#[test]
fn logic_ops_leave_vf_by_default() {
    let mut chip = Chip::new();
    chip.registers[0] = 0b1010;
    chip.registers[1] = 0b0110;
    chip.registers[0xF] = 7;
    put_op(&mut chip, 0x200, 0x8011);
    put_op(&mut chip, 0x202, 0x8012);
    put_op(&mut chip, 0x204, 0x8013);
    step(&mut chip);
    assert_eq!(chip.registers[0], 0b1110);
    assert_eq!(chip.registers[0xF], 7);
    step(&mut chip);
    assert_eq!(chip.registers[0], 0b0110);
    assert_eq!(chip.registers[0xF], 7);
    step(&mut chip);
    assert_eq!(chip.registers[0], 0b0000);
    assert_eq!(chip.registers[0xF], 7);
}

#[test]
fn vf_reset_quirk_clears_flags_on_logic_ops() {
    let mut chip = Chip::new();
    chip.quirks.vf_reset = true;
    chip.registers[0] = 0b1010;
    chip.registers[1] = 0b0110;
    chip.registers[0xF] = 7;
    put_op(&mut chip, 0x200, 0x8011);
    step(&mut chip);
    assert_eq!(chip.registers[0], 0b1110);
    assert_eq!(chip.registers[0xF], 0);
}

#[test]
fn shift_right_uses_vx_by_default() {
    let mut chip = Chip::new();
    chip.registers[0] = 0b0000_0101;
    chip.registers[1] = 0b1111_0000;
    put_op(&mut chip, 0x200, 0x8016);
    step(&mut chip);
    assert_eq!(chip.registers[0], 0b0000_0010);
    assert_eq!(chip.registers[0xF], 1);
    assert_eq!(chip.registers[1], 0b1111_0000);
}

#[test]
fn shift_left_uses_vx_by_default() {
    let mut chip = Chip::new();
    chip.registers[0] = 0x81;
    put_op(&mut chip, 0x200, 0x801E);
    step(&mut chip);
    assert_eq!(chip.registers[0], 0x02);
    assert_eq!(chip.registers[0xF], 1);
}

#[test]
fn shift_quirk_reads_vy() {
    let mut chip = Chip::new();
    chip.quirks.shift_vy = true;
    chip.registers[0] = 0xFF;
    chip.registers[1] = 0b0000_0100;
    put_op(&mut chip, 0x200, 0x8016);
    step(&mut chip);
    assert_eq!(chip.registers[0], 0b0000_0010);
    assert_eq!(chip.registers[0xF], 0);
}

#[test]
fn jump_sets_pc_directly() {
    let mut chip = Chip::new();
    put_op(&mut chip, 0x200, 0x1ABC);
    step(&mut chip);
    assert_eq!(chip.pc, 0xABC);
}

#[test]
fn jump_with_offset_adds_v0() {
    let mut chip = Chip::new();
    chip.registers[0] = 0x04;
    put_op(&mut chip, 0x200, 0xB300);
    step(&mut chip);
    assert_eq!(chip.pc, 0x304);
}

#[test]
fn call_then_ret_restores_pc_and_stack() {
    let mut chip = Chip::new();
    put_op(&mut chip, 0x200, 0x2300);
    put_op(&mut chip, 0x300, 0x00EE);
    step(&mut chip);
    assert_eq!(chip.pc, 0x300);
    assert_eq!(chip.stackpointer, 1);
    assert_eq!(chip.stack[0], 0x202);
    step(&mut chip);
    assert_eq!(chip.pc, 0x202);
    assert_eq!(chip.stackpointer, 0);
}

#[test]
fn skip_equal_immediate() {
    let mut chip = Chip::new();
    chip.registers[2] = 0x42;
    put_op(&mut chip, 0x200, 0x3242);
    step(&mut chip);
    assert_eq!(chip.pc, 0x204);
    let mut chip2 = Chip::new();
    chip2.registers[2] = 0x41;
    put_op(&mut chip2, 0x200, 0x3242);
    step(&mut chip2);
    assert_eq!(chip2.pc, 0x202);
}

#[test]
fn skip_not_equal_immediate() {
    let mut chip = Chip::new();
    chip.registers[2] = 0x41;
    put_op(&mut chip, 0x200, 0x4242);
    step(&mut chip);
    assert_eq!(chip.pc, 0x204);
}

#[test]
fn skip_on_register_compare() {
    let mut chip = Chip::new();
    chip.registers[1] = 9;
    chip.registers[2] = 9;
    put_op(&mut chip, 0x200, 0x5120);
    step(&mut chip);
    assert_eq!(chip.pc, 0x204);
    let mut chip2 = Chip::new();
    chip2.registers[1] = 9;
    chip2.registers[2] = 8;
    put_op(&mut chip2, 0x200, 0x9120);
    step(&mut chip2);
    assert_eq!(chip2.pc, 0x204);
}

#[test]
fn skip_on_key_state() {
    let mut chip = Chip::new();
    chip.registers[0] = 0xB;
    chip.set_key_state(0xB, true);
    put_op(&mut chip, 0x200, 0xE09E);
    step(&mut chip);
    assert_eq!(chip.pc, 0x204);
    let mut chip2 = Chip::new();
    chip2.registers[0] = 0xB;
    put_op(&mut chip2, 0x200, 0xE0A1);
    step(&mut chip2);
    assert_eq!(chip2.pc, 0x204);
}

#[test]
fn timer_transfers() {
    let mut chip = Chip::new();
    chip.registers[3] = 9;
    put_op(&mut chip, 0x200, 0xF315);
    put_op(&mut chip, 0x202, 0xF318);
    put_op(&mut chip, 0x204, 0xF507);
    step(&mut chip);
    assert_eq!(chip.delay_timer, 9);
    step(&mut chip);
    assert_eq!(chip.sound_timer, 9);
    step(&mut chip);
    assert_eq!(chip.registers[5], 9);
}

#[test]
fn load_index_and_add_to_index() {
    let mut chip = Chip::new();
    chip.registers[0] = 5;
    put_op(&mut chip, 0x200, 0xA100);
    put_op(&mut chip, 0x202, 0xF01E);
    step(&mut chip);
    assert_eq!(chip.i, 0x100);
    step(&mut chip);
    assert_eq!(chip.i, 0x105);
}

#[test]
fn add_to_index_wraps_modulo_memory() {
    let mut chip = Chip::new();
    chip.registers[0] = 2;
    put_op(&mut chip, 0x200, 0xAFFF);
    put_op(&mut chip, 0x202, 0xF01E);
    step(&mut chip);
    step(&mut chip);
    assert_eq!(chip.i, 0x001);
}

#[test]
fn font_address_for_digits() {
    let mut chip = Chip::new();
    put_op(&mut chip, 0x200, 0x6000);
    put_op(&mut chip, 0x202, 0xF029);
    step(&mut chip);
    step(&mut chip);
    assert_eq!(chip.i, 0x050);

    let mut chip2 = Chip::new();
    put_op(&mut chip2, 0x200, 0x600F);
    put_op(&mut chip2, 0x202, 0xF029);
    step(&mut chip2);
    step(&mut chip2);
    assert_eq!(chip2.i, 0x09B);
}

#[test]
fn bcd_decomposition() {
    let mut chip = Chip::new();
    chip.registers[0] = 234;
    put_op(&mut chip, 0x200, 0xA300);
    put_op(&mut chip, 0x202, 0xF033);
    step(&mut chip);
    step(&mut chip);
    assert_eq!(chip.memory[0x300], 2);
    assert_eq!(chip.memory[0x301], 3);
    assert_eq!(chip.memory[0x302], 4);
}

#[test]
fn store_and_load_register_block() {
    let mut chip = Chip::new();
    for k in 0..4 {
        chip.registers[k] = (10 + k) as u8;
    }
    put_op(&mut chip, 0x200, 0xA300);
    put_op(&mut chip, 0x202, 0xF355);
    step(&mut chip);
    step(&mut chip);
    assert_eq!(chip.memory[0x300], 10);
    assert_eq!(chip.memory[0x301], 11);
    assert_eq!(chip.memory[0x302], 12);
    assert_eq!(chip.memory[0x303], 13);
    assert_eq!(chip.memory[0x304], 0);
    // The index register is untouched by default.
    assert_eq!(chip.i, 0x300);

    let mut chip2 = Chip::new();
    chip2.set_byte(0x300, 21);
    chip2.set_byte(0x301, 22);
    put_op(&mut chip2, 0x200, 0xA300);
    put_op(&mut chip2, 0x202, 0xF165);
    step(&mut chip2);
    step(&mut chip2);
    assert_eq!(chip2.registers[0], 21);
    assert_eq!(chip2.registers[1], 22);
    assert_eq!(chip2.registers[2], 0);
    assert_eq!(chip2.i, 0x300);
}

#[test]
fn increment_i_quirk_moves_index_past_block() {
    let mut chip = Chip::new();
    chip.quirks.increment_i = true;
    put_op(&mut chip, 0x200, 0xA300);
    put_op(&mut chip, 0x202, 0xF255);
    step(&mut chip);
    step(&mut chip);
    assert_eq!(chip.i, 0x303);
}

#[test]
fn random_value_is_masked() {
    let mut chip = Chip::new();
    put_op(&mut chip, 0x200, 0xC0FF);
    chip.step_with_random(0xAB).unwrap();
    assert_eq!(chip.registers[0], 0xAB);

    let mut chip2 = Chip::new();
    put_op(&mut chip2, 0x200, 0xC00F);
    chip2.step_with_random(0xAB).unwrap();
    assert_eq!(chip2.registers[0], 0x0B);
}

#[test]
fn random_masked_to_zero_is_deterministic() {
    // With mask 0x00 the drawn byte cannot show through: whatever the
    // process-wide generator returned, the result is zero.
    let mut chip = Chip::new();
    chip.registers[0] = 0x55;
    put_op(&mut chip, 0x200, 0xC000);
    chip.execute_inst().unwrap();
    assert_eq!(chip.registers[0], 0x00);
    assert_eq!(chip.pc, 0x202);
}

#[test]
fn draw_lights_pixels_and_reports_collision() {
    let mut chip = Chip::new();
    chip.set_byte(0x210, 0xF0);
    put_op(&mut chip, 0x200, 0xA210);
    put_op(&mut chip, 0x202, 0xD001);
    put_op(&mut chip, 0x204, 0xD001);
    step(&mut chip);
    step(&mut chip);
    assert!(chip.display_buffer[cell(0, 0)]);
    assert!(chip.display_buffer[cell(3, 0)]);
    assert!(!chip.display_buffer[cell(4, 0)]);
    assert_eq!(chip.registers[0xF], 0);
    // Drawing the same sprite again at the same anchor erases it and
    // reports the collision.
    step(&mut chip);
    assert!(!chip.display_buffer[cell(0, 0)]);
    assert!(!chip.display_buffer[cell(3, 0)]);
    assert_eq!(chip.registers[0xF], 1);
}

#[test]
fn draw_clips_at_right_edge() {
    let mut chip = Chip::new();
    chip.registers[0] = 60;
    chip.registers[1] = 0;
    chip.set_byte(0x210, 0xFF);
    put_op(&mut chip, 0x200, 0xA210);
    put_op(&mut chip, 0x202, 0xD011);
    step(&mut chip);
    step(&mut chip);
    for x in 60..64 {
        assert!(chip.display_buffer[cell(x, 0)]);
    }
    // The four pixels past the edge are discarded, not wrapped.
    for x in 0..4 {
        assert!(!chip.display_buffer[cell(x, 0)]);
    }
}

#[test]
fn draw_anchor_wraps_modulo_screen() {
    let mut chip = Chip::new();
    chip.registers[0] = 66;
    chip.registers[1] = 33;
    chip.set_byte(0x210, 0x80);
    put_op(&mut chip, 0x200, 0xA210);
    put_op(&mut chip, 0x202, 0xD011);
    step(&mut chip);
    step(&mut chip);
    assert!(chip.display_buffer[cell(2, 1)]);
}

#[test]
fn draw_twice_restores_framebuffer() {
    let mut chip = Chip::new();
    let before: Vec<bool> = chip.display_buffer.clone();
    let erased = chip.draw_sprite_to_display_buffer(7, 9, vec![0x3C, 0x42, 0x81]);
    assert!(!erased);
    assert_ne!(chip.display_buffer, before);
    let erased_again = chip.draw_sprite_to_display_buffer(7, 9, vec![0x3C, 0x42, 0x81]);
    assert!(erased_again);
    assert_eq!(chip.display_buffer, before);
}

#[test]
fn wait_for_key_suspends_until_a_key_arrives() {
    let mut chip = Chip::new();
    put_op(&mut chip, 0x200, 0xF50A);
    step(&mut chip);
    assert_eq!(chip.pc, 0x200);
    assert_eq!(chip.waiting_for_key, Some(5));
    // Still suspended: stepping does not advance or re-decode.
    step(&mut chip);
    step(&mut chip);
    assert_eq!(chip.pc, 0x200);
    chip.set_key_state(0x7, true);
    chip.set_key_state(0x9, true);
    step(&mut chip);
    // The lowest pressed key is committed and execution resumes.
    assert_eq!(chip.registers[5], 0x7);
    assert_eq!(chip.waiting_for_key, None);
    assert_eq!(chip.pc, 0x202);
}

#[test]
fn stack_underflow_on_ret_at_empty_stack() {
    let mut chip = Chip::new();
    put_op(&mut chip, 0x200, 0x00EE);
    assert_eq!(chip.step_with_random(0), Err(ChipError::StackUnderflow));
    assert_eq!(chip.pc, 0x200);
}

#[test]
fn stack_overflow_on_seventeenth_call() {
    let mut chip = Chip::new();
    put_op(&mut chip, 0x200, 0x2200);
    for _ in 0..16 {
        assert_eq!(chip.step_with_random(0), Ok(()));
    }
    assert_eq!(chip.stackpointer, 16);
    assert_eq!(chip.step_with_random(0), Err(ChipError::StackOverflow));
    assert_eq!(chip.stackpointer, 16);
    assert_eq!(chip.pc, 0x200);
}

#[test]
fn invalid_font_digit_is_fatal() {
    let mut chip = Chip::new();
    chip.registers[0] = 0x10;
    put_op(&mut chip, 0x200, 0xF029);
    assert_eq!(chip.step_with_random(0), Err(ChipError::InvalidFontDigit));
    assert_eq!(chip.pc, 0x200);
    assert_eq!(chip.i, 0);
}

#[test]
fn decode_failure_is_fatal_and_leaves_state() {
    let mut chip = Chip::new();
    put_op(&mut chip, 0x200, 0x8008);
    assert_eq!(chip.step_with_random(0), Err(ChipError::DecodeFailure));
    assert_eq!(chip.pc, 0x200);
}

#[test]
fn register_copy_and_delay_read() {
    let mut chip = Chip::new();
    chip.registers[4] = 0x7E;
    put_op(&mut chip, 0x200, 0x8240);
    step(&mut chip);
    assert_eq!(chip.registers[2], 0x7E);
    assert_eq!(chip.registers[4], 0x7E);
}
