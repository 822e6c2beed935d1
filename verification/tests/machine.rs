use chip8::chip::Chip;
use chip8::config::FB_LEN;
use chip8::error::ChipError;
use chip8::tui::Tui;

#[test]
fn test_memory_get_and_set() {
    let mut chip: Chip = Chip::new();
    chip.set_byte(0x200, 200);
    let testvar = chip.get_addr(0x200);
    assert_eq!(200, testvar);
}

#[test]
fn new_machine_initial_state() {
    let chip = Chip::new();
    assert_eq!(chip.pc, 0x200);
    assert_eq!(chip.i, 0);
    assert_eq!(chip.stackpointer, 0);
    assert_eq!(chip.delay_timer, 0);
    assert_eq!(chip.sound_timer, 0);
    assert_eq!(chip.waiting_for_key, None);
    assert_eq!(chip.memory.len(), 4096);
    assert_eq!(chip.registers.len(), 16);
    assert_eq!(chip.stack.len(), 16);
    assert_eq!(chip.keymap.len(), 16);
    assert_eq!(chip.display_buffer.len(), FB_LEN);
    for v in chip.registers.iter() {
        assert_eq!(*v, 0);
    }
    for cell in chip.display_buffer.iter() {
        assert!(!*cell);
    }
    for key in chip.keymap.iter() {
        assert!(!*key);
    }
    assert!(!chip.quirks.vf_reset);
    assert!(!chip.quirks.shift_vy);
    assert!(!chip.quirks.increment_i);
}

#[test]
fn new_machine_has_font_loaded() {
    let chip = Chip::new();
    // Glyph 0 starts with 0xF0; glyph F ends with 0x80.
    assert_eq!(chip.memory[0x50], 0xF0);
    assert_eq!(chip.memory[0x51], 0x90);
    assert_eq!(chip.memory[0x9F], 0x80);
    // Just outside the font table the memory is zero.
    assert_eq!(chip.memory[0x4F], 0);
    assert_eq!(chip.memory[0xA0], 0);
}

#[test]
fn load_prog_places_bytes_at_0x200() {
    let mut chip = Chip::new();
    chip.load_prog(vec![1, 2, 3]);
    assert_eq!(chip.memory[0x200], 1);
    assert_eq!(chip.memory[0x201], 2);
    assert_eq!(chip.memory[0x202], 3);
    assert_eq!(chip.memory[0x203], 0);
    assert_eq!(chip.memory[0x1FF], 0);
}

#[test]
fn sound_timer_saturates_at_zero() {
    let mut chip = Chip::new();
    chip.sound_timer = 60;
    for _ in 0..60 {
        chip.tick_timers();
    }
    assert_eq!(chip.sound_timer, 0);
    chip.tick_timers();
    assert_eq!(chip.sound_timer, 0);
}

#[test]
fn both_timers_tick_independently() {
    let mut chip = Chip::new();
    chip.delay_timer = 3;
    chip.sound_timer = 1;
    chip.tick_timers();
    assert_eq!(chip.delay_timer, 2);
    assert_eq!(chip.sound_timer, 0);
    chip.decrement_delay_timer();
    assert_eq!(chip.delay_timer, 1);
    assert_eq!(chip.sound_timer, 0);
    chip.decrement_sound_timer();
    assert_eq!(chip.sound_timer, 0);
}

#[test]
fn set_key_state_is_read_back() {
    let mut chip = Chip::new();
    assert!(!chip.is_key_pressed(0xA));
    chip.set_key_state(0xA, true);
    assert!(chip.is_key_pressed(0xA));
    assert!(!chip.is_key_pressed(0x9));
    chip.set_key_state(0xA, false);
    assert!(!chip.is_key_pressed(0xA));
}

#[test]
fn well_formedness_check_sees_corruption() {
    let mut chip = Chip::new();
    assert!(chip.is_well_formed());
    chip.pc = 5000;
    assert!(!chip.is_well_formed());
    chip.pc = 0x200;
    assert!(chip.is_well_formed());
    chip.stackpointer = 17;
    assert!(!chip.is_well_formed());
}

#[test]
fn framebuffer_accessor_tracks_draws() {
    let mut chip = Chip::new();
    chip.set_pixel(3, 2, true);
    assert!(chip.framebuffer()[2 * 64 + 3]);
    assert!(!chip.framebuffer()[0]);
}

#[test]
fn error_descriptions() {
    assert_eq!(ChipError::DecodeFailure.describe(), "illegal instruction");
    assert_eq!(ChipError::StackOverflow.describe(), "stack overflow");
    assert_eq!(ChipError::StackUnderflow.describe(), "stack underflow");
    assert_eq!(ChipError::InvalidFontDigit.describe(), "font digit out of range");
}

#[test]
fn tui_surface_mirrors_draws() {
    let mut tui = Tui::new();
    assert!(!tui.get_close_window());
    let erased = tui.draw_sprite(0, 0, vec![0b1010_0000]);
    assert!(!erased);
    assert!(tui.bitmap()[0]);
    assert!(!tui.bitmap()[1]);
    assert!(tui.bitmap()[2]);
    let erased_again = tui.draw_sprite(0, 0, vec![0b1000_0000]);
    assert!(erased_again);
    assert!(!tui.bitmap()[0]);
    assert!(tui.bitmap()[2]);
    tui.clear_screen();
    assert!(!tui.bitmap()[2]);
    tui.set_close_window(true);
    assert!(tui.get_close_window());
}

#[test]
fn tui_set_pixel_clips_out_of_bounds() {
    let mut tui = Tui::new();
    assert!(!tui.set_pixel(64, 0, true));
    assert!(!tui.set_pixel(0, 32, true));
    for cell in tui.bitmap().iter() {
        assert!(!*cell);
    }
    assert!(!tui.set_pixel(63, 31, true));
    assert!(tui.bitmap()[31 * 64 + 63]);
    // Erasing the lit pixel reports the erasure.
    assert!(tui.set_pixel(63, 31, true));
}
