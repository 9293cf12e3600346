use chip8::chip8::{Chip8, Config, Fault};
use chip8::keys::Keys;
use chip8::memory::Memory;
use chip8::screen::Screen;
use chip8::sprite::draw_sprite;
use chip8::timers::Timers;

fn lit(screen: &Screen) -> usize {
    let mut n = 0;
    for y in 0..32u8 {
        for x in 0..64u8 {
            if screen.pixel(x, y) {
                n += 1;
            }
        }
    }
    n
}

/// A program that points I at a one-row sprite of 0xFF stored at 0x300 and
/// draws it twice at (V1, V2).
fn double_draw(x: u8, y: u8) -> (Chip8, Screen) {
    let mut chip = Chip8::new(Config::default());
    chip.load_bytes_at(0x200, &[0x61, x, 0x62, y, 0xA3, 0x00, 0xD1, 0x21, 0xD1, 0x21]).unwrap();
    chip.load_bytes_at(0x300, &[0xFF]).unwrap();
    chip.set_pc(0x200);
    (chip, Screen::new())
}

#[test]
fn draw_then_redraw_toggles() {
    let (mut chip, mut screen) = double_draw(0, 0);
    let mut timers = Timers::new();
    let keys = Keys::new();
    for _ in 0..4 {
        chip.step_with(&mut screen, &mut timers, &keys, 0).unwrap();
    }
    assert_eq!(lit(&screen), 8);
    for x in 0..8u8 {
        assert!(screen.pixel(x, 0));
    }
    assert_eq!(screen.0[0], 0xFF);
    assert_eq!(chip.registers().get(0xF), 0);
    chip.step_with(&mut screen, &mut timers, &keys, 0).unwrap();
    assert_eq!(lit(&screen), 0);
    assert_eq!(chip.registers().get(0xF), 1);
}

#[test]
fn draw_clips_at_right_edge() {
    let (mut chip, mut screen) = double_draw(60, 5);
    let mut timers = Timers::new();
    let keys = Keys::new();
    for _ in 0..4 {
        chip.step_with(&mut screen, &mut timers, &keys, 0).unwrap();
    }
    assert_eq!(lit(&screen), 4);
    for x in 60..64u8 {
        assert!(screen.pixel(x, 5));
    }
    for x in 0..4u8 {
        assert!(!screen.pixel(x, 5));
        assert!(!screen.pixel(x, 6));
    }
}

#[test]
fn draw_start_wraps_coordinates() {
    // x = 65 starts at column 1, y = 33 at row 1
    let (mut chip, mut screen) = double_draw(65, 33);
    let mut timers = Timers::new();
    let keys = Keys::new();
    for _ in 0..4 {
        chip.step_with(&mut screen, &mut timers, &keys, 0).unwrap();
    }
    assert!(!screen.pixel(0, 1));
    assert!(screen.pixel(1, 1));
    assert!(screen.pixel(8, 1));
    assert_eq!(lit(&screen), 8);
}

#[test]
fn draw_clips_at_bottom_edge() {
    let mut screen = Screen::new();
    let mut memory = Memory::new();
    memory.load_bytes_at(0x300, &[0x80, 0x80, 0x80, 0x80]).unwrap();
    let hit = draw_sprite(&mut screen, &memory, 0x300, 10, 30, 4);
    assert!(!hit);
    assert_eq!(lit(&screen), 2);
    assert!(screen.pixel(10, 30));
    assert!(screen.pixel(10, 31));
    assert!(!screen.pixel(10, 0));
    assert!(!screen.pixel(10, 1));
}

#[test]
fn draw_sprite_reports_partial_collision() {
    let mut screen = Screen::new();
    let memory = Memory::new();
    // glyph "0" at 0x50: F0 90 90 90 F0
    assert!(screen.toggle(0, 1));
    let hit = draw_sprite(&mut screen, &memory, 0x50, 0, 0, 5);
    assert!(hit);
    assert!(!screen.pixel(0, 1));
    assert!(screen.pixel(3, 1));
    assert!(screen.pixel(0, 0));
    assert!(screen.pixel(3, 0));
    assert!(!screen.pixel(4, 0));
    assert!(screen.pixel(0, 2));
    assert!(!screen.pixel(1, 2));
    assert_eq!(lit(&screen), 13);
}

#[test]
fn clear_screen_instruction() {
    let mut chip = Chip8::new(Config::default());
    chip.load_bytes_at(0x200, &[0x00, 0xE0]).unwrap();
    chip.set_pc(0x200);
    let mut screen = Screen::new();
    screen.toggle(3, 4);
    screen.toggle(63, 31);
    let mut timers = Timers::new();
    chip.step_with(&mut screen, &mut timers, &Keys::new(), 0).unwrap();
    assert_eq!(lit(&screen), 0);
    assert_eq!(screen, Screen::new());
}

#[test]
fn toggle_reports_new_state() {
    let mut screen = Screen::new();
    assert!(screen.toggle(63, 31));
    assert_eq!(screen.0[31], 1u64 << 63);
    assert!(!screen.toggle(63, 31));
    assert_eq!(screen.0[31], 0);
    screen.toggle(5, 2);
    screen.clear();
    assert_eq!(screen, Screen::new());
}

#[test]
fn draw_past_top_of_memory_is_a_fault() {
    let mut chip = Chip8::new(Config::default());
    // I = 0xFFE, draw 4 rows
    chip.load_bytes_at(0x200, &[0xAF, 0xFE, 0xD0, 0x04]).unwrap();
    chip.set_pc(0x200);
    let mut screen = Screen::new();
    let mut timers = Timers::new();
    let keys = Keys::new();
    chip.step_with(&mut screen, &mut timers, &keys, 0).unwrap();
    assert_eq!(
        chip.step_with(&mut screen, &mut timers, &keys, 0),
        Err(Fault::IndexOutOfRange { index: 0xFFE })
    );
    assert_eq!(lit(&screen), 0);
}
