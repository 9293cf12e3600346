use chip8::chip8::{Chip8, Config, Fault};
use chip8::keys::Keys;
use chip8::memory::{LoadError, FONT, FONT_START, MEMORY_SIZE};
use chip8::screen::Screen;
use chip8::timers::Timers;

fn run(config: Config, program: &[u8]) -> Chip8 {
    let mut chip = Chip8::new(config);
    chip.load_bytes_at(0x200, program).unwrap();
    chip.set_pc(0x200);
    let mut screen = Screen::new();
    let mut timers = Timers::new();
    let keys = Keys::new();
    for _ in 0..program.len() / 2 {
        chip.step_with(&mut screen, &mut timers, &keys, 0).unwrap();
    }
    chip
}

#[test]
fn bcd_writes_three_digits() {
    // V5 = 156, I = 0x300, BCD of V5
    let chip = run(Config::default(), &[0x65, 156, 0xA3, 0x00, 0xF5, 0x33]);
    assert_eq!(chip.memory().get(0x300), 1);
    assert_eq!(chip.memory().get(0x301), 5);
    assert_eq!(chip.memory().get(0x302), 6);
    assert_eq!(chip.index(), 0x300);
}

#[test]
fn bcd_of_small_values() {
    let chip = run(Config::default(), &[0x65, 7, 0xA3, 0x00, 0xF5, 0x33]);
    assert_eq!(chip.memory().get(0x300), 0);
    assert_eq!(chip.memory().get(0x301), 0);
    assert_eq!(chip.memory().get(0x302), 7);
}

#[test]
fn store_then_load_round_trip() {
    let program = [
        0x60, 0x11, 0x61, 0x22, 0x62, 0x33, 0x63, 0x44, // V0..V3
        0xA3, 0x00, 0xF3, 0x55, // I = 0x300, store V0..V3
        0x60, 0x00, 0x61, 0x00, 0x62, 0x00, 0x63, 0x00, // clobber
        0xF3, 0x65, // load V0..V3
    ];
    let chip = run(Config::default(), &program);
    assert_eq!(chip.registers().get(0), 0x11);
    assert_eq!(chip.registers().get(1), 0x22);
    assert_eq!(chip.registers().get(2), 0x33);
    assert_eq!(chip.registers().get(3), 0x44);
    assert_eq!(chip.memory().get(0x303), 0x44);
    assert_eq!(chip.memory().get(0x304), 0);
    assert_eq!(chip.index(), 0x300);
}

#[test]
fn store_advances_index_when_configured() {
    let config = Config { update_i_after_store_or_load: true, ..Config::default() };
    let chip = run(config, &[0x60, 0x01, 0x61, 0x02, 0xA3, 0x00, 0xF1, 0x55]);
    assert_eq!(chip.index(), 0x302);
    assert_eq!(chip.memory().get(0x300), 1);
    assert_eq!(chip.memory().get(0x301), 2);
    // load back from the same index
    let chip = run(config, &[0x60, 0x01, 0x61, 0x02, 0xA3, 0x00, 0xF1, 0x55, 0x60, 0x00, 0xA3, 0x00, 0xF1, 0x65]);
    assert_eq!(chip.registers().get(0), 1);
    assert_eq!(chip.index(), 0x302);
}

#[test]
fn store_past_top_of_memory_is_a_fault() {
    let mut chip = Chip8::new(Config::default());
    chip.load_bytes_at(0x200, &[0xAF, 0xFE, 0xF2, 0x55]).unwrap();
    chip.set_pc(0x200);
    let mut screen = Screen::new();
    let mut timers = Timers::new();
    let keys = Keys::new();
    chip.step_with(&mut screen, &mut timers, &keys, 0).unwrap();
    assert_eq!(
        chip.step_with(&mut screen, &mut timers, &keys, 0),
        Err(Fault::IndexOutOfRange { index: 0xFFE })
    );
    assert_eq!(chip.memory().get(0xFFE), 0);
}

#[test]
fn add_to_index_wraps_and_flags() {
    // I = 0xFFF, V1 = 2, I += V1
    let chip = run(Config::default(), &[0xAF, 0xFF, 0x61, 0x02, 0xF1, 0x1E]);
    assert_eq!(chip.index(), 0x001);
    assert_eq!(chip.registers().get(0xF), 1);
}

#[test]
fn add_to_index_leaves_flag_without_overflow() {
    // VF = 7 beforehand; no overflow leaves it alone
    let chip = run(Config::default(), &[0x6F, 0x07, 0xA1, 0x00, 0x61, 0x02, 0xF1, 0x1E]);
    assert_eq!(chip.index(), 0x102);
    assert_eq!(chip.registers().get(0xF), 7);
}

#[test]
fn font_character_points_at_glyph() {
    // V3 = 0x1A: low nibble A
    let chip = run(Config::default(), &[0x63, 0x1A, 0xF3, 0x29]);
    assert_eq!(chip.index(), 0x50 + 10 * 5);
    assert_eq!(chip.memory().get(chip.index()), 0xF0);
}

#[test]
fn font_is_loaded_at_start() {
    let chip = Chip8::new(Config::default());
    for k in 0..80 {
        assert_eq!(chip.memory().get(FONT_START + k), FONT[k]);
    }
    assert_eq!(chip.memory().get(0x4F), 0);
    assert_eq!(chip.memory().get(0xA0), 0);
    assert_eq!(chip.memory().get(MEMORY_SIZE - 1), 0);
}

#[test]
fn load_rejects_oversized_program() {
    let mut chip = Chip8::new(Config::default());
    let big = vec![1u8; MEMORY_SIZE - 0x200 + 1];
    assert_eq!(chip.load_bytes_at(0x200, &big), Err(LoadError::TooLarge));
    assert_eq!(chip.memory().get(0x200), 0);
    let fits = vec![1u8; MEMORY_SIZE - 0x200];
    assert_eq!(chip.load_bytes_at(0x200, &fits), Ok(()));
    assert_eq!(chip.memory().get(MEMORY_SIZE - 1), 1);
}

#[test]
fn load_rejects_font_overlap() {
    let mut chip = Chip8::new(Config::default());
    assert_eq!(chip.load_bytes_at(0x9F, &[1, 2]), Err(LoadError::OverlapsFont));
    assert_eq!(chip.load_bytes_at(0x40, &[1; 0x10]), Ok(()));
    assert_eq!(chip.load_bytes_at(0x40, &[1; 0x11]), Err(LoadError::OverlapsFont));
    assert_eq!(chip.memory().get(0x50), 0xF0);
    assert_eq!(chip.load_bytes_at(0xA0, &[9]), Ok(()));
    assert_eq!(chip.memory().get(0xA0), 9);
}
