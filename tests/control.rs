use chip8::chip8::{Chip8, Config, Fault};
use chip8::instr::Instr;
use chip8::keys::Keys;
use chip8::screen::Screen;
use chip8::timers::Timers;

fn machine(config: Config, program: &[u8]) -> Chip8 {
    let mut chip = Chip8::new(config);
    chip.load_bytes_at(0x200, program).unwrap();
    chip.set_pc(0x200);
    chip
}

fn steps(chip: &mut Chip8, keys: &Keys, n: usize) -> Result<(), Fault> {
    let mut screen = Screen::new();
    let mut timers = Timers::new();
    for _ in 0..n {
        chip.step_with(&mut screen, &mut timers, keys, 0)?;
    }
    Ok(())
}

fn keys_down(down: &[usize]) -> Keys {
    let mut flags = [false; 16];
    for &k in down {
        flags[k] = true;
    }
    let mut keys = Keys::new();
    keys.set(flags);
    keys
}

#[test]
fn jump_sets_pc() {
    let mut chip = machine(Config::default(), &[0x13, 0x45]);
    steps(&mut chip, &Keys::new(), 1).unwrap();
    assert_eq!(chip.pc(), 0x345);
}

#[test]
fn call_and_return() {
    // 0x200: call 0x206; 0x202: V1 = 9; 0x206: return
    let mut chip = machine(Config::default(), &[0x22, 0x06, 0x61, 0x09, 0x00, 0x00, 0x00, 0xEE]);
    steps(&mut chip, &Keys::new(), 1).unwrap();
    assert_eq!(chip.pc(), 0x206);
    assert_eq!(chip.stack_depth(), 1);
    steps(&mut chip, &Keys::new(), 1).unwrap();
    assert_eq!(chip.pc(), 0x202);
    assert_eq!(chip.stack_depth(), 0);
    steps(&mut chip, &Keys::new(), 1).unwrap();
    assert_eq!(chip.registers().get(1), 9);
}

#[test]
fn return_on_empty_stack_is_a_fault() {
    let mut chip = machine(Config::default(), &[0x00, 0xEE]);
    assert_eq!(steps(&mut chip, &Keys::new(), 1), Err(Fault::StackUnderflow));
    assert_eq!(chip.pc(), 0x202);
}

#[test]
fn machine_code_is_a_fault() {
    let mut chip = machine(Config::default(), &[0x01, 0x23]);
    assert_eq!(steps(&mut chip, &Keys::new(), 1), Err(Fault::MachineCode { word: 0x0123 }));
}

#[test]
fn unknown_instruction_is_a_fault() {
    let mut chip = machine(Config::default(), &[0x61, 0x05, 0x81, 0x28]);
    assert_eq!(steps(&mut chip, &Keys::new(), 2), Err(Fault::UnknownInstruction { word: 0x8128 }));
    assert_eq!(chip.registers().get(1), 5);
}

#[test]
fn fetch_past_top_of_memory_is_a_fault() {
    let mut chip = Chip8::new(Config::default());
    chip.set_pc(0xFFF);
    assert_eq!(steps(&mut chip, &Keys::new(), 1), Err(Fault::ProgramCounterOutOfRange { pc: 0xFFF }));
    assert_eq!(chip.pc(), 0xFFF);
    chip.set_pc(0xFFE);
    assert_eq!(chip.peek_instr(), Some(Instr::new(0, 0)));
    assert_eq!(chip.fetch(), Ok(Instr::new(0, 0)));
    assert_eq!(chip.pc(), 0x1000);
    assert_eq!(chip.peek_instr(), None);
}

#[test]
fn skips_on_immediates() {
    // V1 = 5; skip if V1 == 5; (skipped) V2 = 1; skip if V1 != 5; V3 = 1
    let mut chip = machine(Config::default(), &[0x61, 0x05, 0x31, 0x05, 0x62, 0x01, 0x41, 0x05, 0x63, 0x01]);
    steps(&mut chip, &Keys::new(), 4).unwrap();
    assert_eq!(chip.registers().get(2), 0);
    assert_eq!(chip.registers().get(3), 1);
    assert_eq!(chip.pc(), 0x20A);
}

#[test]
fn skips_on_registers() {
    // V1 = V2 = 5; 5120 skips; 9120 does not
    let mut chip = machine(Config::default(), &[0x61, 0x05, 0x62, 0x05, 0x51, 0x20, 0x00, 0x00, 0x91, 0x20]);
    steps(&mut chip, &Keys::new(), 4).unwrap();
    assert_eq!(chip.pc(), 0x20A);
}

#[test]
fn jump_with_offset_uses_v0_by_default() {
    let mut chip = machine(Config::default(), &[0x60, 0x10, 0x62, 0x20, 0xB2, 0x00]);
    steps(&mut chip, &Keys::new(), 3).unwrap();
    assert_eq!(chip.pc(), 0x210);
}

#[test]
fn jump_with_offset_uses_vx_when_configured() {
    let config = Config { jump_with_offset_register: true, ..Config::default() };
    let mut chip = machine(config, &[0x60, 0x10, 0x62, 0x20, 0xB2, 0x00]);
    steps(&mut chip, &Keys::new(), 3).unwrap();
    assert_eq!(chip.pc(), 0x220);
}

#[test]
fn key_skips_take_key_modulo_sixteen() {
    // V1 = 0x13 names key 3
    let program = [0x61, 0x13, 0xE1, 0x9E, 0x00, 0x00, 0xE1, 0xA1];
    let mut chip = machine(Config::default(), &program);
    steps(&mut chip, &keys_down(&[3]), 3).unwrap();
    assert_eq!(chip.pc(), 0x208);
    let mut chip = machine(Config::default(), &program);
    assert!(steps(&mut chip, &keys_down(&[2]), 3).is_err());
}

#[test]
fn key_wait_replays_until_a_key_is_down() {
    let mut chip = machine(Config::default(), &[0xF5, 0x0A]);
    let none = Keys::new();
    for _ in 0..3 {
        steps(&mut chip, &none, 1).unwrap();
        assert_eq!(chip.pc(), 0x200);
        assert_eq!(chip.registers().get(5), 0);
    }
    steps(&mut chip, &keys_down(&[0xC, 0x7, 0x9]), 1).unwrap();
    assert_eq!(chip.pc(), 0x202);
    assert_eq!(chip.registers().get(5), 7);
}

#[test]
fn keys_report_state() {
    let keys = keys_down(&[0, 15]);
    assert!(keys.get(0));
    assert!(keys.get(15));
    assert!(keys.get(16));
    assert!(!keys.get(1));
    assert_eq!(keys.first_down(), Some(0));
    assert_eq!(Keys::new().first_down(), None);
    let flags: Vec<bool> = keys.iter().copied().collect();
    assert_eq!(flags.len(), 16);
    assert!(flags[0] && flags[15] && !flags[7]);
}

#[test]
fn timer_instructions() {
    // V1 = 30; delay = V1; sound = V1; V2 = delay
    let mut chip = machine(Config::default(), &[0x61, 30, 0xF1, 0x15, 0xF1, 0x18, 0xF2, 0x07]);
    let mut screen = Screen::new();
    let mut timers = Timers::new();
    let keys = Keys::new();
    for _ in 0..3 {
        chip.step_with(&mut screen, &mut timers, &keys, 0).unwrap();
    }
    assert_eq!(timers, Timers { delay_timer: 30, sound_timer: 30 });
    timers.tick();
    chip.step_with(&mut screen, &mut timers, &keys, 0).unwrap();
    assert_eq!(chip.registers().get(2), 29);
}
