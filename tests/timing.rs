use chip8::throttle::{Pacer, Shared, DEFAULT_RATE, MAX_RATE, NANOS_PER_SEC, RATE_STEP};
use chip8::timers::Timers;

#[test]
fn timers_count_down_to_zero() {
    let mut t = Timers { delay_timer: 3, sound_timer: 1 };
    t.tick();
    assert_eq!(t, Timers { delay_timer: 2, sound_timer: 0 });
    t.tick();
    assert_eq!(t, Timers { delay_timer: 1, sound_timer: 0 });
    t.tick();
    t.tick();
    assert_eq!(t, Timers { delay_timer: 0, sound_timer: 0 });
    assert_eq!(Timers::new(), Timers { delay_timer: 0, sound_timer: 0 });
}

#[test]
fn pacer_deadlines_do_not_drift() {
    let start = 1_000;
    let mut p = Pacer::new(start, 700);
    // exact deadlines: start + k * 10^9 / 700, rounded down
    assert_eq!(p.next, start + 1_428_571);
    let mut last = 0;
    for k in 1..=700u64 {
        let d = p.after_step(false, 700).unwrap();
        assert_eq!(d, start + k * NANOS_PER_SEC / 700);
        last = d;
    }
    assert_eq!(last, start + NANOS_PER_SEC);
    assert_eq!(p.next, start + 701 * NANOS_PER_SEC / 700);
}

#[test]
fn pacer_steady_rate_over_many_seconds() {
    let mut p = Pacer::new(0, 60);
    for _ in 0..(60 * 10 - 1) {
        p.after_step(false, 60);
    }
    assert_eq!(p.next, 10 * NANOS_PER_SEC);
    assert_eq!(p.carry, 0);
}

#[test]
fn pacer_fast_forward_never_waits() {
    let mut p = Pacer::new(5, 700);
    let before = p;
    for _ in 0..100 {
        assert_eq!(p.after_step(true, 700), None);
    }
    assert_eq!(p, before);
}

#[test]
fn pacer_follows_rate_changes() {
    let mut p = Pacer::new(0, 1000);
    assert_eq!(p.next, 1_000_000);
    assert_eq!(p.after_step(false, 500), Some(1_000_000));
    assert_eq!(p.next, 3_000_000);
    assert_eq!(p.rate, 500);
}

#[test]
fn instruction_count_resets_past_target() {
    let mut s = Shared::new(10);
    assert_eq!(s.instrs_per_second, DEFAULT_RATE);
    assert!(!s.fast_forward);
    s.instrs_per_second = 3;
    for k in 1..=3 {
        s.count_instr(20);
        assert_eq!(s.instr_count, k);
        assert_eq!(s.count_start, 10);
    }
    s.count_instr(99);
    assert_eq!(s.instr_count, 0);
    assert_eq!(s.count_start, 99);
    s.count_instr(100);
    s.reset_instr_count(123);
    assert_eq!((s.instr_count, s.count_start), (0, 123));
}

#[test]
fn controls_adjust_rate() {
    let mut s = Shared::new(0);
    s.count_instr(0);
    s.apply_controls(false, true, false, 7);
    assert_eq!(s.instrs_per_second, DEFAULT_RATE + RATE_STEP);
    assert_eq!((s.instr_count, s.count_start), (0, 7));
    s.apply_controls(false, false, true, 8);
    assert_eq!(s.instrs_per_second, DEFAULT_RATE);
    s.instrs_per_second = RATE_STEP;
    s.apply_controls(false, false, true, 9);
    assert_eq!(s.instrs_per_second, RATE_STEP);
    s.instrs_per_second = MAX_RATE;
    s.apply_controls(false, true, false, 9);
    assert_eq!(s.instrs_per_second, MAX_RATE);
}

#[test]
fn controls_toggle_fast_forward() {
    let mut s = Shared::new(0);
    s.apply_controls(true, true, false, 5);
    assert!(s.fast_forward);
    assert_eq!(s.instrs_per_second, DEFAULT_RATE);
    assert_eq!(s.count_start, 0);
    s.apply_controls(true, false, false, 6);
    assert!(!s.fast_forward);
}
