use vstd::prelude::*;

verus! {

/// Rate, in ticks per second, at which both timers count down.
pub const TIMER_RATE: u32 = 60;

/// The delay and sound countdown timers.
#[derive(Debug, Clone, Copy, PartialEq, Eq, Structural)]
pub struct Timers {
    pub delay_timer: u8,
    pub sound_timer: u8,
}

/// One step of a countdown: down by one, but never below zero.
pub open spec fn count_down(t: u8) -> u8 {
    if t > 0 {
        (t - 1) as u8
    } else {
        0
    }
}

impl Timers {
    /// Both timers at zero.
    pub fn new() -> (r: Self)
        ensures
            r.delay_timer == 0,
            r.sound_timer == 0,
    {
        Self { delay_timer: 0, sound_timer: 0 }
    }

    /// One tick of the timer clock: each timer that is not yet zero goes down
    /// by exactly one; a timer at zero stays there.
    pub fn tick(&mut self)
        ensures
            final(self).delay_timer == count_down(old(self).delay_timer),
            final(self).sound_timer == count_down(old(self).sound_timer),
    {
        if self.delay_timer != 0 {
            self.delay_timer -= 1;
        }
        if self.sound_timer != 0 {
            self.sound_timer -= 1;
        }
    }
}

} // verus!
