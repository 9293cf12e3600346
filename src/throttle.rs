use vstd::arithmetic::div_mod::{
    lemma_div_is_ordered, lemma_fundamental_div_mod, lemma_fundamental_div_mod_converse,
};
use vstd::prelude::*;

verus! {

/// Instructions per second that the engine starts with.
pub const DEFAULT_RATE: u32 = 700;

/// How much one faster or slower command changes the target rate.
pub const RATE_STEP: u32 = 50;

/// The highest target rate: one instruction per nanosecond.
pub const MAX_RATE: u32 = 1_000_000_000;

/// Nanoseconds in one second.
pub const NANOS_PER_SEC: u64 = 1_000_000_000;

/// Settings and measurements shared between the execution loop and the
/// host's controls. Times are nanoseconds on a clock that the host picks.
#[derive(Debug, Clone, Copy, PartialEq, Eq, Structural)]
pub struct Shared {
    /// Target rate, in instructions per second.
    pub instrs_per_second: u32,
    /// When set, the execution loop runs without pausing between instructions.
    pub fast_forward: bool,
    /// Instructions executed since `count_start`.
    pub instr_count: u32,
    /// Start of the current measurement window.
    pub count_start: u64,
}

impl Shared {
    /// The default settings, with a measurement window that starts at `now`.
    pub fn new(now: u64) -> (r: Self)
        ensures
            r == (Shared {
                instrs_per_second: DEFAULT_RATE,
                fast_forward: false,
                instr_count: 0,
                count_start: now,
            }),
    {
        Shared { instrs_per_second: DEFAULT_RATE, fast_forward: false, instr_count: 0, count_start: now }
    }

    /// Starts a new measurement window at `now`.
    pub fn reset_instr_count(&mut self, now: u64)
        ensures
            *final(self) == (Shared { instr_count: 0, count_start: now, ..*old(self) }),
    {
        self.instr_count = 0;
        self.count_start = now;
    }

    /// Counts one executed instruction. Once the count would exceed the
    /// target rate, the window restarts at `now` instead.
    pub fn count_instr(&mut self, now: u64)
        ensures
            old(self).instr_count + 1 > old(self).instrs_per_second ==> *final(self) == (Shared {
                instr_count: 0,
                count_start: now,
                ..*old(self)
            }),
            old(self).instr_count + 1 <= old(self).instrs_per_second ==> *final(self) == (Shared {
                instr_count: (old(self).instr_count + 1) as u32,
                ..*old(self)
            }),
    {
        if self.instr_count >= self.instrs_per_second {
            self.reset_instr_count(now);
        } else {
            self.instr_count += 1;
        }
    }

    /// Applies the commands of one frame of the host's controls: `toggle`
    /// flips fast-forward; then, unless fast-forward is on, `faster` raises
    /// the target by `RATE_STEP` (up to `MAX_RATE`) and `slower` lowers it by
    /// `RATE_STEP` (never below `RATE_STEP`). Each change of the target
    /// restarts the measurement window at `now`.
    pub fn apply_controls(&mut self, toggle: bool, faster: bool, slower: bool, now: u64)
        ensures
            final(self).fast_forward == (old(self).fast_forward != toggle),
            ({
                let ff = final(self).fast_forward;
                let r0 = old(self).instrs_per_second;
                let up = !ff && faster && r0 + RATE_STEP <= MAX_RATE;
                let r1 = if up {
                    r0 + RATE_STEP
                } else {
                    r0 as int
                };
                let down = !ff && slower && r1 >= 2 * RATE_STEP;
                let r2 = if down {
                    r1 - RATE_STEP
                } else {
                    r1
                };
                &&& final(self).instrs_per_second == r2
                &&& (up || down) ==> final(self).instr_count == 0 && final(self).count_start == now
                &&& !(up || down) ==> final(self).instr_count == old(self).instr_count
                    && final(self).count_start == old(self).count_start
            }),
    {
        if toggle {
            self.fast_forward = !self.fast_forward;
        }
        if !self.fast_forward {
            if faster && self.instrs_per_second <= MAX_RATE - RATE_STEP {
                self.instrs_per_second += RATE_STEP;
                self.reset_instr_count(now);
            }
            if slower && self.instrs_per_second >= 2 * RATE_STEP {
                self.instrs_per_second -= RATE_STEP;
                self.reset_instr_count(now);
            }
        }
    }
}

/// Deadlines at a steady rate. Each deadline is the previous one plus one
/// period, so that time lost in waking up never accumulates. The exact
/// deadline is `next + carry / rate` nanoseconds; `next` is what a host
/// sleeps until.
#[derive(Debug, Clone, Copy, PartialEq, Eq, Structural)]
pub struct Pacer {
    pub next: u64,
    pub carry: u64,
    pub rate: u32,
}

impl Pacer {
    pub open spec fn wf(self) -> bool {
        0 < self.rate && self.carry < self.rate
    }
}

/// The pacer after one period at `rate` (events per second). A change of rate
/// drops the fraction of a nanosecond that was carried.
pub open spec fn advance(p: Pacer, rate: u32) -> Pacer {
    let c = (if rate == p.rate {
        p.carry
    } else {
        0
    }) as int + (NANOS_PER_SEC as int) % (rate as int);
    let whole = (NANOS_PER_SEC as int) / (rate as int) + if c >= rate {
        1int
    } else {
        0
    };
    Pacer {
        next: if p.next + whole > u64::MAX {
            u64::MAX
        } else {
            (p.next + whole) as u64
        },
        carry: (if c >= rate {
            c - rate
        } else {
            c
        }) as u64,
        rate,
    }
}

/// The pacer after `k` periods at a fixed rate.
pub open spec fn pace(p: Pacer, rate: u32, k: nat) -> Pacer
    decreases k,
{
    if k == 0 {
        p
    } else {
        advance(pace(p, rate, (k - 1) as nat), rate)
    }
}

/// Splitting a sum across a division: `(a + b) / d` is `a / d + b / d`, plus
/// one when the two remainders add up to `d` or more.
proof fn lemma_div_of_sum(a: int, b: int, d: int)
    requires
        a >= 0,
        b >= 0,
        d > 0,
    ensures
        (a + b) / d == a / d + b / d + if a % d + b % d >= d {
            1int
        } else {
            0
        },
        (a + b) % d == if a % d + b % d >= d {
            a % d + b % d - d
        } else {
            a % d + b % d
        },
{
    lemma_fundamental_div_mod(a, d);
    lemma_fundamental_div_mod(b, d);
    let (qa, ra, qb, rb) = (a / d, a % d, b / d, b % d);
    assert(a + b == (qa + qb) * d + (ra + rb)) by (nonlinear_arith)
        requires
            a == d * qa + ra,
            b == d * qb + rb,
    ;
    if ra + rb >= d {
        assert(a + b == (qa + qb + 1) * d + (ra + rb - d)) by (nonlinear_arith)
            requires
                a + b == (qa + qb) * d + (ra + rb),
        ;
        lemma_fundamental_div_mod_converse(a + b, d, qa + qb + 1, ra + rb - d);
    } else {
        lemma_fundamental_div_mod_converse(a + b, d, qa + qb, ra + rb);
    }
}

/// At a fixed rate `r`, with the host never fast-forwarding, the `k`-th
/// deadline after `p` lies exactly `k` seconds' worth of periods, `k * 10^9 / r`
/// nanoseconds, after `p`'s exact deadline, rounded down to whole
/// nanoseconds: deadlines never drift from the reference instant, so the
/// number of events per elapsed second converges to `r`. (This holds while the
/// deadlines fit in a `u64`.)
pub proof fn lemma_steady_pace(p: Pacer, r: u32, k: nat)
    requires
        p.wf(),
        p.rate == r,
        p.next + (p.carry + k * NANOS_PER_SEC) / (r as int) <= u64::MAX,
    ensures
        pace(p, r, k).next == p.next + (p.carry + k * NANOS_PER_SEC) / (r as int),
        pace(p, r, k).carry == (p.carry + k * NANOS_PER_SEC) % (r as int),
        pace(p, r, k).rate == r,
    decreases k,
{
    let d = r as int;
    let n = NANOS_PER_SEC as int;
    if k == 0 {
        lemma_fundamental_div_mod_converse(p.carry as int, d, 0, p.carry as int);
    } else {
        let k1 = (k - 1) as nat;
        let a = p.carry + k1 * n;
        assert(p.carry + k * n == a + n) by (nonlinear_arith)
            requires
                a == p.carry + k1 * n,
                k1 == k - 1,
        ;
        assert(k1 * n >= 0) by (nonlinear_arith)
            requires
                n >= 0,
        ;
        lemma_div_is_ordered(a, a + n, d);
        lemma_steady_pace(p, r, k1);
        lemma_div_of_sum(a, n, d);
    }
}

impl Pacer {
    /// A pacer whose first deadline is one period after `now`.
    pub fn new(now: u64, rate: u32) -> (r: Self)
        requires
            rate > 0,
        ensures
            r == advance(Pacer { next: now, carry: 0, rate }, rate),
            r.wf(),
    {
        let mut p = Pacer { next: now, carry: 0, rate };
        p.advance(rate);
        p
    }

    fn advance(&mut self, rate: u32)
        requires
            rate > 0,
            old(self).wf(),
        ensures
            *final(self) == advance(*old(self), rate),
            final(self).wf(),
    {
        let base = if rate == self.rate {
            self.carry
        } else {
            0
        };
        let r = rate as u64;
        let c = base + NANOS_PER_SEC % r;
        let whole = NANOS_PER_SEC / r + if c >= r {
            1
        } else {
            0
        };
        self.next = self.next.saturating_add(whole);
        self.carry = if c >= r {
            c - r
        } else {
            c
        };
        self.rate = rate;
    }

    /// Called once per event at the current `rate`. With `fast_forward` the
    /// host must not wait, and the schedule is left alone. Otherwise the
    /// result is the deadline to sleep until, and the schedule moves one
    /// period on.
    pub fn after_step(&mut self, fast_forward: bool, rate: u32) -> (r: Option<u64>)
        requires
            rate > 0,
            old(self).wf(),
        ensures
            fast_forward ==> r is None && *final(self) == *old(self),
            !fast_forward ==> r == Some(old(self).next) && *final(self) == advance(*old(self), rate),
            final(self).wf(),
    {
        if fast_forward {
            return None;
        }
        let deadline = self.next;
        self.advance(rate);
        Some(deadline)
    }
}

} // verus!
