//! A reloading countdown timer: it counts a fixed period of ticks down and
//! reports each underflow, wrapping back into the period.
use vstd::prelude::*;

verus! {

/// A countdown over `period` ticks. `timer` holds the ticks left before the
/// next underflow; a `period` of zero disables the countdown.
#[derive(Clone, Copy, PartialEq, Eq, Structural, Debug)]
pub struct FrameSequencer {
    pub timer: u32,
    pub period: u32,
}

/// The sequencer state and underflow report after counting `cycles` ticks
/// down at once: the timer falls by `cycles` modulo the period (with the
/// mathematical, always-non-negative remainder), and an underflow is
/// reported exactly when the timer held fewer ticks than were consumed.
pub open spec fn spec_step_multiple(fs: FrameSequencer, cycles: u8) -> (FrameSequencer, bool) {
    if fs.period > 0 {
        let reduced = (fs.timer - cycles) % (fs.period as int);
        (FrameSequencer { timer: reduced as u32, period: fs.period }, fs.timer < cycles)
    } else {
        (fs, false)
    }
}

impl FrameSequencer {
    /// A sequencer that first underflows after `initial_delay + 1` ticks and
    /// every `period` ticks after a reload.
    pub fn new(initial_delay: u32, period: u32) -> (r: FrameSequencer)
        ensures
            r == (FrameSequencer { timer: initial_delay, period: period }),
    {
        FrameSequencer { timer: initial_delay, period }
    }

    /// Counts `cycles` ticks down at once.
    pub fn step_multiple(&mut self, cycles: u8) -> (underflow: bool)
        ensures
            (*final(self), underflow) == spec_step_multiple(*old(self), cycles),
    {
        if self.period > 0 {
            let c: u32 = cycles as u32;
            let underflow: bool = self.timer < c;
            if c <= self.timer {
                let d: u32 = self.timer - c;
                self.timer = d % self.period;
                proof {
                    vstd::arithmetic::div_mod::lemma_mod_bound(d as int, self.period as int);
                }
            } else {
                let d: u32 = c - self.timer;
                let r: u32 = d % self.period;
                let reloaded: u32 = if r == 0 {
                    0
                } else {
                    self.period - r
                };
                proof {
                    lemma_neg_mod(d as int, self.period as int);
                }
                self.timer = reloaded;
            }
            underflow
        } else {
            false
        }
    }

    /// Counts a single tick down.
    pub fn step(&mut self) -> (underflow: bool)
        ensures
            (*final(self), underflow) == spec_step_multiple(*old(self), 1),
    {
        self.step_multiple(1)
    }
}

/// The mathematical remainder of `-d` modulo `p`: zero when `p` divides
/// `d`, and otherwise the distance from `d % p` up to `p`.
proof fn lemma_neg_mod(d: int, p: int)
    requires
        0 < p,
        0 <= d,
    ensures
        (-d) % p == if d % p == 0 { 0int } else { p - (d % p) },
{
    let q = d / p;
    let r = d % p;
    vstd::arithmetic::div_mod::lemma_fundamental_div_mod(d, p);
    vstd::arithmetic::div_mod::lemma_mod_bound(d, p);
    if r == 0 {
        assert((-d) == (-q) * p + 0) by (nonlinear_arith)
            requires
                d == q * p + r,
                r == 0,
        ;
        vstd::arithmetic::div_mod::lemma_fundamental_div_mod_converse(-d, p, -q, 0);
    } else {
        assert((-d) == (-q - 1) * p + (p - r)) by (nonlinear_arith)
            requires
                d == q * p + r,
        ;
        vstd::arithmetic::div_mod::lemma_fundamental_div_mod_converse(-d, p, -q - 1, p - r);
    }
}

} // verus!
