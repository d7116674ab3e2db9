//! Bounds on what the generator does not show.
//!
//! The generator keeps its place on the ramp and its running delay to
//! itself, and computes on them in `u32` without checks. A [`Watch`] follows
//! a generator from what the generator is told and from the delays that it
//! gives, and keeps bounds on both. Where the bounds are narrow enough, they
//! show that the next request for a delay stays within the range of the
//! generator's arithmetic.

use crate::profile::{advances, ProfileView};
use vstd::prelude::*;

verus! {

/// What is known of a generator.
#[derive(Clone, Copy, Debug)]
pub struct Watch {
    /// The delay asked for, in 16.8 ticks; 0 before a speed is set.
    pub asked: u32,
    /// The first delay of a ramp, in 16.8 ticks; 0 before an acceleration
    /// is set.
    pub first: u32,
    /// The target step.
    pub aim: u32,
    /// The delay of the cruise, in 16.8 ticks; 0 while the generator does
    /// not cruise.
    pub cruise: u32,
    /// The last delay that the generator gave.
    pub last: u32,
    /// On a ramp the running delay, in 16.16 ticks, is at most this.
    pub top: u64,
    /// The acceleration steps outstanding are at least these,
    pub lo: u32,
    /// and at most these.
    pub hi: u32,
    /// A deceleration begun now would overshoot the target.
    pub braking: bool,
}

impl Watch {
    /// The cruise goes on at the delay asked for.
    pub open spec fn held(self) -> bool {
        self.cruise != 0 && self.cruise == self.asked
    }

    /// What is known holds of the generator in the state `p`.
    pub open spec fn covers(self, p: ProfileView) -> bool {
        &&& p.goal == self.asked * 256
        &&& self.asked == 0 || 4 <= self.asked < 0x100_0000
        &&& p.first == self.first * 256
        &&& self.first < 0x80_0000
        &&& p.target == self.aim
        &&& p.cruise == self.cruise * 256
        &&& self.cruise < 0x100_0000
        &&& self.lo <= p.ramp <= self.hi
        &&& p.ramp >= 1 ==> p.delay <= self.top
        &&& p.ramp >= 1 ==> p.delay >= 256
        &&& p.ramp >= 1 && p.cruise == 0 ==> p.delay / 256 == self.last
        &&& self.braking ==> p.projected_stop() > p.target
    }

    /// With the generator at `step` and aimed at `target`, the bounds show
    /// that a request for the next delay stays in range. `beyond` says that
    /// a deceleration begun now is known to overshoot `target`.
    pub open spec fn safe(self, step: u32, target: u32, beyond: bool) -> bool {
        &&& self.asked != 0
        &&& self.hi == 0 || {
            &&& self.hi <= 0x3fff_ffff
            &&& 2 * self.top + 2 * self.hi + 1 <= u32::MAX
            &&& {
                ||| self.held()
                ||| self.lo >= 2
                ||| beyond
                ||| step + self.lo >= target
                ||| self.cruise == 0 && self.last >= self.asked
            }
        }
    }

    /// Nothing is known but that the generator is new.
    pub fn new() -> (w: Watch)
        ensures
            w == (Watch {
                asked: 0,
                first: 0,
                aim: 0,
                cruise: 0,
                last: 0,
                top: 0,
                lo: 0,
                hi: 0,
                braking: false,
            }),
    {
        Watch {
            asked: 0,
            first: 0,
            aim: 0,
            cruise: 0,
            last: 0,
            top: 0,
            lo: 0,
            hi: 0,
            braking: false,
        }
    }

    /// Whether the bounds show that a request for the next delay stays in
    /// range; see [`Watch::safe`].
    pub fn is_safe(&self, step: u32, target: u32, beyond: bool) -> (ok: bool)
        ensures
            ok == self.safe(step, target, beyond),
    {
        if self.asked == 0 {
            return false;
        }
        if self.hi == 0 {
            return true;
        }
        let held: bool = self.cruise != 0 && self.cruise == self.asked;
        self.hi <= 0x3fff_ffff && self.top <= 0x7fff_ffff && 2 * self.top + 2 * (self.hi as u64) + 1
            <= u32::MAX as u64 && (held || self.lo >= 2 || beyond || step as u64 + self.lo as u64
            >= target as u64 || (self.cruise == 0 && self.last >= self.asked))
    }
}

/// What the bounds show to be safe is steady.
pub proof fn lemma_safe_is_steady(w: Watch, p: ProfileView, target: u32, beyond: bool)
    requires
        w.covers(p),
        w.safe(p.step, target, beyond),
        beyond ==> p.projected_stop() > target,
        p.projected_stop() < u32::MAX,
    ensures
        (ProfileView { target: target, ..p }).steady(),
{
    let q = ProfileView { target: target, ..p };
    if !q.exhausted() && q.ramp >= 1 {
        let d = q.delay as int;
        if q.ramp >= 2 {
            let dn = 4 * (q.ramp - 1) - 1;
            assert((2 * d + dn / 2) / dn <= d) by (nonlinear_arith)
                requires
                    dn >= 3,
                    d >= 1,
            ;
        }
        if q.projected_stop() > q.target {
            assert(q.ramp >= 2);
        }
    }
}

impl Watch {
    /// Takes note of the answer `r` to a request for the next delay, made
    /// at the step `step`, after which the generator cruises or not.
    pub(crate) fn after(
        &mut self,
        r: Option<u32>,
        cruising: bool,
        step: u32,
        Ghost(o): Ghost<ProfileView>,
        Ghost(n): Ghost<ProfileView>,
    )
        requires
            old(self).covers(o),
            o.steady(),
            advances(o, r, n),
            cruising == n.at_speed(),
            step == o.step,
            o.projected_stop() < u32::MAX,
        ensures
            final(self).covers(n),
    {
        let was: Watch = *self;
        match r {
            None => {
                self.lo = 0;
                self.hi = 0;
                self.braking = false;
            },
            Some(delay) => {
                let held: bool = was.cruise != 0 && was.cruise == was.asked;
                self.cruise = if cruising {
                    was.asked
                } else {
                    0
                };
                self.last = delay;
                // The running delay after the step: the delay given,
                // where the generator does not cruise; as it was, where a
                // cruise goes on; and else at most what a cruise begins with.
                let shown: u64 = if !cruising {
                    (delay as u64) * 256 + 255
                } else if held {
                    was.top
                } else {
                    2 * (was.asked as u64) * 256
                };
                let more: u32 = if was.hi < u32::MAX {
                    was.hi + 1
                } else {
                    was.hi
                };
                let less: u32 = if was.lo >= 1 {
                    was.lo - 1
                } else {
                    0
                };
                let beyond: bool = was.braking || step as u64 + was.lo as u64 > was.aim as u64;
                if was.hi == 0 {
                    // From rest: onto the ramp, unless the delay asked for
                    // is longer than its first delay.
                    self.braking = false;
                    if was.asked <= was.first {
                        self.lo = 1;
                        self.hi = 1;
                        self.top = (was.first as u64) * 256;
                    }
                } else if beyond {
                    // A deceleration begun now would overshoot: the
                    // generator slows down for its target.
                    self.lo = less;
                    self.hi = was.hi - 1;
                    self.braking = true;
                    self.top = shown;
                } else if was.lo >= 1 {
                    if held && cruising {
                        // The cruise goes on.
                    } else if held {
                        // The cruise has ended: the generator slows down
                        // for its target.
                        self.lo = less;
                        self.hi = was.hi - 1;
                        self.braking = true;
                        self.top = shown;
                    } else {
                        let short: bool = (step as u64 + was.hi as u64) < was.aim as u64;
                        let level: bool = was.lo == was.hi && step as u64 + was.lo as u64
                            == was.aim as u64;
                        let known: bool = was.cruise == 0;
                        // The running delay before the step, where it is
                        // known, or the one after it, where the generator
                        // does not cruise, shows which way the step went.
                        let up: bool = short && ((known && was.last > was.asked) || (!cruising
                            && delay > was.asked));
                        let down: bool = short && ((known && was.last < was.asked) || was.top < (
                        was.asked as u64) * 256 || (!cruising && delay < was.asked));
                        if level {
                            // A deceleration begun now would end on the
                            // target: the generator holds its speed.
                        } else if down {
                            self.lo = less;
                            self.hi = was.hi - 1;
                        } else if up {
                            self.lo = was.lo + 1;
                            self.hi = more;
                        } else {
                            self.lo = less;
                            self.hi = more;
                        }
                        self.top = if up && cruising {
                            was.top
                        } else if level && cruising {
                            if was.top >= shown {
                                was.top
                            } else {
                                shown
                            }
                        } else {
                            shown
                        };
                    }
                } else {
                    // The generator may stand on a ramp or not.
                    self.lo = 0;
                    self.hi = more;
                    self.braking = false;
                    let ramp: u64 = (was.first as u64) * 256;
                    let kept: u64 = if was.top >= shown {
                        was.top
                    } else {
                        shown
                    };
                    self.top = if cruising && held {
                        if kept >= ramp {
                            kept
                        } else {
                            ramp
                        }
                    } else if shown >= ramp {
                        shown
                    } else {
                        ramp
                    };
                }
            },
        }
    }
}

} // verus!
