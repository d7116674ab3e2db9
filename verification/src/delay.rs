//! Time measured with the system timer: a 24-bit counter that counts down
//! nine times per microsecond and wraps around.

use vstd::prelude::*;

verus! {

/// Ticks of the system timer per microsecond.
pub const TICKS_PER_US: u32 = 9;

/// The ticks between two readings of the down-counting timer, the
/// `earlier` and the `later` one, provided that the timer wrapped around at
/// most once in between.
pub open spec fn ticks_between(earlier: u32, later: u32) -> int {
    (earlier - later) % 0x100_0000
}

/// A stopwatch on the system timer. It has to be read more often than the
/// timer wraps around.
#[derive(Clone, Copy)]
pub struct Duration {
    last: u32,
    duration: u32,
}

/// The fields of a [`Duration`].
pub struct DurationView {
    /// The timer's count at the last reading.
    pub last: u32,
    /// Microseconds measured so far.
    pub elapsed: u32,
}

impl View for Duration {
    type V = DurationView;

    closed spec fn view(&self) -> DurationView {
        DurationView { last: self.last, elapsed: self.duration }
    }
}

impl Duration {
    /// A stopwatch started when the timer reads `now`.
    pub fn new(now: u32) -> (d: Duration)
        ensures
            d@ == (DurationView { last: now, elapsed: 0 }),
    {
        Duration { last: now, duration: 0 }
    }

    /// The microseconds since the stopwatch was started, when the timer
    /// reads `now`: those measured before, and the whole microseconds since
    /// the last reading. The sum stays at the top of `u32` once it gets
    /// there.
    pub fn duration(&mut self, now: u32) -> (elapsed: u32)
        ensures
            elapsed == final(self)@.elapsed,
            final(self)@.last == now,
            elapsed == if old(self)@.elapsed + ticks_between(old(self)@.last, now) / 9
                > u32::MAX {
                u32::MAX as int
            } else {
                old(self)@.elapsed + ticks_between(old(self)@.last, now) / 9
            },
            elapsed >= old(self)@.elapsed,
    {
        let last: u32 = self.last;
        let gone: u32 = last.wrapping_sub(now) & 0xff_ffff;
        assert(gone == ticks_between(last, now)) by {
            let diff: u32 = last.wrapping_sub(now);
            assert(diff & 0xff_ffff == diff % 0x100_0000) by (bit_vector);
            if last >= now {
                assert(diff == last - now);
            } else {
                assert(diff == last - now + 0x1_0000_0000);
            }
        }
        let step: u32 = gone / TICKS_PER_US;
        self.duration = if step > u32::MAX - self.duration {
            u32::MAX
        } else {
            self.duration + step
        };
        self.last = now;
        self.duration
    }
}

/// The longest wait, in microseconds, that the 24-bit timer can measure
/// with half of its range.
pub const MAX_WAIT_US: u32 = 932_067;

/// The count at which a wait of `delay` microseconds from the count `now`
/// is over, on the counter that counts down.
pub fn deadline(now: u32, delay: u32) -> (stop_at: u32)
    requires
        1 <= delay <= MAX_WAIT_US,
    ensures
        stop_at == (now - (delay * 9 - 1)) % 0x1_0000_0000,
{
    let ticks: u32 = delay * TICKS_PER_US - 1;
    let stop_at: u32 = now.wrapping_sub(ticks);
    assert(stop_at == (now - ticks) % 0x1_0000_0000) by {
        if now >= ticks {
            assert(stop_at == now - ticks);
        } else {
            assert(stop_at == now - ticks + 0x1_0000_0000);
        }
    }
    stop_at
}

/// Whether the counter, which reads `now`, has passed `stop_at`: the
/// difference of the two, taken in 24 bits, is in the upper half.
pub fn passed(now: u32, stop_at: u32) -> (over: bool)
    ensures
        over == (((now - stop_at) % 0x1_0000_0000) % 0x100_0000 >= 0x80_0000),
{
    let diff: u32 = now.wrapping_sub(stop_at);
    assert(diff == (now - stop_at) % 0x1_0000_0000) by {
        if now >= stop_at {
            assert(diff == now - stop_at);
        } else {
            assert(diff == now - stop_at + 0x1_0000_0000);
        }
    }
    assert((diff & 0x0080_0000 != 0) == (diff % 0x100_0000 >= 0x80_0000)) by (bit_vector);
    (diff & 0x0080_0000) != 0
}

} // verus!
