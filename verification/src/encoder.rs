//! The rotary encoder read as a source of signed steps.

use vstd::prelude::*;

verus! {

/// The range of the counter while it is read for steps: big enough that
/// nobody turns the knob by half of it between two readings.
pub const LIMIT: u16 = 20_000;

/// The signed step from the count `last` to the count `current` on a
/// counter that wraps around at [`LIMIT`]: the shorter way round.
pub open spec fn signed_step(last: u16, current: u16) -> int {
    let forward = if current < last {
        current + LIMIT - last
    } else {
        current - last
    };
    if forward < LIMIT / 2 {
        forward
    } else {
        forward - LIMIT
    }
}

/// Remembers the last count of the encoder and turns each new count into
/// the step since.
pub struct EncoderDelta {
    last: u16,
}

impl View for EncoderDelta {
    type V = u16;

    /// The last count.
    closed spec fn view(&self) -> u16 {
        self.last
    }
}

impl EncoderDelta {
    /// Starts in the middle of the range, where the counter is set to
    /// begin with.
    pub fn new() -> (d: EncoderDelta)
        ensures
            d@ == LIMIT / 2,
    {
        EncoderDelta { last: LIMIT / 2 }
    }

    /// The step from the last count to `current`, which becomes the last
    /// count.
    pub fn delta(&mut self, current: u16) -> (step: i16)
        requires
            old(self)@ < LIMIT,
            current < LIMIT,
        ensures
            step == signed_step(old(self)@, current),
            final(self)@ == current,
            -(LIMIT / 2) <= step < LIMIT / 2,
            (old(self)@ + step - current) % (LIMIT as int) == 0,
    {
        let forward: u16 = if current < self.last {
            current + LIMIT - self.last
        } else {
            current - self.last
        };
        self.last = current;
        if forward < LIMIT / 2 {
            forward as i16
        } else {
            (forward as i16) - (LIMIT as i16)
        }
    }
}

/// Counts of the timer per click of the knob.
pub const COUNTS_PER_CLICK: u16 = 4;

/// The reload value of the counter for a knob of `limit` positions.
pub fn counter_reload(limit: u16) -> (reload: u16)
    requires
        1 <= limit <= 16_383,
    ensures
        reload == limit * 4 - 1,
{
    limit * COUNTS_PER_CLICK - 1
}

/// The position of the knob at the count `count`.
pub fn knob_position(count: u16) -> (position: u16)
    ensures
        position == count / 4,
{
    count / COUNTS_PER_CLICK
}

/// The count that puts the knob at `position`: one count into the click,
/// so that a little play of the knob does not change the position.
pub fn counter_for(position: u16) -> (count: u16)
    requires
        position <= 16_382,
    ensures
        count == position * 4 + 1,
        count / 4 == position,
{
    position * COUNTS_PER_CLICK + 1
}

} // verus!
