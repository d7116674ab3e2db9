//! The spindle's speed, from the time between two marks of its hall
//! sensor. A 16-bit timer counts hundredths of a millisecond and is reset
//! by each mark; its overflows between two marks are counted on top.

use vstd::prelude::*;

verus! {

/// Frequency of the capture timer: a tick is 0.01 ms.
pub const HALL_TICK_FREQUENCY: u32 = 100_000;

/// The fastest spindle that is measured, in turns per minute.
pub const HALL_MAX_RPM: u32 = 6000;

/// The slowest spindle that is measured, in turns per minute.
pub const HALL_MIN_RPM: u32 = 50;

/// The shortest time between two marks, in ticks. A shorter one is noise,
/// or a capture that came just after an overflow.
pub const MIN_PERIOD: u32 = 1000;

/// The overflows after which the spindle counts as stopped.
pub const MAX_MSB: u32 = 2;

/// Timer ticks per minute, in 24.8 fixed point.
pub const TICKS_PER_MINUTE_24_8: u32 = 1_536_000_000;

/// What the capture timer shows when it raises its interrupt.
#[derive(Clone, Copy, Debug, PartialEq, Eq, Structural)]
pub struct Capture {
    /// The captured count, where the sensor was triggered.
    pub captured: Option<u32>,
    /// The timer has overflowed and the overflow is not yet counted.
    pub overflowed: bool,
}

/// What is to be done with the timer's flags.
#[derive(Clone, Copy, Debug, PartialEq, Eq, Structural)]
pub struct Handled {
    /// The capture flag is to be cleared.
    pub capture: bool,
    /// The overflow flag is to be cleared.
    pub overflow: bool,
}

/// The state of a [`Hall`].
pub struct HallView {
    /// Ticks of the last whole turn; 0 while the spindle is at rest or its
    /// speed unknown.
    pub captured: u32,
    /// Overflows of the timer since the last mark.
    pub msb: u32,
}

/// `msb` with one more overflow; the count stays at the top of `u32`.
pub open spec fn one_more(msb: u32) -> u32 {
    if msb < u32::MAX {
        (msb + 1) as u32
    } else {
        msb
    }
}

/// The state after the interrupt `c` in state `o`.
///
/// A mark ends a turn. An overflow that is pending with a capture under
/// [`MIN_PERIOD`] came before the mark and belongs to the turn that ends;
/// with a longer capture it came after and is left for the next interrupt.
/// The turn is taken only if it lasted [`MIN_PERIOD`] or more. An overflow
/// without a mark is counted, and after [`MAX_MSB`] of them the spindle
/// counts as stopped.
pub open spec fn after(o: HallView, c: Capture) -> HallView {
    match c.captured {
        Some(lsb) => {
            let msb = if lsb < MIN_PERIOD && c.overflowed {
                one_more(o.msb)
            } else {
                o.msb
            };
            let period = (msb << 16) | lsb;
            HallView {
                captured: if period >= MIN_PERIOD {
                    period
                } else {
                    o.captured
                },
                msb: 0,
            }
        },
        None => if c.overflowed {
            HallView {
                captured: if one_more(o.msb) >= MAX_MSB {
                    0
                } else {
                    o.captured
                },
                msb: one_more(o.msb),
            }
        } else {
            o
        },
    }
}

/// The flags that the interrupt `c` clears.
pub open spec fn clears(c: Capture) -> Handled {
    match c.captured {
        Some(lsb) => Handled { capture: true, overflow: lsb < MIN_PERIOD && c.overflowed },
        None => Handled { capture: false, overflow: c.overflowed },
    }
}

/// Turns per minute in 24.8 fixed point for a turn of `captured` ticks; 0
/// for no turn.
pub open spec fn rpm_of(captured: u32) -> int {
    if captured != 0 {
        TICKS_PER_MINUTE_24_8 as int / captured as int
    } else {
        0
    }
}

/// The time of the last whole turn, and the overflows since the last mark.
pub struct Hall {
    captured: u32,
    msb: u32,
}

impl View for Hall {
    type V = HallView;

    closed spec fn view(&self) -> HallView {
        HallView { captured: self.captured, msb: self.msb }
    }
}

impl Hall {
    /// A sensor that has seen no turn yet.
    pub fn new() -> (h: Hall)
        ensures
            h@ == (HallView { captured: 0, msb: 0 }),
    {
        Hall { captured: 0, msb: 0 }
    }

    /// The capture timer's interrupt. Returns the flags to clear; an
    /// interrupt that clears none was not the timer's.
    pub fn interrupt(&mut self, c: Capture) -> (h: Handled)
        ensures
            final(self)@ == after(old(self)@, c),
            h == clears(c),
            c.captured is Some ==> h.capture,
    {
        match c.captured {
            Some(lsb) => {
                let early: bool = lsb < MIN_PERIOD && c.overflowed;
                if early {
                    self.count_overflow();
                }
                let period: u32 = (self.msb << 16) | lsb;
                if period >= MIN_PERIOD {
                    self.captured = period;
                }
                self.msb = 0;
                Handled { capture: true, overflow: early }
            },
            None => {
                if c.overflowed {
                    self.count_overflow();
                    if self.msb >= MAX_MSB {
                        self.captured = 0;
                    }
                }
                Handled { capture: false, overflow: c.overflowed }
            },
        }
    }

    fn count_overflow(&mut self)
        ensures
            final(self)@ == (HallView { msb: one_more(old(self)@.msb), ..old(self)@ }),
    {
        if self.msb < u32::MAX {
            self.msb = self.msb + 1;
        }
    }

    /// The speed of the spindle at its last whole turn, in 24.8 turns per
    /// minute; 0 while it is at rest or unknown.
    pub fn rpm(&self) -> (rpm: u32)
        ensures
            rpm == rpm_of(self@.captured),
            self@.captured == 0 ==> rpm == 0,
    {
        if self.captured != 0 {
            TICKS_PER_MINUTE_24_8 / self.captured
        } else {
            0
        }
    }
}

} // verus!
