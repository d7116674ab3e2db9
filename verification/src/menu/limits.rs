//! Setting a limit of travel: the carriage is jogged with the encoder, and
//! the fast button takes its position as the limit, or gives the limit up.

use crate::controls::{Button, Event};
use vstd::prelude::*;

verus! {

/// The feed of a jog, in inches per minute.
pub const JOG_IPM: u32 = 10;

/// The limit after `event` with the carriage at `position`: the fast
/// button sets the limit to the position, and clears a limit that is there
/// already.
pub open spec fn limit_after(limit: Option<i32>, position: i32, event: Event) -> Option<i32> {
    match event {
        Event::Pressed(Button::Fast) => if limit == Some(position) {
            None
        } else {
            Some(position)
        },
        _ => limit,
    }
}

/// The limit after `event` with the carriage at `position`.
pub fn capture(limit: Option<i32>, position: i32, event: Event) -> (r: Option<i32>)
    ensures
        r == limit_after(limit, position, event),
{
    match event {
        Event::Pressed(Button::Fast) => {
            let at_limit: bool = match limit {
                Some(l) => l == position,
                None => false,
            };
            if at_limit {
                None
            } else {
                Some(position)
            }
        },
        _ => limit,
    }
}

/// The speed of a jog, in 24.8 steps per second.
pub fn jog_speed(steps_per_inch: u32) -> (speed: u32)
    requires
        JOG_IPM * steps_per_inch * 256 / 60 <= u32::MAX,
    ensures
        speed == JOG_IPM * steps_per_inch * 256 / 60,
{
    ((JOG_IPM as u64) * (steps_per_inch as u64) * 256 / 60) as u32
}

/// The steps of `clicks` clicks of the encoder, each one `unit`-th of an
/// inch, rounded towards 0.
pub open spec fn jog_of(clicks: i16, steps_per_inch: u32, unit: u32) -> int {
    if clicks >= 0 {
        clicks * steps_per_inch / (unit as int)
    } else {
        -((-clicks) * steps_per_inch / (unit as int))
    }
}

/// The steps of `clicks` clicks of the encoder, each one `unit`-th of an
/// inch.
pub fn jog_steps(clicks: i16, steps_per_inch: u32, unit: u32) -> (steps: i32)
    requires
        unit > 0,
        i32::MIN <= jog_of(clicks, steps_per_inch, unit) <= i32::MAX,
    ensures
        steps == jog_of(clicks, steps_per_inch, unit),
{
    if clicks >= 0 {
        assert(clicks * steps_per_inch <= 0x7fff * 0xffff_ffff) by (nonlinear_arith)
            requires
                0 <= clicks <= 0x7fff,
                steps_per_inch <= 0xffff_ffff,
        ;
        ((clicks as u64) * (steps_per_inch as u64) / (unit as u64)) as i32
    } else {
        let turned: u64 = (-(clicks as i32)) as u64;
        assert(turned * steps_per_inch <= 0x8000 * 0xffff_ffff) by (nonlinear_arith)
            requires
                0 <= turned <= 0x8000,
                steps_per_inch <= 0xffff_ffff,
        ;
        let back: u64 = turned * (steps_per_inch as u64) / (unit as u64);
        (-(back as i64)) as i32
    }
}

} // verus!
