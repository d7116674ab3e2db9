//! The motor driver as the motion logic sees it: a pulse-train timer with a
//! preload register, and the direction and enable lines.

use vstd::prelude::*;

verus! {

/// Frequency of the pulse timer: one tick per microsecond.
pub const DRIVER_TICK_FREQUENCY: u32 = 1_000_000;

/// Length of one timer tick, in nanoseconds.
pub const NANOS_PER_TICK: u32 = 1_000;

/// Width of the step pulse, in timer ticks.
pub const STEP_PULSE_WIDTH_TICKS: u16 = 1;

/// The hardware behind a stepper: what the motion logic tells it, and the
/// two things it asks of it. Nothing is promised of the answers: the
/// logic is verified for every answer that a driver may give.
pub trait StepperDriver {
    /// Enables or disables the driver's outputs.
    fn set_enable(&mut self, enable: bool);

    /// Connects the timer to the step output or cuts it off. While a cut
    /// waits for its start, the timer counts without stepping.
    fn set_timer_output(&mut self, enable: bool);

    /// Sets the direction line.
    fn set_direction(&mut self, bit: bool);

    /// Starts the pulse train with `first_delay` as its first period.
    fn start(&mut self, first_delay: u16);

    /// Loads the period that follows the one now running.
    fn preload_delay(&mut self, delay: u16);

    /// Says that no further period follows: the timer stops after the one
    /// now running.
    fn set_last(&mut self);

    /// Whether the timer is still running.
    fn is_running(&self) -> bool;

    /// Clears the period-complete flag and says whether it was set.
    fn interrupt(&mut self) -> bool;
}

/// What one operation of the motion logic tells the driver. The fields are
/// in the order in which the commands are given; a field that is `None`, or
/// `false` for `last`, gives none.
#[derive(Clone, Copy, PartialEq, Eq, Debug, Structural)]
pub struct Commands {
    /// `set_timer_output`
    pub timer_output: Option<bool>,
    /// `set_direction`
    pub direction: Option<bool>,
    /// `set_enable`
    pub enable: Option<bool>,
    /// `start`
    pub start: Option<u16>,
    /// `preload_delay`
    pub preload: Option<u16>,
    /// `set_last`
    pub last: bool,
}

impl Commands {
    /// No command at all.
    pub open spec fn idle() -> Commands {
        Commands {
            timer_output: None,
            direction: None,
            enable: None,
            start: None,
            preload: None,
            last: false,
        }
    }

    /// No command at all.
    pub fn none() -> (c: Commands)
        ensures
            c == Commands::idle(),
    {
        Commands {
            timer_output: None,
            direction: None,
            enable: None,
            start: None,
            preload: None,
            last: false,
        }
    }

    /// Gives the commands to `driver`, in the order of the fields.
    pub fn apply<S: StepperDriver>(&self, driver: &mut S) {
        if let Some(enable) = self.timer_output {
            driver.set_timer_output(enable);
        }
        if let Some(bit) = self.direction {
            driver.set_direction(bit);
        }
        if let Some(enable) = self.enable {
            driver.set_enable(enable);
        }
        if let Some(delay) = self.start {
            driver.start(delay);
        }
        if let Some(delay) = self.preload {
            driver.preload_delay(delay);
        }
        if self.last {
            driver.set_last();
        }
    }
}

/// Timer ticks that cover `ns` nanoseconds, rounded up.
pub fn ns2ticks(ns: u32) -> (ticks: u16)
    requires
        ns <= 65_535_000,
    ensures
        ticks == (ns + NANOS_PER_TICK - 1) / (NANOS_PER_TICK as int),
        ticks * NANOS_PER_TICK >= ns,
        ns > 0 ==> (ticks - 1) * NANOS_PER_TICK < ns,
{
    ((ns + NANOS_PER_TICK - 1) / NANOS_PER_TICK) as u16
}

/// What the pulse timer is loaded with for a period of `delay` ticks: the
/// reload value, which is the period less 1, and the compare value, at
/// which the pulse begins so that it ends with the period. A period shorter
/// than the pulse is all pulse.
pub fn timer_loads(delay: u16) -> (loads: (u16, u16))
    requires
        delay >= 1,
    ensures
        loads.0 == delay - 1,
        loads.1 == if delay >= STEP_PULSE_WIDTH_TICKS {
            delay - STEP_PULSE_WIDTH_TICKS
        } else {
            0
        },
{
    (
        delay - 1,
        if delay >= STEP_PULSE_WIDTH_TICKS {
            delay - STEP_PULSE_WIDTH_TICKS
        } else {
            0
        },
    )
}

} // verus!
