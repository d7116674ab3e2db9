//! Spindle synchronisation for thread cutting.
//!
//! A thread is cut in phase with the spindle when the steps taken since the
//! spindle's once-per-turn mark are a whole multiple of the steps per
//! thread. [`ThreadInfo`] works out how long to wait after a mark before the
//! acceleration ramp starts, hands that wait to a 16-bit countdown timer
//! piece by piece, and records the phase error seen at each later mark.

use crate::profile::{
    current_step, first_delay, is_at_speed, lemma_accepted_delay, new_profile, next_delay,
    profile_view, set_acceleration, set_target_speed, set_target_step, speed_delay, speed_verdict,
    step_of, ProfileView,
};
use vstd::arithmetic::div_mod::{
    lemma_div_is_ordered_by_denominator, lemma_fundamental_div_mod, lemma_mod_multiples_basic,
};
use vstd::prelude::*;

verus! {

/// The shortest wait, in timer ticks, that a synchronised start accepts. A
/// shorter one means that the ramp cannot be timed at this speed of the
/// spindle.
pub const DELAY_FLOOR: u32 = 10_000;

/// The longest single load of the countdown timer.
pub const CHUNK_MAX: u32 = 65_535;

/// The step target of the trial run that measures the ramp: far beyond any
/// ramp, and short of the end of the counter's range.
pub const TRIAL_TARGET: u32 = 0xffff_fffd;

/// The most steps that the trial run may take.
pub const TRIAL_LIMIT: u32 = 0x3fff_ffff;

/// What a cut in step with the spindle goes by.
pub struct ThreadInfo {
    /// Frequency of the countdown timer, in ticks per second.
    timer_freq: u32,
    /// Acceleration of the stepper, in 24.8 steps/s^2.
    acceleration: u32,
    /// Ticks still to wait before the ramp starts.
    delay_remaining: u32,
    /// Stepper steps per turn of the spindle.
    steps_per_thread: u32,
    /// Position at which the cut ends.
    target: i32,
    /// Steps out of phase at the last spindle mark.
    last_error: u32,
}

/// The fields of a [`ThreadInfo`].
pub struct ThreadInfoView {
    pub timer_freq: u32,
    pub acceleration: u32,
    pub delay_remaining: u32,
    pub steps_per_thread: u32,
    pub target: i32,
    pub last_error: u32,
}

/// Target speed, in 24.8 steps per second, for a spindle at `rpm` (24.8
/// turns per minute).
pub open spec fn cruise_speed(rpm: u32, steps_per_thread: u32) -> int {
    rpm * steps_per_thread / 60
}

/// How far before a turn boundary the ramp has to begin so that it ends on
/// one: the turns that the ramp takes, plus one to spare, less the ramp.
pub open spec fn start_step(steps_per_thread: u32, steps_to_accelerate: u32) -> int {
    (steps_to_accelerate / steps_per_thread + 1) * steps_per_thread - steps_to_accelerate
}

/// Timer ticks in which a spindle at a steady `rpm` covers `start_at_step`
/// steps.
pub open spec fn wait_ticks(
    timer_freq: u32,
    steps_per_thread: u32,
    rpm: u32,
    start_at_step: int,
) -> int {
    60 * 256 * timer_freq * start_at_step / (steps_per_thread * rpm)
}

/// The next load of the countdown when `remaining` ticks are left.
pub open spec fn chunk(remaining: u32) -> u16 {
    if remaining > CHUNK_MAX {
        if remaining / 2 < CHUNK_MAX {
            (remaining / 2) as u16
        } else {
            CHUNK_MAX as u16
        }
    } else {
        remaining as u16
    }
}

/// The loads that count `remaining` ticks down, in order.
pub open spec fn countdown(remaining: u32) -> Seq<u16>
    decreases remaining,
{
    if remaining == 0 {
        Seq::empty()
    } else {
        seq![chunk(remaining)] + countdown((remaining - chunk(remaining)) as u32)
    }
}

/// The sum of a sequence of loads.
pub open spec fn total(loads: Seq<u16>) -> int
    decreases loads.len(),
{
    if loads.len() == 0 {
        0
    } else {
        loads[0] + total(loads.drop_first())
    }
}

/// Phase error in degrees: `last_error` steps out of `steps_per_thread`,
/// rounded to the nearest degree and folded into (-180, 180].
pub open spec fn error_degrees(last_error: u32, steps_per_thread: u32) -> int {
    let degrees = (360 * last_error + steps_per_thread / 2) / (steps_per_thread as int);
    if degrees > 180 {
        degrees - 360
    } else {
        degrees
    }
}

/// A synchronised start: where in the turn the ramp begins, and the wait
/// from the spindle's mark to that point.
pub struct SyncPlan {
    pub start_at_step: u32,
    pub delay: u32,
}

/// The plan for a ramp of `steps_to_accelerate` steps, or why there is
/// none: the wait is at or under [`DELAY_FLOOR`] (the spindle is too fast
/// for the ramp), or it does not fit the countdown (too slow).
pub open spec fn plan(
    timer_freq: u32,
    steps_per_thread: u32,
    rpm: u32,
    steps_to_accelerate: u32,
) -> Result<SyncPlan, stepgen::Error> {
    let start = start_step(steps_per_thread, steps_to_accelerate);
    let wait = wait_ticks(timer_freq, steps_per_thread, rpm, start);
    if wait <= DELAY_FLOOR {
        Err(stepgen::Error::TooFast)
    } else if wait > u32::MAX {
        Err(stepgen::Error::TooSlow)
    } else {
        Ok(SyncPlan { start_at_step: start as u32, delay: wait as u32 })
    }
}

/// The trial can go on from `step` after a step with a delay of `last`
/// (16.8 ticks): the generator is not faster than it was asked to be, and
/// its arithmetic for one more acceleration step stays in range.
pub open spec fn trial_in_range(step: u32, last: u32, goal: u32) -> bool {
    last * 256 >= goal && 2 * (last * 256 + 255) + 2 * step <= u32::MAX
}

/// The steps that the trial generator takes from the state `v`, after a
/// step with the delay `last`, until it cruises, in at most `fuel` steps.
/// A trial of [`TRIAL_LIMIT`] steps is refused as too fast, and one that
/// would leave the range of the generator's arithmetic as too slow.
pub open spec fn trial_from(v: ProfileView, last: Option<u32>, fuel: nat) -> Result<
    u32,
    stepgen::Error,
>
    decreases fuel,
{
    if v.at_speed() || fuel == 0 {
        Ok(v.step)
    } else if v.step >= TRIAL_LIMIT {
        Err(stepgen::Error::TooFast)
    } else if last is Some && !trial_in_range(v.step, last->Some_0, v.goal) {
        Err(stepgen::Error::TooSlow)
    } else {
        match step_of(v).0 {
            None => Ok(v.step),
            Some(delay) => trial_from(step_of(v).1, Some(delay), (fuel - 1) as nat),
        }
    }
}

/// The trial generator before its first step: at step 0, with the first
/// delay that `acceleration` gives and the delay that `speed` asks for.
pub open spec fn trial_start(timer_freq: u32, acceleration: u32, speed: u32) -> ProfileView {
    ProfileView {
        target: TRIAL_TARGET,
        first: (first_delay(timer_freq, acceleration) * 256) as u32,
        goal: speed_delay(timer_freq, speed),
        ..ProfileView::fresh(timer_freq)
    }
}

/// The steps of the ramp from rest to `speed` (24.8 steps per second) with
/// `acceleration`, as the trial run counts them.
pub open spec fn ramp_steps(timer_freq: u32, acceleration: u32, speed: u32) -> Result<
    u32,
    stepgen::Error,
> {
    trial_from(trial_start(timer_freq, acceleration, speed), None, (TRIAL_LIMIT + 1) as nat)
}

/// What setting up a cut comes to: the wait before the ramp, or the reason
/// for which the cut cannot be synchronised.
pub open spec fn setup_outcome(
    timer_freq: u32,
    acceleration: u32,
    steps_per_thread: u32,
    rpm: u32,
) -> Result<u32, stepgen::Error> {
    let speed = cruise_speed(rpm, steps_per_thread);
    if acceleration == 0 {
        Err(stepgen::Error::TooSlow)
    } else if speed > u32::MAX {
        Err(stepgen::Error::TooFast)
    } else if first_delay(timer_freq, acceleration) >= 0x100_0000 {
        Err(stepgen::Error::TooSlow)
    } else if speed_verdict(timer_freq, speed as u32) is Err {
        Err(speed_verdict(timer_freq, speed as u32)->Err_0)
    } else if first_delay(timer_freq, acceleration) == 0 {
        Err(stepgen::Error::SpeedAccelerationNotSet)
    } else {
        match ramp_steps(timer_freq, acceleration, speed as u32) {
            Err(e) => Err(e),
            Ok(steps) => match plan(timer_freq, steps_per_thread, rpm, steps) {
                Ok(p) => Ok(p.delay),
                Err(e) => Err(e),
            },
        }
    }
}

/// Setting up a cut on `o` returned `r` and left `n`. A cut that cannot be
/// synchronised leaves everything as it was.
pub open spec fn set_up(
    o: ThreadInfoView,
    target: i32,
    steps_per_thread: u32,
    rpm: u32,
    r: Result<(), stepgen::Error>,
    n: ThreadInfoView,
) -> bool {
    match setup_outcome(o.timer_freq, o.acceleration, steps_per_thread, rpm) {
        Ok(delay) => r is Ok && n == ThreadInfoView {
            steps_per_thread: steps_per_thread,
            target: target,
            delay_remaining: delay,
            ..o
        },
        Err(e) => r == Err::<(), stepgen::Error>(e) && n == o,
    }
}

/// What holds of the trial generator between two steps, the last of which
/// gave the delay `last`.
spec fn on_trial(p: ProfileView, last: Option<u32>, start: ProfileView) -> bool {
    &&& p.target == TRIAL_TARGET
    &&& p.ticks == start.ticks
    &&& p.first == start.first
    &&& p.goal == start.goal
    &&& p.ramp <= p.step <= TRIAL_LIMIT
    &&& last is None ==> p.ramp == 0
    &&& last is Some ==> last->Some_0 >= 1
    &&& last is Some && p.ramp >= 1 && p.cruise == 0 ==> p.delay / 256 == last->Some_0
}

impl View for ThreadInfo {
    type V = ThreadInfoView;

    closed spec fn view(&self) -> ThreadInfoView {
        ThreadInfoView {
            timer_freq: self.timer_freq,
            acceleration: self.acceleration,
            delay_remaining: self.delay_remaining,
            steps_per_thread: self.steps_per_thread,
            target: self.target,
            last_error: self.last_error,
        }
    }
}

impl ThreadInfo {
    /// Nothing is set up yet; the countdown timer counts `timer_freq` ticks per
    /// second.
    pub fn new(timer_freq: u32) -> (info: ThreadInfo)
        ensures
            info@ == (ThreadInfoView {
                timer_freq: timer_freq,
                acceleration: 0,
                delay_remaining: 0,
                steps_per_thread: 0,
                target: 0,
                last_error: 0,
            }),
    {
        ThreadInfo {
            timer_freq,
            acceleration: 0,
            delay_remaining: 0,
            steps_per_thread: 0,
            target: 0,
            last_error: 0,
        }
    }

    /// Sets the acceleration that the ramp of the next cut is measured with.
    pub fn set_acceleration(&mut self, acceleration: u32)
        ensures
            final(self)@ == (ThreadInfoView { acceleration: acceleration, ..old(self)@ }),
    {
        self.acceleration = acceleration;
    }

    /// Frequency of the countdown timer, in ticks per second.
    pub fn timer_freq(&self) -> (freq: u32)
        ensures
            freq == self@.timer_freq,
    {
        self.timer_freq
    }

    /// The position at which the cut ends.
    pub fn target_position(&self) -> (target: i32)
        ensures
            target == self@.target,
    {
        self.target
    }

    /// Ticks still to wait before the ramp starts.
    pub fn delay_remaining(&self) -> (remaining: u32)
        ensures
            remaining == self@.delay_remaining,
    {
        self.delay_remaining
    }

    /// Stepper steps per turn of the spindle.
    pub fn steps_per_thread(&self) -> (steps: u32)
        ensures
            steps == self@.steps_per_thread,
    {
        self.steps_per_thread
    }

    /// Plans a synchronised start for a ramp that takes
    /// `steps_to_accelerate` steps. The ramp then ends on a turn boundary.
    pub fn plan_start(
        timer_freq: u32,
        steps_per_thread: u32,
        estimated_rpm: u32,
        steps_to_accelerate: u32,
    ) -> (r: Result<SyncPlan, stepgen::Error>)
        requires
            steps_per_thread > 0,
            estimated_rpm > 0,
        ensures
            r == plan(timer_freq, steps_per_thread, estimated_rpm, steps_to_accelerate),
            r is Ok ==> (r->Ok_0.start_at_step + steps_to_accelerate) % (steps_per_thread as int)
                == 0,
            r is Ok ==> 0 < r->Ok_0.start_at_step <= steps_per_thread,
            r is Ok ==> r->Ok_0.delay > DELAY_FLOOR,
    {
        let ahead: u32 = steps_to_accelerate % steps_per_thread;
        let start: u32 = steps_per_thread - ahead;
        proof {
            let s = steps_to_accelerate as int;
            let t = steps_per_thread as int;
            lemma_fundamental_div_mod(s, t);
            assert((s / t + 1) * t == t * (s / t) + t) by (nonlinear_arith);
            assert(start == start_step(steps_per_thread, steps_to_accelerate));
            assert(start + s == t * (s / t + 1)) by (nonlinear_arith)
                requires
                    start + s == t * (s / t) + t,
            ;
            lemma_mod_multiples_basic(s / t + 1, t);
            assert((s / t + 1) * t == t * (s / t + 1)) by (nonlinear_arith);
        }
        assert(60 * 256 * timer_freq * start <= 15360 * 0xffff_ffff * 0xffff_ffff)
            by (nonlinear_arith)
            requires
                timer_freq <= 0xffff_ffff,
                start <= 0xffff_ffff,
        ;
        assert(0 < steps_per_thread * estimated_rpm <= 0xffff_ffff * 0xffff_ffff)
            by (nonlinear_arith)
            requires
                0 < steps_per_thread <= 0xffff_ffff,
                0 < estimated_rpm <= 0xffff_ffff,
        ;
        let ticks: u128 = 60 * 256 * (timer_freq as u128) * (start as u128);
        let per_minute: u128 = (steps_per_thread as u128) * (estimated_rpm as u128);
        let wait: u128 = ticks / per_minute;
        assert(wait == wait_ticks(timer_freq, steps_per_thread, estimated_rpm, start as int));
        if wait <= DELAY_FLOOR as u128 {
            Err(stepgen::Error::TooFast)
        } else if wait > u32::MAX as u128 {
            Err(stepgen::Error::TooSlow)
        } else {
            Ok(SyncPlan { start_at_step: start, delay: wait as u32 })
        }
    }

    /// Works out the wait between the spindle's mark and the start of the
    /// ramp for a cut to `target` at `steps_per_thread` steps per turn, with
    /// the spindle at `estimated_rpm`. A trial generator with the real
    /// acceleration is run up to the cruise speed to count the steps of the
    /// ramp. `phase` is taken for later passes and does not enter the wait.
    /// A cut that cannot be synchronised is refused with the generator's
    /// error, and nothing changes: a wait at or under [`DELAY_FLOOR`] as too
    /// fast, one that does not fit the countdown as too slow.
    pub fn setup_thread_cutting(
        &mut self,
        target: i32,
        steps_per_thread: u32,
        phase: u16,
        estimated_rpm: u32,
    ) -> (r: Result<(), stepgen::Error>)
        ensures
            set_up(old(self)@, target, steps_per_thread, estimated_rpm, r, final(self)@),
            r is Ok ==> final(self)@.delay_remaining > DELAY_FLOOR && steps_per_thread > 0
                && estimated_rpm > 0,
    {
        if self.acceleration == 0 {
            return Err(stepgen::Error::TooSlow);
        }
        assert(estimated_rpm * steps_per_thread <= 0xffff_ffff * 0xffff_ffff) by (nonlinear_arith)
            requires
                estimated_rpm <= 0xffff_ffff,
                steps_per_thread <= 0xffff_ffff,
        ;
        let wide: u64 = (estimated_rpm as u64) * (steps_per_thread as u64) / 60;
        if wide > u32::MAX as u64 {
            return Err(stepgen::Error::TooFast);
        }
        let speed: u32 = wide as u32;
        let steps_to_accelerate: u32 = match Self::count_ramp(
            self.timer_freq,
            self.acceleration,
            speed,
        ) {
            Err(e) => {
                return Err(e);
            },
            Ok(steps) => steps,
        };
        assert(steps_per_thread > 0 && estimated_rpm > 0) by (nonlinear_arith)
            requires
                estimated_rpm * steps_per_thread / 60 != 0,
        ;
        let planned = Self::plan_start(
            self.timer_freq,
            steps_per_thread,
            estimated_rpm,
            steps_to_accelerate,
        );
        match planned {
            Ok(p) => {
                self.steps_per_thread = steps_per_thread;
                self.target = target;
                self.delay_remaining = p.delay;
                Ok(())
            },
            Err(e) => Err(e),
        }
    }

    /// Counts the steps of the ramp from rest to `speed` (24.8 steps per
    /// second) with `acceleration`: a trial generator is stepped until it
    /// cruises. Before each step the delay of the step before shows whether
    /// the generator's arithmetic stays in range; see [`trial_from`].
    pub fn count_ramp(timer_freq: u32, acceleration: u32, speed: u32) -> (r: Result<
        u32,
        stepgen::Error,
    >)
        requires
            acceleration != 0,
        ensures
            r == if first_delay(timer_freq, acceleration) >= 0x100_0000 {
                Err::<u32, stepgen::Error>(stepgen::Error::TooSlow)
            } else if speed_verdict(timer_freq, speed) is Err {
                Err::<u32, stepgen::Error>(speed_verdict(timer_freq, speed)->Err_0)
            } else if first_delay(timer_freq, acceleration) == 0 {
                Err::<u32, stepgen::Error>(stepgen::Error::SpeedAccelerationNotSet)
            } else {
                ramp_steps(timer_freq, acceleration, speed)
            },
            r is Ok ==> speed != 0,
    {
        let mut trial = new_profile(timer_freq);
        match set_acceleration(&mut trial, acceleration) {
            Err(e) => {
                return Err(e);
            },
            Ok(()) => {},
        }
        match set_target_speed(&mut trial, speed) {
            Err(e) => {
                return Err(e);
            },
            Ok(()) => {},
        }
        proof {
            lemma_accepted_delay(timer_freq, speed);
        }
        match set_target_step(&mut trial, TRIAL_TARGET) {
            Err(e) => {
                return Err(e);
            },
            Ok(()) => {},
        }
        let asked: u64 = (timer_freq as u64) * 0x1_0000 / (speed as u64);
        let ghost start = trial_start(timer_freq, acceleration, speed);
        assert(profile_view(trial) == start);
        let mut last: Option<u32> = None;
        let mut counted: Option<Result<u32, stepgen::Error>> = None;
        while counted.is_none()
            invariant
                start == trial_start(timer_freq, acceleration, speed),
                start.goal == asked * 256,
                start.goal != 0,
                counted is None ==> on_trial(profile_view(trial), last, start),
                counted is None ==> ramp_steps(timer_freq, acceleration, speed) == trial_from(
                    profile_view(trial),
                    last,
                    (TRIAL_LIMIT + 1 - profile_view(trial).step) as nat,
                ),
                counted is Some ==> counted->Some_0 == ramp_steps(timer_freq, acceleration, speed),
            decreases
                    if counted is Some {
                        0
                    } else {
                        TRIAL_LIMIT + 2 - profile_view(trial).step
                    },
        {
            let step: u32 = current_step(&trial);
            if is_at_speed(&trial) {
                counted = Some(Ok(step));
            } else if step >= TRIAL_LIMIT {
                counted = Some(Err(stepgen::Error::TooFast));
            } else if !Self::trial_goes_on(step, last, asked) {
                counted = Some(Err(stepgen::Error::TooSlow));
            } else {
                match next_delay(&mut trial) {
                    None => {
                        counted = Some(Ok(step));
                    },
                    Some(delay) => {
                        last = Some(delay);
                    },
                }
            }
        }
        match counted {
            Some(r) => r,
            None => Err(stepgen::Error::TooSlow),
        }
    }

    /// Whether the trial can go on from `step`: see [`trial_in_range`].
    /// `asked` is the delay that the target speed asks for, in 16.8 ticks.
    fn trial_goes_on(step: u32, last: Option<u32>, asked: u64) -> (on: bool)
        requires
            asked < 0x100_0000,
        ensures
            on == !(last is Some && !trial_in_range(step, last->Some_0, (asked * 256) as u32)),
    {
        match last {
            None => true,
            Some(delay) => {
                let wide: u64 = delay as u64 * 256;
                wide >= asked * 256 && 2 * (wide + 255) + 2 * (step as u64) <= u32::MAX as u64
            },
        }
    }

    /// The next load of a countdown with `remaining` ticks left: half of
    /// what is left, at most [`CHUNK_MAX`], while more than one load is left,
    /// so that the load after it is ready before this one runs out; then all
    /// of the rest.
    pub fn next_load(remaining: u32) -> (load: u16)
        ensures
            load == chunk(remaining),
            load <= remaining,
            load == 0 <==> remaining == 0,
            remaining > CHUNK_MAX ==> load >= 32768,
    {
        if remaining > CHUNK_MAX {
            let half: u32 = remaining / 2;
            if half < CHUNK_MAX {
                half as u16
            } else {
                CHUNK_MAX as u16
            }
        } else {
            remaining as u16
        }
    }

    /// Takes the next load of the countdown timer off the wait; see
    /// [`ThreadInfo::next_load`]. A load of 0 says that the countdown is
    /// over.
    pub fn next_wait_delay(&mut self) -> (load: u16)
        ensures
            load == chunk(old(self)@.delay_remaining),
            final(self)@ == (ThreadInfoView {
                delay_remaining: (old(self)@.delay_remaining - load) as u32,
                ..old(self)@
            }),
            load == 0 <==> old(self)@.delay_remaining == 0,
            load <= old(self)@.delay_remaining,
    {
        let load: u16 = Self::next_load(self.delay_remaining);
        self.delay_remaining = self.delay_remaining - load as u32;
        load
    }

    /// The target speed for a spindle at `rpm`, held at the top of `u32`
    /// where it would pass it, and a record of the phase error: the steps
    /// taken since the start of the cut, modulo the steps per turn. The
    /// error is only recorded; the speed does not depend on it.
    pub fn calculate_speed(&mut self, rpm: u32, steps_since_start: u32) -> (speed: u32)
        requires
            old(self)@.steps_per_thread > 0,
        ensures
            speed == if cruise_speed(rpm, old(self)@.steps_per_thread) > u32::MAX {
                u32::MAX as int
            } else {
                cruise_speed(rpm, old(self)@.steps_per_thread)
            },
            final(self)@ == (ThreadInfoView {
                last_error: (steps_since_start % old(self)@.steps_per_thread) as u32,
                ..old(self)@
            }),
            final(self)@.last_error < final(self)@.steps_per_thread,
    {
        assert(rpm * self.steps_per_thread <= 0xffff_ffff * 0xffff_ffff) by (nonlinear_arith)
            requires
                rpm <= 0xffff_ffff,
                self.steps_per_thread <= 0xffff_ffff,
        ;
        let wide: u64 = (rpm as u64) * (self.steps_per_thread as u64) / 60;
        self.last_error = steps_since_start % self.steps_per_thread;
        if wide > u32::MAX as u64 {
            u32::MAX
        } else {
            wide as u32
        }
    }

    /// The phase error of `last_error` steps in a turn of
    /// `steps_per_thread`, in degrees within (-180, 180].
    pub fn phase_error_degrees(last_error: u32, steps_per_thread: u32) -> (degrees: i32)
        requires
            steps_per_thread > 0,
            last_error <= steps_per_thread,
        ensures
            degrees == error_degrees(last_error, steps_per_thread),
            -180 < degrees <= 180,
    {
        assert(360 * last_error + steps_per_thread / 2 <= 361 * 0xffff_ffff);
        let turned: u64 = (360 * (last_error as u64) + (steps_per_thread as u64) / 2) / (
        steps_per_thread as u64);
        proof {
            let e = last_error as int;
            let t = steps_per_thread as int;
            assert(360 * e + t / 2 < 361 * t);
            lemma_div_is_ordered_by_denominator(361 * t, t, t);
            assert((360 * e + t / 2) / t <= 360) by (nonlinear_arith)
                requires
                    0 <= e,
                    0 < t,
                    360 * e + t / 2 < 361 * t,
            ;
        }
        if turned > 180 {
            (turned as i32) - 360
        } else {
            turned as i32
        }
    }

    /// The phase error recorded at the last spindle mark, in steps.
    pub fn last_error(&self) -> (steps: u32)
        ensures
            steps == self@.last_error,
    {
        self.last_error
    }

    /// The phase error recorded at the last spindle mark, in degrees.
    pub fn last_error_degrees(&self) -> (degrees: i32)
        requires
            self@.steps_per_thread > 0,
            self@.last_error <= self@.steps_per_thread,
        ensures
            degrees == error_degrees(self@.last_error, self@.steps_per_thread),
            -180 < degrees <= 180,
    {
        Self::phase_error_degrees(self.last_error, self.steps_per_thread)
    }
}

/// The outcome of a set-up and the wait that it works out do not depend on
/// where the cut ends: two set-ups that differ in the target only agree in
/// everything but the target that they record.
pub proof fn lemma_setup_ignores_target(
    o: ThreadInfoView,
    steps_per_thread: u32,
    rpm: u32,
    target_a: i32,
    r_a: Result<(), stepgen::Error>,
    n_a: ThreadInfoView,
    target_b: i32,
    r_b: Result<(), stepgen::Error>,
    n_b: ThreadInfoView,
)
    requires
        set_up(o, target_a, steps_per_thread, rpm, r_a, n_a),
        set_up(o, target_b, steps_per_thread, rpm, r_b, n_b),
    ensures
        r_a is Ok <==> r_b is Ok,
        r_a is Err ==> r_a->Err_0 == r_b->Err_0,
        n_b == (ThreadInfoView { target: n_b.target, ..n_a }),
        r_a is Ok ==> n_a.target == target_a && n_b.target == target_b,
        r_a is Err ==> n_a == o && n_b == o,
{
}

/// Counting a wait down hands out all of it: the loads of
/// [`countdown`] add up to the wait and none of them is zero, so the
/// first load of 0 comes exactly when nothing is left.
pub proof fn lemma_countdown_total(remaining: u32)
    ensures
        total(countdown(remaining)) == remaining,
        forall|i: int|
            0 <= i < countdown(remaining).len() ==> 0 < #[trigger] countdown(remaining)[i],
        chunk(0) == 0,
    decreases remaining,
{
    if remaining != 0 {
        let load = chunk(remaining);
        let rest = (remaining - load) as u32;
        lemma_countdown_total(rest);
        let tail = countdown(rest);
        let all = countdown(remaining);
        assert(all == seq![load] + tail);
        assert(all.drop_first() =~= tail);
        assert forall|i: int| 0 <= i < all.len() implies 0 < #[trigger] all[i] by {
            if i > 0 {
                assert(all[i] == tail[i - 1]);
            }
        }
    }
}

/// No error and an error of a whole turn are both 0 degrees. An error of
/// up to half a turn is not negative, and an error beyond half a turn is not
/// positive, but for those that round to the half turn itself, which is 180
/// degrees.
pub proof fn lemma_error_degrees_fold(last_error: u32, steps_per_thread: u32)
    requires
        steps_per_thread > 0,
        last_error <= steps_per_thread,
    ensures
        -180 < error_degrees(last_error, steps_per_thread) <= 180,
        last_error == 0 ==> error_degrees(last_error, steps_per_thread) == 0,
        last_error == steps_per_thread ==> error_degrees(last_error, steps_per_thread) == 0,
        2 * last_error <= steps_per_thread ==> 0 <= error_degrees(last_error, steps_per_thread),
        2 * last_error > steps_per_thread ==> error_degrees(last_error, steps_per_thread) <= 0
            || error_degrees(last_error, steps_per_thread) == 180,
        error_degrees(last_error, steps_per_thread) < 0 ==> 2 * last_error > steps_per_thread,
        0 < error_degrees(last_error, steps_per_thread) < 180 ==> 2 * last_error
            < steps_per_thread,
{
    let e = last_error as int;
    let t = steps_per_thread as int;
    let h = t / 2;
    let raw = (360 * e + h) / t;
    lemma_fundamental_div_mod(360 * e + h, t);
    let rest = (360 * e + h) % t;
    assert(360 * e + h == t * raw + rest);
    assert(0 <= rest < t);
    assert(0 <= raw <= 360) by (nonlinear_arith)
        requires
            360 * e + h == t * raw + rest,
            0 <= rest < t,
            0 <= e <= t,
            0 <= h < t,
    ;
    if e == 0 {
        assert(raw == 0) by (nonlinear_arith)
            requires
                h == t * raw + rest,
                0 <= rest < t,
                0 <= h < t,
                0 <= raw,
        ;
    }
    if e == t {
        assert(raw == 360) by (nonlinear_arith)
            requires
                360 * t + h == t * raw + rest,
                0 <= rest < t,
                0 <= h < t,
        ;
    }
    if 2 * e <= t {
        assert(raw <= 180) by (nonlinear_arith)
            requires
                360 * e + h == t * raw + rest,
                0 <= rest < t,
                2 * e <= t,
                0 <= h < t,
        ;
    }
    if 2 * e >= t {
        assert(raw >= 180) by (nonlinear_arith)
            requires
                360 * e + h == t * raw + rest,
                0 <= rest < t,
                2 * e >= t,
                0 <= h,
        ;
    }
}

} // verus!
