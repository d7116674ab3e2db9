//! The stepper's motion state machine.
//!
//! [`Motion`] holds the state: the profile generator, the committed
//! position, the run state and the thread-cutting data. Each of its
//! operations takes what the driver answered, where it asked, and returns
//! the [`Commands`] for the driver. [`Stepper`] owns a `Motion` and a driver
//! and passes answers and commands between the two.
//!
//! The position is committed only when a run has come to rest. During a run
//! it is derived from the committed position, the generator's step count and
//! the direction of the run, which does not change while the run lasts.
//!
//! The generator computes in `u32` without checks, on a running delay and
//! a place on its ramp that it does not show. An operation that asks it for
//! a delay therefore requires a generator whose state is steady, see
//! [`crate::profile::ProfileView::steady`]; [`MotionView::serves`] and
//! [`MotionView::starts_steadily`] say which states that concerns. For the
//! start of a run from a rested generator that is proved here: an
//! acceleration whose first delay is [`FIRST_LIMIT`] or more is refused.
//! During a run the stepper keeps bounds on what the generator does not
//! show, from the delays that it gives: [`Motion::in_range`] says whether
//! they show the next interrupt to be safe, and [`Stepper::attend`] serves
//! an interrupt only where they do.

use crate::driver::{Commands, StepperDriver};
use crate::profile::{
    advances, current_step, first_delay, first_step, lemma_accepted_delay, new_profile, next_delay,
    profile_view, set_acceleration, set_target_speed, set_target_step, speed_delay, speed_verdict,
    step_of, ProfileView,
};
use crate::profile::is_at_speed;
use crate::threads::{
    chunk, cruise_speed, error_degrees, setup_outcome, ThreadInfo, ThreadInfoView, DELAY_FLOOR,
};
use crate::watch::{lemma_safe_is_steady, Watch};
use vstd::prelude::*;

verus! {

/// Direction of travel: the sign of a change of position.
#[derive(Clone, Copy, PartialEq, Eq, Debug, Structural)]
pub enum Direction {
    Left,
    Right,
}

/// What the stepper is doing. One state holds at any time.
#[derive(Clone, Copy, PartialEq, Eq, Debug, Structural)]
pub enum State {
    /// Not stepping.
    Stopped,
    /// Stepping, and a stop was requested.
    StopRequested(Direction),
    /// Coming to rest.
    Stopping(Direction),
    /// Running.
    Running {
        dir: Direction,
        /// The run follows the spindle.
        is_cutting_thread: bool,
    },
    /// Waiting for the spindle's mark before a cut.
    ThreadStart,
    /// Counting down the wait between the mark and the ramp.
    ThreadDelay,
}

/// Why a command to the stepper was refused.
#[derive(Clone, Copy, PartialEq, Debug)]
pub enum StepperError {
    /// The stepper is not at rest, as the command needs it.
    NotStopped,
    /// The profile generator refused a setting.
    StepgenError(stepgen::Error),
}

impl From<stepgen::Error> for StepperError {
    fn from(err: stepgen::Error) -> (e: StepperError) {
        StepperError::StepgenError(err)
    }
}

impl vstd::std_specs::convert::FromSpecImpl<stepgen::Error> for StepperError {
    open spec fn obeys_from_spec() -> bool {
        true
    }

    open spec fn from_spec(err: stepgen::Error) -> StepperError {
        StepperError::StepgenError(err)
    }
}

/// The highest step that a run may be aimed at. The generator looks one
/// step past its target, in `u32`.
pub const STEP_LIMIT: u32 = 0xffff_fffd;

/// The first delay of a ramp, in 16.8 ticks, from which on an acceleration
/// is refused: with a first step of 32768 ticks the generator's arithmetic
/// for the second step leaves the range of `u32`.
pub const FIRST_LIMIT: u64 = 0x80_0000;

/// The direction from `position` to another `target`.
pub open spec fn heading(position: i32, target: i32) -> Direction {
    if target > position {
        Direction::Right
    } else {
        Direction::Left
    }
}

/// The steps between `position` and `target`.
pub open spec fn distance(position: i32, target: i32) -> int {
    if target > position {
        target - position
    } else {
        position - target
    }
}

/// The position `offset` steps from `position` in direction `dir`. Beyond
/// the ends of `i32` it wraps around.
pub open spec fn travelled(dir: Direction, position: i32, offset: int) -> i32 {
    match dir {
        Direction::Left => (position - offset) as i32,
        Direction::Right => (position + offset) as i32,
    }
}

/// The level of the direction line for a run in direction `dir`.
pub open spec fn signal(dir: Direction, reversed: bool) -> bool {
    match dir {
        Direction::Left => reversed,
        Direction::Right => !reversed,
    }
}

/// A delay in 16.8 ticks rounded to whole ticks, as the 16-bit timer takes
/// it.
pub open spec fn whole_ticks(delay: u32) -> u16 {
    ((delay + 128) / 256) as u16
}

/// The state that a run is in once the generator is exhausted.
pub open spec fn halted(state: State) -> State {
    match state {
        State::Running { dir, .. } => State::Stopping(dir),
        _ => state,
    }
}

/// The generator `p` aimed at `target`, if it takes a target.
pub open spec fn retargeted(p: ProfileView, target: u32) -> ProfileView {
    if p.ready() {
        ProfileView { target: target, ..p }
    } else {
        p
    }
}

/// The generator `p` told to cruise at `speed`, if it takes that speed.
pub open spec fn respeeded(p: ProfileView, speed: u32) -> ProfileView {
    if speed_verdict(p.ticks, speed) is Ok {
        ProfileView { goal: speed_delay(p.ticks, speed), ..p }
    } else {
        p
    }
}

/// The stepper `o` after it was told to cruise at `speed`: a speed that
/// the generator refuses changes nothing.
pub open spec fn with_speed(o: MotionView, speed: u32) -> MotionView {
    if speed_verdict(o.profile.ticks, speed) is Ok {
        MotionView { profile: respeeded(o.profile, speed), ..o }
    } else {
        o
    }
}

/// The stepper `o` after it has taken `acceleration`.
pub open spec fn with_acceleration(o: MotionView, acceleration: u32) -> MotionView {
    MotionView {
        threads: ThreadInfoView { acceleration: acceleration, ..o.threads },
        profile: ProfileView {
            first: (first_delay(o.profile.ticks, acceleration) * 256) as u32,
            ..o.profile
        },
        ..o
    }
}

/// The thread data after one load of the countdown was taken.
pub open spec fn counted(t: ThreadInfoView) -> ThreadInfoView {
    ThreadInfoView { delay_remaining: (t.delay_remaining - chunk(t.delay_remaining)) as u32, ..t }
}

/// The speed handed to the generator for a spindle at `rpm`.
pub open spec fn following_speed(rpm: u32, steps_per_thread: u32) -> u32 {
    if cruise_speed(rpm, steps_per_thread) > u32::MAX {
        u32::MAX
    } else {
        cruise_speed(rpm, steps_per_thread) as u32
    }
}

/// The state of a [`Motion`].
pub struct MotionView {
    pub state: State,
    /// The position committed when the last run came to rest.
    pub position: i32,
    /// The generator's step count at that moment.
    pub base_step: u32,
    pub reversed: bool,
    pub disable_at_stop: bool,
    /// The generator has said that it is exhausted, and has given no delay
    /// since: it stands on no ramp and has no step to give.
    pub rested: bool,
    pub threads: ThreadInfoView,
    pub profile: ProfileView,
}

impl MotionView {
    /// What every operation keeps.
    pub open spec fn wf(self) -> bool {
        &&& self.base_step <= self.profile.step <= STEP_LIMIT
        &&& self.profile.target <= STEP_LIMIT
        &&& self.profile.projected_stop() < u32::MAX
        &&& self.threads.timer_freq == self.profile.ticks
        &&& self.threads.acceleration != 0 ==> self.profile.first == first_delay(
            self.profile.ticks,
            self.threads.acceleration,
        ) * 256 && first_delay(self.profile.ticks, self.threads.acceleration) < FIRST_LIMIT
        &&& self.threads.acceleration == 0 ==> self.profile.first == 0
        &&& self.profile.goal == 0 || self.profile.goal >= 256
        &&& self.rested ==> self.profile.ramp == 0 && self.profile.exhausted()
        &&& self.threads.last_error <= self.threads.steps_per_thread
        &&& self.at_rest() ==> self.profile.step == self.base_step
        &&& self.state is ThreadStart || self.state is ThreadDelay ==> self.threads.steps_per_thread
            > 0 && self.base_step + distance(self.position, self.threads.target) <= STEP_LIMIT
        &&& self.state matches State::Running { is_cutting_thread, .. } ==> (is_cutting_thread
            ==> self.threads.steps_per_thread > 0)
    }

    /// No run is under way.
    pub open spec fn at_rest(self) -> bool {
        self.state is Stopped || self.state is ThreadStart || self.state is ThreadDelay
    }

    /// A run to `target` can start: the generator has rested, or its
    /// arithmetic stays in range for the two delays that the start asks for.
    /// The two delays of a start from rest are the first delays of a ramp,
    /// which stay in range under [`FIRST_LIMIT`].
    pub open spec fn starts_steadily(self, target: i32) -> bool {
        let aimed = ProfileView {
            target: (self.base_step + distance(self.position, target)) as u32,
            ..self.profile
        };
        target != self.position ==> self.rested || (aimed.steady() && step_of(aimed).1.steady())
    }

    /// An interrupt can be served when the driver says that a period was
    /// complete (`pending`) and whether its timer still runs (`running`).
    /// A period cannot end while no period runs. Where the generator gets a
    /// new target it has to take it, and where it is asked for a delay its
    /// arithmetic has to stay in range, as it does once the generator has
    /// rested.
    pub open spec fn serves(self, pending: bool, running: bool) -> bool {
        pending ==> match self.state {
            State::Stopped => false,
            State::ThreadStart => false,
            State::StopRequested(_) => self.profile.ready() && (ProfileView {
                target: self.profile.step,
                ..self.profile
            }).steady(),
            State::Stopping(_) => running ==> self.profile.steady(),
            State::Running { .. } => self.profile.steady(),
            State::ThreadDelay => !running ==> self.profile.ready() && self.starts_steadily(
                self.threads.target,
            ),
        }
    }

    /// The stepper can follow a spindle at `rpm`: during a cut, the
    /// generator takes the speed that follows it.
    pub open spec fn follows(self, rpm: u32) -> bool {
        self.state matches State::Running { is_cutting_thread: true, .. } ==> speed_verdict(
            self.profile.ticks,
            following_speed(rpm, self.threads.steps_per_thread),
        ) is Ok
    }

    /// The generator's arithmetic stays in range for the delays that the
    /// next interrupt may ask for.
    pub open spec fn runs_in_range(self) -> bool {
        match self.state {
            State::Stopped => true,
            State::ThreadStart => true,
            State::StopRequested(_) => (ProfileView {
                target: self.profile.step,
                ..self.profile
            }).steady(),
            State::Stopping(_) => self.profile.steady(),
            State::Running { .. } => self.profile.steady(),
            State::ThreadDelay => self.starts_steadily(self.threads.target),
        }
    }

    /// Steps taken since the position was last committed.
    pub open spec fn offset(self) -> int {
        self.profile.step - self.base_step
    }

    /// The position as a reader sees it: derived while running, else the
    /// committed one.
    pub open spec fn current_position(self) -> i32 {
        match self.state {
            State::Running { dir, .. } => travelled(dir, self.position, self.offset()),
            _ => self.position,
        }
    }

    /// The state after a run in direction `dir` is committed.
    pub open spec fn committed(self, dir: Direction) -> MotionView {
        MotionView {
            state: State::Stopped,
            position: travelled(dir, self.position, self.offset()),
            base_step: self.profile.step,
            ..self
        }
    }

    /// At rest, with a generator that is at rest too.
    pub open spec fn settled(self) -> bool {
        self.at_rest() && self.profile.ramp == 0 && self.profile.step == self.base_step
    }

    /// On the way to `target` with nothing in between: the generator is
    /// aimed at the step that corresponds to `target` and can still come to
    /// rest on it, or has done so.
    pub open spec fn on_course(self, target: i32) -> bool {
        let p = self.profile;
        match self.state {
            State::Running { dir, .. } => {
                &&& self.base_step <= p.target
                &&& p.projected_stop() <= p.target + 1
                &&& p.ramp == 0 ==> p.step <= p.target
                &&& target == match dir {
                    Direction::Left => self.position - (p.target - self.base_step),
                    Direction::Right => self.position + (p.target - self.base_step),
                }
            },
            State::Stopping(dir) => {
                &&& p.step == p.target
                &&& p.ramp == 0
                &&& target == match dir {
                    Direction::Left => self.position - (p.target - self.base_step),
                    Direction::Right => self.position + (p.target - self.base_step),
                }
            },
            _ => false,
        }
    }
}

/// The generator of `a` was asked for the next delay, which left the state
/// `n`: a delay to preload, or, from an exhausted generator, the end of the
/// run.
pub open spec fn asked(a: MotionView, n: MotionView, preload: Option<u16>, last: bool) -> bool {
    exists|r: Option<u32>|
        {
            &&& #[trigger] advances(a.profile, r, n.profile)
            &&& (r, n.profile) == step_of(a.profile)
            &&& n == MotionView {
                profile: n.profile,
                rested: r is None,
                state: if r is None {
                    halted(a.state)
                } else {
                    a.state
                },
                ..a
            }
            &&& preload == if r is Some {
                Some(whole_ticks(r->Some_0))
            } else {
                None
            }
            &&& last == (r is None)
        }
}

/// A run from `o` to `target` was started, which left the state `n` and
/// gave the commands `c`: the generator is aimed at the target's step and
/// gives the first delay, with which the pulse train starts, and is asked at
/// once for the second.
pub open spec fn launched(o: MotionView, target: i32, n: MotionView, c: Commands) -> bool {
    exists|first: u32, mid: ProfileView|
        {
            &&& #[trigger] advances(
                ProfileView {
                    target: (o.base_step + distance(o.position, target)) as u32,
                    ..o.profile
                },
                Some(first),
                mid,
            )
            &&& (Some(first), mid) == step_of(
                ProfileView {
                    target: (o.base_step + distance(o.position, target)) as u32,
                    ..o.profile
                },
            )
            &&& asked(
                MotionView {
                    state: State::Running {
                        dir: heading(o.position, target),
                        is_cutting_thread: o.state is ThreadDelay,
                    },
                    rested: false,
                    profile: mid,
                    ..o
                },
                n,
                c.preload,
                c.last,
            )
            &&& c == Commands {
                direction: Some(signal(heading(o.position, target), o.reversed)),
                enable: Some(true),
                start: Some(whole_ticks(first)),
                preload: c.preload,
                last: c.last,
                ..Commands::idle()
            }
        }
}

/// `move_to(target)` on `o` returned `r` and left the state `n`.
pub open spec fn moved(
    o: MotionView,
    target: i32,
    r: Result<Commands, StepperError>,
    n: MotionView,
) -> bool {
    if !(o.state is Stopped || o.state is ThreadDelay) {
        r == Err::<Commands, StepperError>(StepperError::NotStopped) && n == o
    } else if target == o.position {
        r == Ok::<Commands, StepperError>(Commands::idle()) && n == MotionView {
            state: State::Stopped,
            ..o
        }
    } else if !o.profile.ready() {
        r == Err::<Commands, StepperError>(
            StepperError::StepgenError(stepgen::Error::SpeedAccelerationNotSet),
        ) && n == o
    } else {
        r is Ok && launched(o, target, n, r->Ok_0)
    }
}

/// `interrupt` on `o` left the state `n` and gave the commands `c`, when
/// the driver said that a period was complete (`pending`) and, where it was
/// asked, that the timer was still running (`running`).
pub open spec fn interrupted(
    o: MotionView,
    pending: bool,
    running: bool,
    n: MotionView,
    c: Commands,
) -> bool {
    if !pending {
        n == o && c == Commands::idle()
    } else {
        match o.state {
            State::StopRequested(dir) => {
                &&& asked(
                    MotionView {
                        state: State::Stopping(dir),
                        profile: retargeted(o.profile, o.profile.step),
                        ..o
                    },
                    n,
                    c.preload,
                    c.last,
                )
                &&& c == Commands { preload: c.preload, last: c.last, ..Commands::idle() }
            },
            State::Stopping(dir) => {
                if running {
                    &&& asked(o, n, c.preload, c.last)
                    &&& c == Commands { preload: c.preload, last: c.last, ..Commands::idle() }
                } else {
                    &&& n == o.committed(dir)
                    &&& c == Commands {
                        enable: if o.disable_at_stop {
                            Some(false)
                        } else {
                            None
                        },
                        ..Commands::idle()
                    }
                }
            },
            State::Running { .. } => {
                &&& asked(o, n, c.preload, c.last)
                &&& c == Commands { preload: c.preload, last: c.last, ..Commands::idle() }
            },
            State::ThreadDelay => {
                if running {
                    &&& n == MotionView { threads: counted(o.threads), ..o }
                    &&& c == Commands {
                        preload: if chunk(o.threads.delay_remaining) == 0 {
                            None
                        } else {
                            Some(chunk(o.threads.delay_remaining))
                        },
                        last: chunk(o.threads.delay_remaining) == 0,
                        ..Commands::idle()
                    }
                } else if o.threads.target == o.position {
                    &&& n == MotionView { state: State::Stopped, ..o }
                    &&& c == Commands { timer_output: Some(true), ..Commands::idle() }
                } else {
                    &&& launched(
                        o,
                        o.threads.target,
                        n,
                        Commands { timer_output: None, ..c },
                    )
                    &&& c.timer_output == Some(true)
                }
            },
            _ => false,
        }
    }
}

/// An interrupt was served where the stepper was `able` to: `attend` on
/// `o` returned `served` and left the state `n`, with the commands `c`
/// where it served, when the driver answered `pending` and `running`.
pub open spec fn attended(
    o: MotionView,
    able: bool,
    pending: bool,
    running: bool,
    served: bool,
    n: MotionView,
    c: Commands,
) -> bool {
    &&& served == (!pending || able)
    &&& if served {
        interrupted(o, pending, running, n, c)
    } else {
        n == o
    }
}

/// The state after `spindle_sync(rpm)` on `o`.
pub open spec fn synced(o: MotionView, rpm: u32) -> MotionView {
    match o.state {
        State::ThreadStart => MotionView {
            state: State::ThreadDelay,
            threads: counted(counted(o.threads)),
            ..o
        },
        State::Running { is_cutting_thread: true, .. } => MotionView {
            threads: ThreadInfoView {
                last_error: (o.offset() % (o.threads.steps_per_thread as int)) as u32,
                ..o.threads
            },
            profile: respeeded(o.profile, following_speed(rpm, o.threads.steps_per_thread)),
            ..o
        },
        _ => o,
    }
}

/// The commands that `spindle_sync` on `o` gives: at the start of a cut
/// the timer is cut off from the step output and counts the first two loads
/// of the wait.
pub open spec fn sync_commands(o: MotionView) -> Commands {
    match o.state {
        State::ThreadStart => Commands {
            timer_output: Some(false),
            start: Some(chunk(o.threads.delay_remaining)),
            preload: if chunk(counted(o.threads).delay_remaining) == 0 {
                None
            } else {
                Some(chunk(counted(o.threads).delay_remaining))
            },
            last: chunk(counted(o.threads).delay_remaining) == 0,
            ..Commands::idle()
        },
        _ => Commands::idle(),
    }
}

/// `thread_start` on `o` returned `r` and left the state `n`: the cut
/// waits for the spindle with its wait worked out and the generator set to
/// the speed that follows the spindle, or an error is returned and nothing
/// has changed.
pub open spec fn thread_started(
    o: MotionView,
    target: i32,
    steps_per_thread: u32,
    rpm: u32,
    r: Result<(), StepperError>,
    n: MotionView,
) -> bool {
    if !(o.state is Stopped) {
        r == Err::<(), StepperError>(StepperError::NotStopped) && n == o
    } else {
        match setup_outcome(o.threads.timer_freq, o.threads.acceleration, steps_per_thread, rpm) {
            Err(e) => r == Err::<(), StepperError>(StepperError::StepgenError(e)) && n == o,
            Ok(delay) => r is Ok && n == MotionView {
                state: State::ThreadStart,
                threads: ThreadInfoView {
                    steps_per_thread: steps_per_thread,
                    target: target,
                    delay_remaining: delay,
                    last_error: 0,
                    ..o.threads
                },
                profile: ProfileView {
                    goal: speed_delay(o.profile.ticks, cruise_speed(rpm, steps_per_thread) as u32),
                    ..o.profile
                },
                ..o
            },
        }
    }
}

/// Rounds a delay in 16.8 ticks to whole ticks.
pub fn round16_8(delay: u32) -> (ticks: u16)
    ensures
        ticks == whole_ticks(delay),
        delay < 0xff_ff80 ==> ticks == (delay + 128) / 256,
{
    let wide: u64 = delay as u64 + 128;
    assert(wide >> 8 == wide / 256) by (bit_vector);
    let d: u64 = wide >> 8;
    #[verifier::truncate]
    (d as u16)
}

/// The level of the direction line for a run in direction `dir`: high for a
/// run to the right, and the other way round on a reversed axis.
pub fn direction_signal(dir: Direction, reversed: bool) -> (bit: bool)
    ensures
        bit == signal(dir, reversed),
{
    match dir {
        Direction::Left => reversed,
        Direction::Right => !reversed,
    }
}

/// The motion state machine, without its driver.
pub struct Motion {
    stepgen: stepgen::Stepgen,
    threads: ThreadInfo,
    reversed: bool,
    // The screw of a lathe is never turned by hand, so its driver stays
    // enabled: nothing then moves the carriage unnoticed.
    disable_at_stop: bool,
    // Whether the generator has given no delay since it was last exhausted.
    rested: bool,
    // Bounds on what the generator does not show.
    watch: Watch,
    base_step: u32,
    position: i32,
    state: State,
}

impl View for Motion {
    type V = MotionView;

    closed spec fn view(&self) -> MotionView {
        MotionView {
            state: self.state,
            position: self.position,
            base_step: self.base_step,
            reversed: self.reversed,
            disable_at_stop: self.disable_at_stop,
            rested: self.rested,
            threads: self.threads@,
            profile: profile_view(self.stepgen),
        }
    }
}

impl Motion {
    /// What the stepper keeps of its generator's place on the ramp and of
    /// its running delay, which the generator does not show, holds of the
    /// generator; see [`Watch::covers`].
    pub closed spec fn watched(&self) -> bool {
        self.watch.covers(profile_view(self.stepgen))
    }

    /// A stepper at rest at position 0, with a timer of `freq` ticks per
    /// second and nothing configured.
    pub fn new(freq: u32, disable_at_stop: bool) -> (m: Motion)
        ensures
            m@.wf(),
            m.watched(),
            m@.settled(),
            m@.state == State::Stopped,
            m@.position == 0,
            m@.base_step == 0,
            !m@.reversed,
            m@.disable_at_stop == disable_at_stop,
            m@.threads == (ThreadInfoView {
                timer_freq: freq,
                acceleration: 0,
                delay_remaining: 0,
                steps_per_thread: 0,
                target: 0,
                last_error: 0,
            }),
            m@.rested,
            m@.profile == ProfileView::fresh(freq),
    {
        Motion {
            stepgen: new_profile(freq),
            threads: ThreadInfo::new(freq),
            reversed: false,
            disable_at_stop,
            rested: true,
            watch: Watch::new(),
            base_step: 0,
            position: 0,
            state: State::Stopped,
        }
    }

    /// Sets whether the direction line is inverted.
    pub fn set_reversed(&mut self, reversed: bool)
        ensures
            final(self)@ == (MotionView { reversed: reversed, ..old(self)@ }),
            old(self).watched() ==> final(self).watched(),
    {
        self.reversed = reversed;
    }

    /// Sets the acceleration, in 24.8 steps/s^2. An acceleration of 0, or
    /// one whose first delay is [`FIRST_LIMIT`] or more, is refused as too slow
    /// and changes nothing.
    pub fn set_acceleration(&mut self, acceleration: u32) -> (r: Result<(), StepperError>)
        requires
            old(self)@.wf(),
            old(self).watched(),
        ensures
            final(self)@.wf(),
            final(self).watched(),
            r is Err <==> acceleration == 0 || first_delay(old(self)@.profile.ticks, acceleration)
                >= FIRST_LIMIT,
            r is Err ==> r->Err_0 == StepperError::StepgenError(stepgen::Error::TooSlow)
                && final(self)@ == old(self)@,
            r is Ok ==> final(self)@ == with_acceleration(old(self)@, acceleration),
    {
        if acceleration == 0 {
            return Err(StepperError::StepgenError(stepgen::Error::TooSlow));
        }
        let first: u64 = first_step(self.threads.timer_freq(), acceleration);
        if first >= FIRST_LIMIT {
            return Err(StepperError::StepgenError(stepgen::Error::TooSlow));
        }
        match set_acceleration(&mut self.stepgen, acceleration) {
            Err(_) => unreached(),
            Ok(()) => {
                self.threads.set_acceleration(acceleration);
                self.watch.first = first as u32;
                Ok(())
            },
        }
    }

    /// Sets the cruise speed, in 24.8 steps per second. A run reaches it
    /// only where the way is long enough.
    pub fn set_speed(&mut self, speed: u32) -> (r: Result<(), StepperError>)
        requires
            old(self)@.wf(),
            old(self).watched(),
        ensures
            final(self)@.wf(),
            final(self).watched(),
            r is Ok <==> speed_verdict(old(self)@.profile.ticks, speed) is Ok,
            r is Err ==> r->Err_0 == StepperError::StepgenError(
                speed_verdict(old(self)@.profile.ticks, speed)->Err_0,
            ),
            final(self)@ == with_speed(old(self)@, speed),
    {
        match set_target_speed(&mut self.stepgen, speed) {
            Err(e) => Err(StepperError::StepgenError(e)),
            Ok(()) => {
                proof {
                    lemma_accepted_delay(old(self)@.profile.ticks, speed);
                }
                self.watch.asked = Self::delay_asked(self.threads.timer_freq(), speed);
                Ok(())
            },
        }
    }

    /// The delay, in 16.8 ticks, that an accepted `speed` asks for.
    fn delay_asked(ticks: u32, speed: u32) -> (delay: u32)
        requires
            speed_verdict(ticks, speed) is Ok,
        ensures
            delay * 256 == speed_delay(ticks, speed),
            7680 < delay < 0x100_0000,
    {
        proof {
            lemma_accepted_delay(ticks, speed);
        }
        ((ticks as u64) * 0x1_0000 / (speed as u64)) as u32
    }

    /// Asks the generator for the next delay and notes it in `c` for the
    /// timer's preload register. Where the generator is exhausted, the period
    /// that runs is noted as the last one, and a run starts to stop.
    fn preload_delay(&mut self, c: &mut Commands)
        requires
            old(self)@.wf(),
            old(self).watched(),
            !old(self)@.at_rest(),
            old(self)@.profile.steady(),
        ensures
            final(self)@.wf(),
            final(self).watched(),
            asked(old(self)@, final(self)@, final(c).preload, final(c).last),
            *final(c) == (Commands { preload: final(c).preload, last: final(c).last, ..*old(c) }),
    {
        let step: u32 = current_step(&self.stepgen);
        let ghost before = profile_view(self.stepgen);
        let next = next_delay(&mut self.stepgen);
        let cruising: bool = is_at_speed(&self.stepgen);
        self.watch.after(next, cruising, step, Ghost(before), Ghost(profile_view(self.stepgen)));
        match next {
            Some(delay) => {
                self.rested = false;
                c.preload = Some(round16_8(delay));
                c.last = false;
            },
            None => {
                self.rested = true;
                if let State::Running { dir, .. } = self.state {
                    self.state = State::Stopping(dir);
                }
                c.preload = None;
                c.last = true;
            },
        }
    }

    /// The driver's period-complete interrupt. `pending` is what the driver
    /// said of its flag, and `running` whether its timer still runs, which
    /// matters while stopping and while a cut counts its wait down.
    ///
    /// A requested stop is carried out here: the generator is aimed at the
    /// step it is on, so that it decelerates. A run that stops is committed
    /// once the timer has stopped. A wait that has run out starts the cut.
    /// Where nothing is pending, nothing happens.
    pub fn interrupt(&mut self, pending: bool, running: bool) -> (c: Commands)
        requires
            old(self)@.wf(),
            old(self).watched(),
            old(self)@.serves(pending, running),
        ensures
            final(self)@.wf(),
            final(self).watched(),
            interrupted(old(self)@, pending, running, final(self)@, c),
    {
        let mut c = Commands::none();
        if !pending {
            return c;
        }
        match self.state {
            State::StopRequested(dir) => {
                // No distance is left from here: the generator decelerates.
                let step: u32 = current_step(&self.stepgen);
                match set_target_step(&mut self.stepgen, step) {
                    Ok(()) => {},
                    Err(_) => unreached(),
                }
                self.watch.aim = step;
                self.watch.braking = false;
                self.state = State::Stopping(dir);
                self.preload_delay(&mut c);
            },
            State::Stopping(dir) => {
                if !running {
                    if self.disable_at_stop {
                        c.enable = Some(false);
                    }
                    self.state = State::Stopped;
                    self.update_position(dir);
                } else {
                    self.preload_delay(&mut c);
                }
            },
            State::Running { .. } => {
                self.preload_delay(&mut c);
            },
            State::ThreadDelay => {
                if !running {
                    let target: i32 = self.threads.target_position();
                    match self.move_to(target) {
                        Ok(go) => {
                            c = go;
                        },
                        Err(_) => unreached(),
                    }
                    c.timer_output = Some(true);
                } else {
                    let load: u16 = self.threads.next_wait_delay();
                    if load == 0 {
                        c.last = true;
                    } else {
                        c.preload = Some(load);
                    }
                }
            },
            // No period ends while no period runs.
            State::Stopped => unreached(),
            State::ThreadStart => unreached(),
        }
        c
    }

    /// Takes the steps made since the last commit into the position.
    fn update_position(&mut self, dir: Direction)
        requires
            old(self)@.base_step <= old(self)@.profile.step,
        ensures
            final(self)@ == (MotionView {
                position: travelled(dir, old(self)@.position, old(self)@.offset()),
                base_step: old(self)@.profile.step,
                ..old(self)@
            }),
            old(self).watched() ==> final(self).watched(),
    {
        let at = self.calc_position(dir);
        self.base_step = at.0;
        self.position = at.1;
    }

    /// The generator's step count, and the position that it corresponds to
    /// in a run in direction `dir`.
    fn calc_position(&self, dir: Direction) -> (at: (u32, i32))
        requires
            self@.base_step <= self@.profile.step,
        ensures
            at.0 == self@.profile.step,
            at.1 == travelled(dir, self@.position, self@.offset()),
    {
        let step: u32 = current_step(&self.stepgen);
        let offset: i64 = (step - self.base_step) as i64;
        let wide: i64 = match dir {
            Direction::Left => self.position as i64 - offset,
            Direction::Right => self.position as i64 + offset,
        };
        (
            step,
            #[verifier::truncate]
            (wide as i32),
        )
    }

    /// Starts a run to `target`. Accepted at rest, and from the wait of a
    /// cut as its start; refused with `NotStopped` otherwise. A target equal
    /// to the position is reached at once. A generator without speed or
    /// acceleration refuses the run, and nothing changes.
    ///
    /// The second delay is asked for at once: the timer's preload register
    /// has to hold it before the first period ends.
    pub fn move_to(&mut self, target: i32) -> (r: Result<Commands, StepperError>)
        requires
            old(self)@.wf(),
            old(self).watched(),
            old(self)@.state is Stopped || old(self)@.state is ThreadDelay ==> old(self)@.base_step
                + distance(old(self)@.position, target) <= STEP_LIMIT,
            (old(self)@.state is Stopped || old(self)@.state is ThreadDelay)
                && old(self)@.profile.ready() ==> old(self)@.starts_steadily(target),
        ensures
            final(self)@.wf(),
            final(self).watched(),
            moved(old(self)@, target, r, final(self)@),
    {
        let cutting: bool = match self.state {
            State::Stopped => false,
            State::ThreadDelay => true,
            _ => {
                return Err(StepperError::NotStopped);
            },
        };
        if self.position == target {
            self.state = State::Stopped;
            return Ok(Commands::none());
        }
        let wide: i64 = target as i64 - self.position as i64;
        let dir: Direction = if wide > 0 {
            Direction::Right
        } else {
            Direction::Left
        };
        let steps: u32 = if wide > 0 {
            wide as u32
        } else {
            (-wide) as u32
        };
        match set_target_step(&mut self.stepgen, self.base_step + steps) {
            Err(e) => {
                return Err(StepperError::StepgenError(e));
            },
            Ok(()) => {},
        }
        self.watch.aim = self.base_step + steps;
        self.watch.braking = false;
        self.state = State::Running { dir, is_cutting_thread: cutting };
        let mut c = Commands::none();
        c.direction = Some(direction_signal(dir, self.reversed));
        c.enable = Some(true);
        let ghost aimed = profile_view(self.stepgen);
        let from: u32 = current_step(&self.stepgen);
        let first = next_delay(&mut self.stepgen);
        let cruising: bool = is_at_speed(&self.stepgen);
        self.watch.after(first, cruising, from, Ghost(aimed), Ghost(profile_view(self.stepgen)));
        self.rested = false;
        let ghost mid = self@;
        // The generator was just aimed beyond the step it is on: it has a
        // delay to give.
        assert(first is Some);
        if let Some(delay) = first {
            c.start = Some(round16_8(delay));
        }
        // The second delay at once, for the preload register.
        self.preload_delay(&mut c);
        assert(launched(old(self)@, target, self@, c)) by {
            assert(advances(aimed, first, mid.profile));
            assert((first, mid.profile) == step_of(aimed));
            assert(asked(mid, self@, c.preload, c.last));
        }
        Ok(c)
    }

    /// Whether the next interrupt depends on the timer still running: while
    /// stopping, and while a cut counts its wait down.
    pub fn watches_timer(&self) -> (watches: bool)
        ensures
            watches == (self@.state is Stopping || self@.state is ThreadDelay),
    {
        match self.state {
            State::Stopping(_) => true,
            State::ThreadDelay => true,
            _ => false,
        }
    }

    /// Whether a run from the committed position to `target` stays within
    /// the generator's count of steps, which only ever grows.
    pub fn can_reach(&self, target: i32) -> (ok: bool)
        ensures
            ok == (self@.base_step + distance(self@.position, target) <= STEP_LIMIT),
    {
        let wide: i64 = target as i64 - self.position as i64;
        let steps: u64 = if wide > 0 {
            wide as u64
        } else {
            (-wide) as u64
        };
        self.base_step as u64 + steps <= STEP_LIMIT as u64
    }

    /// Steps per turn of the spindle of the cut that was last set up; 0
    /// before the first.
    pub fn steps_per_thread(&self) -> (steps: u32)
        ensures
            steps == self@.threads.steps_per_thread,
    {
        self.threads.steps_per_thread()
    }

    /// Whether the generator takes a target: a speed has been set, and an
    /// acceleration that gives a ramp. A run, a stop and the start of a cut
    /// give it one.
    pub fn armed(&self) -> (armed: bool)
        requires
            self.watched(),
        ensures
            armed == self@.profile.ready(),
    {
        self.watch.asked != 0 && self.watch.first != 0
    }

    /// Whether the generator has given no delay since it was last
    /// exhausted: a run can then start.
    pub fn rested(&self) -> (rested: bool)
        ensures
            rested == self@.rested,
    {
        self.rested
    }

    /// What the stepper knows of its generator.
    pub fn watch(&self) -> (w: Watch)
        requires
            self.watched(),
        ensures
            w.covers(self@.profile),
    {
        self.watch
    }

    /// The stepper knows that the generator's arithmetic stays in range
    /// for the delays that the next interrupt may ask for: the generator has
    /// rested, or the bounds kept of it show as much; see [`Watch::safe`].
    /// Of a wait that is over with a generator that has not rested it knows
    /// nothing.
    pub closed spec fn sure(&self) -> bool {
        let step = profile_view(self.stepgen).step;
        self.rested || match self.state {
            State::Stopped => true,
            State::ThreadStart => true,
            State::ThreadDelay => false,
            State::StopRequested(_) => self.watch.safe(step, step, self.watch.lo >= 1),
            _ => self.watch.safe(step, self.watch.aim, false),
        }
    }

    /// Whether the stepper knows that the generator's arithmetic stays in
    /// range for the delays that the next interrupt may ask for. It goes by
    /// the delays that the generator has given: where they leave that open,
    /// the answer is no.
    pub fn in_range(&self) -> (ok: bool)
        requires
            self@.wf(),
            self.watched(),
        ensures
            ok == self.sure(),
            ok ==> self@.runs_in_range(),
    {
        if self.rested {
            return true;
        }
        let step: u32 = current_step(&self.stepgen);
        match self.state {
            State::Stopped => true,
            State::ThreadStart => true,
            State::ThreadDelay => false,
            State::StopRequested(_) => {
                let beyond: bool = self.watch.lo >= 1;
                let ok: bool = self.watch.is_safe(step, step, beyond);
                proof {
                    if ok {
                        lemma_safe_is_steady(self.watch, self@.profile, step, beyond);
                    }
                }
                ok
            },
            _ => {
                let ok: bool = self.watch.is_safe(step, self.watch.aim, false);
                proof {
                    if ok {
                        lemma_safe_is_steady(self.watch, self@.profile, self.watch.aim, false);
                    }
                }
                ok
            },
        }
    }

    /// Whether the stepper can follow a spindle at `rpm` (24.8 turns per
    /// minute): outside of a cut always, and during a cut where the
    /// generator takes the speed that follows it.
    pub fn can_follow(&self, rpm: u32) -> (ok: bool)
        requires
            self@.wf(),
        ensures
            ok == self@.follows(rpm),
    {
        match self.state {
            State::Running { is_cutting_thread, .. } => {
                if is_cutting_thread {
                    let per_turn: u32 = self.threads.steps_per_thread();
                    assert(rpm * per_turn <= 0xffff_ffff * 0xffff_ffff) by (nonlinear_arith)
                        requires
                            rpm <= 0xffff_ffff,
                            per_turn <= 0xffff_ffff,
                    ;
                    let wide: u64 = (rpm as u64) * (per_turn as u64) / 60;
                    let speed: u64 = if wide > u32::MAX as u64 {
                        u32::MAX as u64
                    } else {
                        wide
                    };
                    if speed == 0 {
                        false
                    } else {
                        let delay: u64 = (self.threads.timer_freq() as u64) * 0x1_0000 / speed;
                        7680 < delay && delay < 0x100_0000
                    }
                } else {
                    true
                }
            },
            _ => true,
        }
    }

    /// Asks a run to stop. The stop is carried out by the next interrupt,
    /// since the generator and the driver belong to the interrupt while a
    /// run lasts. Outside of a run nothing happens.
    pub fn stop(&mut self)
        ensures
            final(self)@ == (MotionView {
                state: match old(self)@.state {
                    State::Running { dir, .. } => State::StopRequested(dir),
                    s => s,
                },
                ..old(self)@
            }),
            old(self)@.wf() ==> final(self)@.wf(),
            old(self).watched() ==> final(self).watched(),
    {
        if let State::Running { dir, .. } = self.state {
            self.state = State::StopRequested(dir);
        }
    }

    /// The run state.
    pub fn state(&self) -> (state: State)
        ensures
            state == self@.state,
    {
        self.state
    }

    /// The position: during a run, what a commit at this moment would
    /// record; otherwise the committed position.
    pub fn position(&self) -> (position: i32)
        requires
            self@.wf(),
        ensures
            position == self@.current_position(),
    {
        if let State::Running { dir, .. } = self.state {
            self.calc_position(dir).1
        } else {
            self.position
        }
    }

    /// Prepares a cut to `target` at `steps_per_thread` steps per turn of
    /// the spindle, which turns at about `estimated_rpm`: works out the wait
    /// after the spindle's mark, sets the speed that follows the spindle,
    /// and waits for the mark. Accepted at rest only. Where the cut cannot be
    /// synchronised the error is returned and nothing changes.
    pub fn thread_start(
        &mut self,
        target: i32,
        steps_per_thread: u32,
        phase: u16,
        estimated_rpm: u32,
    ) -> (r: Result<(), StepperError>)
        requires
            old(self)@.wf(),
            old(self).watched(),
            old(self)@.state is Stopped ==> old(self)@.base_step + distance(
                old(self)@.position,
                target,
            ) <= STEP_LIMIT,
        ensures
            final(self)@.wf(),
            final(self).watched(),
            thread_started(
                old(self)@,
                target,
                steps_per_thread,
                estimated_rpm,
                r,
                final(self)@,
            ),
            r is Ok ==> final(self)@.threads.delay_remaining > DELAY_FLOOR,
    {
        if self.state != State::Stopped {
            return Err(StepperError::NotStopped);
        }
        match self.threads.setup_thread_cutting(target, steps_per_thread, phase, estimated_rpm) {
            Err(e) => {
                return Err(StepperError::StepgenError(e));
            },
            Ok(()) => {},
        }
        // The trial generator has taken this speed at the same timer
        // frequency, and so does this one.
        let speed: u32 = self.threads.calculate_speed(estimated_rpm, 0);
        proof {
            lemma_accepted_delay(old(self)@.profile.ticks, speed);
        }
        match set_target_speed(&mut self.stepgen, speed) {
            Err(_) => unreached(),
            Ok(()) => {},
        }
        self.watch.asked = Self::delay_asked(self.threads.timer_freq(), speed);
        self.state = State::ThreadStart;
        Ok(())
    }

    /// The spindle passed its mark with a speed of `rpm`. A cut that waits
    /// for the mark starts to count its wait down. A cut under way takes the
    /// speed that follows the spindle and records its phase error. Otherwise
    /// nothing happens.
    pub fn spindle_sync(&mut self, rpm: u32) -> (c: Commands)
        requires
            old(self)@.wf(),
            old(self).watched(),
            old(self)@.follows(rpm),
        ensures
            final(self)@.wf(),
            final(self).watched(),
            final(self)@ == synced(old(self)@, rpm),
            c == sync_commands(old(self)@),
    {
        let mut c = Commands::none();
        match self.state {
            State::ThreadStart => {
                c.timer_output = Some(false);
                let load: u16 = self.threads.next_wait_delay();
                self.state = State::ThreadDelay;
                c.start = Some(load);
                let next: u16 = self.threads.next_wait_delay();
                if next == 0 {
                    c.last = true;
                } else {
                    c.preload = Some(next);
                }
            },
            State::Running { is_cutting_thread, .. } => {
                if is_cutting_thread {
                    let step: u32 = current_step(&self.stepgen);
                    let steps_since_start: u32 = step - self.base_step;
                    let speed: u32 = self.threads.calculate_speed(rpm, steps_since_start);
                    proof {
                        lemma_accepted_delay(old(self)@.profile.ticks, speed);
                    }
                    match set_target_speed(&mut self.stepgen, speed) {
                        Ok(()) => {
                            self.watch.asked = Self::delay_asked(
                                self.threads.timer_freq(),
                                speed,
                            );
                        },
                        Err(_) => unreached(),
                    }
                }
            },
            _ => {},
        }
        c
    }

    /// The phase error recorded at the last spindle mark of a cut, in
    /// degrees.
    pub fn last_error_degrees(&self) -> (degrees: i32)
        requires
            self@.wf(),
            self@.threads.steps_per_thread > 0,
        ensures
            degrees == error_degrees(self@.threads.last_error, self@.threads.steps_per_thread),
            -180 < degrees <= 180,
    {
        self.threads.last_error_degrees()
    }
}


/// A stepper: the motion state machine together with the driver that it
/// commands.
pub struct Stepper<S: StepperDriver> {
    motion: Motion,
    driver: S,
    // What the driver has been told so far.
    told: Ghost<Seq<Commands>>,
}

impl<S: StepperDriver> View for Stepper<S> {
    type V = MotionView;

    closed spec fn view(&self) -> MotionView {
        self.motion@
    }
}

impl<S: StepperDriver> Stepper<S> {
    /// What the stepper keeps of its generator holds of it; see
    /// [`Motion::watched`].
    pub closed spec fn watched(&self) -> bool {
        self.motion.watched()
    }

    /// What the driver has been told since the stepper was made: the
    /// commands of each interrupt, each start of a run and each mark of the
    /// spindle, in order. The commands of one of them are given in the order
    /// of their fields; where none is set, the driver was told nothing.
    pub closed spec fn told(&self) -> Seq<Commands> {
        self.told@
    }

    /// Gives the commands `c` to the driver.
    fn tell(&mut self, c: Commands)
        ensures
            final(self)@ == old(self)@,
            final(self).told() == old(self).told().push(c),
            old(self).watched() ==> final(self).watched(),
    {
        c.apply(&mut self.driver);
        self.told = Ghost(self.told@.push(c));
    }

    /// A stepper at rest at position 0 that commands `driver`, whose timer
    /// counts `freq` ticks per second. With `disable_at_stop` the driver's
    /// outputs are switched off whenever a run has come to rest.
    pub fn new(freq: u32, driver: S, disable_at_stop: bool) -> (stepper: Stepper<S>)
        ensures
            stepper@.wf(),
            stepper.watched(),
            stepper.told() == Seq::<Commands>::empty(),
            stepper@.settled(),
            stepper@.state == State::Stopped,
            stepper@.position == 0,
            stepper@.base_step == 0,
            !stepper@.reversed,
            stepper@.disable_at_stop == disable_at_stop,
            stepper@.threads.timer_freq == freq,
            stepper@.profile.ticks == freq,
            !stepper@.profile.ready(),
    {
        Stepper { motion: Motion::new(freq, disable_at_stop), driver, told: Ghost(Seq::empty()) }
    }

    /// Sets whether the direction line is inverted.
    pub fn set_reversed(&mut self, reversed: bool)
        ensures
            final(self)@ == (MotionView { reversed: reversed, ..old(self)@ }),
            final(self).told() == old(self).told(),
            old(self).watched() ==> final(self).watched(),
    {
        self.motion.set_reversed(reversed);
    }

    /// Sets the acceleration, in 24.8 steps/s^2. An acceleration of 0, or
    /// one whose first delay is [`FIRST_LIMIT`] or more, is refused as too slow
    /// and changes nothing.
    pub fn set_acceleration(&mut self, acceleration: u32) -> (r: Result<(), StepperError>)
        requires
            old(self)@.wf(),
            old(self).watched(),
        ensures
            final(self)@.wf(),
            final(self).watched(),
            r is Err <==> acceleration == 0 || first_delay(old(self)@.profile.ticks, acceleration)
                >= FIRST_LIMIT,
            r is Err ==> r->Err_0 == StepperError::StepgenError(stepgen::Error::TooSlow)
                && final(self)@ == old(self)@,
            r is Ok ==> final(self)@ == with_acceleration(old(self)@, acceleration),
            final(self).told() == old(self).told(),
    {
        self.motion.set_acceleration(acceleration)
    }

    /// Sets the cruise speed, in 24.8 steps per second. A run reaches it
    /// only where the way is long enough.
    pub fn set_speed(&mut self, speed: u32) -> (r: Result<(), StepperError>)
        requires
            old(self)@.wf(),
            old(self).watched(),
        ensures
            final(self)@.wf(),
            final(self).watched(),
            r is Ok <==> speed_verdict(old(self)@.profile.ticks, speed) is Ok,
            r is Err ==> r->Err_0 == StepperError::StepgenError(
                speed_verdict(old(self)@.profile.ticks, speed)->Err_0,
            ),
            final(self)@ == with_speed(old(self)@, speed),
            final(self).told() == old(self).told(),
    {
        self.motion.set_speed(speed)
    }

    /// The driver's period-complete interrupt. The driver is asked whether
    /// a period was in fact complete, and, where the state depends on it,
    /// whether its timer still runs; what follows is [`Motion::interrupt`]
    /// for those answers, and its commands go to the driver. The stepper has
    /// to be able to serve the interrupt whatever the driver answers.
    pub fn interrupt(&mut self)
        requires
            old(self)@.wf(),
            old(self).watched(),
            forall|pending: bool, running: bool| old(self)@.serves(pending, running),
        ensures
            final(self)@.wf(),
            final(self).watched(),
            exists|pending: bool, running: bool, c: Commands|
                {
                    &&& #[trigger] interrupted(old(self)@, pending, running, final(self)@, c)
                    &&& final(self).told() == old(self).told().push(c)
                },
    {
        let pending: bool = self.driver.interrupt();
        let running: bool = if pending && self.motion.watches_timer() {
            self.driver.is_running()
        } else {
            true
        };
        assert(old(self)@.serves(pending, running));
        let c = self.motion.interrupt(pending, running);
        self.tell(c);
        assert(interrupted(old(self)@, pending, running, self@, c));
    }

    /// Starts a run to `target`; see [`Motion::move_to`]. The commands go to
    /// the driver: direction, enable, the start of the pulse train with the
    /// first delay, and the second delay or the end of the run.
    pub fn move_to(&mut self, target: i32) -> (r: Result<(), StepperError>)
        requires
            old(self)@.wf(),
            old(self).watched(),
            old(self)@.state is Stopped || old(self)@.state is ThreadDelay ==> old(self)@.base_step
                + distance(old(self)@.position, target) <= STEP_LIMIT,
            (old(self)@.state is Stopped || old(self)@.state is ThreadDelay)
                && old(self)@.profile.ready() ==> old(self)@.starts_steadily(target),
        ensures
            final(self)@.wf(),
            final(self).watched(),
            exists|m: Result<Commands, StepperError>|
                {
                    &&& #[trigger] moved(old(self)@, target, m, final(self)@)
                    &&& (r is Ok <==> m is Ok)
                    &&& (r is Err ==> r->Err_0 == m->Err_0)
                    &&& final(self).told() == if m is Ok {
                        old(self).told().push(m->Ok_0)
                    } else {
                        old(self).told()
                    }
                },
    {
        let m = self.motion.move_to(target);
        let r = match m {
            Ok(c) => {
                self.tell(c);
                Ok(())
            },
            Err(e) => Err(e),
        };
        assert(moved(old(self)@, target, m, self@));
        r
    }

    /// Whether a run from the committed position to `target` stays within
    /// the generator's count of steps.
    pub fn can_reach(&self, target: i32) -> (ok: bool)
        ensures
            ok == (self@.base_step + distance(self@.position, target) <= STEP_LIMIT),
    {
        self.motion.can_reach(target)
    }

    /// Steps per turn of the spindle of the cut that was last set up; 0
    /// before the first.
    pub fn steps_per_thread(&self) -> (steps: u32)
        ensures
            steps == self@.threads.steps_per_thread,
    {
        self.motion.steps_per_thread()
    }

    /// Whether the generator takes a target; see [`Motion::armed`].
    pub fn armed(&self) -> (armed: bool)
        requires
            self.watched(),
        ensures
            armed == self@.profile.ready(),
    {
        self.motion.armed()
    }

    /// Whether the generator has given no delay since it was last
    /// exhausted; see [`Motion::rested`].
    pub fn rested(&self) -> (rested: bool)
        ensures
            rested == self@.rested,
    {
        self.motion.rested()
    }

    /// Whether the stepper knows that the generator's arithmetic stays in
    /// range for the next interrupt; see [`Motion::in_range`].
    pub fn in_range(&self) -> (ok: bool)
        requires
            self@.wf(),
            self.watched(),
        ensures
            ok == self.sure(),
            ok ==> self@.runs_in_range(),
    {
        self.motion.in_range()
    }

    /// The stepper knows that the generator's arithmetic stays in range for
    /// the next interrupt; see [`Motion::sure`].
    pub closed spec fn sure(&self) -> bool {
        self.motion.sure()
    }

    /// The stepper knows that it can serve a pending interrupt: a period
    /// runs, the generator takes a target where it gets one, and its
    /// arithmetic is known to stay in range.
    pub open spec fn attends(&self) -> bool {
        &&& !(self@.state is Stopped)
        &&& !(self@.state is ThreadStart)
        &&& self@.state is StopRequested || self@.state is ThreadDelay ==> self@.profile.ready()
        &&& self.sure()
    }

    /// The driver's period-complete interrupt, served where the stepper
    /// knows that it can: see [`Stepper::attends`]. The driver is asked
    /// whether a period was complete. Where none was, or the stepper can
    /// serve the interrupt, this is [`Stepper::interrupt`]; otherwise nothing
    /// changes, and the answer is no.
    pub fn attend(&mut self) -> (served: bool)
        requires
            old(self)@.wf(),
            old(self).watched(),
        ensures
            final(self)@.wf(),
            final(self).watched(),
            exists|pending: bool, running: bool, c: Commands|
                {
                    &&& #[trigger] attended(
                        old(self)@,
                        old(self).attends(),
                        pending,
                        running,
                        served,
                        final(self)@,
                        c,
                    )
                    &&& final(self).told() == if served {
                        old(self).told().push(c)
                    } else {
                        old(self).told()
                    }
                },
    {
        let pending: bool = self.driver.interrupt();
        if pending {
            let ready: bool = match self.motion.state() {
                State::Stopped => false,
                State::ThreadStart => false,
                State::StopRequested(_) => self.motion.armed(),
                State::ThreadDelay => self.motion.armed(),
                _ => true,
            };
            if !(ready && self.motion.in_range()) {
                assert(attended(
                    old(self)@,
                    old(self).attends(),
                    pending,
                    true,
                    false,
                    self@,
                    Commands::idle(),
                ));
                return false;
            }
        }
        let running: bool = if pending && self.motion.watches_timer() {
            self.driver.is_running()
        } else {
            true
        };
        assert(old(self)@.serves(pending, running));
        let c = self.motion.interrupt(pending, running);
        self.tell(c);
        assert(attended(old(self)@, old(self).attends(), pending, running, true, self@, c));
        true
    }

    /// Whether the stepper can follow a spindle at `rpm`; see
    /// [`Motion::can_follow`].
    pub fn can_follow(&self, rpm: u32) -> (ok: bool)
        requires
            self@.wf(),
        ensures
            ok == self@.follows(rpm),
    {
        self.motion.can_follow(rpm)
    }

    /// Asks a run to stop; the next interrupt carries the stop out.
    pub fn stop(&mut self)
        ensures
            final(self)@ == (MotionView {
                state: match old(self)@.state {
                    State::Running { dir, .. } => State::StopRequested(dir),
                    s => s,
                },
                ..old(self)@
            }),
            old(self)@.wf() ==> final(self)@.wf(),
            old(self).watched() ==> final(self).watched(),
            final(self).told() == old(self).told(),
    {
        self.motion.stop();
    }

    /// The run state.
    pub fn state(&self) -> (state: State)
        ensures
            state == self@.state,
    {
        self.motion.state()
    }

    /// The position: during a run, what a commit at this moment would
    /// record; otherwise the committed position.
    pub fn position(&self) -> (position: i32)
        requires
            self@.wf(),
        ensures
            position == self@.current_position(),
    {
        self.motion.position()
    }

    /// Prepares a cut and waits for the spindle's mark; see
    /// [`Motion::thread_start`].
    pub fn thread_start(
        &mut self,
        target: i32,
        steps_per_thread: u32,
        phase: u16,
        estimated_rpm: u32,
    ) -> (r: Result<(), StepperError>)
        requires
            old(self)@.wf(),
            old(self).watched(),
            old(self)@.state is Stopped ==> old(self)@.base_step + distance(
                old(self)@.position,
                target,
            ) <= STEP_LIMIT,
        ensures
            final(self)@.wf(),
            final(self).watched(),
            thread_started(
                old(self)@,
                target,
                steps_per_thread,
                estimated_rpm,
                r,
                final(self)@,
            ),
            r is Ok ==> final(self)@.threads.delay_remaining > DELAY_FLOOR,
            final(self).told() == old(self).told(),
    {
        self.motion.thread_start(target, steps_per_thread, phase, estimated_rpm)
    }

    /// The spindle passed its mark with a speed of `rpm`; see
    /// [`Motion::spindle_sync`]. The commands go to the driver.
    pub fn spindle_sync(&mut self, rpm: u32)
        requires
            old(self)@.wf(),
            old(self).watched(),
            old(self)@.follows(rpm),
        ensures
            final(self)@.wf(),
            final(self).watched(),
            final(self)@ == synced(old(self)@, rpm),
            final(self).told() == old(self).told().push(sync_commands(old(self)@)),
    {
        let c = self.motion.spindle_sync(rpm);
        self.tell(c);
    }

    /// The phase error recorded at the last spindle mark of a cut, in
    /// degrees.
    pub fn last_error_degrees(&self) -> (degrees: i32)
        requires
            self@.wf(),
            self@.threads.steps_per_thread > 0,
        ensures
            degrees == error_degrees(self@.threads.last_error, self@.threads.steps_per_thread),
            -180 < degrees <= 180,
    {
        self.motion.last_error_degrees()
    }
}

/// A run started from a settled stepper is on course for its target, heads
/// for it, and tells the driver the direction of the run.
pub proof fn lemma_move_sets_course(o: MotionView, target: i32, n: MotionView, c: Commands)
    requires
        o.wf(),
        o.settled(),
        o.state is Stopped || o.state is ThreadDelay,
        target != o.position,
        o.base_step + distance(o.position, target) <= STEP_LIMIT,
        launched(o, target, n, c),
    ensures
        n.on_course(target),
        n.state is Running ==> n.state->Running_dir == heading(o.position, target),
        n.state is Stopping ==> n.state->Stopping_0 == heading(o.position, target),
        target > o.position ==> heading(o.position, target) == Direction::Right,
        target < o.position ==> heading(o.position, target) == Direction::Left,
        c.direction == Some(signal(heading(o.position, target), o.reversed)),
{
}

/// A stepper on course for `target` stays on course through every
/// interrupt, whatever the driver answers, until the run is committed; the
/// commit leaves it settled, and at `target`.
pub proof fn lemma_course_is_kept(
    o: MotionView,
    target: i32,
    pending: bool,
    running: bool,
    n: MotionView,
    c: Commands,
)
    requires
        o.wf(),
        o.on_course(target),
        interrupted(o, pending, running, n, c),
    ensures
        n.state is Stopped ==> n.settled() && n.position == target && n.current_position()
            == target,
        !(n.state is Stopped) ==> n.on_course(target),
{
}

/// `n` is reached from `o` by `count` interrupts, whatever the driver
/// answered at each.
pub open spec fn served(o: MotionView, count: nat, n: MotionView) -> bool
    decreases count,
{
    if count == 0 {
        n == o
    } else {
        exists|m: MotionView, pending: bool, running: bool, c: Commands|
            {
                &&& #[trigger] interrupted(o, pending, running, m, c)
                &&& m.wf()
                &&& served(m, (count - 1) as nat, n)
            }
    }
}

/// A run from rest ends on its target. Where a run to `target` is started
/// on a settled stepper and any number of interrupts is served after that,
/// whatever the driver answers, the stepper is on course for `target` until
/// it has stopped, and has then stopped at `target`, settled for the next
/// run.
pub proof fn lemma_run_ends_on_target(
    o: MotionView,
    target: i32,
    start: MotionView,
    c: Commands,
    count: nat,
    n: MotionView,
)
    requires
        o.wf(),
        o.settled(),
        o.state is Stopped || o.state is ThreadDelay,
        target != o.position,
        o.base_step + distance(o.position, target) <= STEP_LIMIT,
        launched(o, target, start, c),
        start.wf(),
        served(start, count, n),
    ensures
        n.state is Stopped ==> n.position == target && n.current_position() == target
            && n.settled(),
        !(n.state is Stopped) ==> n.on_course(target),
{
    lemma_move_sets_course(o, target, start, c);
    lemma_course_leads_to_target(start, target, count, n);
}

/// A stepper on course for `target` that serves interrupts stays on course
/// until it has stopped, and has then stopped at `target`.
pub proof fn lemma_course_leads_to_target(o: MotionView, target: i32, count: nat, n: MotionView)
    requires
        o.wf(),
        o.on_course(target) || (o.state is Stopped && o.position == target && o.settled()),
        served(o, count, n),
    ensures
        n.state is Stopped ==> n.position == target && n.current_position() == target
            && n.settled(),
        !(n.state is Stopped) ==> n.on_course(target),
    decreases count,
{
    if count > 0 {
        let (m, pending, running, c) = choose|
            m: MotionView,
            pending: bool,
            running: bool,
            c: Commands,
        |
            {
                &&& #[trigger] interrupted(o, pending, running, m, c)
                &&& m.wf()
                &&& served(m, (count - 1) as nat, n)
            };
        if o.state is Stopped {
            assert(m == o);
        } else {
            lemma_course_is_kept(o, target, pending, running, m, c);
        }
        lemma_course_leads_to_target(m, target, (count - 1) as nat, n);
    }
}

/// A stop requested during a run is not carried out at once: the next
/// interrupt starts the deceleration or, where nothing was pending, leaves
/// the request standing, and only an interrupt while stopping, with the
/// timer at rest, ends in `Stopped`.
pub proof fn lemma_stop_passes_through(
    o: MotionView,
    pending: bool,
    running: bool,
    n: MotionView,
    c: Commands,
)
    requires
        interrupted(o, pending, running, n, c),
    ensures
        o.state is StopRequested ==> n.state == o.state || n.state == State::Stopping(
            o.state->StopRequested_0,
        ),
        o.state is StopRequested && pending ==> n.state == State::Stopping(
            o.state->StopRequested_0,
        ),
        o.state is Running ==> n.state == o.state || n.state == State::Stopping(
            o.state->Running_dir,
        ),
        n.state is Stopped && !(o.state is ThreadDelay) && !(o.state is Stopped) ==> o.state
            is Stopping && pending && !running,
{
}

/// The position read during a run is the position that a commit records,
/// as long as no step lies between the two: both are the committed position
/// moved by the steps since, in the direction of the run.
pub proof fn lemma_read_matches_commit(running: MotionView, stopping: MotionView)
    requires
        running.state is Running,
        stopping.state == State::Stopping(running.state->Running_dir),
        stopping.position == running.position,
        stopping.base_step == running.base_step,
        stopping.profile.step == running.profile.step,
    ensures
        stopping.committed(running.state->Running_dir).position == running.current_position(),
        stopping.committed(running.state->Running_dir).current_position()
            == running.current_position(),
{
}

/// Reversing the axis inverts the direction line for either direction,
/// and the position does not depend on it.
pub proof fn lemma_reversed_flips_signal(dir: Direction, reversed: bool, v: MotionView)
    ensures
        signal(dir, !reversed) == !signal(dir, reversed),
        signal(Direction::Left, reversed) != signal(Direction::Right, reversed),
        (MotionView { reversed: !v.reversed, ..v }).current_position() == v.current_position(),
{
}

/// Two steppers that differ only in that one is reversed start a run to
/// the same target alike: they end in states that differ only in that, and
/// give the same commands but for the direction lines, which are opposite.
pub proof fn lemma_reversed_start_agrees(
    o: MotionView,
    target: i32,
    n: MotionView,
    c: Commands,
    m: MotionView,
    d: Commands,
)
    requires
        launched(o, target, n, c),
        launched(MotionView { reversed: !o.reversed, ..o }, target, m, d),
    ensures
        m == (MotionView { reversed: !o.reversed, ..n }),
        m.current_position() == n.current_position(),
        c.direction is Some,
        d == (Commands { direction: Some(!c.direction->Some_0), ..c }),
{
}

/// Two steppers that differ only in that one is reversed go through an
/// interrupt alike, where the driver answers alike: they end in states that
/// differ only in that, with the same position, and give the same commands
/// but for the direction line.
pub proof fn lemma_reversed_run_agrees(
    o: MotionView,
    pending: bool,
    running: bool,
    n: MotionView,
    c: Commands,
    m: MotionView,
    d: Commands,
)
    requires
        interrupted(o, pending, running, n, c),
        interrupted(MotionView { reversed: !o.reversed, ..o }, pending, running, m, d),
    ensures
        m == (MotionView { reversed: !o.reversed, ..n }),
        m.current_position() == n.current_position(),
        d == (Commands { direction: d.direction, ..c }),
        c.direction is Some ==> d.direction == Some(!c.direction->Some_0),
        c.direction is None ==> d.direction is None,
{
}

/// The driver is told that a period is the last one exactly when the
/// generator is exhausted, and an exhausted generator is at rest and stays
/// so. A run that is committed after that, as it is with a timer that stops
/// only after its last period, leaves the stepper settled: the next run
/// starts on course.
pub proof fn lemma_announced_end_settles(
    a: MotionView,
    m: MotionView,
    preload: Option<u16>,
    last: bool,
    pending: bool,
    running: bool,
    n: MotionView,
    c: Commands,
)
    requires
        asked(a, m, preload, last),
        m.state is Stopping,
        interrupted(m, pending, running, n, c),
    ensures
        last <==> a.profile.exhausted(),
        last ==> preload is None && m.profile.exhausted() && m.profile.ramp == 0,
        last && !(n.state is Stopped) ==> n.state == m.state && n.profile == m.profile && (pending ==> c.last),
        last && n.state is Stopped && m.base_step <= m.profile.step ==> n.settled(),
{
}

} // verus!
