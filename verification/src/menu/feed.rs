//! Power feed: the feed rates, and what the feed menu keeps and decides.

use crate::controls::{Button, Event};
use crate::driver::{Commands, StepperDriver};
use crate::print::{digits, padded, push_all, push_number, push_zero_filled, zero_filled, Alignment};
use crate::profile::speed_verdict;
use crate::stepper::{
    distance, moved, with_speed, Direction, MotionView, State, Stepper, StepperError, STEP_LIMIT,
};
use vstd::prelude::*;

verus! {

/// The target of a run to the left that no limit ends.
pub const FAR_LEFT: i32 = -1_000_000_000;

/// The target of a run to the right that no limit ends.
pub const FAR_RIGHT: i32 = 1_000_000_000;

/// The character of the display that shows a feed to the left.
pub const GLYPH_LEFT: u8 = 1;

/// The character of the display that shows a feed to the right.
pub const GLYPH_RIGHT: u8 = 2;

/// The character of the display that shows a fast feed to the left.
pub const GLYPH_FAST_LEFT: u8 = 3;

/// The character of the display that shows a fast feed to the right.
pub const GLYPH_FAST_RIGHT: u8 = 4;

/// How fast the carriage is fed.
#[derive(Copy, Clone, PartialEq, Eq, Debug, Structural)]
pub enum FeedRate {
    /// Inches per minute.
    InchesPerMinute(u16),
    /// Thousandths of an inch per turn of the spindle.
    InchesPerRevolution(u16),
}

/// Which of the two feed rates is in use.
#[derive(Clone, Copy, PartialEq, Eq, Debug, Structural)]
pub enum FeedSpeed {
    Fast,
    Slow,
}

/// The number of a feed rate, in its own unit.
pub open spec fn rate_of(feed: FeedRate) -> u16 {
    match feed {
        FeedRate::InchesPerMinute(rate) => rate,
        FeedRate::InchesPerRevolution(rate) => rate,
    }
}

/// The feed rate of the same unit as `feed` with the number `rate`.
pub open spec fn rated(feed: FeedRate, rate: u16) -> FeedRate {
    match feed {
        FeedRate::InchesPerMinute(_) => FeedRate::InchesPerMinute(rate),
        FeedRate::InchesPerRevolution(_) => FeedRate::InchesPerRevolution(rate),
    }
}

/// The speed of the stepper for a feed, in 24.8 steps per second, on a
/// carriage of `steps_per_inch` with the spindle at `rpm` (24.8 turns per
/// minute).
pub open spec fn feed_speed(feed: FeedRate, steps_per_inch: u32, rpm: u32) -> int {
    match feed {
        FeedRate::InchesPerMinute(ipm) => ipm * steps_per_inch * 256 / 60,
        FeedRate::InchesPerRevolution(ipr) => ipr * rpm * steps_per_inch / 60_000,
    }
}

/// A feed rate as the display shows it: `" 12 IPM"` or `"0.004 IPR"`.
pub open spec fn feed_text(feed: FeedRate) -> Seq<u8> {
    match feed {
        FeedRate::InchesPerMinute(ipm) => padded(digits(ipm as nat), Alignment::Right, 3) + seq![
            32u8,
            73,
            80,
            77,
        ],
        FeedRate::InchesPerRevolution(ipr) => seq![48u8, 46] + zero_filled(digits(ipr as nat), 3)
            + seq![32u8, 73, 80, 82],
    }
}

impl FeedRate {
    /// The feed rate of the same unit with the number `rate`.
    pub fn with_rate(&self, rate: u16) -> (feed: FeedRate)
        ensures
            feed == rated(*self, rate),
            rate_of(feed) == rate,
    {
        match *self {
            FeedRate::InchesPerMinute(_) => FeedRate::InchesPerMinute(rate),
            FeedRate::InchesPerRevolution(_) => FeedRate::InchesPerRevolution(rate),
        }
    }

    /// The number of the feed rate, in its own unit.
    pub fn rate(&self) -> (rate: u16)
        ensures
            rate == rate_of(*self),
    {
        match *self {
            FeedRate::InchesPerMinute(rate) => rate,
            FeedRate::InchesPerRevolution(rate) => rate,
        }
    }

    /// The speed of the stepper for this feed, in 24.8 steps per second.
    pub fn to_speed(self, steps_per_inch: u32, rpm: u32) -> (speed: u32)
        requires
            feed_speed(self, steps_per_inch, rpm) <= u32::MAX,
        ensures
            speed == feed_speed(self, steps_per_inch, rpm),
    {
        match self {
            FeedRate::InchesPerMinute(ipm) => {
                assert(ipm * steps_per_inch * 256 <= 0xffff * 0xffff_ffff * 256)
                    by (nonlinear_arith)
                    requires
                        ipm <= 0xffff,
                        steps_per_inch <= 0xffff_ffff,
                ;
                ((ipm as u64) * (steps_per_inch as u64) * 256 / 60) as u32
            },
            FeedRate::InchesPerRevolution(ipr) => {
                assert(ipr * rpm <= 0xffff * 0xffff_ffff) by (nonlinear_arith)
                    requires
                        ipr <= 0xffff,
                        rpm <= 0xffff_ffff,
                ;
                assert(ipr * rpm * steps_per_inch <= 0xffff * 0xffff_ffff * 0xffff_ffff)
                    by (nonlinear_arith)
                    requires
                        ipr * rpm <= 0xffff * 0xffff_ffff,
                        steps_per_inch <= 0xffff_ffff,
                ;
                ((ipr as u128) * (rpm as u128) * (steps_per_inch as u128) / 60_000) as u32
            },
        }
    }

    /// The speed of the stepper for this feed, if it fits 32 bits.
    pub fn checked_speed(self, steps_per_inch: u32, rpm: u32) -> (speed: Option<u32>)
        ensures
            speed is Some <==> feed_speed(self, steps_per_inch, rpm) <= u32::MAX,
            speed matches Some(s) ==> s == feed_speed(self, steps_per_inch, rpm),
    {
        let wide: u128 = match self {
            FeedRate::InchesPerMinute(ipm) => {
                assert(ipm * steps_per_inch * 256 <= 0xffff * 0xffff_ffff * 256)
                    by (nonlinear_arith)
                    requires
                        ipm <= 0xffff,
                        steps_per_inch <= 0xffff_ffff,
                ;
                (ipm as u128) * (steps_per_inch as u128) * 256 / 60
            },
            FeedRate::InchesPerRevolution(ipr) => {
                assert(ipr * rpm <= 0xffff * 0xffff_ffff) by (nonlinear_arith)
                    requires
                        ipr <= 0xffff,
                        rpm <= 0xffff_ffff,
                ;
                assert(ipr * rpm * steps_per_inch <= 0xffff * 0xffff_ffff * 0xffff_ffff)
                    by (nonlinear_arith)
                    requires
                        ipr * rpm <= 0xffff * 0xffff_ffff,
                        steps_per_inch <= 0xffff_ffff,
                ;
                (ipr as u128) * (rpm as u128) * (steps_per_inch as u128) / 60_000
            },
        };
        if wide <= u32::MAX as u128 {
            Some(wide as u32)
        } else {
            None
        }
    }

    /// The feed rate as the display shows it.
    pub fn text(&self) -> (out: Vec<u8>)
        ensures
            out@ == feed_text(*self),
    {
        let mut out: Vec<u8> = Vec::new();
        match *self {
            FeedRate::InchesPerMinute(ipm) => {
                push_number(&mut out, ipm as u32, Alignment::Right, 3);
                push_all(&mut out, &vec![32u8, 73, 80, 77]);
            },
            FeedRate::InchesPerRevolution(ipr) => {
                push_all(&mut out, &vec![48u8, 46]);
                push_zero_filled(&mut out, ipr as u32, 3);
                push_all(&mut out, &vec![32u8, 73, 80, 82]);
            },
        }
        assert(out@ =~= feed_text(*self));
        out
    }
}

/// The character that shows a run: an arrow for its direction, a double one
/// for a fast feed, and a blank outside of a run.
pub open spec fn glyph_of(state: State, fast: bool) -> u8 {
    match state {
        State::Running { dir: Direction::Left, .. } => if fast {
            GLYPH_FAST_LEFT
        } else {
            GLYPH_LEFT
        },
        State::Running { dir: Direction::Right, .. } => if fast {
            GLYPH_FAST_RIGHT
        } else {
            GLYPH_RIGHT
        },
        _ => 32u8,
    }
}

/// The character that shows a run.
pub fn glyph(state: State, fast: bool) -> (c: u8)
    ensures
        c == glyph_of(state, fast),
{
    match state {
        State::Running { dir, .. } => match dir {
            Direction::Left => if fast {
                GLYPH_FAST_LEFT
            } else {
                GLYPH_LEFT
            },
            Direction::Right => if fast {
                GLYPH_FAST_RIGHT
            } else {
                GLYPH_RIGHT
            },
        },
        _ => 32,
    }
}

/// The note on the display for the answer to the last speed: `" Slow!"`,
/// `" Fast!"`, or six blanks.
pub open spec fn speed_note(error: Option<StepperError>) -> Seq<u8> {
    match error {
        Some(StepperError::StepgenError(stepgen::Error::TooSlow)) => seq![
            32u8,
            83,
            108,
            111,
            119,
            33,
        ],
        Some(StepperError::StepgenError(stepgen::Error::TooFast)) => seq![
            32u8,
            70,
            97,
            115,
            116,
            33,
        ],
        _ => seq![32u8, 32, 32, 32, 32, 32],
    }
}

/// `rpm` in 24.8 fixed point rounded to whole turns per minute.
pub open spec fn whole_rpm(rpm: u32) -> int {
    (rpm + 128) / 256
}

/// What the feed menu keeps between its rounds.
pub struct FeedOperation {
    speed: u32,
    error: Option<StepperError>,
    slow_speed: FeedRate,
    fast_speed: FeedRate,
    feed: FeedSpeed,
    rpm: u32,
    limits: (Option<i32>, Option<i32>),
}

/// The fields of a [`FeedOperation`].
pub struct FeedView {
    /// The speed last handed to the stepper.
    pub speed: u32,
    /// What the stepper answered to it.
    pub error: Option<StepperError>,
    pub slow_speed: FeedRate,
    pub fast_speed: FeedRate,
    pub feed: FeedSpeed,
    /// The speed of the spindle that the display shows.
    pub rpm: u32,
    /// The left and the right limit of travel.
    pub limits: (Option<i32>, Option<i32>),
}

impl FeedView {
    /// Both feed rates are at least 1, as the encoder that sets them counts
    /// from 0.
    pub open spec fn wf(self) -> bool {
        rate_of(self.slow_speed) >= 1 && rate_of(self.fast_speed) >= 1
    }

    /// The feed rate that is in use.
    pub open spec fn current(self) -> FeedRate {
        match self.feed {
            FeedSpeed::Fast => self.fast_speed,
            FeedSpeed::Slow => self.slow_speed,
        }
    }

    /// The first line of the display: the speed of the spindle, and which
    /// limits are set.
    pub open spec fn first_line(self) -> Seq<u8> {
        padded(digits(whole_rpm(self.rpm) as nat), Alignment::Right, 4) + seq![32u8, 82, 80, 77]
            + (if self.limits.0 is Some {
            seq![32u8, 76]
        } else {
            seq![32u8, 32]
        }) + (if self.limits.1 is Some {
            seq![32u8, 82]
        } else {
            seq![32u8, 32]
        })
    }

    /// The second line of the display: the run, the feed rate, and the note
    /// on the speed.
    pub open spec fn second_line(self, state: State, fast: bool, feed: FeedRate) -> Seq<u8> {
        seq![glyph_of(state, fast)] + feed_text(feed) + speed_note(self.error)
    }
}

/// What `handle_feed_rate` does to `o` for `event` with the encoder at
/// `encoder`: the state after it, the feed rate in use, and the count to set
/// the encoder to where the feed has changed.
///
/// The encoder gives the rate in use, less 1. The fast button switches
/// between the two rates: the one that was in use is kept as the encoder left
/// it, and the encoder is set to the other.
pub open spec fn fed(o: FeedView, event: Event, encoder: u16) -> (FeedView, FeedRate, Option<u16>) {
    let dialled = rated(o.current(), (encoder + 1) as u16);
    match event {
        Event::Pressed(Button::Fast) => (
            FeedView { feed: FeedSpeed::Fast, slow_speed: dialled, ..o },
            o.fast_speed,
            Some((rate_of(o.fast_speed) - 1) as u16),
        ),
        Event::Unpressed(Button::Fast) => {
            let kept = FeedView { feed: FeedSpeed::Slow, fast_speed: dialled, ..o };
            (kept, kept.slow_speed, Some((rate_of(kept.slow_speed) - 1) as u16))
        },
        _ => (o, dialled, None),
    }
}

/// The speed of the spindle that the display shows after a reading of
/// `rpm`: the reading, if it differs from what is shown by more than half a
/// percent.
pub open spec fn shown_rpm(shown: u32, rpm: u32) -> u32 {
    if shown == 0 || rpm * 200 > shown * 201 || rpm * 200 < shown * 199 {
        rpm
    } else {
        shown
    }
}

/// What the feed menu asks of the stepper for `event` in `state`.
#[derive(Clone, Copy, PartialEq, Eq, Debug, Structural)]
pub enum Movement {
    /// A run to this position.
    MoveTo(i32),
    /// A stop.
    Stop,
    /// Nothing.
    Stay,
}

/// A press of a direction button at rest starts a run to the limit of that
/// side, or far away where there is none; its release during a run in that
/// direction stops the run.
pub open spec fn movement(limits: (Option<i32>, Option<i32>), state: State, event: Event)
    -> Movement {
    match (state, event) {
        (State::Stopped, Event::Pressed(Button::Left)) => Movement::MoveTo(
            match limits.0 {
                Some(limit) => limit,
                None => FAR_LEFT,
            },
        ),
        (State::Stopped, Event::Pressed(Button::Right)) => Movement::MoveTo(
            match limits.1 {
                Some(limit) => limit,
                None => FAR_RIGHT,
            },
        ),
        (State::Running { dir: Direction::Left, .. }, Event::Unpressed(Button::Left)) => {
            Movement::Stop
        },
        (State::Running { dir: Direction::Right, .. }, Event::Unpressed(Button::Right)) => {
            Movement::Stop
        },
        _ => Movement::Stay,
    }
}

impl View for FeedOperation {
    type V = FeedView;

    closed spec fn view(&self) -> FeedView {
        FeedView {
            speed: self.speed,
            error: self.error,
            slow_speed: self.slow_speed,
            fast_speed: self.fast_speed,
            feed: self.feed,
            rpm: self.rpm,
            limits: self.limits,
        }
    }
}

impl FeedOperation {
    /// A slow feed of 4 thousandths per turn on a lathe, of 10 inches per
    /// minute on a mill, and a fast feed of 30 inches per minute.
    pub fn new(is_lathe: bool) -> (op: FeedOperation)
        ensures
            op@.wf(),
            op@ == (FeedView {
                speed: 0,
                error: None,
                slow_speed: if is_lathe {
                    FeedRate::InchesPerRevolution(4)
                } else {
                    FeedRate::InchesPerMinute(10)
                },
                fast_speed: FeedRate::InchesPerMinute(30),
                feed: FeedSpeed::Slow,
                rpm: 0,
                limits: (None, None),
            }),
    {
        FeedOperation {
            speed: 0,
            error: None,
            slow_speed: if is_lathe {
                FeedRate::InchesPerRevolution(4)
            } else {
                FeedRate::InchesPerMinute(10)
            },
            fast_speed: FeedRate::InchesPerMinute(30),
            feed: FeedSpeed::Slow,
            rpm: 0,
            limits: (None, None),
        }
    }

    /// The slow feed rate.
    pub fn slow_speed(&self) -> (feed: FeedRate)
        ensures
            feed == self@.slow_speed,
    {
        self.slow_speed
    }

    /// The limits of travel, left and right.
    pub fn limits(&self) -> (limits: (Option<i32>, Option<i32>))
        ensures
            limits == self@.limits,
    {
        self.limits
    }

    /// Sets the limits of travel, left and right.
    pub fn set_limits(&mut self, left: Option<i32>, right: Option<i32>)
        ensures
            final(self)@ == (FeedView { limits: (left, right), ..old(self)@ }),
    {
        self.limits = (left, right);
    }

    /// Takes one event with the encoder at `encoder`: returns the feed rate
    /// in use and, where the fast button has changed the feed, the count to
    /// set the encoder to.
    pub fn handle_feed_rate(&mut self, event: Event, encoder: u16) -> (r: (FeedRate, Option<u16>))
        requires
            old(self)@.wf(),
            encoder < 0xffff,
        ensures
            final(self)@.wf(),
            final(self)@ == fed(old(self)@, event, encoder).0,
            r.0 == fed(old(self)@, event, encoder).1,
            r.1 == fed(old(self)@, event, encoder).2,
            rate_of(r.0) >= 1,
    {
        let proto: FeedRate = match self.feed {
            FeedSpeed::Fast => self.fast_speed,
            FeedSpeed::Slow => self.slow_speed,
        };
        let dialled: FeedRate = proto.with_rate(encoder + 1);
        match event {
            Event::Pressed(Button::Fast) => {
                self.feed = FeedSpeed::Fast;
                self.slow_speed = dialled;
                let feed = self.fast_speed;
                (feed, Some(feed.rate() - 1))
            },
            Event::Unpressed(Button::Fast) => {
                self.feed = FeedSpeed::Slow;
                self.fast_speed = dialled;
                let feed = self.slow_speed;
                (feed, Some(feed.rate() - 1))
            },
            _ => (dialled, None),
        }
    }

    /// Hands `speed` to the stepper if it differs from the last one, and
    /// keeps the answer for the display.
    pub fn update_speed<S: StepperDriver>(&mut self, stepper: &mut Stepper<S>, speed: u32)
        requires
            old(stepper)@.wf(),
            old(stepper).watched(),
        old(stepper).watched(),
        ensures
            final(stepper)@.wf(),
            final(stepper).watched(),
        final(stepper).watched(),
            old(self)@.speed == speed ==> final(self)@ == old(self)@ && final(stepper)@ == old(
                stepper,
            )@,
            old(self)@.speed != speed ==> final(stepper)@ == with_speed(old(stepper)@, speed)
                && final(self)@ == (FeedView {
                speed: speed,
                error: match speed_verdict(old(stepper)@.profile.ticks, speed) {
                    Ok(_) => None,
                    Err(e) => Some(StepperError::StepgenError(e)),
                },
                ..old(self)@
            }),
    {
        if self.speed != speed {
            self.speed = speed;
            self.error = match stepper.set_speed(speed) {
                Ok(()) => None,
                Err(e) => Some(e),
            };
        }
    }

    /// What `event` asks of a stepper in `state`.
    pub fn wanted(&self, state: State, event: Event) -> (m: Movement)
        ensures
            m == movement(self@.limits, state, event),
    {
        match (state, event) {
            (State::Stopped, Event::Pressed(Button::Left)) => Movement::MoveTo(
                match self.limits.0 {
                    Some(limit) => limit,
                    None => FAR_LEFT,
                },
            ),
            (State::Stopped, Event::Pressed(Button::Right)) => Movement::MoveTo(
                match self.limits.1 {
                    Some(limit) => limit,
                    None => FAR_RIGHT,
                },
            ),
            (State::Running { dir: Direction::Left, .. }, Event::Unpressed(Button::Left)) => {
                Movement::Stop
            },
            (State::Running { dir: Direction::Right, .. }, Event::Unpressed(Button::Right)) => {
                Movement::Stop
            },
            _ => Movement::Stay,
        }
    }

    /// Starts or stops the run that `event` asks for.
    pub fn update_movement<S: StepperDriver>(&self, event: Event, stepper: &mut Stepper<S>) -> (r:
        Result<(), StepperError>)
        requires
            old(stepper)@.wf(),
            old(stepper).watched(),
        old(stepper).watched(),
            movement(self@.limits, old(stepper)@.state, event) matches Movement::MoveTo(target)
                ==> old(stepper)@.base_step + distance(old(stepper)@.position, target)
                <= STEP_LIMIT,
            movement(self@.limits, old(stepper)@.state, event) matches Movement::MoveTo(target)
                ==> (old(stepper)@.profile.ready() ==> old(stepper)@.starts_steadily(target)),
        ensures
            final(stepper)@.wf(),
            final(stepper).watched(),
        final(stepper).watched(),
            match movement(self@.limits, old(stepper)@.state, event) {
                Movement::MoveTo(target) => exists|m: Result<Commands, StepperError>|
                    {
                        &&& #[trigger] moved(old(stepper)@, target, m, final(stepper)@)
                        &&& (r is Ok <==> m is Ok)
                        &&& (r is Err ==> r->Err_0 == m->Err_0)
                    },
                Movement::Stop => r is Ok && final(stepper)@ == (MotionView {
                    state: State::StopRequested(old(stepper)@.state->Running_dir),
                    ..old(stepper)@
                }),
                Movement::Stay => r is Ok && final(stepper)@ == old(stepper)@,
            },
    {
        let state = stepper.state();
        match self.wanted(state, event) {
            Movement::MoveTo(target) => stepper.move_to(target),
            Movement::Stop => {
                stepper.stop();
                Ok(())
            },
            Movement::Stay => Ok(()),
        }
    }

    /// Takes a reading of the spindle's speed for the display.
    pub fn update_rpm(&mut self, rpm: u32)
        ensures
            final(self)@ == (FeedView { rpm: shown_rpm(old(self)@.rpm, rpm), ..old(self)@ }),
    {
        let shown: u64 = self.rpm as u64;
        let read: u64 = rpm as u64;
        if shown == 0 || read * 200 > shown * 201 || read * 200 < shown * 199 {
            self.rpm = rpm;
        }
    }

    /// The first line of the display.
    pub fn first_line(&self) -> (out: Vec<u8>)
        ensures
            out@ == self@.first_line(),
    {
        let mut out: Vec<u8> = Vec::new();
        let whole: u32 = ((self.rpm as u64 + 128) / 256) as u32;
        push_number(&mut out, whole, Alignment::Right, 4);
        push_all(&mut out, &vec![32u8, 82, 80, 77]);
        if self.limits.0.is_some() {
            push_all(&mut out, &vec![32u8, 76]);
        } else {
            push_all(&mut out, &vec![32u8, 32]);
        }
        if self.limits.1.is_some() {
            push_all(&mut out, &vec![32u8, 82]);
        } else {
            push_all(&mut out, &vec![32u8, 32]);
        }
        assert(out@ =~= self@.first_line());
        out
    }

    /// The second line of the display, for a stepper in `state`, with the
    /// fast button held or not, and the feed rate `feed` in use.
    pub fn second_line(&self, state: State, fast: bool, feed: FeedRate) -> (out: Vec<u8>)
        ensures
            out@ == self@.second_line(state, fast, feed),
    {
        let mut out: Vec<u8> = Vec::new();
        out.push(glyph(state, fast));
        let rate = feed.text();
        push_all(&mut out, &rate);
        match self.error {
            Some(StepperError::StepgenError(stepgen::Error::TooSlow)) => {
                push_all(&mut out, &vec![32u8, 83, 108, 111, 119, 33]);
            },
            Some(StepperError::StepgenError(stepgen::Error::TooFast)) => {
                push_all(&mut out, &vec![32u8, 70, 97, 115, 116, 33]);
            },
            _ => {
                push_all(&mut out, &vec![32u8, 32, 32, 32, 32, 32]);
            },
        }
        assert(out@ =~= self@.second_line(state, fast, feed));
        out
    }
}

} // verus!
