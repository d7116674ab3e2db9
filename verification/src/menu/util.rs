//! What the menus share: reading the select button as "select" or "exit",
//! and positions as text.

use crate::controls::{Button, Event};
use crate::delay::{ticks_between, Duration, DurationView};
use crate::print::{digits, push_digits, push_zero_filled, zero_filled};
use vstd::prelude::*;

verus! {

/// How long the select button has to be held to leave a menu, in
/// microseconds.
pub const EXIT_DURATION_US: u32 = 1_500_000;

/// What the operator has chosen with the select button.
#[derive(Debug, Clone, Copy, PartialEq, Eq, Structural)]
pub enum NavStatus {
    Exit,
    Select,
}

/// Follows the select button: a short press selects, a long one exits.
pub struct Navigation {
    /// The stopwatch on the press, while the button is held.
    pressed_duration: Option<Duration>,
}

impl View for Navigation {
    type V = Option<DurationView>;

    closed spec fn view(&self) -> Option<DurationView> {
        match self.pressed_duration {
            Some(d) => Some(d@),
            None => None,
        }
    }
}

/// The stopwatch `d` read when the timer shows `now`.
pub open spec fn read_at(d: DurationView, now: u32) -> DurationView {
    DurationView {
        last: now,
        elapsed: if d.elapsed + ticks_between(d.last, now) / 9 > u32::MAX {
            u32::MAX
        } else {
            (d.elapsed + ticks_between(d.last, now) / 9) as u32
        },
    }
}

/// The press after the stopwatch on it, if there is one, was read at `now`.
pub open spec fn held(o: Option<DurationView>, now: u32) -> Option<DurationView> {
    match o {
        Some(d) => Some(read_at(d, now)),
        None => None,
    }
}

/// The button has been held for longer than [`EXIT_DURATION_US`].
pub open spec fn overdue(o: Option<DurationView>) -> bool {
    o is Some && o->Some_0.elapsed > EXIT_DURATION_US
}

impl Navigation {
    /// With the select button not pressed.
    pub fn new() -> (n: Navigation)
        ensures
            n@ is None,
    {
        Navigation { pressed_duration: None }
    }

    /// Takes one event, with the system timer at `now`, and says whether
    /// the operator has chosen.
    ///
    /// A press held for longer than [`EXIT_DURATION_US`] exits, and goes on
    /// to do so while it lasts. Otherwise a press of the select button
    /// starts the stopwatch, and its release selects if a press was seen.
    /// Nothing is read during an emergency stop, which ends all work.
    pub fn check(&mut self, emergency: bool, now: u32, event: Event) -> (r: Option<NavStatus>)
        requires
            !emergency,
        ensures
            overdue(held(old(self)@, now)) ==> r == Some(NavStatus::Exit) && final(self)@ == held(
                old(self)@,
                now,
            ),
            !overdue(held(old(self)@, now)) ==> match event {
                Event::Pressed(Button::Encoder) => r is None && final(self)@ == Some(
                    DurationView { last: now, elapsed: 0 },
                ),
                Event::Unpressed(Button::Encoder) => final(self)@ is None && r == if old(
                    self,
                )@ is Some {
                    Some(NavStatus::Select)
                } else {
                    None
                },
                _ => r is None && final(self)@ == held(old(self)@, now),
            },
    {
        match self.pressed_duration {
            Some(d) => {
                let mut watch = d;
                let elapsed: u32 = watch.duration(now);
                self.pressed_duration = Some(watch);
                if elapsed > EXIT_DURATION_US {
                    return Some(NavStatus::Exit);
                }
            },
            None => {},
        }
        match event {
            Event::Pressed(Button::Encoder) => {
                self.pressed_duration = Some(Duration::new(now));
                None
            },
            Event::Unpressed(Button::Encoder) => {
                let was_pressed: bool = self.pressed_duration.is_some();
                self.pressed_duration = None;
                if was_pressed {
                    Some(NavStatus::Select)
                } else {
                    None
                }
            },
            _ => None,
        }
    }
}

/// How a wait for the operator goes on after one round: `Some(false)` to
/// leave without a result, `Some(true)` to leave with the result of the
/// round, `None` to go round again. The fast button continues like a
/// selection.
pub fn wait_outcome(status: Option<NavStatus>, event: Event) -> (r: Option<bool>)
    ensures
        r == match status {
            Some(NavStatus::Exit) => Some(false),
            Some(NavStatus::Select) => Some(true),
            None => if event == Event::Pressed(Button::Fast) {
                Some(true)
            } else {
                None
            },
        },
{
    match status {
        Some(NavStatus::Exit) => Some(false),
        Some(NavStatus::Select) => Some(true),
        None => match event {
            Event::Pressed(Button::Fast) => Some(true),
            _ => None,
        },
    }
}

/// A position in steps, to be shown in inches.
#[derive(Clone, Copy)]
pub struct PrintablePosition {
    position: i32,
    steps_per_inch: i32,
}

/// The fields of a [`PrintablePosition`].
pub struct PositionView {
    pub position: i32,
    pub steps_per_inch: i32,
}

impl PositionView {
    /// The distance from 0 in thousandths of an inch, rounded to the
    /// nearest.
    pub open spec fn thousandths(self) -> int {
        let steps = if self.position < 0 {
            -self.position
        } else {
            self.position as int
        };
        (1000 * steps + self.steps_per_inch / 2) / (self.steps_per_inch as int)
    }

    /// A minus sign is shown for a position below 0 whose rounded distance
    /// is not a whole number of inches.
    pub open spec fn signed(self) -> bool {
        self.position < 0 && self.thousandths() % 1000 != 0
    }

    /// The position as text: the sign, the inches, a point, and the
    /// thousandths in three digits.
    pub open spec fn text(self) -> Seq<u8> {
        (if self.signed() {
            seq![45u8]
        } else {
            Seq::<u8>::empty()
        }) + digits((self.thousandths() / 1000) as nat) + seq![46u8] + zero_filled(
            digits((self.thousandths() % 1000) as nat),
            3,
        )
    }
}

impl View for PrintablePosition {
    type V = PositionView;

    closed spec fn view(&self) -> PositionView {
        PositionView { position: self.position, steps_per_inch: self.steps_per_inch }
    }
}

/// A position of `position` steps on a carriage of `steps_per_inch`.
pub fn printable_position(position: i32, steps_per_inch: i32) -> (p: PrintablePosition)
    ensures
        p@ == (PositionView { position: position, steps_per_inch: steps_per_inch }),
{
    PrintablePosition { position, steps_per_inch }
}

impl PrintablePosition {
    /// Whether a sign is shown, the whole inches, and the thousandths of an
    /// inch beyond them.
    pub fn parts(&self) -> (r: (bool, u32, u32))
        requires
            self@.steps_per_inch > 0,
        ensures
            r.0 == self@.signed(),
            r.1 == self@.thousandths() / 1000,
            r.2 == self@.thousandths() % 1000,
            r.2 < 1000,
    {
        let steps: u64 = if self.position < 0 {
            (-(self.position as i64)) as u64
        } else {
            self.position as u64
        };
        let per_inch: u64 = self.steps_per_inch as u64;
        let thousandths: u64 = (1000 * steps + per_inch / 2) / per_inch;
        assert(thousandths <= 1000 * steps + per_inch / 2) by (nonlinear_arith)
            requires
                thousandths == (1000 * steps + per_inch / 2) / (per_inch as int),
                per_inch > 0,
        ;
        let inches: u64 = thousandths / 1000;
        let beyond: u64 = thousandths % 1000;
        (self.position < 0 && beyond != 0, inches as u32, beyond as u32)
    }

    /// The position as text, in inches with three decimals.
    pub fn text(&self) -> (out: Vec<u8>)
        requires
            self@.steps_per_inch > 0,
        ensures
            out@ == self@.text(),
    {
        let (signed, inches, beyond) = self.parts();
        let mut out: Vec<u8> = Vec::new();
        if signed {
            out.push(45);
        }
        push_digits(&mut out, inches);
        out.push(46);
        push_zero_filled(&mut out, beyond, 3);
        assert(out@ =~= self@.text());
        out
    }
}

} // verus!
