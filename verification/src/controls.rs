//! The operator's buttons: levels of the four inputs, and the events that
//! their changes make.

use vstd::prelude::*;

verus! {

/// The levels of the four inputs; `true` is pressed.
#[derive(Clone, Copy, Debug, PartialEq, Eq, Structural)]
pub struct ControlsState {
    pub left: bool,
    pub right: bool,
    pub fast: bool,
    pub button: bool,
}

/// The four buttons.
#[derive(Clone, Copy, Debug, PartialEq, Eq, Structural)]
pub enum Button {
    Left,
    Right,
    Fast,
    Encoder,
}

/// A change of one input.
#[derive(Clone, Copy, Debug, PartialEq, Eq, Structural)]
pub enum Event {
    Pressed(Button),
    Unpressed(Button),
    /// No input has changed.
    Nothing,
}

/// The event for a `button` whose level is now `level`.
pub open spec fn edge(button: Button, level: bool) -> Event {
    if level {
        Event::Pressed(button)
    } else {
        Event::Unpressed(button)
    }
}

/// The first input, in the order left, right, fast, encoder, whose level in
/// `now` differs from the one in `last`.
pub open spec fn first_change(last: ControlsState, now: ControlsState) -> Option<Button> {
    if now.left != last.left {
        Some(Button::Left)
    } else if now.right != last.right {
        Some(Button::Right)
    } else if now.fast != last.fast {
        Some(Button::Fast)
    } else if now.button != last.button {
        Some(Button::Encoder)
    } else {
        None
    }
}

/// Turns levels into events, one input at a time.
pub struct Controls {
    last: ControlsState,
}

impl View for Controls {
    type V = ControlsState;

    /// The levels that have been reported so far.
    closed spec fn view(&self) -> ControlsState {
        self.last
    }
}

impl Controls {
    /// Controls with no input pressed.
    pub fn new() -> (c: Controls)
        ensures
            c@ == (ControlsState { left: false, right: false, fast: false, button: false }),
    {
        Controls { last: ControlsState { left: false, right: false, fast: false, button: false } }
    }

    /// Compares the levels `now` with those reported so far and reports the
    /// first input that has changed, as pressed or released. Only that input
    /// is taken as reported: a second change waits for the next call.
    pub fn read_event(&mut self, now: ControlsState) -> (e: Event)
        ensures
            match first_change(old(self)@, now) {
                None => e == Event::Nothing && final(self)@ == old(self)@,
                Some(Button::Left) => e == edge(Button::Left, now.left) && final(self)@ == (
                ControlsState { left: now.left, ..old(self)@ }),
                Some(Button::Right) => e == edge(Button::Right, now.right) && final(self)@ == (
                ControlsState { right: now.right, ..old(self)@ }),
                Some(Button::Fast) => e == edge(Button::Fast, now.fast) && final(self)@ == (
                ControlsState { fast: now.fast, ..old(self)@ }),
                Some(Button::Encoder) => e == edge(Button::Encoder, now.button) && final(self)@
                    == (ControlsState { button: now.button, ..old(self)@ }),
            },
    {
        if now.left != self.last.left {
            self.last.left = now.left;
            if now.left {
                Event::Pressed(Button::Left)
            } else {
                Event::Unpressed(Button::Left)
            }
        } else if now.right != self.last.right {
            self.last.right = now.right;
            if now.right {
                Event::Pressed(Button::Right)
            } else {
                Event::Unpressed(Button::Right)
            }
        } else if now.fast != self.last.fast {
            self.last.fast = now.fast;
            if now.fast {
                Event::Pressed(Button::Fast)
            } else {
                Event::Unpressed(Button::Fast)
            }
        } else if now.button != self.last.button {
            self.last.button = now.button;
            if now.button {
                Event::Pressed(Button::Encoder)
            } else {
                Event::Unpressed(Button::Encoder)
            }
        } else {
            Event::Nothing
        }
    }
}

/// After the changed inputs have been reported one by one, the levels are
/// all taken in and further calls report nothing.
pub proof fn lemma_events_settle(last: ControlsState, now: ControlsState)
    ensures
        first_change(now, now) is None,
        first_change(last, now) is None <==> last == now,
{
}

} // verus!
