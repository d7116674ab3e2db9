//! Settings that the operator can change. Each is a 16-bit value kept in
//! the settings store under a tag of its own, with a range that every read
//! and every write is held to.

use crate::eeprom::{EEPROM, RESERVED_TAGS};
use crate::flash::{FlashError, ERASED};
use vstd::prelude::*;

verus! {

/// Full steps of the motor per turn of the screw.
pub const STEPS_PER_ROTATION: u32 = 200;

/// A setting: its tag in the store, its default, its range and its name.
#[derive(Clone, Copy)]
pub struct Setting {
    tag: u16,
    default: u16,
    min: u16,
    max: u16,
    label: &'static str,
}

/// The fields of a [`Setting`].
pub struct SettingView {
    pub tag: u16,
    pub default: u16,
    pub min: u16,
    pub max: u16,
    pub label: Seq<char>,
}

impl SettingView {
    /// `value` held to the range: raised to `min`, then lowered to `max`.
    pub open spec fn clamped(self, value: u16) -> u16 {
        if value < self.min {
            if self.min < self.max {
                self.min
            } else {
                self.max
            }
        } else if value < self.max {
            value
        } else {
            self.max
        }
    }

    /// The value of the setting when the store holds `stored` for it.
    pub open spec fn value(self, stored: Option<u16>) -> u16 {
        match stored {
            Some(v) => self.clamped(v),
            None => self.default,
        }
    }
}

impl View for Setting {
    type V = SettingView;

    closed spec fn view(&self) -> SettingView {
        SettingView {
            tag: self.tag,
            default: self.default,
            min: self.min,
            max: self.max,
            label: self.label@,
        }
    }
}

/// Steps per inch of travel for a screw of `pitch` turns per inch driven
/// with `microsteps` microsteps per full step.
pub open spec fn inch_steps(pitch: u16, microsteps: u16) -> int {
    pitch * microsteps * STEPS_PER_ROTATION
}

impl Setting {
    /// A setting named `label` under `tag`, from `min` to `max`.
    pub fn new(label: &'static str, tag: u16, default: u16, min: u16, max: u16) -> (s: Setting)
        ensures
            s@ == (SettingView { tag: tag, default: default, min: min, max: max, label: label@ }),
    {
        Setting { label, tag, default, min, max }
    }

    /// The least and the greatest value.
    pub fn range(&self) -> (r: (u16, u16))
        ensures
            r == (self@.min, self@.max),
    {
        (self.min, self.max)
    }

    /// The tag under which the store keeps the setting.
    pub fn tag(&self) -> (tag: u16)
        ensures
            tag == self@.tag,
    {
        self.tag
    }

    /// `value` held to the range of the setting: what a write stores.
    pub fn clamp(&self, value: u16) -> (r: u16)
        ensures
            r == self@.clamped(value),
            self@.clamped(r) == r,
            self@.min <= self@.max ==> self@.min <= r <= self@.max,
    {
        let raised: u16 = if value < self.min {
            self.min
        } else {
            value
        };
        if raised < self.max {
            raised
        } else {
            self.max
        }
    }

    /// The value of the setting for what the store holds under its tag:
    /// the stored value held to the range, or the default where the store
    /// holds none.
    pub fn decode(&self, stored: Option<u16>) -> (r: u16)
        ensures
            r == self@.value(stored),
    {
        match stored {
            Some(v) => self.clamp(v),
            None => self.default,
        }
    }

    /// The value of the setting in the store.
    pub fn read(&self, eeprom: &EEPROM) -> (r: u16)
        requires
            eeprom@.sound(),
            eeprom@.active() is Some,
            self@.tag < RESERVED_TAGS,
        ensures
            r == self@.value(eeprom@.value(self@.tag)),
    {
        self.decode(eeprom.read(self.tag))
    }

    /// Stores `value`, held to the range, as the value of the setting. No
    /// other setting changes.
    pub fn write(&self, eeprom: &mut EEPROM, value: u16) -> (r: Result<(), FlashError>)
        requires
            old(eeprom)@.has_room(),
            self@.tag < RESERVED_TAGS,
        ensures
            r is Ok,
            final(eeprom)@.like(old(eeprom)@),
            final(eeprom)@.tidy(),
            final(eeprom)@.value(self@.tag) == Some(self@.clamped(value)),
            self@.value(final(eeprom)@.value(self@.tag)) == self@.clamped(value),
            forall|other: u16|
                other != ERASED && other != self@.tag ==> #[trigger] final(eeprom)@.value(other)
                    == old(eeprom)@.value(other),
    {
        let held: u16 = self.clamp(value);
        eeprom.write(self.tag, held)
    }

    /// The name of the setting in the menu.
    pub fn label(&self) -> (label: &'static str)
        ensures
            label@ == self@.label,
    {
        self.label
    }
}

/// Whether the machine is a lathe; a mill otherwise.
pub fn is_lathe() -> (s: Setting)
    ensures
        s@ == (SettingView { tag: 0x01, default: 0, min: 0, max: 1, label: "Is Lathe?"@ }),
{
    Setting::new("Is Lathe?", 0x01, 0, 0, 1)
}

/// Whether the direction line is inverted.
pub fn is_reversed() -> (s: Setting)
    ensures
        s@ == is_reversed_setting(),
{
    Setting::new("Reverse Dir?", 0x02, 0, 0, 1)
}

/// The setting of the inverted direction line.
pub open spec fn is_reversed_setting() -> SettingView {
    SettingView { tag: 0x02, default: 0, min: 0, max: 1, label: "Reverse Dir?"@ }
}

/// The setting of the acceleration.
pub open spec fn acceleration_setting() -> SettingView {
    SettingView { tag: 0x06, default: 1200, min: 200, max: 2400, label: "Acceleration"@ }
}

/// The setting of the speed of a traverse.
pub open spec fn traversal_setting() -> SettingView {
    SettingView { tag: 0x07, default: 10, min: 1, max: 30, label: "Traversal IPM"@ }
}

/// The setting of the microsteps per full step.
pub open spec fn microsteps_setting() -> SettingView {
    SettingView { tag: 0x03, default: 16, min: 1, max: 125, label: "Microsteps"@ }
}

/// The setting of the screw's pitch.
pub open spec fn pitch_setting() -> SettingView {
    SettingView { tag: 0x04, default: 16, min: 1, max: 32, label: "Pitch"@ }
}

/// Microsteps per full step.
pub fn microsteps() -> (s: Setting)
    ensures
        s@ == microsteps_setting(),
{
    Setting::new("Microsteps", 0x03, 16, 1, 125)
}

/// Turns of the screw per inch.
pub fn pitch() -> (s: Setting)
    ensures
        s@ == pitch_setting(),
{
    Setting::new("Pitch", 0x04, 16, 1, 32)
}

/// The fastest feed, in inches per minute.
pub fn max_ipm() -> (s: Setting)
    ensures
        s@ == (SettingView { tag: 0x05, default: 30, min: 1, max: 30, label: "Max IPM"@ }),
{
    Setting::new("Max IPM", 0x05, 30, 1, 30)
}

/// Acceleration, in full steps per second per second.
pub fn acceleration() -> (s: Setting)
    ensures
        s@ == acceleration_setting(),
{
    Setting::new("Acceleration", 0x06, 1200, 200, 2400)
}

/// The speed of a traverse, in inches per minute.
pub fn traversal() -> (s: Setting)
    ensures
        s@ == traversal_setting(),
{
    Setting::new("Traversal IPM", 0x07, 10, 1, 30)
}

/// Steps per inch of travel for what the store holds for the pitch of the
/// screw and for the microsteps.
pub fn inch_steps_for(stored_pitch: Option<u16>, stored_microsteps: Option<u16>) -> (steps: u32)
    ensures
        steps == inch_steps(
            pitch_setting().value(stored_pitch),
            microsteps_setting().value(stored_microsteps),
        ),
        200 <= steps <= 800_000,
{
    let p: u32 = pitch().decode(stored_pitch) as u32;
    let m: u32 = microsteps().decode(stored_microsteps) as u32;
    assert(1 <= p * m <= 4000) by (nonlinear_arith)
        requires
            1 <= p <= 32,
            1 <= m <= 125,
    ;
    p * m * STEPS_PER_ROTATION
}

/// Steps per inch of travel, from the settings in the store.
pub fn steps_per_inch(eeprom: &EEPROM) -> (steps: u32)
    requires
        eeprom@.sound(),
        eeprom@.active() is Some,
    ensures
        steps == inch_steps(
            pitch_setting().value(eeprom@.value(0x04)),
            microsteps_setting().value(eeprom@.value(0x03)),
        ),
        200 <= steps <= 800_000,
{
    inch_steps_for(eeprom.read(pitch().tag()), eeprom.read(microsteps().tag()))
}

} // verus!
