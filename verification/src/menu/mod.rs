//! What the menus decide. The menus themselves, which read the controls
//! and write the display, are not here: these are the rules that they go by.

pub mod feed;
pub mod limits;
pub mod steputil;
pub mod thread;
pub mod util;

use crate::driver::StepperDriver;
use crate::eeprom::EEPROM;
use crate::profile::{first_delay, speed_verdict};
use crate::settings::{
    acceleration, acceleration_setting, inch_steps, is_lathe, is_reversed, is_reversed_setting,
    inch_steps_for, max_ipm, microsteps, microsteps_setting, pitch, pitch_setting, traversal,
    traversal_setting, Setting, SettingView,
};
use crate::stepper::{
    with_acceleration, with_speed, MotionView, Stepper, StepperError, FIRST_LIMIT,
};
use vstd::prelude::*;

verus! {

/// A menu of settings.
pub struct SettingsMenuTemplate<const N: usize> {
    settings: [Setting; N],
}

/// The menu of all the settings.
pub type SettingsMenu = SettingsMenuTemplate<7>;

impl<const N: usize> View for SettingsMenuTemplate<N> {
    type V = Seq<SettingView>;

    closed spec fn view(&self) -> Seq<SettingView> {
        Seq::new(N as nat, |i: int| self.settings[i]@)
    }
}

impl<const N: usize> SettingsMenuTemplate<N> {
    /// The number of settings in the menu.
    pub fn len(&self) -> (n: usize)
        ensures
            n == self@.len(),
            n == N,
    {
        N
    }

    /// The setting in line `index` of the menu.
    pub fn setting(&self, index: usize) -> (s: Setting)
        requires
            index < self@.len(),
        ensures
            s@ == self@[index as int],
    {
        self.settings[index]
    }
}

impl SettingsMenu {
    /// All the settings, in the order of their tags.
    pub fn new() -> (menu: SettingsMenu)
        ensures
            menu@.len() == 7,
            forall|i: int| 0 <= i < 7 ==> (#[trigger] menu@[i]).tag == i + 1,
            menu@[2] == microsteps_setting(),
            menu@[3] == pitch_setting(),
    {
        SettingsMenuTemplate {
            settings: [
                is_lathe(),
                is_reversed(),
                microsteps(),
                pitch(),
                max_ipm(),
                acceleration(),
                traversal(),
            ],
        }
    }
}

/// What the store holds for the settings that the stepper goes by.
#[derive(Clone, Copy, Debug, PartialEq, Eq, Structural)]
pub struct Stored {
    pub reversed: Option<u16>,
    pub acceleration: Option<u16>,
    pub microsteps: Option<u16>,
    pub traversal: Option<u16>,
    pub pitch: Option<u16>,
}

/// What `eeprom` holds for the settings that the stepper goes by.
pub open spec fn stored_in(eeprom: crate::eeprom::EepromView) -> Stored {
    Stored {
        reversed: eeprom.value(0x02),
        acceleration: eeprom.value(0x06),
        microsteps: eeprom.value(0x03),
        traversal: eeprom.value(0x07),
        pitch: eeprom.value(0x04),
    }
}

impl Stored {
    /// Reads the store.
    pub fn load(eeprom: &EEPROM) -> (stored: Stored)
        requires
            eeprom@.sound(),
            eeprom@.active() is Some,
        ensures
            stored == stored_in(eeprom@),
    {
        Stored {
            reversed: eeprom.read(is_reversed().tag()),
            acceleration: eeprom.read(acceleration().tag()),
            microsteps: eeprom.read(microsteps().tag()),
            traversal: eeprom.read(traversal().tag()),
            pitch: eeprom.read(pitch().tag()),
        }
    }
}

/// The stepper's own settings.
#[derive(Clone, Copy, Debug, PartialEq, Eq, Structural)]
pub struct StepperSettings {
    /// Whether the direction line is inverted.
    pub reversed: bool,
    /// Acceleration, in 24.8 steps/s^2.
    pub acceleration: u32,
    /// The speed of a traverse, in 24.8 steps per second.
    pub speed: u32,
}

/// The stepper's settings for what the store holds: the acceleration in
/// microsteps, and the traverse in steps per second.
pub open spec fn settings_for(stored: Stored) -> StepperSettings {
    StepperSettings {
        reversed: is_reversed_setting().value(stored.reversed) != 0,
        acceleration: (acceleration_setting().value(stored.acceleration)
            * microsteps_setting().value(stored.microsteps) * 256) as u32,
        speed: (traversal_setting().value(stored.traversal) * inch_steps(
            pitch_setting().value(stored.pitch),
            microsteps_setting().value(stored.microsteps),
        ) * 256 / 60) as u32,
    }
}

/// The stepper's settings for what the store holds.
pub fn stepper_settings(stored: Stored) -> (s: StepperSettings)
    ensures
        s == settings_for(stored),
        51_200 <= s.acceleration <= 76_800_000,
        853 <= s.speed <= 102_400_000,
{
    let reversed: bool = is_reversed().decode(stored.reversed) != 0;
    let accel: u32 = acceleration().decode(stored.acceleration) as u32;
    let micro: u32 = microsteps().decode(stored.microsteps) as u32;
    let rate: u64 = traversal().decode(stored.traversal) as u64;
    let per_inch: u64 = inch_steps_for(stored.pitch, stored.microsteps) as u64;
    assert(200 <= accel * micro <= 300_000) by (nonlinear_arith)
        requires
            200 <= accel <= 2400,
            1 <= micro <= 125,
    ;
    assert(200 <= rate * per_inch <= 24_000_000) by (nonlinear_arith)
        requires
            1 <= rate <= 30,
            200 <= per_inch <= 800_000,
    ;
    StepperSettings {
        reversed,
        acceleration: accel * micro * 256,
        speed: (rate * per_inch * 256 / 60) as u32,
    }
}

/// Sets the stepper up from the store: the direction, then the speed of a
/// traverse, then the acceleration. The first setting that the stepper
/// refuses ends the work and is returned.
pub fn reload_stepper_settings<S: StepperDriver>(stepper: &mut Stepper<S>, stored: Stored) -> (r:
    Result<(), StepperError>)
    requires
        old(stepper)@.wf(),
        old(stepper).watched(),
    ensures
        final(stepper)@.wf(),
        final(stepper).watched(),
        final(stepper)@.reversed == settings_for(stored).reversed,
        final(stepper)@.state == old(stepper)@.state,
        final(stepper)@.position == old(stepper)@.position,
        final(stepper)@.base_step == old(stepper)@.base_step,
        ({
            let s = settings_for(stored);
            let ticks = old(stepper)@.profile.ticks;
            match speed_verdict(ticks, s.speed) {
                Err(e) => r == Err::<(), StepperError>(StepperError::StepgenError(e))
                    && final(stepper)@ == (MotionView { reversed: s.reversed, ..old(stepper)@ }),
                Ok(_) => if first_delay(ticks, s.acceleration) >= FIRST_LIMIT {
                    r == Err::<(), StepperError>(
                        StepperError::StepgenError(stepgen::Error::TooSlow),
                    ) && final(stepper)@ == with_speed(
                        MotionView { reversed: s.reversed, ..old(stepper)@ },
                        s.speed,
                    )
                } else {
                    r is Ok && final(stepper)@ == with_acceleration(
                        with_speed(MotionView { reversed: s.reversed, ..old(stepper)@ }, s.speed),
                        s.acceleration,
                    )
                },
            }
        }),
{
    let s = stepper_settings(stored);
    stepper.set_reversed(s.reversed);
    match stepper.set_speed(s.speed) {
        Err(e) => {
            return Err(e);
        },
        Ok(()) => {},
    }
    stepper.set_acceleration(s.acceleration)
}

} // verus!
