//! Stepper-motor power feed and spindle-synchronised thread cutting for a
//! manual mill or lathe: the motion state machine, the synchronisation
//! arithmetic and the settings store, with machine-checked contracts.

pub mod controls;
pub mod delay;
pub mod driver;
pub mod eeprom;
pub mod encoder;
pub mod flash;
pub mod menu;
pub mod print;
pub mod profile;
pub mod rpm;
pub mod settings;
pub mod stepper;
pub mod threads;
pub mod watch;
