use x2_feed::controls::{Button, Controls, ControlsState, Event};
use x2_feed::delay::Duration;
use x2_feed::delay::{deadline, passed};
use x2_feed::driver::{ns2ticks, timer_loads, DRIVER_TICK_FREQUENCY, STEP_PULSE_WIDTH_TICKS};
use x2_feed::encoder::{counter_for, counter_reload, knob_position};
use x2_feed::encoder::EncoderDelta;
use x2_feed::menu::steputil::move_delta;
use x2_feed::menu::thread::{british_association_mm, ThreadSize, ThreadSystem, ThreadingOperation};
use x2_feed::menu::util::{printable_position, wait_outcome, NavStatus, Navigation};
use x2_feed::menu::SettingsMenu;
use x2_feed::print::{format_number, Alignment};
use x2_feed::rpm::{Capture, Hall, Handled};
use x2_feed::settings::{
    acceleration, inch_steps_for, is_lathe, is_reversed, max_ipm, microsteps, pitch, traversal,
    Setting,
};
use x2_feed::stepper::{Direction, State, Stepper, StepperError};

struct NoDriver;

impl x2_feed::driver::StepperDriver for NoDriver {
    fn set_enable(&mut self, _enable: bool) {}
    fn set_timer_output(&mut self, _enable: bool) {}
    fn set_direction(&mut self, _bit: bool) {}
    fn start(&mut self, _first_delay: u16) {}
    fn preload_delay(&mut self, _delay: u16) {}
    fn set_last(&mut self) {}
    fn is_running(&self) -> bool {
        false
    }
    fn interrupt(&mut self) -> bool {
        true
    }
}

fn text(bytes: Vec<u8>) -> String {
    String::from_utf8(bytes).unwrap()
}

#[test]
fn setting_reads_are_held_to_the_range() {
    let s = Setting::new("Pitch", 4, 16, 1, 32);
    assert_eq!(s.range(), (1, 32));
    assert_eq!(s.tag(), 4);
    assert_eq!(s.label(), "Pitch");
    assert_eq!(s.decode(None), 16);
    assert_eq!(s.decode(Some(0)), 1);
    assert_eq!(s.decode(Some(1)), 1);
    assert_eq!(s.decode(Some(20)), 20);
    assert_eq!(s.decode(Some(32)), 32);
    assert_eq!(s.decode(Some(33)), 32);
    assert_eq!(s.decode(Some(0xffff)), 32);
    assert_eq!(s.clamp(0), 1);
    assert_eq!(s.clamp(99), 32);
    assert_eq!(s.clamp(7), 7);
}

#[test]
fn the_settings() {
    let all = [
        (is_lathe(), "Is Lathe?", 1, 0, (0, 1)),
        (is_reversed(), "Reverse Dir?", 2, 0, (0, 1)),
        (microsteps(), "Microsteps", 3, 16, (1, 125)),
        (pitch(), "Pitch", 4, 16, (1, 32)),
        (max_ipm(), "Max IPM", 5, 30, (1, 30)),
        (acceleration(), "Acceleration", 6, 1200, (200, 2400)),
        (traversal(), "Traversal IPM", 7, 10, (1, 30)),
    ];
    let menu = SettingsMenu::new();
    assert_eq!(menu.len(), 7);
    for (i, (s, label, tag, default, range)) in all.iter().enumerate() {
        assert_eq!(s.label(), *label);
        assert_eq!(s.tag(), *tag);
        assert_eq!(s.decode(None), *default);
        assert_eq!(s.range(), *range);
        assert_eq!(menu.setting(i).tag(), *tag);
        assert_eq!(menu.setting(i).label(), *label);
    }
}

#[test]
fn steps_per_inch_from_stored_values() {
    assert_eq!(inch_steps_for(None, None), 16 * 16 * 200);
    assert_eq!(inch_steps_for(Some(20), Some(8)), 20 * 8 * 200);
    assert_eq!(inch_steps_for(Some(0), Some(0)), 200);
    assert_eq!(inch_steps_for(Some(1000), Some(1000)), 32 * 125 * 200);
}

#[test]
fn numbers_as_text() {
    assert_eq!(text(format_number(0, Alignment::Left, 0)), "0");
    assert_eq!(text(format_number(7, Alignment::Right, 4)), "   7");
    assert_eq!(text(format_number(7, Alignment::Left, 4)), "7   ");
    assert_eq!(text(format_number(1234, Alignment::Right, 4)), "1234");
    assert_eq!(text(format_number(12345, Alignment::Right, 4)), "12345");
    assert_eq!(text(format_number(12345, Alignment::Left, 2)), "12345");
    assert_eq!(text(format_number(u32::MAX, Alignment::Right, 12)), "  4294967295");
    assert_eq!(text(format_number(1000, Alignment::Left, 6)), "1000  ");
    assert_eq!(text(format_number(10, Alignment::Right, 0)), "10");
}

#[test]
fn positions_as_text() {
    assert_eq!(text(printable_position(0, 51200).text()), "0.000");
    assert_eq!(text(printable_position(51200, 51200).text()), "1.000");
    assert_eq!(text(printable_position(25600, 51200).text()), "0.500");
    assert_eq!(text(printable_position(-25600, 51200).text()), "-0.500");
    assert_eq!(text(printable_position(51, 51200).text()), "0.001");
    assert_eq!(text(printable_position(25, 51200).text()), "0.000");
    assert_eq!(text(printable_position(26, 51200).text()), "0.001");
    assert_eq!(text(printable_position(-26, 51200).text()), "-0.001");
    assert_eq!(text(printable_position(640_000, 51200).text()), "12.500");
    assert_eq!(text(printable_position(-640_512, 51200).text()), "-12.510");
    // The sign goes by the thousandths that are shown.
    assert_eq!(text(printable_position(-102_400, 51200).text()), "2.000");
    assert_eq!(text(printable_position(i32::MAX, 1).text()), "2147483647.000");
    assert_eq!(text(printable_position(i32::MIN, 3).text()), "-715827882.667");
    assert_eq!(printable_position(-25600, 51200).parts(), (true, 0, 500));
    assert_eq!(printable_position(76800, 51200).parts(), (false, 1, 500));
}

#[test]
fn hall_sensor_speed() {
    let mut hall = Hall::new();
    assert_eq!(hall.rpm(), 0);
    // 600 turns a minute: 10_000 ticks a turn.
    let h = hall.interrupt(Capture { captured: Some(10_000), overflowed: false });
    assert_eq!(h, Handled { capture: true, overflow: false });
    assert_eq!(hall.rpm(), 600 << 8);
    // Noise is not taken.
    let h = hall.interrupt(Capture { captured: Some(999), overflowed: false });
    assert_eq!(h, Handled { capture: true, overflow: false });
    assert_eq!(hall.rpm(), 600 << 8);
    // An overflow just before the mark belongs to the turn.
    let h = hall.interrupt(Capture { captured: Some(10), overflowed: true });
    assert_eq!(h, Handled { capture: true, overflow: true });
    assert_eq!(hall.rpm(), 1_536_000_000 / 65_546);
    // One just after it does not.
    let h = hall.interrupt(Capture { captured: Some(60_000), overflowed: true });
    assert_eq!(h, Handled { capture: true, overflow: false });
    assert_eq!(hall.rpm(), 1_536_000_000 / 60_000);
    // A counted overflow and then a mark.
    let h = hall.interrupt(Capture { captured: None, overflowed: true });
    assert_eq!(h, Handled { capture: false, overflow: true });
    assert_eq!(hall.rpm(), 1_536_000_000 / 60_000);
    hall.interrupt(Capture { captured: Some(100), overflowed: false });
    assert_eq!(hall.rpm(), 1_536_000_000 / 65_636);
    // Two overflows without a mark: the spindle has stopped.
    hall.interrupt(Capture { captured: None, overflowed: true });
    hall.interrupt(Capture { captured: None, overflowed: true });
    assert_eq!(hall.rpm(), 0);
    let h = hall.interrupt(Capture { captured: None, overflowed: false });
    assert_eq!(h, Handled { capture: false, overflow: false });
    assert_eq!(hall.rpm(), 0);
}

#[test]
fn control_events_come_one_at_a_time() {
    let off = ControlsState { left: false, right: false, fast: false, button: false };
    let mut c = Controls::new();
    assert_eq!(c.read_event(off), Event::Nothing);
    let both = ControlsState { left: true, fast: true, ..off };
    assert_eq!(c.read_event(both), Event::Pressed(Button::Left));
    assert_eq!(c.read_event(both), Event::Pressed(Button::Fast));
    assert_eq!(c.read_event(both), Event::Nothing);
    let other = ControlsState { right: true, button: true, ..off };
    assert_eq!(c.read_event(other), Event::Unpressed(Button::Left));
    assert_eq!(c.read_event(other), Event::Pressed(Button::Right));
    assert_eq!(c.read_event(other), Event::Unpressed(Button::Fast));
    assert_eq!(c.read_event(other), Event::Pressed(Button::Encoder));
    assert_eq!(c.read_event(other), Event::Nothing);
    assert_eq!(c.read_event(off), Event::Unpressed(Button::Right));
    assert_eq!(c.read_event(off), Event::Unpressed(Button::Encoder));
    assert_eq!(c.read_event(off), Event::Nothing);
}

#[test]
fn stopwatch_on_a_down_counter() {
    let mut d = Duration::new(1000);
    assert_eq!(d.duration(1000), 0);
    assert_eq!(d.duration(1000 - 9), 1);
    assert_eq!(d.duration(1000 - 9 - 8), 1);
    assert_eq!(d.duration(1000 - 9 - 8 - 90), 11);
    // Across the wrap of the 24-bit counter.
    let mut d = Duration::new(5);
    assert_eq!(d.duration(0xff_ffff - 3), 1);
    let mut d = Duration::new(0);
    assert_eq!(d.duration(1), 0xff_ffff / 9);
    // The sum stays at the top.
    let mut d = Duration::new(0);
    for _ in 0..2400 {
        d.duration(1);
        d.duration(0);
    }
    assert_eq!(d.duration(0), u32::MAX);
}

#[test]
fn select_button_selects_or_exits() {
    let mut nav = Navigation::new();
    let mut now: u32 = 0xff_ffff;
    assert_eq!(nav.check(false, now, Event::Nothing), None);
    assert_eq!(nav.check(false, now, Event::Unpressed(Button::Encoder)), None);
    assert_eq!(nav.check(false, now, Event::Pressed(Button::Fast)), None);
    assert_eq!(nav.check(false, now, Event::Pressed(Button::Encoder)), None);
    now -= 9 * 1000;
    assert_eq!(nav.check(false, now, Event::Nothing), None);
    assert_eq!(
        nav.check(false, now, Event::Unpressed(Button::Encoder)),
        Some(NavStatus::Select)
    );
    assert_eq!(nav.check(false, now, Event::Unpressed(Button::Encoder)), None);

    // A press of a second and a half exits, and not before.
    assert_eq!(nav.check(false, now, Event::Pressed(Button::Encoder)), None);
    for _ in 0..3 {
        now = now.wrapping_sub(9 * 500_000) & 0xff_ffff;
        assert_eq!(nav.check(false, now, Event::Nothing), None);
    }
    now = now.wrapping_sub(9) & 0xff_ffff;
    assert_eq!(nav.check(false, now, Event::Nothing), Some(NavStatus::Exit));
    assert_eq!(
        nav.check(false, now, Event::Unpressed(Button::Encoder)),
        Some(NavStatus::Exit)
    );
}

#[test]
fn waiting_for_the_operator() {
    assert_eq!(wait_outcome(Some(NavStatus::Exit), Event::Nothing), Some(false));
    assert_eq!(wait_outcome(Some(NavStatus::Exit), Event::Pressed(Button::Fast)), Some(false));
    assert_eq!(wait_outcome(Some(NavStatus::Select), Event::Nothing), Some(true));
    assert_eq!(wait_outcome(None, Event::Pressed(Button::Fast)), Some(true));
    assert_eq!(wait_outcome(None, Event::Unpressed(Button::Fast)), None);
    assert_eq!(wait_outcome(None, Event::Pressed(Button::Left)), None);
    assert_eq!(wait_outcome(None, Event::Nothing), None);
}

#[test]
fn encoder_steps() {
    let mut d = EncoderDelta::new();
    assert_eq!(d.delta(10_000), 0);
    assert_eq!(d.delta(10_003), 3);
    assert_eq!(d.delta(10_001), -2);
    assert_eq!(d.delta(19_999), 9_998);
    assert_eq!(d.delta(1), 2);
    assert_eq!(d.delta(19_998), -3);
    assert_eq!(d.delta(9_998), -10_000);
    assert_eq!(d.delta(19_997), 9_999);
}

#[test]
fn thread_sizes_in_steps() {
    assert_eq!(ThreadSize::Tpi(16).to_steps_per_thread(51200), 3200);
    assert_eq!(ThreadSize::Tpi(18).to_steps_per_thread(51200), 2844);
    assert_eq!(ThreadSize::Metric(100).to_steps_per_thread(51200), 2015);
    assert_eq!(ThreadSize::Metric(254).to_steps_per_thread(51200), 5120);
    assert_eq!(ThreadSize::Ba(0).to_steps_per_thread(51200), 2015);
    assert_eq!(ThreadSize::Ba(6).to_steps_per_thread(51200), 1068);
    assert_eq!(ThreadSize::Metric(65_535).to_steps_per_thread(800_000), 20_640_944);
}

#[test]
fn british_association_pitches() {
    let table = [100, 90, 81, 73, 66, 59, 53, 48, 43, 39, 35];
    for (ba, mm) in table.iter().enumerate() {
        assert_eq!(british_association_mm(ba as u16), *mm);
    }
    assert_eq!(british_association_mm(30), 5);
    assert_eq!(british_association_mm(65_535), 5);
}

#[test]
fn thread_tables() {
    assert_eq!(ThreadSystem::Inch.sizes().len(), 20);
    assert_eq!(ThreadSystem::Metric.sizes().len(), 20);
    assert_eq!(ThreadSystem::BritishAssociation.sizes().len(), 11);
    for (system, size) in [
        (ThreadSystem::Inch, ThreadSize::Tpi(16)),
        (ThreadSystem::Metric, ThreadSize::Metric(100)),
        (ThreadSystem::BritishAssociation, ThreadSize::Ba(6)),
    ] {
        let table = system.sizes();
        assert_eq!(system.size(table[system.default_index()]), size);
        assert!(table.windows(2).all(|w| w[0] < w[1]));
    }
}

#[test]
fn threading_operation_defaults() {
    let mut op = ThreadingOperation::new();
    assert_eq!(op.thread(), ThreadSize::Tpi(18));
    assert_eq!(op.phase(), 0);
    assert_eq!(op.shoulder_pos(), 0);
    assert_eq!(op.retract_pos(), 0);
    op.set_thread(ThreadSize::Metric(150));
    op.set_phase(90);
    op.set_positions(-400, 2000);
    assert_eq!(op.thread(), ThreadSize::Metric(150));
    assert_eq!(op.phase(), 90);
    assert_eq!(op.shoulder_pos(), -400);
    assert_eq!(op.retract_pos(), 2000);
}

#[test]
fn moves_by_a_distance() {
    let mut stepper = Stepper::new(1_000_000, NoDriver, true);
    stepper.set_acceleration(1000 << 8).unwrap();
    stepper.set_speed(800 << 8).unwrap();
    assert!(stepper.armed());
    move_delta(40, &mut stepper);
    assert_eq!(stepper.state(), State::Running { dir: Direction::Right, is_cutting_thread: false });
    while stepper.state() != State::Stopped {
        stepper.interrupt();
    }
    assert_eq!(stepper.position(), 40);
    move_delta(-100, &mut stepper);
    // A run is under way: another is for the caller to hold back.
    assert_eq!(stepper.move_to(5), Err(StepperError::NotStopped));
    while stepper.state() != State::Stopped {
        stepper.interrupt();
    }
    assert_eq!(stepper.position(), -60);
    move_delta(0, &mut stepper);
    assert_eq!(stepper.state(), State::Stopped);
    assert_eq!(stepper.position(), -60);
}

#[test]
fn pulse_width_in_ticks() {
    assert_eq!(DRIVER_TICK_FREQUENCY, 1_000_000);
    assert_eq!(ns2ticks(75), STEP_PULSE_WIDTH_TICKS);
    assert_eq!(ns2ticks(0), 0);
    assert_eq!(ns2ticks(1), 1);
    assert_eq!(ns2ticks(1000), 1);
    assert_eq!(ns2ticks(1001), 2);
    assert_eq!(ns2ticks(65_535_000), 65_535);
}

#[test]
fn timer_registers_for_a_period() {
    assert_eq!(timer_loads(1), (0, 0));
    assert_eq!(timer_loads(2), (1, 1));
    assert_eq!(timer_loads(30232), (30231, 30231));
    assert_eq!(timer_loads(65535), (65534, 65534));
}

#[test]
fn encoder_counts_and_positions() {
    assert_eq!(counter_reload(1), 3);
    assert_eq!(counter_reload(30), 119);
    assert_eq!(counter_reload(16_383), 65_531);
    assert_eq!(counter_for(0), 1);
    assert_eq!(counter_for(29), 117);
    for count in 0..16u16 {
        assert_eq!(knob_position(count), count / 4);
    }
    for position in [0u16, 1, 29, 359, 16_382] {
        assert_eq!(knob_position(counter_for(position)), position);
    }
}

#[test]
fn waits_on_the_down_counter() {
    let stop_at = deadline(1000, 10);
    assert_eq!(stop_at, 1000 - 89);
    assert!(!passed(1000, stop_at));
    assert!(!passed(912, stop_at));
    assert!(!passed(911, stop_at));
    assert!(passed(910, stop_at));
    assert!(passed(0, stop_at));
    // Across the wrap of the counter.
    let stop_at = deadline(5, 1);
    assert_eq!(stop_at, 5u32.wrapping_sub(8));
    assert!(!passed(0, stop_at));
    assert!(!passed(0xff_fffd, stop_at));
    assert!(passed(0xff_fffc, stop_at));
}

#[test]
fn thread_steps_where_there_are_any() {
    assert_eq!(ThreadSize::Tpi(16).checked_steps_per_thread(51200), Some(3200));
    assert_eq!(ThreadSize::Tpi(0).checked_steps_per_thread(51200), None);
    assert_eq!(ThreadSize::Metric(100).checked_steps_per_thread(51200), Some(2015));
    assert_eq!(ThreadSize::Metric(65_535).checked_steps_per_thread(u32::MAX), None);
    assert_eq!(ThreadSize::Ba(0).checked_steps_per_thread(u32::MAX), Some(169_093_200));
    assert_eq!(ThreadSize::Ba(6).checked_steps_per_thread(51200), Some(1068));
}
