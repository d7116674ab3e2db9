use x2_feed::controls::{Button, Event};
use x2_feed::menu::feed::{
    glyph, FeedOperation, FeedRate, FeedSpeed, Movement, FAR_LEFT, FAR_RIGHT,
};
use x2_feed::menu::limits::{capture, jog_speed, jog_steps};
use x2_feed::menu::thread::{error_text, ThreadSize, ThreadSystem};
use x2_feed::stepper::{Direction, State, Stepper, StepperError};

struct NoDriver;

impl x2_feed::driver::StepperDriver for NoDriver {
    fn set_enable(&mut self, _enable: bool) {}
    fn set_timer_output(&mut self, _enable: bool) {}
    fn set_direction(&mut self, _bit: bool) {}
    fn start(&mut self, _first_delay: u16) {}
    fn preload_delay(&mut self, _delay: u16) {}
    fn set_last(&mut self) {}
    fn is_running(&self) -> bool {
        false
    }
    fn interrupt(&mut self) -> bool {
        true
    }
}

fn text(bytes: Vec<u8>) -> String {
    String::from_utf8(bytes).unwrap()
}

const RUN_LEFT: State = State::Running { dir: Direction::Left, is_cutting_thread: false };
const RUN_RIGHT: State = State::Running { dir: Direction::Right, is_cutting_thread: false };

#[test]
fn feed_rates() {
    let ipm = FeedRate::InchesPerMinute(10);
    let ipr = FeedRate::InchesPerRevolution(4);
    assert_eq!(ipm.rate(), 10);
    assert_eq!(ipr.rate(), 4);
    assert_eq!(ipm.with_rate(3), FeedRate::InchesPerMinute(3));
    assert_eq!(ipr.with_rate(30), FeedRate::InchesPerRevolution(30));
    // 10 inches a minute at 51200 steps an inch: 8533.3 steps a second.
    assert_eq!(ipm.to_speed(51200, 0), 2_184_533);
    assert_eq!(ipm.to_speed(51200, 600 << 8), 2_184_533);
    // 4 thousandths a turn at 600 turns a minute: 2.4 inches a minute.
    assert_eq!(ipr.to_speed(51200, 600 << 8), 524_288);
    assert_eq!(ipr.to_speed(51200, 0), 0);
    assert_eq!(FeedRate::InchesPerMinute(30).to_speed(800_000, 0), 102_400_000);
    assert_eq!(text(ipm.text()), " 10 IPM");
    assert_eq!(text(FeedRate::InchesPerMinute(7).text()), "  7 IPM");
    assert_eq!(text(FeedRate::InchesPerMinute(1234).text()), "1234 IPM");
    assert_eq!(text(ipr.text()), "0.004 IPR");
    assert_eq!(text(FeedRate::InchesPerRevolution(125).text()), "0.125 IPR");
    assert_eq!(text(FeedRate::InchesPerRevolution(1250).text()), "0.1250 IPR");
}

#[test]
fn feed_operation_starts_slow() {
    let lathe = FeedOperation::new(true);
    assert_eq!(lathe.slow_speed(), FeedRate::InchesPerRevolution(4));
    assert_eq!(lathe.limits(), (None, None));
    let mill = FeedOperation::new(false);
    assert_eq!(mill.slow_speed(), FeedRate::InchesPerMinute(10));
    let _ = FeedSpeed::Slow;
}

#[test]
fn fast_button_switches_the_feed() {
    let mut op = FeedOperation::new(false);
    // The encoder counts from 0.
    assert_eq!(op.handle_feed_rate(Event::Nothing, 9), (FeedRate::InchesPerMinute(10), None));
    assert_eq!(op.handle_feed_rate(Event::Nothing, 4), (FeedRate::InchesPerMinute(5), None));
    // To the fast feed: the slow one is kept as dialled.
    assert_eq!(
        op.handle_feed_rate(Event::Pressed(Button::Fast), 4),
        (FeedRate::InchesPerMinute(30), Some(29))
    );
    assert_eq!(op.slow_speed(), FeedRate::InchesPerMinute(5));
    assert_eq!(op.handle_feed_rate(Event::Nothing, 24), (FeedRate::InchesPerMinute(25), None));
    // And back: the fast one is kept, the slow one is in use again.
    assert_eq!(
        op.handle_feed_rate(Event::Unpressed(Button::Fast), 24),
        (FeedRate::InchesPerMinute(5), Some(4))
    );
    assert_eq!(
        op.handle_feed_rate(Event::Pressed(Button::Fast), 4),
        (FeedRate::InchesPerMinute(25), Some(24))
    );
    assert_eq!(
        op.handle_feed_rate(Event::Pressed(Button::Left), 0),
        (FeedRate::InchesPerMinute(1), None)
    );
}

#[test]
fn buttons_start_and_stop_runs() {
    let mut op = FeedOperation::new(false);
    assert_eq!(op.wanted(State::Stopped, Event::Pressed(Button::Left)), Movement::MoveTo(FAR_LEFT));
    assert_eq!(
        op.wanted(State::Stopped, Event::Pressed(Button::Right)),
        Movement::MoveTo(FAR_RIGHT)
    );
    op.set_limits(Some(-500), Some(700));
    assert_eq!(op.limits(), (Some(-500), Some(700)));
    assert_eq!(op.wanted(State::Stopped, Event::Pressed(Button::Left)), Movement::MoveTo(-500));
    assert_eq!(op.wanted(State::Stopped, Event::Pressed(Button::Right)), Movement::MoveTo(700));
    assert_eq!(op.wanted(RUN_LEFT, Event::Unpressed(Button::Left)), Movement::Stop);
    assert_eq!(op.wanted(RUN_RIGHT, Event::Unpressed(Button::Right)), Movement::Stop);
    assert_eq!(op.wanted(RUN_LEFT, Event::Unpressed(Button::Right)), Movement::Stay);
    assert_eq!(op.wanted(RUN_LEFT, Event::Pressed(Button::Right)), Movement::Stay);
    assert_eq!(op.wanted(State::Stopped, Event::Unpressed(Button::Left)), Movement::Stay);
    assert_eq!(op.wanted(State::Stopped, Event::Pressed(Button::Fast)), Movement::Stay);
    assert_eq!(
        op.wanted(State::Stopping(Direction::Left), Event::Unpressed(Button::Left)),
        Movement::Stay
    );

    let mut stepper = Stepper::new(1_000_000, NoDriver, true);
    stepper.set_acceleration(1000 << 8).unwrap();
    op.update_speed(&mut stepper, 800 << 8);
    assert_eq!(op.update_movement(Event::Pressed(Button::Right), &mut stepper), Ok(()));
    assert_eq!(stepper.state(), RUN_RIGHT);
    assert_eq!(op.update_movement(Event::Pressed(Button::Left), &mut stepper), Ok(()));
    assert_eq!(stepper.state(), RUN_RIGHT);
    assert_eq!(op.update_movement(Event::Unpressed(Button::Right), &mut stepper), Ok(()));
    assert_eq!(stepper.state(), State::StopRequested(Direction::Right));
}

#[test]
fn a_run_without_settings_is_refused() {
    let op = FeedOperation::new(false);
    let mut stepper = Stepper::new(1_000_000, NoDriver, true);
    assert_eq!(
        op.update_movement(Event::Pressed(Button::Left), &mut stepper),
        Err(StepperError::StepgenError(stepgen::Error::SpeedAccelerationNotSet))
    );
}

#[test]
fn display_lines() {
    let mut op = FeedOperation::new(false);
    let mut stepper = Stepper::new(1_000_000, NoDriver, true);
    assert_eq!(text(op.first_line()), "   0 RPM    ");
    op.update_rpm(600 << 8);
    op.set_limits(Some(1), None);
    assert_eq!(text(op.first_line()), " 600 RPM L  ");
    op.set_limits(None, Some(1));
    assert_eq!(text(op.first_line()), " 600 RPM   R");
    op.set_limits(Some(0), Some(1));
    op.update_rpm((1234 << 8) + 128);
    assert_eq!(text(op.first_line()), "1235 RPM L R");

    let feed = FeedRate::InchesPerMinute(10);
    assert_eq!(text(op.second_line(State::Stopped, false, feed)), "  10 IPM      ");
    assert_eq!(op.second_line(RUN_LEFT, false, feed)[0], 1);
    assert_eq!(op.second_line(RUN_RIGHT, false, feed)[0], 2);
    assert_eq!(op.second_line(RUN_LEFT, true, feed)[0], 3);
    assert_eq!(op.second_line(RUN_RIGHT, true, feed)[0], 4);
    assert_eq!(glyph(State::Stopping(Direction::Left), true), b' ');
    op.update_speed(&mut stepper, 1 << 8);
    assert_eq!(text(op.second_line(State::Stopped, false, feed)), "  10 IPM Slow!");
    // The same speed again is not handed over again.
    op.update_speed(&mut stepper, 1 << 8);
    assert_eq!(text(op.second_line(State::Stopped, false, feed)), "  10 IPM Slow!");
    op.update_speed(&mut stepper, 1_000_000 << 8);
    assert_eq!(text(op.second_line(State::Stopped, false, feed)), "  10 IPM Fast!");
    op.update_speed(&mut stepper, 800 << 8);
    assert_eq!(text(op.second_line(State::Stopped, false, feed)), "  10 IPM      ");
}

#[test]
fn shown_rpm_ignores_small_changes() {
    let mut op = FeedOperation::new(false);
    op.update_rpm(100_000);
    assert_eq!(text(op.first_line()), " 391 RPM    ");
    // Half a percent is 500.
    op.update_rpm(100_500);
    op.update_rpm(99_500);
    assert_eq!(text(op.first_line()), " 391 RPM    ");
    op.update_rpm(100_501);
    assert_eq!(text(op.first_line()), " 393 RPM    ");
    op.update_rpm(0);
    assert_eq!(text(op.first_line()), "   0 RPM    ");
    op.update_rpm(1);
    assert_eq!(text(op.first_line()), "   0 RPM    ");
    op.update_rpm(u32::MAX);
    assert_eq!(text(op.first_line()), "16777216 RPM    ");
}

#[test]
fn limits_are_set_and_given_up() {
    assert_eq!(capture(None, 5, Event::Pressed(Button::Fast)), Some(5));
    assert_eq!(capture(Some(5), 5, Event::Pressed(Button::Fast)), None);
    assert_eq!(capture(Some(4), 5, Event::Pressed(Button::Fast)), Some(5));
    assert_eq!(capture(Some(4), 5, Event::Unpressed(Button::Fast)), Some(4));
    assert_eq!(capture(Some(4), 5, Event::Pressed(Button::Left)), Some(4));
    assert_eq!(capture(None, 5, Event::Nothing), None);
}

#[test]
fn jogging() {
    assert_eq!(jog_speed(51200), 2_184_533);
    assert_eq!(jog_steps(1, 51200, 1000), 51);
    assert_eq!(jog_steps(-1, 51200, 1000), -51);
    assert_eq!(jog_steps(3, 51200, 1000), 153);
    assert_eq!(jog_steps(-3, 51200, 10), -15360);
    assert_eq!(jog_steps(0, 51200, 10), 0);
    assert_eq!(jog_steps(5, 51200, 10), 25600);
    assert_eq!(jog_steps(i16::MIN, 1000, 1000), -32768);
}

#[test]
fn thread_sizes_as_text() {
    assert_eq!(text(ThreadSize::Tpi(16).text()), " 16 TPI");
    assert_eq!(text(ThreadSize::Tpi(4).text()), "  4 TPI");
    assert_eq!(text(ThreadSize::Metric(125).text()), "1.25mm");
    assert_eq!(text(ThreadSize::Metric(35).text()), "0.35mm");
    assert_eq!(text(ThreadSize::Metric(600).text()), "6.00mm");
    assert_eq!(text(ThreadSize::Metric(105).text()), "1.05mm");
    assert_eq!(text(ThreadSize::Ba(6).text()), "6BA");
    assert_eq!(text(ThreadSize::Ba(10).text()), "10BA");
    assert_eq!(ThreadSystem::Inch.label(), "Inch");
    assert_eq!(ThreadSystem::Metric.label(), "Metric");
    assert_eq!(ThreadSystem::BritishAssociation.label(), "BA");
}

#[test]
fn phase_error_as_text() {
    assert_eq!(text(error_text(0)), "Err:  0.0        ");
    assert_eq!(text(error_text(7)), "Err:  0.7        ");
    assert_eq!(text(error_text(90)), "Err:  9.0        ");
    assert_eq!(text(error_text(-125)), "Err: -12.5        ");
    assert_eq!(text(error_text(180)), "Err:  18.0        ");
    assert_eq!(text(error_text(i32::MIN)), "Err: -214748364.8        ");
}

#[test]
fn feed_speeds_that_fit() {
    assert_eq!(FeedRate::InchesPerMinute(10).checked_speed(51200, 0), Some(2_184_533));
    assert_eq!(FeedRate::InchesPerRevolution(4).checked_speed(51200, 600 << 8), Some(524_288));
    assert_eq!(FeedRate::InchesPerMinute(65_535).checked_speed(u32::MAX, 0), None);
    assert_eq!(FeedRate::InchesPerRevolution(65_535).checked_speed(u32::MAX, u32::MAX), None);
    // 1006 * 1_000_000 * 256 / 60 is just under 2^32, and 1007 is over.
    assert_eq!(FeedRate::InchesPerMinute(1006).checked_speed(1_000_000, 0), Some(4_292_266_666));
    assert_eq!(FeedRate::InchesPerMinute(1007).checked_speed(1_000_000, 0), None);
}
