use x2_feed::driver::Commands;
use x2_feed::stepper::{Direction, Motion, State, StepperError};
use x2_feed::threads::{SyncPlan, ThreadInfo, DELAY_FLOOR};

fn cutting_info() -> ThreadInfo {
    let mut info = ThreadInfo::new(1_000_000);
    info.set_acceleration(1200 << 8);
    info
}

/// The steps that the generator takes to reach `speed`.
fn ramp_steps(acceleration: u32, speed: u32) -> u32 {
    let mut g = stepgen::Stepgen::new(1_000_000);
    g.set_acceleration(acceleration).unwrap();
    g.set_target_speed(speed).unwrap();
    g.set_target_step(u32::MAX - 2).unwrap();
    while !g.is_at_speed() {
        g.next().unwrap();
    }
    g.current_step()
}

fn drain(info: &mut ThreadInfo) -> Vec<u16> {
    let mut loads = Vec::new();
    loop {
        let load = info.next_wait_delay();
        if load == 0 {
            return loads;
        }
        loads.push(load);
        assert!(loads.len() < 100_000);
    }
}

#[test]
fn new_info_has_nothing_to_wait_for() {
    let mut info = ThreadInfo::new(1_000_000);
    assert_eq!(info.delay_remaining(), 0);
    assert_eq!(info.steps_per_thread(), 0);
    assert_eq!(info.target_position(), 0);
    assert_eq!(info.next_wait_delay(), 0);
    assert_eq!(info.next_wait_delay(), 0);
}

#[test]
fn setup_scenario_gives_a_safe_wait() {
    let mut info = cutting_info();
    assert_eq!(info.setup_thread_cutting(5000, 1000, 0, 600 << 8), Ok(()));
    assert_eq!(info.steps_per_thread(), 1000);
    assert_eq!(info.target_position(), 5000);
    assert!(info.delay_remaining() > 10_000);

    let speed = (600u32 << 8) * 1000 / 60;
    let steps = ramp_steps(1200 << 8, speed);
    let plan = ThreadInfo::plan_start(1_000_000, 1000, 600 << 8, steps).unwrap();
    assert!(plan.start_at_step < 1000);
    assert_eq!((plan.start_at_step + steps) % 1000, 0);
    assert_eq!(plan.delay, info.delay_remaining());
    // 10 turns a second: a step of the spindle's scale takes 100 ticks.
    assert_eq!(plan.delay, 100 * plan.start_at_step);
}

#[test]
fn setup_takes_the_phase_without_using_it() {
    let mut a = cutting_info();
    let mut b = cutting_info();
    a.setup_thread_cutting(5000, 1000, 0, 600 << 8).unwrap();
    b.setup_thread_cutting(5000, 1000, 180, 600 << 8).unwrap();
    assert_eq!(a.delay_remaining(), b.delay_remaining());
}

#[test]
fn setup_errors_leave_everything_as_it_was() {
    let mut info = ThreadInfo::new(1_000_000);
    // No acceleration yet.
    assert_eq!(info.setup_thread_cutting(1, 1000, 0, 600 << 8), Err(stepgen::Error::TooSlow));
    info.set_acceleration(1200 << 8);
    // A spindle at rest.
    assert_eq!(info.setup_thread_cutting(1, 1000, 0, 0), Err(stepgen::Error::TooSlow));
    // No steps per turn.
    assert_eq!(info.setup_thread_cutting(1, 0, 0, 600 << 8), Err(stepgen::Error::TooSlow));
    // A speed that the generator does not reach.
    assert_eq!(
        info.setup_thread_cutting(1, 100_000, 0, 6000 << 8),
        Err(stepgen::Error::TooFast)
    );
    // A speed beyond 32 bits.
    assert_eq!(
        info.setup_thread_cutting(1, u32::MAX, 0, u32::MAX),
        Err(stepgen::Error::TooFast)
    );
    assert_eq!(info.delay_remaining(), 0);
    assert_eq!(info.steps_per_thread(), 0);
    assert_eq!(info.target_position(), 0);
}

#[test]
fn plan_formulas() {
    // 250 steps of ramp in turns of 1000: start 750 steps before a turn.
    assert_eq!(
        ThreadInfo::plan_start(1_000_000, 1000, 600 << 8, 250).map(|p| (p.start_at_step, p.delay)),
        Ok((750, 75_000))
    );
    // A ramp of several turns.
    assert_eq!(
        ThreadInfo::plan_start(1_000_000, 1000, 600 << 8, 2250).map(|p| (p.start_at_step, p.delay)),
        Ok((750, 75_000))
    );
    // A ramp of whole turns waits a whole turn.
    assert_eq!(
        ThreadInfo::plan_start(1_000_000, 1000, 600 << 8, 3000).map(|p| (p.start_at_step, p.delay)),
        Ok((1000, 100_000))
    );
    assert_eq!(
        ThreadInfo::plan_start(1_000_000, 1000, 600 << 8, 0).map(|p| (p.start_at_step, p.delay)),
        Ok((1000, 100_000))
    );
    // 60 * 256 * 1_000_000 * 7 / (13 * 1000) is 8_270_769.2
    assert_eq!(
        ThreadInfo::plan_start(1_000_000, 13, 1000, 6).map(|p| (p.start_at_step, p.delay)),
        Ok((7, 8_270_769))
    );
}

#[test]
fn plan_refuses_waits_that_are_too_short_or_too_long() {
    // 100 steps at 100 ticks each: exactly the floor.
    assert_eq!(DELAY_FLOOR, 10_000);
    assert_eq!(
        ThreadInfo::plan_start(1_000_000, 1000, 600 << 8, 900).err(),
        Some(stepgen::Error::TooFast)
    );
    assert_eq!(
        ThreadInfo::plan_start(1_000_000, 1000, 600 << 8, 899).map(|p| p.delay),
        Ok(10_100)
    );
    assert_eq!(
        ThreadInfo::plan_start(u32::MAX, 1000, 1, 0).err(),
        Some(stepgen::Error::TooSlow)
    );
    let _unused: Option<SyncPlan> = None;
}

#[test]
fn plan_always_ends_on_a_turn() {
    for spt in [1u32, 2, 3, 7, 200, 1000, 4001] {
        for steps in [0u32, 1, 2, 5, 199, 200, 201, 999, 1000, 1001, 123_456] {
            if let Ok(plan) = ThreadInfo::plan_start(1_000_000, spt, 60 << 8, steps) {
                assert_eq!((plan.start_at_step as u64 + steps as u64) % spt as u64, 0);
                assert!(plan.start_at_step >= 1 && plan.start_at_step <= spt);
                assert!(plan.delay > 10_000);
            }
        }
    }
}

#[test]
fn countdown_hands_out_all_of_the_wait() {
    for wait in [
        0u32, 1, 10_001, 65_534, 65_535, 65_536, 65_537, 75_000, 131_069, 131_070, 131_071,
        131_072, 200_000, 1_000_000, 16_000_000, u32::MAX,
    ] {
        let mut remaining = wait;
        let mut sum: u64 = 0;
        let mut loads = 0;
        loop {
            let load = ThreadInfo::next_load(remaining);
            if load == 0 {
                break;
            }
            if remaining >= 65_536 {
                assert_eq!(load as u32, (remaining / 2).min(65_535));
            } else {
                assert_eq!(load as u32, remaining);
            }
            sum += load as u64;
            remaining -= load as u32;
            loads += 1;
        }
        assert_eq!(sum, wait as u64);
        assert_eq!(remaining, 0);
        assert_eq!(ThreadInfo::next_load(remaining), 0);
        assert!(loads <= wait / 32_768 + 2);
    }
    assert_eq!(ThreadInfo::next_load(65_536), 32_768);
    assert_eq!(ThreadInfo::next_load(131_070), 65_535);
    assert_eq!(ThreadInfo::next_load(131_069), 65_534);
    assert_eq!(ThreadInfo::next_load(u32::MAX), 65_535);
}

#[test]
fn countdown_chunks() {
    let mut m = Motion::new(1_000_000, true);
    m.set_acceleration(1200 << 8).unwrap();
    m.thread_start(5000, 1000, 0, 600 << 8).unwrap();
    let mut info = cutting_info();
    info.setup_thread_cutting(5000, 1000, 0, 600 << 8).unwrap();
    let wait = info.delay_remaining();
    let loads = drain(&mut info);
    assert_eq!(loads.iter().map(|l| *l as u64).sum::<u64>(), wait as u64);
    assert!(loads.iter().all(|l| *l != 0));
    assert_eq!(info.delay_remaining(), 0);
    assert_eq!(info.next_wait_delay(), 0);
    // While more than one load is left, a load is half of the rest.
    if wait >= 65_536 {
        assert_eq!(loads[0] as u32, (wait / 2).min(65_535));
    } else {
        assert_eq!(loads, vec![wait as u16]);
    }
}

#[test]
fn phase_error_in_degrees() {
    assert_eq!(ThreadInfo::phase_error_degrees(0, 1000), 0);
    assert_eq!(ThreadInfo::phase_error_degrees(1000, 1000), 0);
    assert_eq!(ThreadInfo::phase_error_degrees(250, 1000), 90);
    assert_eq!(ThreadInfo::phase_error_degrees(500, 1000), 180);
    assert_eq!(ThreadInfo::phase_error_degrees(750, 1000), -90);
    assert_eq!(ThreadInfo::phase_error_degrees(499, 1000), 180);
    assert_eq!(ThreadInfo::phase_error_degrees(498, 1000), 179);
    assert_eq!(ThreadInfo::phase_error_degrees(501, 1000), 180);
    assert_eq!(ThreadInfo::phase_error_degrees(502, 1000), -179);
    assert_eq!(ThreadInfo::phase_error_degrees(999, 1000), 0);
    assert_eq!(ThreadInfo::phase_error_degrees(998, 1000), -1);
    assert_eq!(ThreadInfo::phase_error_degrees(1, 1000), 0);
    assert_eq!(ThreadInfo::phase_error_degrees(2, 1000), 1);
    assert_eq!(ThreadInfo::phase_error_degrees(1, 1), 0);
    assert_eq!(ThreadInfo::phase_error_degrees(u32::MAX, u32::MAX), 0);
    assert_eq!(ThreadInfo::phase_error_degrees(1, 3), 120);
    assert_eq!(ThreadInfo::phase_error_degrees(2, 3), -120);
}

#[test]
fn speed_follows_the_spindle_and_error_is_recorded() {
    let mut info = cutting_info();
    info.setup_thread_cutting(5000, 1000, 0, 600 << 8).unwrap();
    assert_eq!(info.calculate_speed(600 << 8, 0), 2_560_000);
    assert_eq!(info.last_error_degrees(), 0);
    assert_eq!(info.calculate_speed(601 << 8, 3250), 2_564_266);
    assert_eq!(info.last_error_degrees(), 90);
    // The error does not change the speed.
    assert_eq!(info.calculate_speed(601 << 8, 3750), 2_564_266);
    assert_eq!(info.last_error_degrees(), -90);
    assert_eq!(info.calculate_speed(u32::MAX, 0), u32::MAX);
}

#[test]
fn thread_start_is_refused_unless_stopped() {
    let mut m = Motion::new(1_000_000, false);
    m.set_acceleration(1200 << 8).unwrap();
    m.set_speed(800 << 8).unwrap();
    m.move_to(100).unwrap();
    assert_eq!(m.thread_start(5000, 1000, 0, 600 << 8), Err(StepperError::NotStopped));
}

#[test]
fn thread_start_returns_the_generator_error() {
    let mut m = Motion::new(1_000_000, false);
    assert_eq!(
        m.thread_start(5000, 1000, 0, 600 << 8),
        Err(StepperError::StepgenError(stepgen::Error::TooSlow))
    );
    m.set_acceleration(1200 << 8).unwrap();
    assert_eq!(
        m.thread_start(5000, 1000, 0, 0),
        Err(StepperError::StepgenError(stepgen::Error::TooSlow))
    );
    assert_eq!(
        m.thread_start(5000, 100_000, 0, 6000 << 8),
        Err(StepperError::StepgenError(stepgen::Error::TooFast))
    );
    assert_eq!(m.state(), State::Stopped);
    assert_eq!(m.thread_start(5000, 1000, 0, 600 << 8), Ok(()));
    assert_eq!(m.state(), State::ThreadStart);
}

#[test]
fn a_cut_from_mark_to_shoulder() {
    let mut m = Motion::new(1_000_000, false);
    m.set_acceleration(1200 << 8).unwrap();
    assert_eq!(m.thread_start(5000, 1000, 0, 600 << 8), Ok(()));
    assert_eq!(m.state(), State::ThreadStart);
    assert_eq!(m.last_error_degrees(), 0);
    // A stop is for runs only.
    m.stop();
    assert_eq!(m.state(), State::ThreadStart);

    let mut info = ThreadInfo::new(1_000_000);
    info.set_acceleration(1200 << 8);
    info.setup_thread_cutting(5000, 1000, 0, 600 << 8).unwrap();
    let expected = drain(&mut info);
    assert!(!expected.is_empty());

    // The mark: the timer counts without stepping.
    let c = m.spindle_sync(600 << 8);
    assert_eq!(m.state(), State::ThreadDelay);
    assert_eq!(c.timer_output, Some(false));
    assert_eq!(c.direction, None);
    assert_eq!(c.enable, None);
    let mut loads = vec![c.start.unwrap()];
    let mut last = c.last;
    if let Some(load) = c.preload {
        loads.push(load);
    }
    while !last {
        let c = m.interrupt(true, true);
        assert_eq!(m.state(), State::ThreadDelay);
        assert_eq!(c.start, None);
        last = c.last;
        if let Some(load) = c.preload {
            assert!(!c.last);
            loads.push(load);
        }
    }
    assert_eq!(loads, expected);

    // The countdown is over and the timer has stopped: the cut starts.
    let c = m.interrupt(true, false);
    assert_eq!(m.state(), State::Running { dir: Direction::Right, is_cutting_thread: true });
    assert_eq!(c.timer_output, Some(true));
    assert_eq!(c.direction, Some(true));
    assert_eq!(c.enable, Some(true));
    assert!(c.start.is_some());
    assert!(c.preload.is_some());

    for _ in 0..1248 {
        let _ = m.interrupt(true, true);
    }
    assert_eq!(m.position(), 1250);
    // A mark during the cut records the phase error.
    let c = m.spindle_sync(600 << 8);
    assert_eq!(c, Commands::none());
    assert_eq!(m.last_error_degrees(), 90);
    assert_eq!(m.state(), State::Running { dir: Direction::Right, is_cutting_thread: true });

    while matches!(m.state(), State::Running { .. }) {
        let _ = m.interrupt(true, true);
    }
    let _ = m.interrupt(true, false);
    assert_eq!(m.state(), State::Stopped);
    assert_eq!(m.position(), 5000);
}

#[test]
fn a_mark_outside_of_a_cut_does_nothing() {
    let mut m = Motion::new(1_000_000, false);
    m.set_acceleration(1200 << 8).unwrap();
    m.set_speed(800 << 8).unwrap();
    assert_eq!(m.spindle_sync(600 << 8), Commands::none());
    assert_eq!(m.state(), State::Stopped);
    m.move_to(100).unwrap();
    let position = m.position();
    assert_eq!(m.spindle_sync(600 << 8), Commands::none());
    assert_eq!(m.position(), position);
    assert_eq!(m.state(), State::Running { dir: Direction::Right, is_cutting_thread: false });
}

#[test]
fn a_cut_to_where_the_tool_stands_ends_at_once() {
    let mut m = Motion::new(1_000_000, true);
    m.set_acceleration(1200 << 8).unwrap();
    m.thread_start(0, 1000, 0, 600 << 8).unwrap();
    let c = m.spindle_sync(600 << 8);
    let mut last = c.last;
    while !last {
        last = m.interrupt(true, true).last;
    }
    let c = m.interrupt(true, false);
    assert_eq!(c, Commands { timer_output: Some(true), ..Commands::none() });
    assert_eq!(m.state(), State::Stopped);
    assert_eq!(m.position(), 0);
}

#[test]
fn the_trial_counts_the_steps_of_the_ramp() {
    let speed = (600u32 << 8) * 1000 / 60;
    assert_eq!(ThreadInfo::count_ramp(1_000_000, 1200 << 8, speed), Ok(ramp_steps(1200 << 8, speed)));
    let slow = 2000 << 8;
    let steps = ramp_steps(3000 << 8, slow);
    assert!(steps > 100, "{}", steps);
    assert_eq!(ThreadInfo::count_ramp(1_000_000, 3000 << 8, slow), Ok(steps));
    // A faster cruise takes a longer ramp.
    assert!(ThreadInfo::count_ramp(1_000_000, 3000 << 8, 4000 << 8).unwrap() > steps);
}

#[test]
fn the_trial_returns_what_the_generator_refuses() {
    assert_eq!(ThreadInfo::count_ramp(1_000_000, 1 << 8, 1000 << 8), Err(stepgen::Error::TooSlow));
    assert_eq!(ThreadInfo::count_ramp(1_000_000, 1200 << 8, 0), Err(stepgen::Error::TooSlow));
    assert_eq!(ThreadInfo::count_ramp(1_000_000, 1200 << 8, 1 << 8), Err(stepgen::Error::TooSlow));
    assert_eq!(
        ThreadInfo::count_ramp(1_000_000, 1200 << 8, 1_000_000 << 8),
        Err(stepgen::Error::TooFast)
    );
}

#[test]
fn a_cruise_slower_than_the_first_step_has_no_ramp() {
    // 20 steps a second, with a first step that is shorter than that: the
    // generator never cruises, and the trial gives up where its own
    // arithmetic would leave the range.
    assert_eq!(ThreadInfo::count_ramp(1_000_000, 1000 << 8, 5120), Err(stepgen::Error::TooSlow));
}

#[test]
fn set_ups_that_differ_in_the_target_agree() {
    let mut a = cutting_info();
    let mut b = cutting_info();
    assert_eq!(
        a.setup_thread_cutting(5000, 1000, 0, 600 << 8),
        b.setup_thread_cutting(-123_456, 1000, 0, 600 << 8)
    );
    assert_eq!(a.delay_remaining(), b.delay_remaining());
    assert_eq!(a.steps_per_thread(), b.steps_per_thread());
    assert_eq!(a.target_position(), 5000);
    assert_eq!(b.target_position(), -123_456);
    assert_eq!(
        a.setup_thread_cutting(1, 100_000, 0, 6000 << 8),
        b.setup_thread_cutting(2, 100_000, 0, 6000 << 8)
    );
    assert_eq!(a.delay_remaining(), b.delay_remaining());
}

#[test]
fn the_phase_error_can_be_read_in_steps() {
    let mut info = cutting_info();
    assert_eq!(info.last_error(), 0);
    assert_eq!(info.timer_freq(), 1_000_000);
    info.setup_thread_cutting(5000, 1000, 0, 600 << 8).unwrap();
    info.calculate_speed(600 << 8, 3250);
    assert_eq!(info.last_error(), 250);
    // A set-up with fewer steps to the turn keeps the error that was
    // recorded: it is then more than a turn.
    info.setup_thread_cutting(5000, 200, 0, 600 << 8).unwrap();
    assert_eq!(info.last_error(), 250);
    assert!(info.last_error() > info.steps_per_thread());
}

#[test]
fn a_cut_follows_the_spindle_where_the_generator_can() {
    let mut m = Motion::new(1_000_000, false);
    m.set_acceleration(1200 << 8).unwrap();
    // Outside of a cut every speed of the spindle passes.
    assert!(m.can_follow(0));
    assert!(m.can_follow(u32::MAX));
    m.thread_start(200_000, 1000, 0, 600 << 8).unwrap();
    assert!(m.armed());
    assert!(m.can_follow(0));
    let first = m.spindle_sync(600 << 8);
    let mut over = first.last;
    let mut rounds = 0;
    while !over {
        over = m.interrupt(true, true).last;
        rounds += 1;
        assert!(rounds < 100_000);
    }
    let _ = m.interrupt(true, false);
    assert_eq!(m.state(), State::Running { dir: Direction::Right, is_cutting_thread: true });
    // A spindle at rest cannot be followed, nor one beyond the generator's
    // range; the one that the cut was set up for can.
    assert!(!m.can_follow(0));
    assert!(!m.can_follow(60_000 << 8));
    assert!(m.can_follow(600 << 8));
    assert!(m.can_follow(590 << 8));
    // The ramp takes some 42 000 steps; then the cut cruises at 10 000
    // steps a second.
    let mut cruise = 0;
    for _ in 0..60_000 {
        cruise = m.interrupt(true, true).preload.unwrap();
    }
    assert_eq!(cruise, 100);
    // A slower spindle slows the cut down: 8 333 steps a second.
    let _ = m.spindle_sync(500 << 8);
    assert_eq!(m.state(), State::Running { dir: Direction::Right, is_cutting_thread: true });
    let after = m.interrupt(true, true).preload.unwrap();
    assert!(after >= 100 && after < 120, "{}", after);
    for _ in 0..20_000 {
        cruise = m.interrupt(true, true).preload.unwrap();
    }
    assert_eq!(cruise, 120);
    // And a faster one speeds it up again.
    let _ = m.spindle_sync(600 << 8);
    for _ in 0..20_000 {
        cruise = m.interrupt(true, true).preload.unwrap();
    }
    assert_eq!(cruise, 100);
}

#[test]
fn the_stepper_knows_that_a_cut_stays_in_range() {
    let mut m = Motion::new(1_000_000, false);
    m.set_acceleration(1200 << 8).unwrap();
    m.thread_start(400_000, 1000, 0, 600 << 8).unwrap();
    assert!(m.in_range());
    let first = m.spindle_sync(600 << 8);
    let mut over = first.last;
    while !over {
        assert!(m.in_range());
        over = m.interrupt(true, true).last;
    }
    assert!(m.in_range());
    let _ = m.interrupt(true, false);
    assert_eq!(m.state(), State::Running { dir: Direction::Right, is_cutting_thread: true });
    // The spindle's speed wavers from turn to turn.
    let mut turn = 0u32;
    while matches!(m.state(), State::Running { .. }) {
        for _ in 0..1000 {
            assert!(m.in_range(), "turn {}: {:?} {:?}", turn, m.watch(), m.state());
            let _ = m.interrupt(true, true);
        }
        turn += 1;
        let rpm = (600 << 8) + (turn * 7919) % 3000 - 1500;
        assert!(m.can_follow(rpm));
        let _ = m.spindle_sync(rpm);
    }
    assert!(turn > 300);
    while m.state() != State::Stopped {
        assert!(m.in_range());
        let running = !matches!(m.state(), State::Stopping(_));
        let _ = m.interrupt(true, running);
    }
    assert_eq!(m.position(), 400_000);
}
