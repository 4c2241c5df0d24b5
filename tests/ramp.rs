use reflow_oven::profile::{CurvePoint, Profile, Profiles};
use reflow_oven::ramp::{interpolate, RampController, RampState, TICKS_PER_SECOND};

fn pt(temp: u16, time_seconds: u16) -> CurvePoint {
    CurvePoint { temp, time_seconds, disabled: false }
}

fn store_with(slot: u8, p: Profile) -> Profiles {
    let mut s = Profiles::empty();
    s.store(slot, p);
    s
}

fn two_point_profile() -> Profile {
    let mut p = Profile::blank();
    p.points[0] = pt(20, 0);
    p.points[1] = pt(220, 60);
    p
}

#[test]
fn interpolates_midway() {
    assert_eq!(interpolate(pt(20, 0), pt(220, 60), 30), 120);
    assert_eq!(interpolate(pt(20, 0), pt(220, 60), 0), 20);
    assert_eq!(interpolate(pt(20, 0), pt(220, 60), 60), 220);
}

#[test]
fn interpolates_falling_ramp() {
    assert_eq!(interpolate(pt(200, 10), pt(100, 30), 20), 150);
    assert_eq!(interpolate(pt(200, 10), pt(100, 30), 15), 175);
}

#[test]
fn zero_time_delta_holds_end_temperature() {
    assert_eq!(interpolate(pt(50, 40), pt(90, 40), 40), 90);
    assert_eq!(interpolate(pt(50, 40), pt(90, 40), 10), 90);
}

#[test]
fn before_first_point_holds_its_temperature() {
    assert_eq!(interpolate(pt(80, 10), pt(180, 20), 4), 80);
}

#[test]
fn bang_bang_at_thirty_seconds() {
    let store = store_with(3, two_point_profile());
    let now = 30 * TICKS_PER_SECOND;
    for (measured, heater) in [(0u16, true), (119, true), (120, false), (121, false), (400, false)] {
        let mut c = RampController::new();
        c.start(3, 0);
        let cmd = c.evaluate(&store, now, measured);
        assert_eq!(cmd.target, 120);
        assert_eq!(cmd.heater_on, heater);
        assert!(cmd.fan_on);
        assert!(!cmd.completed);
        assert_eq!(c.elapsed, 30);
        assert_eq!(c.remaining, 30);
    }
}

#[test]
fn single_point_at_zero_ends_at_once() {
    let mut p = Profile::blank();
    p.points[2] = pt(150, 0);
    let store = store_with(0, p);
    let mut c = RampController::new();
    c.start(0, 1000);
    let cmd = c.evaluate(&store, 1000, 20);
    assert!(cmd.completed);
    assert!(!cmd.heater_on);
    assert_eq!(c.state, RampState::Idle);
    assert_eq!(c.remaining, 0);
    assert_eq!(c.elapsed, 0);
}

#[test]
fn run_ends_when_last_point_reached() {
    let store = store_with(1, two_point_profile());
    let mut c = RampController::new();
    c.start(1, 10);
    let cmd = c.evaluate(&store, 10 + 59 * TICKS_PER_SECOND, 20);
    assert!(!cmd.completed);
    assert_eq!(cmd.target, 216);
    let cmd = c.evaluate(&store, 10 + 60 * TICKS_PER_SECOND, 20);
    assert!(cmd.completed);
    assert_eq!(c.state, RampState::Idle);
}

#[test]
fn skips_disabled_points_and_advances_segments() {
    let mut p = Profile::blank();
    p.points[0] = pt(20, 0);
    p.points[2] = pt(120, 10);
    p.points[4] = pt(120, 30);
    let store = store_with(5, p);
    let mut c = RampController::new();
    c.start(5, 0);
    let cmd = c.evaluate(&store, 5 * TICKS_PER_SECOND, 0);
    assert_eq!(cmd.target, 70);
    let cmd = c.evaluate(&store, 20 * TICKS_PER_SECOND, 0);
    assert_eq!(cmd.target, 120);
    assert_eq!(c.state, RampState::Running { profile_idx: 5, start_tick: 0, point: 2 });
    assert_eq!(c.remaining, 10);
}

#[test]
fn missing_profile_stops_run() {
    let store = Profiles::empty();
    let mut c = RampController::new();
    c.start(7, 0);
    let cmd = c.evaluate(&store, 4, 20);
    assert!(!cmd.heater_on);
    assert!(!cmd.fan_on);
    assert_eq!(c.state, RampState::Idle);
}

#[test]
fn idle_controller_commands_nothing() {
    let store = store_with(0, two_point_profile());
    let mut c = RampController::new();
    let cmd = c.evaluate(&store, 100, 0);
    assert!(!cmd.heater_on && !cmd.fan_on && !cmd.completed);
    assert_eq!(c.state, RampState::Idle);
}

#[test]
fn stop_clears_counters() {
    let store = store_with(0, two_point_profile());
    let mut c = RampController::new();
    c.start(0, 0);
    c.evaluate(&store, 20, 0);
    assert_eq!(c.remaining, 50);
    c.stop();
    assert_eq!(c.state, RampState::Idle);
    assert_eq!(c.remaining, 0);
    assert_eq!(c.elapsed, 0);
}
