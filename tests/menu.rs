use reflow_oven::menu::{
    Buttons, Direction, Menu, OvenRunSubMenus, ProfileEditSubMenus, UiState,
};
use reflow_oven::oven::{Inputs, Oven, DISPLAY_EVERY};
use reflow_oven::profile::{CurvePoint, Profile, Profiles};
use reflow_oven::ramp::{RampController, RampState};

const CONFIRM: Buttons = Buttons { confirm: true, secondary: false };
const SECONDARY: Buttons = Buttons { confirm: false, secondary: true };
const NONE: Buttons = Buttons { confirm: false, secondary: false };

fn at(state: UiState, counter: u8) -> Menu {
    let mut m = Menu::new();
    m.state = state;
    m.counter = counter;
    m.dirty = false;
    m
}

fn dial(m: &mut Menu, to: u8) {
    while m.counter < to {
        m.rotate(Direction::Clockwise);
    }
    while m.counter > to {
        m.rotate(Direction::CounterClockwise);
    }
}

#[test]
fn main_menu_confirm_one_enters_profile_select() {
    let mut store = Profiles::empty();
    let mut ramp = RampController::new();
    let mut m = at(UiState::MainMenu, 1);
    let persist = m.step(CONFIRM, &mut store, &mut ramp, 0);
    assert!(!persist);
    assert_eq!(m.state, UiState::ProfileEdit(ProfileEditSubMenus::ProfileSelect));
    assert_eq!(m.counter, 0);
    assert!(m.dirty);
}

#[test]
fn profile_select_out_of_range_goes_back() {
    let mut store = Profiles::empty();
    let mut ramp = RampController::new();
    let mut m = at(UiState::ProfileEdit(ProfileEditSubMenus::ProfileSelect), 16);
    m.step(CONFIRM, &mut store, &mut ramp, 0);
    assert_eq!(m.state, UiState::MainMenu);
    assert_eq!(m.counter, 0);
}

#[test]
fn main_menu_confirm_zero_enters_run_select() {
    let mut store = Profiles::empty();
    let mut ramp = RampController::new();
    let mut m = at(UiState::MainMenu, 0);
    m.step(CONFIRM, &mut store, &mut ramp, 0);
    assert_eq!(m.state, UiState::OvenRun(OvenRunSubMenus::OvenProfileSelect));
}

#[test]
fn main_menu_invalid_choice_resets_position() {
    let mut store = Profiles::empty();
    let mut ramp = RampController::new();
    let mut m = at(UiState::MainMenu, 2);
    m.step(CONFIRM, &mut store, &mut ramp, 0);
    assert_eq!(m.state, UiState::MainMenu);
    assert_eq!(m.counter, 0);
    let mut m = at(UiState::MainMenu, 1);
    m.step(NONE, &mut store, &mut ramp, 0);
    assert_eq!(m.state, UiState::MainMenu);
    assert_eq!(m.counter, 1);
}

#[test]
fn rotary_position_saturates() {
    let mut m = Menu::new();
    m.rotate(Direction::CounterClockwise);
    assert_eq!(m.counter, 0);
    assert!(!m.candidate_disabled);
    m.counter = 255;
    m.rotate(Direction::Clockwise);
    assert_eq!(m.counter, 255);
    assert!(m.candidate_disabled);
}

fn edit_session() -> (Menu, Profiles, RampController) {
    let mut store = Profiles::empty();
    let mut ramp = RampController::new();
    let mut m = at(UiState::ProfileEdit(ProfileEditSubMenus::ProfileSelect), 4);
    m.step(CONFIRM, &mut store, &mut ramp, 0);
    assert_eq!(m.state, UiState::ProfileEdit(ProfileEditSubMenus::ProfileElementSelect));
    assert_eq!(m.edit_slot, 4);
    assert_eq!(m.scratch, Profile::blank());
    (m, store, ramp)
}

#[test]
fn edit_point_fields() {
    let (mut m, mut store, mut ramp) = edit_session();
    dial(&mut m, 1);
    m.step(CONFIRM, &mut store, &mut ramp, 0);
    assert_eq!(m.state, UiState::ProfileEdit(ProfileEditSubMenus::ProfilePointSelect));
    dial(&mut m, 2);
    m.step(CONFIRM, &mut store, &mut ramp, 0);
    assert_eq!(m.state, UiState::ProfileEdit(ProfileEditSubMenus::ProfilePointSelectElementEdit));
    assert_eq!(m.point_idx, 2);
    // temperature
    m.step(CONFIRM, &mut store, &mut ramp, 0);
    assert_eq!(m.state, UiState::ProfileEdit(ProfileEditSubMenus::ProfilePointTempEdit));
    dial(&mut m, 180);
    m.step(CONFIRM, &mut store, &mut ramp, 0);
    assert_eq!(m.scratch.points[2].temp, 180);
    assert_eq!(m.state, UiState::ProfileEdit(ProfileEditSubMenus::ProfilePointSelectElementEdit));
    // time
    dial(&mut m, 1);
    m.step(CONFIRM, &mut store, &mut ramp, 0);
    dial(&mut m, 90);
    m.step(CONFIRM, &mut store, &mut ramp, 0);
    assert_eq!(m.scratch.points[2].time_seconds, 90);
    // disabled flag follows the last direction turned
    dial(&mut m, 2);
    m.step(CONFIRM, &mut store, &mut ramp, 0);
    assert_eq!(m.state, UiState::ProfileEdit(ProfileEditSubMenus::ProfilePointDisabledEdit));
    assert!(m.candidate_disabled);
    m.rotate(Direction::CounterClockwise);
    m.step(CONFIRM, &mut store, &mut ramp, 0);
    assert_eq!(
        m.scratch.points[2],
        CurvePoint { temp: 180, time_seconds: 90, disabled: false }
    );
    assert_eq!(m.scratch.points[1], Profile::blank().points[1]);
    // back, then return
    dial(&mut m, 3);
    m.step(CONFIRM, &mut store, &mut ramp, 0);
    assert_eq!(m.state, UiState::ProfileEdit(ProfileEditSubMenus::ProfilePointSelect));
    dial(&mut m, 7);
    m.step(CONFIRM, &mut store, &mut ramp, 0);
    assert_eq!(m.state, UiState::ProfileEdit(ProfileEditSubMenus::ProfilePointSelect));
    assert_eq!(m.counter, 0);
    dial(&mut m, 6);
    m.step(CONFIRM, &mut store, &mut ramp, 0);
    assert_eq!(m.state, UiState::ProfileEdit(ProfileEditSubMenus::ProfileElementSelect));
}

#[test]
fn edit_name_commits_characters_and_wraps() {
    let (mut m, mut store, mut ramp) = edit_session();
    m.step(CONFIRM, &mut store, &mut ramp, 0);
    assert_eq!(m.state, UiState::ProfileEdit(ProfileEditSubMenus::ProfileNameEdit));
    for c in [7u8, 4, 0, 19, 35, 26, 1] {
        dial(&mut m, c);
        m.step(SECONDARY, &mut store, &mut ramp, 0);
        assert_eq!(m.counter, 0);
    }
    assert_eq!(&m.scratch.name, b"beat01");
    assert_eq!(m.name_cursor, 1);
    dial(&mut m, 36);
    m.step(SECONDARY, &mut store, &mut ramp, 0);
    assert_eq!(&m.scratch.name, b"beat01");
    m.step(CONFIRM, &mut store, &mut ramp, 0);
    assert_eq!(m.state, UiState::ProfileEdit(ProfileEditSubMenus::ProfileElementSelect));
    assert_eq!(m.name_cursor, 0);
}

#[test]
fn save_writes_slot_and_clears_scratch() {
    let (mut m, mut store, mut ramp) = edit_session();
    m.scratch.name = *b"reflow";
    m.scratch.points[0] = CurvePoint { temp: 25, time_seconds: 0, disabled: false };
    let edited = m.scratch;
    m.state = UiState::ProfileEdit(ProfileEditSubMenus::ProfileWriteConfirmMenu);
    m.counter = 1;
    let persist = m.step(CONFIRM, &mut store, &mut ramp, 0);
    assert!(persist);
    assert_eq!(store.profiles[4], Some(edited));
    assert_eq!(store.num_profiles, 1);
    assert_eq!(m.scratch, Profile::blank());
    assert_eq!(m.state, UiState::ProfileEdit(ProfileEditSubMenus::ProfileSelect));
}

#[test]
fn save_declined_keeps_store() {
    let (mut m, mut store, mut ramp) = edit_session();
    m.scratch.name = *b"reflow";
    m.state = UiState::ProfileEdit(ProfileEditSubMenus::ProfileWriteConfirmMenu);
    m.counter = 0;
    let persist = m.step(CONFIRM, &mut store, &mut ramp, 0);
    assert!(!persist);
    assert_eq!(store.num_profiles, 0);
    assert_eq!(&m.scratch.name, b"reflow");
    assert_eq!(m.state, UiState::ProfileEdit(ProfileEditSubMenus::ProfileElementSelect));
}

#[test]
fn exit_discards_edits() {
    let (mut m, mut store, mut ramp) = edit_session();
    m.scratch.name = *b"zzzzzz";
    m.state = UiState::ProfileEdit(ProfileEditSubMenus::ProfileExitConfirmMenu);
    m.counter = 0;
    m.step(CONFIRM, &mut store, &mut ramp, 0);
    assert_eq!(m.scratch, Profile::blank());
    assert_eq!(m.state, UiState::ProfileEdit(ProfileEditSubMenus::ProfileElementSelect));
    m.scratch.name = *b"zzzzzz";
    m.state = UiState::ProfileEdit(ProfileEditSubMenus::ProfileExitConfirmMenu);
    m.counter = 5;
    m.step(CONFIRM, &mut store, &mut ramp, 0);
    assert_eq!(m.state, UiState::ProfileEdit(ProfileEditSubMenus::ProfileExitConfirmMenu));
    assert_eq!(m.counter, 0);
    m.counter = 1;
    m.step(CONFIRM, &mut store, &mut ramp, 0);
    assert_eq!(m.scratch, Profile::blank());
    assert_eq!(m.state, UiState::ProfileEdit(ProfileEditSubMenus::ProfileSelect));
    assert_eq!(store.num_profiles, 0);
}

fn store_with_run_profile() -> Profiles {
    let mut p = Profile::blank();
    p.points[0] = CurvePoint { temp: 20, time_seconds: 0, disabled: false };
    p.points[1] = CurvePoint { temp: 220, time_seconds: 60, disabled: false };
    let mut s = Profiles::empty();
    s.store(2, p);
    s
}

#[test]
fn run_select_empty_slot_returns_to_main() {
    let mut store = store_with_run_profile();
    let mut ramp = RampController::new();
    let mut m = at(UiState::OvenRun(OvenRunSubMenus::OvenProfileSelect), 3);
    m.step(CONFIRM, &mut store, &mut ramp, 0);
    assert_eq!(m.state, UiState::MainMenu);
    let mut m = at(UiState::OvenRun(OvenRunSubMenus::OvenProfileSelect), 40);
    m.step(CONFIRM, &mut store, &mut ramp, 0);
    assert_eq!(m.state, UiState::MainMenu);
}

#[test]
fn run_start_and_cancel() {
    let mut store = store_with_run_profile();
    let mut ramp = RampController::new();
    let mut m = at(UiState::OvenRun(OvenRunSubMenus::OvenProfileSelect), 2);
    m.step(CONFIRM, &mut store, &mut ramp, 0);
    assert_eq!(m.state, UiState::OvenRun(OvenRunSubMenus::OvenProfileRunConfirm));
    assert_eq!(m.run_slot, 2);
    dial(&mut m, 1);
    m.step(CONFIRM, &mut store, &mut ramp, 500);
    assert_eq!(m.state, UiState::OvenRun(OvenRunSubMenus::OvenProfileRunningMenu));
    assert_eq!(ramp.state, RampState::Running { profile_idx: 2, start_tick: 500, point: 0 });
    ramp.evaluate(&store, 540, 30);
    assert_eq!(ramp.remaining, 40);
    m.step(CONFIRM, &mut store, &mut ramp, 540);
    assert_eq!(m.state, UiState::OvenRun(OvenRunSubMenus::OvenProfileCancelRunningMenu));
    assert!(matches!(ramp.state, RampState::Running { .. }));
    m.step(CONFIRM, &mut store, &mut ramp, 540);
    assert_eq!(m.state, UiState::OvenRun(OvenRunSubMenus::OvenProfileRunningMenu));
    m.step(CONFIRM, &mut store, &mut ramp, 540);
    dial(&mut m, 1);
    m.step(CONFIRM, &mut store, &mut ramp, 550);
    assert_eq!(m.state, UiState::MainMenu);
    assert_eq!(ramp.state, RampState::Idle);
    assert_eq!(ramp.remaining, 0);
    assert_eq!(ramp.elapsed, 0);
}

#[test]
fn oven_tick_drives_heater_and_display() {
    let store = store_with_run_profile();
    let mut oven = Oven::new(store);
    let quiet = |now: u64, temp: u16| Inputs { confirm: false, secondary: false, rotation: None, now, temp };
    let out = oven.tick(quiet(0, 20));
    let screen = out.screen.unwrap();
    let header: String = screen.header.unwrap().iter().collect();
    assert_eq!(header, "TEMP: 20");
    assert!(!out.heater_on && !out.fan_on);
    for i in 1..DISPLAY_EVERY {
        assert!(oven.tick(quiet(i, 20)).screen.is_none());
    }
    let out = oven.tick(quiet(DISPLAY_EVERY, 20));
    assert!(out.screen.unwrap().header.is_none());
    // start a run on slot 2
    oven.menu.state = UiState::OvenRun(OvenRunSubMenus::OvenProfileRunConfirm);
    oven.menu.run_slot = 2;
    oven.menu.counter = 1;
    oven.phase = 0;
    let press = Inputs { confirm: true, secondary: false, rotation: None, now: 0, temp: 20 };
    oven.tick(press);
    assert!(matches!(oven.ramp.state, RampState::Running { .. }));
    let out = oven.tick(quiet(60, 100));
    assert!(out.heater_on && out.fan_on);
    let out = oven.tick(quiet(60, 130));
    assert!(!out.heater_on && out.fan_on);
    let out = oven.tick(quiet(120, 100));
    assert!(!out.heater_on && !out.fan_on);
    assert_eq!(oven.menu.state, UiState::MainMenu);
}
