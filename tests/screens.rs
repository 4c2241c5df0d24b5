use reflow_oven::profile::{CurvePoint, Profile, Profiles};
use reflow_oven::ui::{
    cancel_heat_menu, edit_exit_menu, edit_profile_menu, edit_profile_name_menu,
    edit_profile_point_edit_disabled_menu, edit_profile_point_edit_select_menu,
    edit_profile_point_edit_temp_menu, edit_profile_point_edit_time_menu,
    edit_profile_points_select_menu, edit_save_exit_menu, heat_menu, heating_menu, main_menu,
    name_character, push_decimal, select_edit_profile_menu, start_heat_confirm_menu, Screen,
};

fn text(v: &[char]) -> String {
    v.iter().collect()
}

fn header(s: &Screen) -> String {
    text(s.header.as_ref().unwrap())
}

fn named(name: &[u8; 6]) -> Profile {
    let mut p = Profile::blank();
    p.name = *name;
    p
}

#[test]
fn decimal_digits() {
    for (n, s) in [(0u64, "0"), (7, "7"), (10, "10"), (65535, "65535"), (u64::MAX, "18446744073709551615")] {
        let mut v = vec!['x'];
        push_decimal(&mut v, n);
        assert_eq!(text(&v), format!("x{}", s));
    }
}

#[test]
fn name_alphabet() {
    assert_eq!(name_character(0), Some(b'a'));
    assert_eq!(name_character(25), Some(b'z'));
    assert_eq!(name_character(26), Some(b'1'));
    assert_eq!(name_character(34), Some(b'9'));
    assert_eq!(name_character(35), Some(b'0'));
    assert_eq!(name_character(36), None);
}

#[test]
fn main_menu_screen() {
    let s = main_menu(231, 1, false);
    assert_eq!(header(&s), "TEMP: 231");
    assert_eq!(text(&s.line), "0: HEAT *1:EDIT ");
    assert!(!s.in_range);
    let s = main_menu(231, 0, true);
    assert!(s.header.is_none());
    assert_eq!(text(&s.line), "*0: HEAT 1:EDIT ");
    assert!(!s.in_range);
    assert_eq!(text(&main_menu(0, 2, true).line), "1:EDIT *2:CONFIG");
    assert!(!main_menu(0, 2, true).in_range);
    assert_eq!(text(&main_menu(0, 3, true).line), "");
}

#[test]
fn slot_screens() {
    let mut store = Profiles::empty();
    store.store(3, named(b"lead  "));
    let s = heat_menu(3, &store, false);
    assert_eq!(header(&s), "CHOOSE PROF:");
    assert_eq!(text(&s.line), "*3: lead  ");
    assert!(s.in_range);
    let s = heat_menu(4, &store, true);
    assert_eq!(text(&s.line), "* GO BACK.");
    assert!(!s.in_range);
    assert_eq!(text(&heat_menu(200, &store, true).line), "* GO BACK.");
    let s = select_edit_profile_menu(3, &store, false);
    assert_eq!(header(&s), "EDIT PROF:");
    assert_eq!(text(&s.line), "*3: lead  ");
    assert_eq!(text(&select_edit_profile_menu(12, &store, true).line), "* <EMPTY SLOT>");
    let s = select_edit_profile_menu(16, &store, true);
    assert_eq!(text(&s.line), "*GO BACK.");
    assert!(!s.in_range);
}

#[test]
fn confirm_screens() {
    let p = named(b"solder");
    let s = start_heat_confirm_menu(1, &p, false);
    assert_eq!(header(&s), "PROFILE solder:");
    assert_eq!(text(&s.line), "SURE?: NO | * YES");
    assert_eq!(text(&start_heat_confirm_menu(0, &p, true).line), "SURE?: * NO | YES");
    let s = cancel_heat_menu(0, 42, false);
    assert_eq!(header(&s), "CANCEL?");
    assert_eq!(text(&s.line), "SURE?: * NO | YES");
    let s = edit_exit_menu(1, false);
    assert_eq!(header(&s), "EXIT?");
    assert_eq!(text(&s.line), "SURE?: NO | * YES");
    assert_eq!(header(&edit_save_exit_menu(1, false)), "SAVE & EXIT?");
    let s = edit_save_exit_menu(2, true);
    assert!(!s.in_range);
    assert_eq!(text(&s.line), "");
}

#[test]
fn running_screen() {
    let s = heating_menu(0, 118, &named(b"cure  "), 95, false);
    assert_eq!(header(&s), "RUN: cure  ");
    assert_eq!(text(&s.line), "118C, 95LEFT");
    assert!(!s.in_range);
}

#[test]
fn editor_screens() {
    let p = named(b"abc   ");
    assert_eq!(header(&edit_profile_menu(2, &p, false)), "EDIT abc   :");
    assert_eq!(text(&edit_profile_menu(0, &p, true).line), "*0:NAME 1:TEMP");
    assert_eq!(text(&edit_profile_menu(2, &p, true).line), "*2:SAVE 3:EXIT");
    let s = edit_profile_menu(4, &p, true);
    assert!(!s.in_range);
    assert_eq!(text(&s.line), "");
    let s = edit_profile_name_menu(25, &p.name, 3, false);
    assert_eq!(header(&s), "NAME EDIT abc   :");
    assert_eq!(text(&s.line), "abcz  ");
    let s = edit_profile_name_menu(40, &p.name, 3, true);
    assert!(!s.in_range);
    assert_eq!(text(&s.line), "");
}

#[test]
fn point_screens() {
    let mut pts = Profile::blank().points;
    pts[2] = CurvePoint { temp: 150, time_seconds: 90, disabled: false };
    let s = edit_profile_points_select_menu(2, &pts, false);
    assert_eq!(header(&s), "POINT SELECT");
    assert_eq!(text(&s.line), "*2: 150 90 false");
    assert_eq!(text(&edit_profile_points_select_menu(0, &pts, true).line), "*0: 0 0 true");
    assert_eq!(text(&edit_profile_points_select_menu(6, &pts, true).line), "*RETURN");
    let s = edit_profile_points_select_menu(7, &pts, true);
    assert!(!s.in_range);
    assert_eq!(text(&s.line), "");
    let pt = CurvePoint { temp: 180, time_seconds: 45, disabled: true };
    let s = edit_profile_point_edit_select_menu(0, &pt, 3, false);
    assert_eq!(header(&s), "POINT 3");
    assert_eq!(text(&s.line), "*01: TEMP 180");
    assert_eq!(text(&edit_profile_point_edit_select_menu(1, &pt, 3, true).line), "*02: TIME 45");
    assert_eq!(text(&edit_profile_point_edit_select_menu(2, &pt, 3, true).line), "*03: DISABLED true");
    assert_eq!(text(&edit_profile_point_edit_select_menu(3, &pt, 3, true).line), "*04: GO BACK");
    assert!(!edit_profile_point_edit_select_menu(4, &pt, 3, true).in_range);
}

#[test]
fn value_screens() {
    let pt = CurvePoint { temp: 150, time_seconds: 30, disabled: false };
    let s = edit_profile_point_edit_temp_menu(200, &pt, 1, false);
    assert_eq!(header(&s), "PT-1, TEMP 150");
    assert_eq!(text(&s.line), "200 DEG CEL");
    assert!(s.in_range);
    let s = edit_profile_point_edit_time_menu(90, &pt, 2, false);
    assert_eq!(header(&s), "PT-2, TIME 30");
    assert_eq!(text(&s.line), "90 SECONDS");
    let s = edit_profile_point_edit_disabled_menu(5, &pt, 0, true, false);
    assert_eq!(header(&s), "PT-0, DISABLED false");
    assert_eq!(text(&s.line), "DISABLED: true");
}

#[test]
fn value_screens_reject_top_position() {
    let pt = CurvePoint { temp: 150, time_seconds: 30, disabled: false };
    for s in [
        edit_profile_point_edit_temp_menu(255, &pt, 1, true),
        edit_profile_point_edit_time_menu(255, &pt, 1, true),
        edit_profile_point_edit_disabled_menu(255, &pt, 1, false, true),
    ] {
        assert!(!s.in_range);
        assert!(s.line.is_empty());
    }
}
