//! The hierarchical menu: rotary position and buttons in, navigation,
//! profile edits, store writes and run start/stop out.
use vstd::prelude::*;
use vstd::array::spec_array_update;
use crate::profile::{blank_profile, saved, CurvePoint, Profile, Profiles, NAME_LEN, POINT_COUNT, SLOT_COUNT};
use crate::ramp::{idle_controller, start_spec, RampController};
use crate::ui::{
    alphabet_char, cancel_heat_menu, edit_exit_menu, edit_profile_menu, edit_profile_name_menu,
    edit_profile_point_edit_disabled_menu, edit_profile_point_edit_select_menu,
    edit_profile_point_edit_temp_menu, edit_profile_point_edit_time_menu,
    edit_profile_points_select_menu, edit_save_exit_menu, heat_menu, heating_menu, main_menu,
    name_character, select_edit_profile_menu, start_heat_confirm_menu, Screen, ScreenView,
    ALPHABET_LEN, cancel_heat_menu_view, edit_exit_menu_view, edit_profile_menu_view,
    edit_profile_name_menu_view, edit_profile_point_edit_disabled_menu_view,
    edit_profile_point_edit_select_menu_view, edit_profile_point_edit_temp_menu_view,
    edit_profile_point_edit_time_menu_view, edit_profile_points_select_menu_view,
    edit_save_exit_menu_view, heat_menu_view, heating_menu_view, main_menu_view,
    select_edit_profile_menu_view, start_heat_confirm_menu_view,
};

verus! {

/// One detent of the rotary encoder.
#[derive(Clone, Copy, Debug, PartialEq, Eq, Structural)]
pub enum Direction {
    Clockwise,
    CounterClockwise,
}

/// Screens of the profile editor.
#[derive(Clone, Copy, Debug, PartialEq, Eq, Structural)]
pub enum ProfileEditSubMenus {
    ProfileSelect,
    ProfileElementSelect,
    ProfileNameEdit,
    ProfilePointSelect,
    ProfilePointSelectElementEdit,
    ProfilePointTempEdit,
    ProfilePointTimeEdit,
    ProfilePointDisabledEdit,
    ProfileExitConfirmMenu,
    ProfileWriteConfirmMenu,
}

/// Screens of a run.
#[derive(Clone, Copy, Debug, PartialEq, Eq, Structural)]
pub enum OvenRunSubMenus {
    OvenProfileSelect,
    OvenProfileRunConfirm,
    OvenProfileRunningMenu,
    OvenProfileCancelRunningMenu,
}

/// The top-level mode and the screen within it.
#[derive(Clone, Copy, Debug, PartialEq, Eq, Structural)]
pub enum UiState {
    MainMenu,
    ProfileEdit(ProfileEditSubMenus),
    OvenRun(OvenRunSubMenus),
}

/// The two buttons as sampled this tick.
#[derive(Clone, Copy, Debug, PartialEq, Eq, Structural)]
pub struct Buttons {
    pub confirm: bool,
    pub secondary: bool,
}

/// Navigation state, the scratch copy under edit, and the indices the
/// screens work on.
#[derive(Clone, Copy, Debug, PartialEq, Eq)]
pub struct Menu {
    pub state: UiState,
    pub counter: u8,
    pub dirty: bool,
    pub scratch: Profile,
    pub edit_slot: u8,
    pub point_idx: u8,
    pub name_cursor: u8,
    pub run_slot: u8,
    pub candidate_disabled: bool,
}

pub open spec fn initial_menu() -> Menu {
    Menu {
        state: UiState::MainMenu,
        counter: 0,
        dirty: true,
        scratch: blank_profile(),
        edit_slot: 0,
        point_idx: 0,
        name_cursor: 0,
        run_slot: 0,
        candidate_disabled: true,
    }
}

/// The menu after one detent: the position moves by one within `0..=255`,
/// and the direction sets the candidate disabled flag.
pub open spec fn rotated(m: Menu, d: Direction) -> Menu {
    match d {
        Direction::Clockwise => Menu {
            counter: if m.counter < 255 { (m.counter + 1) as u8 } else { 255 },
            candidate_disabled: true,
            ..m
        },
        Direction::CounterClockwise => Menu {
            counter: if m.counter > 0 { (m.counter - 1) as u8 } else { 0 },
            candidate_disabled: false,
            ..m
        },
    }
}

/// Entering a screen: position back to zero and a full redraw due.
pub open spec fn enter(m: Menu, s: UiState) -> Menu {
    Menu { state: s, counter: 0, dirty: true, ..m }
}

/// An invalid choice: position back to zero, no transition.
pub open spec fn reset_counter(m: Menu) -> Menu {
    Menu { counter: 0, ..m }
}

/// Leaving the editor's scratch copy behind.
pub open spec fn discard_scratch(m: Menu) -> Menu {
    Menu { scratch: blank_profile(), name_cursor: 0, point_idx: 0, ..m }
}

pub open spec fn slot_or_blank(store: Profiles, i: u8) -> Profile {
    if (i as int) < SLOT_COUNT && store.profiles[i as int] is Some {
        store.profiles[i as int]->Some_0
    } else {
        blank_profile()
    }
}

pub open spec fn with_point(p: Profile, i: u8, pt: CurvePoint) -> Profile {
    Profile { points: spec_array_update(p.points, i as int, pt), ..p }
}

pub open spec fn edit_state(s: ProfileEditSubMenus) -> UiState {
    UiState::ProfileEdit(s)
}

pub open spec fn run_state(s: OvenRunSubMenus) -> UiState {
    UiState::OvenRun(s)
}

pub open spec fn main_step(m: Menu, b: Buttons) -> Menu {
    if !b.confirm {
        m
    } else if m.counter == 0 {
        enter(m, run_state(OvenRunSubMenus::OvenProfileSelect))
    } else if m.counter == 1 {
        enter(m, edit_state(ProfileEditSubMenus::ProfileSelect))
    } else {
        reset_counter(m)
    }
}

/// The name editor: the secondary button commits the highlighted character
/// and moves the cursor on; confirm leaves.
pub open spec fn name_step(m: Menu, b: Buttons) -> Menu {
    let m1 = if !b.secondary {
        m
    } else if m.counter < ALPHABET_LEN {
        Menu {
            scratch: Profile {
                name: spec_array_update(
                    m.scratch.name,
                    m.name_cursor as int,
                    alphabet_char(m.counter as nat),
                ),
                ..m.scratch
            },
            name_cursor: ((m.name_cursor + 1) % (NAME_LEN as int)) as u8,
            counter: 0,
            ..m
        }
    } else {
        reset_counter(m)
    };
    if b.confirm {
        Menu { name_cursor: 0, ..enter(m1, edit_state(ProfileEditSubMenus::ProfileElementSelect)) }
    } else {
        m1
    }
}

/// One step of the profile editor: the menu, the store, and whether the
/// store must be written out.
pub open spec fn edit_step(m: Menu, sub: ProfileEditSubMenus, store: Profiles, b: Buttons) -> (
    Menu,
    Profiles,
    bool,
) {
    let pt = m.scratch.points[m.point_idx as int];
    match sub {
        ProfileEditSubMenus::ProfileNameEdit => (name_step(m, b), store, false),
        _ => if !b.confirm {
            (m, store, false)
        } else {
            match sub {
                ProfileEditSubMenus::ProfileSelect => if (m.counter as int) >= SLOT_COUNT {
                    (discard_scratch(enter(m, UiState::MainMenu)), store, false)
                } else {
                    (
                        Menu {
                            edit_slot: m.counter,
                            scratch: slot_or_blank(store, m.counter),
                            ..enter(m, edit_state(ProfileEditSubMenus::ProfileElementSelect))
                        },
                        store,
                        false,
                    )
                },
                ProfileEditSubMenus::ProfileElementSelect => (
                    if m.counter == 0 {
                        Menu { name_cursor: 0, ..enter(m, edit_state(ProfileEditSubMenus::ProfileNameEdit)) }
                    } else if m.counter == 1 {
                        enter(m, edit_state(ProfileEditSubMenus::ProfilePointSelect))
                    } else if m.counter == 2 {
                        enter(m, edit_state(ProfileEditSubMenus::ProfileWriteConfirmMenu))
                    } else if m.counter == 3 {
                        enter(m, edit_state(ProfileEditSubMenus::ProfileExitConfirmMenu))
                    } else {
                        reset_counter(m)
                    },
                    store,
                    false,
                ),
                ProfileEditSubMenus::ProfilePointSelect => (
                    if (m.counter as int) < POINT_COUNT {
                        Menu {
                            point_idx: m.counter,
                            ..enter(m, edit_state(ProfileEditSubMenus::ProfilePointSelectElementEdit))
                        }
                    } else if m.counter as int == POINT_COUNT {
                        Menu { point_idx: 0, ..enter(m, edit_state(ProfileEditSubMenus::ProfileElementSelect)) }
                    } else {
                        reset_counter(m)
                    },
                    store,
                    false,
                ),
                ProfileEditSubMenus::ProfilePointSelectElementEdit => (
                    if m.counter == 0 {
                        enter(m, edit_state(ProfileEditSubMenus::ProfilePointTempEdit))
                    } else if m.counter == 1 {
                        enter(m, edit_state(ProfileEditSubMenus::ProfilePointTimeEdit))
                    } else if m.counter == 2 {
                        Menu {
                            candidate_disabled: pt.disabled,
                            ..enter(m, edit_state(ProfileEditSubMenus::ProfilePointDisabledEdit))
                        }
                    } else if m.counter == 3 {
                        enter(m, edit_state(ProfileEditSubMenus::ProfilePointSelect))
                    } else {
                        reset_counter(m)
                    },
                    store,
                    false,
                ),
                ProfileEditSubMenus::ProfilePointTempEdit => (
                    Menu {
                        scratch: with_point(m.scratch, m.point_idx, CurvePoint { temp: m.counter as u16, ..pt }),
                        ..enter(m, edit_state(ProfileEditSubMenus::ProfilePointSelectElementEdit))
                    },
                    store,
                    false,
                ),
                ProfileEditSubMenus::ProfilePointTimeEdit => (
                    Menu {
                        scratch: with_point(
                            m.scratch,
                            m.point_idx,
                            CurvePoint { time_seconds: m.counter as u16, ..pt },
                        ),
                        ..enter(m, edit_state(ProfileEditSubMenus::ProfilePointSelectElementEdit))
                    },
                    store,
                    false,
                ),
                ProfileEditSubMenus::ProfilePointDisabledEdit => (
                    Menu {
                        scratch: with_point(
                            m.scratch,
                            m.point_idx,
                            CurvePoint { disabled: m.candidate_disabled, ..pt },
                        ),
                        ..enter(m, edit_state(ProfileEditSubMenus::ProfilePointSelectElementEdit))
                    },
                    store,
                    false,
                ),
                ProfileEditSubMenus::ProfileExitConfirmMenu => (
                    if m.counter == 0 {
                        Menu {
                            scratch: slot_or_blank(store, m.edit_slot),
                            ..enter(m, edit_state(ProfileEditSubMenus::ProfileElementSelect))
                        }
                    } else if m.counter == 1 {
                        discard_scratch(enter(m, edit_state(ProfileEditSubMenus::ProfileSelect)))
                    } else {
                        reset_counter(m)
                    },
                    store,
                    false,
                ),
                _ => if m.counter == 0 {
                    (enter(m, edit_state(ProfileEditSubMenus::ProfileElementSelect)), store, false)
                } else if m.counter == 1 {
                    (
                        discard_scratch(enter(m, edit_state(ProfileEditSubMenus::ProfileSelect))),
                        saved(store, m.edit_slot, m.scratch),
                        true,
                    )
                } else {
                    (reset_counter(m), store, false)
                },
            }
        },
    }
}

/// One step of the run screens: the menu and the ramp controller.
pub open spec fn run_step(
    m: Menu,
    sub: OvenRunSubMenus,
    store: Profiles,
    ramp: RampController,
    b: Buttons,
    now: u64,
) -> (Menu, RampController) {
    if !b.confirm {
        (m, ramp)
    } else {
        match sub {
            OvenRunSubMenus::OvenProfileSelect => if (m.counter as int) < SLOT_COUNT
                && store.profiles[m.counter as int] is Some {
                (Menu { run_slot: m.counter, ..enter(m, run_state(OvenRunSubMenus::OvenProfileRunConfirm)) }, ramp)
            } else {
                (Menu { run_slot: 0, ..enter(m, UiState::MainMenu) }, ramp)
            },
            OvenRunSubMenus::OvenProfileRunConfirm => if m.counter == 0 {
                (enter(m, run_state(OvenRunSubMenus::OvenProfileSelect)), ramp)
            } else if m.counter == 1 {
                (enter(m, run_state(OvenRunSubMenus::OvenProfileRunningMenu)), start_spec(m.run_slot, now))
            } else {
                (reset_counter(m), ramp)
            },
            OvenRunSubMenus::OvenProfileRunningMenu => (
                enter(m, run_state(OvenRunSubMenus::OvenProfileCancelRunningMenu)),
                ramp,
            ),
            OvenRunSubMenus::OvenProfileCancelRunningMenu => if m.counter == 0 {
                (enter(m, run_state(OvenRunSubMenus::OvenProfileRunningMenu)), ramp)
            } else if m.counter == 1 {
                (enter(m, UiState::MainMenu), idle_controller())
            } else {
                (reset_counter(m), ramp)
            },
        }
    }
}

/// One step of the whole menu: the menu, the store, the ramp controller, and
/// whether the store must be written out.
pub open spec fn step_spec(m: Menu, store: Profiles, ramp: RampController, b: Buttons, now: u64) -> (
    Menu,
    Profiles,
    RampController,
    bool,
) {
    match m.state {
        UiState::MainMenu => (main_step(m, b), store, ramp, false),
        UiState::ProfileEdit(sub) => {
            let r = edit_step(m, sub, store, b);
            (r.0, r.1, ramp, r.2)
        },
        UiState::OvenRun(sub) => {
            let r = run_step(m, sub, store, ramp, b, now);
            (r.0, store, r.1, false)
        },
    }
}

/// The screen shown for menu `m`, with `temp` degrees measured.
pub open spec fn screen_spec(m: Menu, store: Profiles, ramp: RampController, temp: u16) -> ScreenView {
    let cont = !m.dirty;
    let c = m.counter;
    let pt = m.scratch.points[m.point_idx as int];
    let prof = slot_or_blank(store, m.run_slot);
    match m.state {
        UiState::MainMenu => main_menu_view(temp, c, cont),
        UiState::ProfileEdit(sub) => match sub {
            ProfileEditSubMenus::ProfileSelect => select_edit_profile_menu_view(c, store, cont),
            ProfileEditSubMenus::ProfileElementSelect => edit_profile_menu_view(c, m.scratch, cont),
            ProfileEditSubMenus::ProfileNameEdit => edit_profile_name_menu_view(
                c,
                m.scratch.name,
                m.name_cursor,
                cont,
            ),
            ProfileEditSubMenus::ProfilePointSelect => edit_profile_points_select_menu_view(
                c,
                m.scratch.points,
                cont,
            ),
            ProfileEditSubMenus::ProfilePointSelectElementEdit => edit_profile_point_edit_select_menu_view(
                c,
                pt,
                m.point_idx,
                cont,
            ),
            ProfileEditSubMenus::ProfilePointTempEdit => edit_profile_point_edit_temp_menu_view(
                c,
                pt,
                m.point_idx,
                cont,
            ),
            ProfileEditSubMenus::ProfilePointTimeEdit => edit_profile_point_edit_time_menu_view(
                c,
                pt,
                m.point_idx,
                cont,
            ),
            ProfileEditSubMenus::ProfilePointDisabledEdit => edit_profile_point_edit_disabled_menu_view(
                c,
                pt,
                m.point_idx,
                m.candidate_disabled,
                cont,
            ),
            ProfileEditSubMenus::ProfileExitConfirmMenu => edit_exit_menu_view(c, cont),
            ProfileEditSubMenus::ProfileWriteConfirmMenu => edit_save_exit_menu_view(c, cont),
        },
        UiState::OvenRun(sub) => match sub {
            OvenRunSubMenus::OvenProfileSelect => heat_menu_view(c, store, cont),
            OvenRunSubMenus::OvenProfileRunConfirm => start_heat_confirm_menu_view(c, prof, cont),
            OvenRunSubMenus::OvenProfileRunningMenu => heating_menu_view(c, temp, prof, ramp.remaining, cont),
            OvenRunSubMenus::OvenProfileCancelRunningMenu => cancel_heat_menu_view(c, ramp.remaining, cont),
        },
    }
}

impl Menu {
    /// The indices always address a slot, a point and a name character.
    pub open spec fn wf(&self) -> bool {
        &&& (self.edit_slot as int) < SLOT_COUNT
        &&& (self.point_idx as int) < POINT_COUNT
        &&& (self.name_cursor as int) < NAME_LEN
        &&& (self.run_slot as int) < SLOT_COUNT
    }

    /// The menu at power-on: the main menu, due for a full draw.
    pub fn new() -> (r: Menu)
        ensures
            r == initial_menu(),
            r.wf(),
    {
        Menu {
            state: UiState::MainMenu,
            counter: 0,
            dirty: true,
            scratch: Profile::blank(),
            edit_slot: 0,
            point_idx: 0,
            name_cursor: 0,
            run_slot: 0,
            candidate_disabled: true,
        }
    }

    /// Applies one detent of the rotary encoder.
    pub fn rotate(&mut self, d: Direction)
        ensures
            *final(self) == rotated(*old(self), d),
    {
        match d {
            Direction::Clockwise => {
                if self.counter < 255 {
                    self.counter = self.counter + 1;
                }
                self.candidate_disabled = true;
            },
            Direction::CounterClockwise => {
                if self.counter > 0 {
                    self.counter = self.counter - 1;
                }
                self.candidate_disabled = false;
            },
        }
    }

    fn enter(&mut self, s: UiState)
        ensures
            *final(self) == enter(*old(self), s),
    {
        self.state = s;
        self.counter = 0;
        self.dirty = true;
    }

    fn discard_scratch(&mut self)
        ensures
            *final(self) == discard_scratch(*old(self)),
    {
        self.scratch = Profile::blank();
        self.name_cursor = 0;
        self.point_idx = 0;
    }

    fn load_scratch(&mut self, store: &Profiles, i: u8)
        ensures
            *final(self) == (Menu { scratch: slot_or_blank(*store, i), ..*old(self) }),
    {
        self.scratch = match store.get(i) {
            Some(p) => p,
            None => Profile::blank(),
        };
    }

    fn step_main(&mut self, b: Buttons)
        ensures
            *final(self) == main_step(*old(self), b),
    {
        if b.confirm {
            if self.counter == 0 {
                self.enter(UiState::OvenRun(OvenRunSubMenus::OvenProfileSelect));
            } else if self.counter == 1 {
                self.enter(UiState::ProfileEdit(ProfileEditSubMenus::ProfileSelect));
            } else {
                self.counter = 0;
            }
        }
    }

    fn step_name(&mut self, b: Buttons)
        requires
            old(self).wf(),
        ensures
            *final(self) == name_step(*old(self), b),
            final(self).wf(),
    {
        if b.secondary {
            match name_character(self.counter) {
                Some(c) => {
                    self.scratch.name[self.name_cursor as usize] = c;
                    self.name_cursor = (self.name_cursor + 1) % (NAME_LEN as u8);
                    self.counter = 0;
                },
                None => {
                    self.counter = 0;
                },
            }
        }
        if b.confirm {
            self.enter(UiState::ProfileEdit(ProfileEditSubMenus::ProfileElementSelect));
            self.name_cursor = 0;
        }
    }

    fn step_edit(&mut self, sub: ProfileEditSubMenus, store: &mut Profiles, b: Buttons) -> (persist: bool)
        requires
            old(self).wf(),
            old(store).wf(),
            old(self).state == UiState::ProfileEdit(sub),
        ensures
            (*final(self), *final(store), persist) == edit_step(*old(self), sub, *old(store), b),
            final(self).wf(),
            final(store).wf(),
    {
        if let ProfileEditSubMenus::ProfileNameEdit = sub {
            self.step_name(b);
            return false;
        }
        if !b.confirm {
            return false;
        }
        let pi = self.point_idx as usize;
        let pt = self.scratch.points[pi];
        match sub {
            ProfileEditSubMenus::ProfileSelect => {
                if self.counter as usize >= SLOT_COUNT {
                    self.enter(UiState::MainMenu);
                    self.discard_scratch();
                } else {
                    let slot = self.counter;
                    self.enter(UiState::ProfileEdit(ProfileEditSubMenus::ProfileElementSelect));
                    self.edit_slot = slot;
                    self.load_scratch(store, slot);
                }
            },
            ProfileEditSubMenus::ProfileElementSelect => {
                if self.counter == 0 {
                    self.enter(UiState::ProfileEdit(ProfileEditSubMenus::ProfileNameEdit));
                    self.name_cursor = 0;
                } else if self.counter == 1 {
                    self.enter(UiState::ProfileEdit(ProfileEditSubMenus::ProfilePointSelect));
                } else if self.counter == 2 {
                    self.enter(UiState::ProfileEdit(ProfileEditSubMenus::ProfileWriteConfirmMenu));
                } else if self.counter == 3 {
                    self.enter(UiState::ProfileEdit(ProfileEditSubMenus::ProfileExitConfirmMenu));
                } else {
                    self.counter = 0;
                }
            },
            ProfileEditSubMenus::ProfilePointSelect => {
                if (self.counter as usize) < POINT_COUNT {
                    let i = self.counter;
                    self.enter(UiState::ProfileEdit(ProfileEditSubMenus::ProfilePointSelectElementEdit));
                    self.point_idx = i;
                } else if self.counter as usize == POINT_COUNT {
                    self.enter(UiState::ProfileEdit(ProfileEditSubMenus::ProfileElementSelect));
                    self.point_idx = 0;
                } else {
                    self.counter = 0;
                }
            },
            ProfileEditSubMenus::ProfilePointSelectElementEdit => {
                if self.counter == 0 {
                    self.enter(UiState::ProfileEdit(ProfileEditSubMenus::ProfilePointTempEdit));
                } else if self.counter == 1 {
                    self.enter(UiState::ProfileEdit(ProfileEditSubMenus::ProfilePointTimeEdit));
                } else if self.counter == 2 {
                    self.enter(UiState::ProfileEdit(ProfileEditSubMenus::ProfilePointDisabledEdit));
                    self.candidate_disabled = pt.disabled;
                } else if self.counter == 3 {
                    self.enter(UiState::ProfileEdit(ProfileEditSubMenus::ProfilePointSelect));
                } else {
                    self.counter = 0;
                }
            },
            ProfileEditSubMenus::ProfilePointTempEdit => {
                let v = self.counter as u16;
                self.scratch.points[pi] = CurvePoint { temp: v, ..pt };
                self.enter(UiState::ProfileEdit(ProfileEditSubMenus::ProfilePointSelectElementEdit));
            },
            ProfileEditSubMenus::ProfilePointTimeEdit => {
                let v = self.counter as u16;
                self.scratch.points[pi] = CurvePoint { time_seconds: v, ..pt };
                self.enter(UiState::ProfileEdit(ProfileEditSubMenus::ProfilePointSelectElementEdit));
            },
            ProfileEditSubMenus::ProfilePointDisabledEdit => {
                let v = self.candidate_disabled;
                self.scratch.points[pi] = CurvePoint { disabled: v, ..pt };
                self.enter(UiState::ProfileEdit(ProfileEditSubMenus::ProfilePointSelectElementEdit));
            },
            ProfileEditSubMenus::ProfileExitConfirmMenu => {
                if self.counter == 0 {
                    let slot = self.edit_slot;
                    self.enter(UiState::ProfileEdit(ProfileEditSubMenus::ProfileElementSelect));
                    self.load_scratch(store, slot);
                } else if self.counter == 1 {
                    self.enter(UiState::ProfileEdit(ProfileEditSubMenus::ProfileSelect));
                    self.discard_scratch();
                } else {
                    self.counter = 0;
                }
            },
            _ => {
                if self.counter == 0 {
                    self.enter(UiState::ProfileEdit(ProfileEditSubMenus::ProfileElementSelect));
                } else if self.counter == 1 {
                    store.store(self.edit_slot, self.scratch);
                    self.enter(UiState::ProfileEdit(ProfileEditSubMenus::ProfileSelect));
                    self.discard_scratch();
                    return true;
                } else {
                    self.counter = 0;
                }
            },
        }
        false
    }

    fn step_run(&mut self, sub: OvenRunSubMenus, store: &Profiles, ramp: &mut RampController, b: Buttons, now: u64)
        requires
            old(self).wf(),
        ensures
            (*final(self), *final(ramp)) == run_step(*old(self), sub, *store, *old(ramp), b, now),
            final(self).wf(),
    {
        if !b.confirm {
            return;
        }
        match sub {
            OvenRunSubMenus::OvenProfileSelect => {
                if store.get(self.counter).is_some() {
                    let slot = self.counter;
                    self.enter(UiState::OvenRun(OvenRunSubMenus::OvenProfileRunConfirm));
                    self.run_slot = slot;
                } else {
                    self.enter(UiState::MainMenu);
                    self.run_slot = 0;
                }
            },
            OvenRunSubMenus::OvenProfileRunConfirm => {
                if self.counter == 0 {
                    self.enter(UiState::OvenRun(OvenRunSubMenus::OvenProfileSelect));
                } else if self.counter == 1 {
                    self.enter(UiState::OvenRun(OvenRunSubMenus::OvenProfileRunningMenu));
                    ramp.start(self.run_slot, now);
                } else {
                    self.counter = 0;
                }
            },
            OvenRunSubMenus::OvenProfileRunningMenu => {
                self.enter(UiState::OvenRun(OvenRunSubMenus::OvenProfileCancelRunningMenu));
            },
            OvenRunSubMenus::OvenProfileCancelRunningMenu => {
                if self.counter == 0 {
                    self.enter(UiState::OvenRun(OvenRunSubMenus::OvenProfileRunningMenu));
                } else if self.counter == 1 {
                    self.enter(UiState::MainMenu);
                    ramp.stop();
                } else {
                    self.counter = 0;
                }
            },
        }
    }

    /// Acts on the buttons in the current screen at tick `now`; returns
    /// whether the store changed and must be written to persistent memory.
    pub fn step(&mut self, b: Buttons, store: &mut Profiles, ramp: &mut RampController, now: u64) -> (persist: bool)
        requires
            old(self).wf(),
            old(store).wf(),
        ensures
            (*final(self), *final(store), *final(ramp), persist) == step_spec(
                *old(self),
                *old(store),
                *old(ramp),
                b,
                now,
            ),
            final(self).wf(),
            final(store).wf(),
    {
        match self.state {
            UiState::MainMenu => {
                self.step_main(b);
                false
            },
            UiState::ProfileEdit(sub) => self.step_edit(sub, store, b),
            UiState::OvenRun(sub) => {
                self.step_run(sub, store, ramp, b, now);
                false
            },
        }
    }

    /// The current screen; the header is drawn only when a screen was just entered.
    pub fn render(&self, store: &Profiles, ramp: &RampController, temp: u16) -> (r: Screen)
        requires
            self.wf(),
        ensures
            r@ == screen_spec(*self, *store, *ramp, temp),
    {
        let cont = !self.dirty;
        let c = self.counter;
        let pt = self.scratch.points[self.point_idx as usize];
        match self.state {
            UiState::MainMenu => main_menu(temp, c, cont),
            UiState::ProfileEdit(sub) => match sub {
                ProfileEditSubMenus::ProfileSelect => select_edit_profile_menu(c, store, cont),
                ProfileEditSubMenus::ProfileElementSelect => edit_profile_menu(c, &self.scratch, cont),
                ProfileEditSubMenus::ProfileNameEdit => edit_profile_name_menu(
                    c,
                    &self.scratch.name,
                    self.name_cursor,
                    cont,
                ),
                ProfileEditSubMenus::ProfilePointSelect => edit_profile_points_select_menu(
                    c,
                    &self.scratch.points,
                    cont,
                ),
                ProfileEditSubMenus::ProfilePointSelectElementEdit => edit_profile_point_edit_select_menu(
                    c,
                    &pt,
                    self.point_idx,
                    cont,
                ),
                ProfileEditSubMenus::ProfilePointTempEdit => edit_profile_point_edit_temp_menu(
                    c,
                    &pt,
                    self.point_idx,
                    cont,
                ),
                ProfileEditSubMenus::ProfilePointTimeEdit => edit_profile_point_edit_time_menu(
                    c,
                    &pt,
                    self.point_idx,
                    cont,
                ),
                ProfileEditSubMenus::ProfilePointDisabledEdit => edit_profile_point_edit_disabled_menu(
                    c,
                    &pt,
                    self.point_idx,
                    self.candidate_disabled,
                    cont,
                ),
                ProfileEditSubMenus::ProfileExitConfirmMenu => edit_exit_menu(c, cont),
                ProfileEditSubMenus::ProfileWriteConfirmMenu => edit_save_exit_menu(c, cont),
            },
            UiState::OvenRun(sub) => {
                let prof = match store.get(self.run_slot) {
                    Some(p) => p,
                    None => Profile::blank(),
                };
                match sub {
                    OvenRunSubMenus::OvenProfileSelect => heat_menu(c, store, cont),
                    OvenRunSubMenus::OvenProfileRunConfirm => start_heat_confirm_menu(c, &prof, cont),
                    OvenRunSubMenus::OvenProfileRunningMenu => heating_menu(
                        c,
                        temp,
                        &prof,
                        ramp.remaining,
                        cont,
                    ),
                    OvenRunSubMenus::OvenProfileCancelRunningMenu => cancel_heat_menu(
                        c,
                        ramp.remaining,
                        cont,
                    ),
                }
            },
        }
    }

    /// A run ended on its own: back to the main menu.
    pub fn run_finished(&mut self)
        ensures
            *final(self) == enter(*old(self), UiState::MainMenu),
    {
        self.enter(UiState::MainMenu);
    }
}

/// Confirming "yes" on the save screen writes the scratch copy into the
/// slot under edit, leaves every other slot as it was, asks for the store to
/// be written to persistent memory, and resets the scratch copy to a blank
/// profile.
pub proof fn lemma_save_writes_scratch(
    m: Menu,
    store: Profiles,
    ramp: RampController,
    secondary: bool,
    now: u64,
)
    requires
        m.wf(),
        store.wf(),
        m.state == edit_state(ProfileEditSubMenus::ProfileWriteConfirmMenu),
        m.counter == 1,
    ensures
        ({
            let (m2, store2, ramp2, persist) = step_spec(
                m,
                store,
                ramp,
                Buttons { confirm: true, secondary },
                now,
            );
            &&& store2.profiles[m.edit_slot as int] == Some(m.scratch)
            &&& forall|i: int|
                0 <= i < SLOT_COUNT && i != m.edit_slot ==> #[trigger] store2.profiles[i]
                    == store.profiles[i]
            &&& store2.wf()
            &&& persist
            &&& m2.scratch == blank_profile()
            &&& m2.state == edit_state(ProfileEditSubMenus::ProfileSelect)
            &&& ramp2 == ramp
        }),
{
    let slots = spec_array_update(store.profiles, m.edit_slot as int, Some(m.scratch));
    assert(slots@ == store.profiles@.update(m.edit_slot as int, Some(m.scratch)));
    crate::profile::lemma_count_bounded(slots@, SLOT_COUNT as int);
}

/// Confirming "yes" on the cancel screen stops the run wherever it stood:
/// the controller is idle with no elapsed or remaining time, and the menu is
/// back at the main menu.
pub proof fn lemma_cancel_stops_run(
    m: Menu,
    store: Profiles,
    ramp: RampController,
    secondary: bool,
    now: u64,
)
    requires
        m.state == run_state(OvenRunSubMenus::OvenProfileCancelRunningMenu),
        m.counter == 1,
    ensures
        ({
            let (m2, store2, ramp2, persist) = step_spec(
                m,
                store,
                ramp,
                Buttons { confirm: true, secondary },
                now,
            );
            &&& ramp2.state is Idle
            &&& ramp2.remaining == 0
            &&& ramp2.elapsed == 0
            &&& m2.state == UiState::MainMenu
            &&& store2 == store
            &&& !persist
        }),
{
}

} // verus!
