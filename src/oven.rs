//! One pass of the control loop: rotary input, the ramp controller while a
//! run is in progress, and on every display tick the menu and its screen.
use vstd::prelude::*;
use crate::menu::{
    enter, initial_menu, rotated, screen_spec, step_spec, Buttons, Direction, Menu, UiState,
};
use crate::profile::Profiles;
use crate::ramp::{evaluate_spec, idle_controller, RampController, RampState};
use crate::ui::Screen;

verus! {

/// Loop passes per display refresh; the menu acts only on these passes.
pub const DISPLAY_EVERY: u64 = 20;

/// What the loop sampled this pass.
#[derive(Clone, Copy, Debug, PartialEq, Eq, Structural)]
pub struct Inputs {
    pub confirm: bool,
    pub secondary: bool,
    pub rotation: Option<Direction>,
    pub now: u64,
    pub temp: u16,
}

/// What the loop must do this pass: drive the relays, show a screen, and
/// write the store to persistent memory.
#[derive(Clone, Debug, PartialEq, Eq)]
pub struct Outputs {
    pub heater_on: bool,
    pub fan_on: bool,
    pub screen: Option<Screen>,
    pub persist: bool,
}

/// The whole controller: menu, ramp controller, store, and the position
/// within the display period.
#[derive(Clone, Copy, Debug, PartialEq, Eq)]
pub struct Oven {
    pub menu: Menu,
    pub ramp: RampController,
    pub store: Profiles,
    pub phase: u64,
}

/// The menu after the rotary input of this pass.
pub open spec fn after_rotation(m: Menu, rotation: Option<Direction>) -> Menu {
    match rotation {
        Some(d) => rotated(m, d),
        None => m,
    }
}

/// The menu after the ramp controller's evaluation: a run that stopped on
/// its own sends it back to the main menu.
pub open spec fn after_ramp(m: Menu, before: RampController, after: RampController) -> Menu {
    if before.state is Running && after.state is Idle {
        enter(m, UiState::MainMenu)
    } else {
        m
    }
}

impl Oven {
    pub open spec fn wf(&self) -> bool {
        &&& self.menu.wf()
        &&& self.store.wf()
        &&& self.phase < DISPLAY_EVERY
    }

    /// The controller at power-on, with the store read back at boot.
    pub fn new(store: Profiles) -> (r: Oven)
        requires
            store.wf(),
        ensures
            r.wf(),
            r.menu == initial_menu(),
            r.ramp == idle_controller(),
            r.store == store,
            r.phase == 0,
    {
        Oven { menu: Menu::new(), ramp: RampController::new(), store, phase: 0 }
    }

    /// One pass of the control loop.
    pub fn tick(&mut self, input: Inputs) -> (r: Outputs)
        requires
            old(self).wf(),
        ensures
            final(self).wf(),
            final(self).phase == (old(self).phase + 1) % (DISPLAY_EVERY as int),
            ({
                let m1 = after_rotation(old(self).menu, input.rotation);
                let (ramp1, cmd) = evaluate_spec(old(self).ramp, old(self).store, input.now, input.temp);
                let m2 = after_ramp(m1, old(self).ramp, ramp1);
                if old(self).phase == 0 {
                    let m3 = Menu { dirty: false, ..m2 };
                    let b = Buttons { confirm: input.confirm, secondary: input.secondary };
                    let (m4, store4, ramp4, persist) = step_spec(m3, old(self).store, ramp1, b, input.now);
                    &&& final(self).menu == m4
                    &&& final(self).store == store4
                    &&& final(self).ramp == ramp4
                    &&& r.persist == persist
                    &&& r.screen is Some
                    &&& r.screen->Some_0@ == screen_spec(m2, old(self).store, ramp1, input.temp)
                    &&& r.heater_on == (cmd.heater_on && ramp4.state is Running)
                    &&& r.fan_on == (ramp4.state is Running)
                } else {
                    &&& final(self).menu == m2
                    &&& final(self).store == old(self).store
                    &&& final(self).ramp == ramp1
                    &&& !r.persist
                    &&& r.screen is None
                    &&& r.heater_on == cmd.heater_on
                    &&& r.fan_on == cmd.fan_on
                }
            }),
    {
        if let Some(d) = input.rotation {
            self.menu.rotate(d);
        }
        let was_running = matches!(self.ramp.state, RampState::Running { .. });
        let cmd = self.ramp.evaluate(&self.store, input.now, input.temp);
        let running = matches!(self.ramp.state, RampState::Running { .. });
        if was_running && !running {
            self.menu.run_finished();
        }
        let mut out = Outputs { heater_on: cmd.heater_on, fan_on: cmd.fan_on, screen: None, persist: false };
        if self.phase == 0 {
            let screen = self.menu.render(&self.store, &self.ramp, input.temp);
            self.menu.dirty = false;
            let b = Buttons { confirm: input.confirm, secondary: input.secondary };
            let persist = self.menu.step(b, &mut self.store, &mut self.ramp, input.now);
            let still = matches!(self.ramp.state, RampState::Running { .. });
            out = Outputs { heater_on: cmd.heater_on && still, fan_on: still, screen: Some(screen), persist };
        }
        self.phase = (self.phase + 1) % DISPLAY_EVERY;
        out
    }
}

} // verus!
