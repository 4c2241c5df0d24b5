//! Control layer of a reflow oven: the profile store and its persistent
//! image, the ramp controller, the menu state machine and its screens.
pub mod image;
pub mod lcd;
pub mod menu;
pub mod oven;
pub mod profile;
pub mod ramp;
pub mod temperature;
pub mod ui;
