//! In-game settings screens for a voxel-game client: a settings hub and the
//! audio, video, controls and skin-customization menus.
//!
//! Each screen builds a fixed layout of background image, buttons, labels and
//! (for the controls menu) a slider, seeded from the current values of a
//! settings store. Click handling is modelled as command values: every button
//! carries an optional `ClickAction`, and the navigation layer interprets the
//! action against the game state (settings store plus screen stack). All
//! geometry is in hundredths of a pixel, and the mouse-sensitivity setting is
//! a fixed-point value in hundredths, so that layout and the slider maps are
//! exact integer arithmetic.

pub mod game;
pub mod label;
pub mod laws;
pub mod menus;
pub mod screen;
pub mod settings;
pub mod widget;
