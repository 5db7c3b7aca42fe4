//! The screen capability contract shared by every menu screen.
//!
//! A screen is inactive until the navigation stack activates it; activation
//! builds its widget bundle against the current setting values, deactivation
//! discards the bundle, and the per-frame tick resizes the background to the
//! viewport. The tick contract requires an active screen, so calling `tick`
//! before `on_active` is ruled out by contract. Cloning yields an inactive
//! copy with the same configuration.

use crate::settings::SettingStore;
use crate::widget::{mode_wf, spec_resized, Mode, UIElementsView};
use vstd::prelude::*;

verus! {

pub trait Screen: Sized {
    /// The model of the widget bundle: `Some` exactly while the screen is
    /// active.
    spec fn elements_view(&self) -> Option<UIElementsView>;

    /// The two screens carry the same configuration (everything but the
    /// widget bundle).
    spec fn config_eq(&self, other: &Self) -> bool;

    /// The store values under which this screen's layout is representable
    /// (a machine limit; every on-screen value satisfies it).
    spec fn build_ok(&self, store: SettingStore) -> bool;

    /// The widget bundle this screen builds against a store's current
    /// values.
    spec fn built_view(&self, store: SettingStore) -> UIElementsView;

    /// Builds the widget bundle against the store's current values. Called
    /// once per activation; calling it on an active screen is ruled out by
    /// contract.
    fn on_active(&mut self, store: &SettingStore)
        requires
            old(self).elements_view() is None,
            old(self).build_ok(*store),
        ensures
            final(self).config_eq(old(self)),
            final(self).elements_view() == Some(old(self).built_view(*store)),
    ;

    /// Discards the widget bundle, removing the screen's widgets.
    fn on_deactive(&mut self)
        ensures
            final(self).config_eq(old(self)),
            final(self).elements_view() is None,
    ;

    /// Per-frame update while active: resizes the background to the current
    /// viewport. Must not be called before `on_active` (or after
    /// `on_deactive`).
    fn tick(&mut self, mode: Mode, screen_width: u32, screen_height: u32)
        requires
            old(self).elements_view() is Some,
            mode_wf(mode),
        ensures
            final(self).config_eq(old(self)),
            final(self).elements_view() == Some(
                spec_resized(old(self).elements_view()->0, mode, screen_width, screen_height),
            ),
    ;

    /// Mouse-wheel input: a no-op for every menu screen.
    fn on_scroll(&mut self, dx: i64, dy: i64)
        ensures
            *final(self) == *old(self),
    ;

    /// Whether the screen may be dismissed without blocking: always true
    /// for these menus.
    fn is_closable(&self) -> (r: bool)
        ensures
            r,
    ;

    /// A fresh, inactive copy with the same configuration: its widget
    /// bundle is empty until the stack activates it.
    fn clone_screen(&self) -> (r: Self)
        ensures
            r.elements_view() is None,
            r.config_eq(self),
    ;
}

} // verus!
