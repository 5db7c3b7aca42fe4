//! The navigation layer: the screen stack, the game state it lives in, and
//! the interpreter for widget click commands.
//!
//! The screen set is closed, so the stack holds a sum type of the menu
//! screens plus a marker for the externally owned server-list screen. The
//! game state is the sole owner of the settings store and of the stack;
//! clicking a button of the top screen applies its `ClickAction` command:
//! toggles write through to the store and relabel the clicked button,
//! navigation pushes, pops or replaces exactly one screen, and the
//! disconnect command ends the session, pops the hub and replaces the
//! revealed screen with the server list.

use crate::label::{
    hat_label, sense_label, spec_hat_label, spec_sense_label, spec_vsync_label, vsync_label,
};
use crate::menus::{
    AudioSettingsMenu, ControlsMenu, SettingsMenu, SkinSettingsMenu, VideoSettingsMenu,
};
use crate::screen::Screen;
use crate::settings::{BoolSetting, FloatSetting, SettingStore};
use crate::widget::{
    mode_wf, sense_of_slider_pos, spec_drag_pos, spec_dragged_sense, spec_relabeled, spec_resized,
    spec_slider_updated, ButtonView, ClickAction, Mode, ScreenKind, UIElementsView, COORD_LIMIT,
    SENSE_LIMIT, SENSE_OFFSET, SENSE_SCALE,
};
use vstd::arithmetic::div_mod::{lemma_div_nonincreasing, lemma_div_pos_is_pos};
use vstd::prelude::*;

verus! {

/// Stands for the server-list screen, an external collaborator: only its
/// place in the stack and its lifecycle are modelled here.
pub struct ServerListScreen {
    pub active: bool,
}

/// One screen of the closed screen set, as held by the navigation stack.
pub enum AnyScreen {
    Settings(SettingsMenu),
    Video(VideoSettingsMenu),
    Audio(AudioSettingsMenu),
    Skin(SkinSettingsMenu),
    Controls(ControlsMenu),
    ServerList(ServerListScreen),
}

impl AnyScreen {
    /// Whether the screen is active (its widget bundle exists; for the
    /// server list, its marker flag).
    pub open spec fn is_active(self) -> bool {
        match self {
            AnyScreen::Settings(s) => s.elements_view() is Some,
            AnyScreen::Video(s) => s.elements_view() is Some,
            AnyScreen::Audio(s) => s.elements_view() is Some,
            AnyScreen::Skin(s) => s.elements_view() is Some,
            AnyScreen::Controls(s) => s.elements_view() is Some,
            AnyScreen::ServerList(s) => s.active,
        }
    }

    /// The model of the screen's widget bundle, `None` while inactive and
    /// for the externally owned server list.
    pub open spec fn elements_view(self) -> Option<UIElementsView> {
        match self {
            AnyScreen::Settings(s) => s.elements_view(),
            AnyScreen::Video(s) => s.elements_view(),
            AnyScreen::Audio(s) => s.elements_view(),
            AnyScreen::Skin(s) => s.elements_view(),
            AnyScreen::Controls(s) => s.elements_view(),
            AnyScreen::ServerList(_) => None,
        }
    }

    /// Same screen kind and same configuration (everything but the widget
    /// bundle and activity).
    pub open spec fn config_eq(self, other: AnyScreen) -> bool {
        match (self, other) {
            (AnyScreen::Settings(a), AnyScreen::Settings(b)) => a.config_eq(&b),
            (AnyScreen::Video(_), AnyScreen::Video(_)) => true,
            (AnyScreen::Audio(_), AnyScreen::Audio(_)) => true,
            (AnyScreen::Skin(_), AnyScreen::Skin(_)) => true,
            (AnyScreen::Controls(_), AnyScreen::Controls(_)) => true,
            (AnyScreen::ServerList(_), AnyScreen::ServerList(_)) => true,
            _ => false,
        }
    }

    /// The store values under which this screen can build its layout (a
    /// machine limit on the sensitivity for the controls screen).
    pub open spec fn build_ok(self, store: SettingStore) -> bool {
        match self {
            AnyScreen::Controls(s) => s.build_ok(store),
            _ => true,
        }
    }

    /// The widget bundle the screen builds when activated against a store,
    /// `None` for the externally owned server list.
    pub open spec fn spec_built(self, store: SettingStore) -> Option<UIElementsView> {
        match self {
            AnyScreen::Settings(s) => Some(s.built_view(store)),
            AnyScreen::Video(s) => Some(s.built_view(store)),
            AnyScreen::Audio(s) => Some(s.built_view(store)),
            AnyScreen::Skin(s) => Some(s.built_view(store)),
            AnyScreen::Controls(s) => Some(s.built_view(store)),
            AnyScreen::ServerList(_) => None,
        }
    }

    /// The screen as the stack leaves it after deactivation: same
    /// configuration, no widget bundle.
    pub open spec fn spec_deactivated(self) -> AnyScreen {
        match self {
            AnyScreen::Settings(s) => AnyScreen::Settings(
                SettingsMenu { show_disconnect_button: s.show_disconnect_button, elements: None },
            ),
            AnyScreen::Video(_) => AnyScreen::Video(VideoSettingsMenu { elements: None }),
            AnyScreen::Audio(_) => AnyScreen::Audio(AudioSettingsMenu { elements: None }),
            AnyScreen::Skin(_) => AnyScreen::Skin(SkinSettingsMenu { elements: None }),
            AnyScreen::Controls(_) => AnyScreen::Controls(ControlsMenu { elements: None }),
            AnyScreen::ServerList(_) => AnyScreen::ServerList(ServerListScreen { active: false }),
        }
    }

    /// Activates the screen: builds its widget bundle against the store's
    /// current values.
    pub fn activate(&mut self, store: &SettingStore)
        requires
            !old(self).is_active(),
            old(self).build_ok(*store),
        ensures
            is_activation_of(*final(self), *old(self), *store),
    {
        match self {
            AnyScreen::Settings(s) => s.on_active(store),
            AnyScreen::Video(s) => s.on_active(store),
            AnyScreen::Audio(s) => s.on_active(store),
            AnyScreen::Skin(s) => s.on_active(store),
            AnyScreen::Controls(s) => s.on_active(store),
            AnyScreen::ServerList(s) => s.active = true,
        }
    }

    /// Deactivates the screen, discarding its widget bundle.
    pub fn deactivate(&mut self)
        ensures
            *final(self) == old(self).spec_deactivated(),
    {
        match self {
            AnyScreen::Settings(s) => s.on_deactive(),
            AnyScreen::Video(s) => s.on_deactive(),
            AnyScreen::Audio(s) => s.on_deactive(),
            AnyScreen::Skin(s) => s.on_deactive(),
            AnyScreen::Controls(s) => s.on_deactive(),
            AnyScreen::ServerList(s) => s.active = false,
        }
    }

    /// Per-frame update of an active screen: resizes its background to the
    /// viewport (the server list is ticked by its own owner).
    pub fn tick(&mut self, mode: Mode, screen_width: u32, screen_height: u32)
        requires
            old(self).is_active(),
            mode_wf(mode),
        ensures
            final(self).config_eq(*old(self)),
            final(self).is_active(),
            final(self).elements_view() == match old(self).elements_view() {
                Some(e) => Some(spec_resized(e, mode, screen_width, screen_height)),
                None => None::<UIElementsView>,
            },
    {
        match self {
            AnyScreen::Settings(s) => s.tick(mode, screen_width, screen_height),
            AnyScreen::Video(s) => s.tick(mode, screen_width, screen_height),
            AnyScreen::Audio(s) => s.tick(mode, screen_width, screen_height),
            AnyScreen::Skin(s) => s.tick(mode, screen_width, screen_height),
            AnyScreen::Controls(s) => s.tick(mode, screen_width, screen_height),
            AnyScreen::ServerList(_) => {},
        }
    }

    /// Mouse-wheel input: a no-op for every screen here.
    pub fn on_scroll(&mut self, dx: i64, dy: i64)
        ensures
            *final(self) == *old(self),
    {
        match self {
            AnyScreen::Settings(s) => s.on_scroll(dx, dy),
            AnyScreen::Video(s) => s.on_scroll(dx, dy),
            AnyScreen::Audio(s) => s.on_scroll(dx, dy),
            AnyScreen::Skin(s) => s.on_scroll(dx, dy),
            AnyScreen::Controls(s) => s.on_scroll(dx, dy),
            AnyScreen::ServerList(_) => {},
        }
    }

    /// Every screen here may be dismissed without blocking.
    pub fn is_closable(&self) -> (r: bool)
        ensures
            r,
    {
        match self {
            AnyScreen::Settings(s) => s.is_closable(),
            AnyScreen::Video(s) => s.is_closable(),
            AnyScreen::Audio(s) => s.is_closable(),
            AnyScreen::Skin(s) => s.is_closable(),
            AnyScreen::Controls(s) => s.is_closable(),
            AnyScreen::ServerList(_) => true,
        }
    }

    /// A fresh, inactive copy with the same configuration: its widget
    /// bundle is empty until the stack activates it.
    pub fn clone_screen(&self) -> (r: AnyScreen)
        ensures
            r == self.spec_deactivated(),
    {
        match self {
            AnyScreen::Settings(s) => AnyScreen::Settings(s.clone_screen()),
            AnyScreen::Video(s) => AnyScreen::Video(s.clone_screen()),
            AnyScreen::Audio(s) => AnyScreen::Audio(s.clone_screen()),
            AnyScreen::Skin(s) => AnyScreen::Skin(s.clone_screen()),
            AnyScreen::Controls(s) => AnyScreen::Controls(s.clone_screen()),
            AnyScreen::ServerList(_) => AnyScreen::ServerList(ServerListScreen { active: false }),
        }
    }

    /// The click command of one button of the active screen.
    pub fn button_action(&self, i: usize) -> (a: Option<ClickAction>)
        requires
            self.elements_view() is Some,
            i < self.elements_view()->0.buttons.len(),
        ensures
            a == self.elements_view()->0.buttons[i as int].action,
    {
        match self {
            AnyScreen::Settings(s) => match &s.elements {
                Some(e) => e.buttons[i].action,
                None => {
                    proof {
                        assert(false);
                    }
                    None
                },
            },
            AnyScreen::Video(s) => match &s.elements {
                Some(e) => e.buttons[i].action,
                None => {
                    proof {
                        assert(false);
                    }
                    None
                },
            },
            AnyScreen::Audio(s) => match &s.elements {
                Some(e) => e.buttons[i].action,
                None => {
                    proof {
                        assert(false);
                    }
                    None
                },
            },
            AnyScreen::Skin(s) => match &s.elements {
                Some(e) => e.buttons[i].action,
                None => {
                    proof {
                        assert(false);
                    }
                    None
                },
            },
            AnyScreen::Controls(s) => match &s.elements {
                Some(e) => e.buttons[i].action,
                None => {
                    proof {
                        assert(false);
                    }
                    None
                },
            },
            AnyScreen::ServerList(_) => {
                proof {
                    assert(false);
                }
                None
            },
        }
    }

    /// The anchor offset of one slider of the active screen.
    pub fn slider_anchor_x(&self, i: usize) -> (x: i64)
        requires
            self.elements_view() is Some,
            i < self.elements_view()->0.sliders.len(),
        ensures
            x as int == self.elements_view()->0.sliders[i as int].x,
    {
        match self {
            AnyScreen::Settings(s) => match &s.elements {
                Some(e) => e.sliders[i].x,
                None => {
                    proof {
                        assert(false);
                    }
                    0
                },
            },
            AnyScreen::Video(s) => match &s.elements {
                Some(e) => e.sliders[i].x,
                None => {
                    proof {
                        assert(false);
                    }
                    0
                },
            },
            AnyScreen::Audio(s) => match &s.elements {
                Some(e) => e.sliders[i].x,
                None => {
                    proof {
                        assert(false);
                    }
                    0
                },
            },
            AnyScreen::Skin(s) => match &s.elements {
                Some(e) => e.sliders[i].x,
                None => {
                    proof {
                        assert(false);
                    }
                    0
                },
            },
            AnyScreen::Controls(s) => match &s.elements {
                Some(e) => e.sliders[i].x,
                None => {
                    proof {
                        assert(false);
                    }
                    0
                },
            },
            AnyScreen::ServerList(_) => {
                proof {
                    assert(false);
                }
                0
            },
        }
    }

    /// Replaces one button's label of the active screen in place.
    pub fn relabel_button(&mut self, i: usize, text: String)
        requires
            old(self).elements_view() is Some,
            i < old(self).elements_view()->0.buttons.len(),
        ensures
            final(self).config_eq(*old(self)),
            final(self).elements_view() == Some(
                spec_relabeled(old(self).elements_view()->0, i as int, text@),
            ),
    {
        match self {
            AnyScreen::Settings(s) => match &mut s.elements {
                Some(e) => e.set_button_text(i, text),
                None => {
                    proof {
                        assert(false);
                    }
                },
            },
            AnyScreen::Video(s) => match &mut s.elements {
                Some(e) => e.set_button_text(i, text),
                None => {
                    proof {
                        assert(false);
                    }
                },
            },
            AnyScreen::Audio(s) => match &mut s.elements {
                Some(e) => e.set_button_text(i, text),
                None => {
                    proof {
                        assert(false);
                    }
                },
            },
            AnyScreen::Skin(s) => match &mut s.elements {
                Some(e) => e.set_button_text(i, text),
                None => {
                    proof {
                        assert(false);
                    }
                },
            },
            AnyScreen::Controls(s) => match &mut s.elements {
                Some(e) => e.set_button_text(i, text),
                None => {
                    proof {
                        assert(false);
                    }
                },
            },
            AnyScreen::ServerList(_) => {
                proof {
                    assert(false);
                }
            },
        }
    }

    /// Moves one slider's button and replaces its label, in place, on the
    /// active screen.
    pub fn set_slider_state(&mut self, i: usize, button_x: i64, text: String)
        requires
            old(self).elements_view() is Some,
            i < old(self).elements_view()->0.sliders.len(),
        ensures
            final(self).config_eq(*old(self)),
            final(self).elements_view() == Some(
                spec_slider_updated(
                    old(self).elements_view()->0,
                    i as int,
                    button_x as int,
                    text@,
                ),
            ),
    {
        match self {
            AnyScreen::Settings(s) => match &mut s.elements {
                Some(e) => e.set_slider_state(i, button_x, text),
                None => {
                    proof {
                        assert(false);
                    }
                },
            },
            AnyScreen::Video(s) => match &mut s.elements {
                Some(e) => e.set_slider_state(i, button_x, text),
                None => {
                    proof {
                        assert(false);
                    }
                },
            },
            AnyScreen::Audio(s) => match &mut s.elements {
                Some(e) => e.set_slider_state(i, button_x, text),
                None => {
                    proof {
                        assert(false);
                    }
                },
            },
            AnyScreen::Skin(s) => match &mut s.elements {
                Some(e) => e.set_slider_state(i, button_x, text),
                None => {
                    proof {
                        assert(false);
                    }
                },
            },
            AnyScreen::Controls(s) => match &mut s.elements {
                Some(e) => e.set_slider_state(i, button_x, text),
                None => {
                    proof {
                        assert(false);
                    }
                },
            },
            AnyScreen::ServerList(_) => {
                proof {
                    assert(false);
                }
            },
        }
    }
}

/// `post` is `pre` as activation against `store` leaves it: same
/// configuration, active, and its widget bundle exactly what it builds from
/// the store's current values.
pub open spec fn is_activation_of(post: AnyScreen, pre: AnyScreen, store: SettingStore) -> bool {
    &&& post.config_eq(pre)
    &&& post.is_active()
    &&& post.elements_view() == pre.spec_built(store)
}

/// A fresh, inactive screen of a kind a hub navigation button opens.
pub open spec fn spec_fresh_screen(kind: ScreenKind) -> AnyScreen {
    match kind {
        ScreenKind::Audio => AnyScreen::Audio(AudioSettingsMenu { elements: None }),
        ScreenKind::Video => AnyScreen::Video(VideoSettingsMenu { elements: None }),
        ScreenKind::Controls => AnyScreen::Controls(ControlsMenu { elements: None }),
        ScreenKind::Skin => AnyScreen::Skin(SkinSettingsMenu { elements: None }),
    }
}

/// Builds a fresh, inactive screen of a kind a hub navigation button opens.
pub fn fresh_screen(kind: ScreenKind) -> (s: AnyScreen)
    ensures
        s == spec_fresh_screen(kind),
{
    match kind {
        ScreenKind::Audio => AnyScreen::Audio(AudioSettingsMenu::new()),
        ScreenKind::Video => AnyScreen::Video(VideoSettingsMenu::new()),
        ScreenKind::Controls => AnyScreen::Controls(ControlsMenu::new()),
        ScreenKind::Skin => AnyScreen::Skin(SkinSettingsMenu::new()),
    }
}

/// The game state the menus operate on: the sole owner of the settings
/// store, the screen stack (top is the visible screen), and the server
/// session.
pub struct Game {
    pub settings: SettingStore,
    pub stack: Vec<AnyScreen>,
    pub connected: bool,
}

/// Pushing `screen`: the old top deactivated in place, the new screen
/// activated on top, everything else unchanged.
pub open spec fn spec_add_effect(pre: Game, post: Game, screen: AnyScreen) -> bool {
    &&& post.settings == pre.settings
    &&& post.connected == pre.connected
    &&& post.stack@.len() == pre.stack@.len() + 1
    &&& forall|j: int| 0 <= j < pre.stack@.len() - 1 ==> post.stack@[j] == pre.stack@[j]
    &&& pre.stack@.len() > 0 ==> post.stack@[pre.stack@.len() - 1]
        == pre.stack@.last().spec_deactivated()
    &&& is_activation_of(post.stack@.last(), screen, pre.settings)
}

/// Popping: exactly the top screen removed, the revealed screen activated
/// against the current settings, everything else unchanged.
pub open spec fn spec_pop_effect(pre: Game, post: Game) -> bool {
    &&& post.settings == pre.settings
    &&& post.connected == pre.connected
    &&& post.stack@.len() == pre.stack@.len() - 1
    &&& forall|j: int| 0 <= j < pre.stack@.len() - 2 ==> post.stack@[j] == pre.stack@[j]
    &&& pre.stack@.len() >= 2 ==> is_activation_of(
        post.stack@.last(),
        pre.stack@[pre.stack@.len() - 2],
        pre.settings,
    )
}

/// Replacing: the top screen swapped for `screen`, which is activated,
/// everything below unchanged.
pub open spec fn spec_replace_effect(pre: Game, post: Game, screen: AnyScreen) -> bool {
    &&& post.settings == pre.settings
    &&& post.connected == pre.connected
    &&& post.stack@.len() == pre.stack@.len()
    &&& forall|j: int| 0 <= j < pre.stack@.len() - 1 ==> post.stack@[j] == pre.stack@[j]
    &&& is_activation_of(post.stack@.last(), screen, pre.settings)
}

/// The disconnect command: the session ended, the clicked screen popped,
/// and the revealed screen replaced by the server list, in that order.
pub open spec fn spec_disconnect_effect(pre: Game, post: Game) -> bool {
    &&& post.settings == pre.settings
    &&& post.connected == false
    &&& post.stack@.len() == pre.stack@.len() - 1
    &&& forall|j: int| 0 <= j < pre.stack@.len() - 2 ==> post.stack@[j] == pre.stack@[j]
    &&& is_activation_of(
        post.stack@.last(),
        AnyScreen::ServerList(ServerListScreen { active: false }),
        pre.settings,
    )
}

/// A toggle command on button `i` of the top screen: the key flipped in the
/// store, the clicked button relabelled with `label`, everything else
/// unchanged.
pub open spec fn spec_toggle_effect(
    pre: Game,
    post: Game,
    i: int,
    key: BoolSetting,
    label: Seq<char>,
) -> bool {
    &&& post.settings == pre.settings.with_bool(key, !pre.settings.spec_bool(key))
    &&& post.connected == pre.connected
    &&& post.stack@.len() == pre.stack@.len()
    &&& forall|j: int| 0 <= j < pre.stack@.len() - 1 ==> post.stack@[j] == pre.stack@[j]
    &&& post.stack@.last().config_eq(pre.stack@.last())
    &&& post.stack@.last().elements_view() == Some(
        spec_relabeled(pre.stack@.last().elements_view()->0, i, label),
    )
}

/// A drag of slider `i` of the top screen: the slider's button moved under
/// the pointer, its label refreshed, and the recomputed sensitivity written
/// through to the store on this movement event.
pub open spec fn spec_drag_effect(
    pre: Game,
    post: Game,
    i: int,
    mouse_x: int,
    screen_width: int,
) -> bool {
    let e = pre.stack@.last().elements_view()->0;
    &&& post.settings.mouse_sense == spec_dragged_sense(mouse_x, screen_width, e.sliders[i].x)
    &&& post.settings == pre.settings.with_float(
        FloatSetting::MouseSense,
        post.settings.mouse_sense,
    )
    &&& post.connected == pre.connected
    &&& post.stack@.len() == pre.stack@.len()
    &&& forall|j: int| 0 <= j < pre.stack@.len() - 1 ==> post.stack@[j] == pre.stack@[j]
    &&& post.stack@.last().config_eq(pre.stack@.last())
    &&& post.stack@.last().elements_view() == Some(
        spec_slider_updated(
            e,
            i,
            spec_drag_pos(mouse_x, screen_width, e.sliders[i].x),
            spec_sense_label(spec_dragged_sense(mouse_x, screen_width, e.sliders[i].x)),
        ),
    )
}

impl Game {
    /// Everything in the settings store is within the layout's machine
    /// limits (every real value is far inside them).
    pub open spec fn wf(self) -> bool {
        -SENSE_LIMIT <= self.settings.mouse_sense <= SENSE_LIMIT
    }

    /// Only the top screen may be active: the stack deactivates a screen
    /// whenever it is covered or removed.
    pub open spec fn stack_wf(self) -> bool {
        forall|j: int| 0 <= j < self.stack@.len() - 1 ==> !(#[trigger] self.stack@[j]).is_active()
    }

    /// The top screen of the stack.
    pub open spec fn top(self) -> AnyScreen {
        self.stack@.last()
    }

    /// The widget bundle of the (active) top screen.
    pub open spec fn top_elements(self) -> UIElementsView {
        self.top().elements_view()->0
    }

    /// The buttons of the (active) top screen.
    pub open spec fn top_buttons(self) -> Seq<ButtonView> {
        self.top_elements().buttons
    }

    /// The click command of button `i` of the top screen.
    pub open spec fn top_action(self, i: int) -> Option<ClickAction> {
        self.top_buttons()[i].action
    }

    /// A fresh game state around a settings store: empty stack, session
    /// state as given.
    pub fn new(settings: SettingStore, connected: bool) -> (r: Game)
        ensures
            r.settings == settings,
            r.connected == connected,
            r.stack@.len() == 0,
    {
        Game { settings, stack: Vec::new(), connected }
    }

    /// Pushes a screen: deactivates the covered top, then activates the new
    /// screen against the current settings.
    pub fn add_screen(&mut self, screen: AnyScreen)
        requires
            old(self).wf(),
            old(self).stack_wf(),
            !screen.is_active(),
            screen.build_ok(old(self).settings),
        ensures
            final(self).wf(),
            final(self).stack_wf(),
            spec_add_effect(*old(self), *final(self), screen),
    {
        let n = self.stack.len();
        if n > 0 {
            self.stack[n - 1].deactivate();
        }
        let store = self.settings;
        let mut s = screen;
        s.activate(&store);
        self.stack.push(s);
    }

    /// Pops the top screen, then activates the revealed screen against the
    /// current settings.
    pub fn pop_screen(&mut self)
        requires
            old(self).wf(),
            old(self).stack_wf(),
            old(self).stack@.len() >= 1,
        ensures
            final(self).wf(),
            final(self).stack_wf(),
            spec_pop_effect(*old(self), *final(self)),
    {
        let mut top = self.stack.pop().unwrap();
        top.deactivate();
        let n = self.stack.len();
        if n > 0 {
            let store = self.settings;
            self.stack[n - 1].activate(&store);
        }
    }

    /// Replaces the top screen: deactivates and discards it, then activates
    /// the replacement against the current settings.
    pub fn replace_screen(&mut self, screen: AnyScreen)
        requires
            old(self).wf(),
            old(self).stack_wf(),
            old(self).stack@.len() >= 1,
            !screen.is_active(),
            screen.build_ok(old(self).settings),
        ensures
            final(self).wf(),
            final(self).stack_wf(),
            spec_replace_effect(*old(self), *final(self), screen),
    {
        let mut top = self.stack.pop().unwrap();
        top.deactivate();
        let store = self.settings;
        let mut s = screen;
        s.activate(&store);
        self.stack.push(s);
    }

    /// Per-frame update: ticks the active top screen, resizing its
    /// background to the current viewport.
    pub fn tick(&mut self, mode: Mode, screen_width: u32, screen_height: u32)
        requires
            old(self).stack@.len() >= 1,
            old(self).top().is_active(),
            mode_wf(mode),
        ensures
            final(self).settings == old(self).settings,
            final(self).connected == old(self).connected,
            final(self).stack@.len() == old(self).stack@.len(),
            forall|j: int| 0 <= j < old(self).stack@.len() - 1 ==> final(self).stack@[j]
                == old(self).stack@[j],
            final(self).top().config_eq(old(self).top()),
            final(self).top().is_active(),
            final(self).top().elements_view() == match old(self).top().elements_view() {
                Some(e) => Some(spec_resized(e, mode, screen_width, screen_height)),
                None => None::<UIElementsView>,
            },
    {
        let n = self.stack.len();
        self.stack[n - 1].tick(mode, screen_width, screen_height);
    }

    /// Clicks button `i` of the active top screen and interprets its
    /// command: navigation pushes, pops or replaces exactly one screen,
    /// toggles flip their key and relabel the clicked button, and the
    /// disconnect command ends the session, pops this screen and replaces
    /// the revealed screen with the server list. Returns whether the click
    /// was consumed (the hat toggle deliberately reports it was not).
    pub fn click_top_button(&mut self, i: usize) -> (handled: bool)
        requires
            old(self).wf(),
            old(self).stack_wf(),
            old(self).stack@.len() >= 1,
            old(self).top().elements_view() is Some,
            i < old(self).top_buttons().len(),
            old(self).top_action(i as int) == Some(ClickAction::Disconnect) ==> old(
                self,
            ).stack@.len() >= 2 && old(self).connected,
        ensures
            final(self).wf(),
            final(self).stack_wf(),
            match old(self).top_action(i as int) {
                None => *final(self) == *old(self) && !handled,
                Some(action) => match action {
                    ClickAction::PushScreen(kind) => handled && spec_add_effect(
                        *old(self),
                        *final(self),
                        spec_fresh_screen(kind),
                    ),
                    ClickAction::PopScreen => handled && spec_pop_effect(*old(self), *final(self)),
                    ClickAction::Disconnect => handled && spec_disconnect_effect(
                        *old(self),
                        *final(self),
                    ),
                    ClickAction::ToggleVsync => handled && spec_toggle_effect(
                        *old(self),
                        *final(self),
                        i as int,
                        BoolSetting::Vsync,
                        spec_vsync_label(!old(self).settings.vsync),
                    ),
                    ClickAction::ToggleHat => !handled && spec_toggle_effect(
                        *old(self),
                        *final(self),
                        i as int,
                        BoolSetting::HatVisible,
                        spec_hat_label(!old(self).settings.hat_visible),
                    ),
                },
            },
    {
        let n = self.stack.len();
        let action = self.stack[n - 1].button_action(i);
        match action {
            None => false,
            Some(ClickAction::PushScreen(kind)) => {
                let s = fresh_screen(kind);
                self.add_screen(s);
                true
            },
            Some(ClickAction::PopScreen) => {
                self.pop_screen();
                true
            },
            Some(ClickAction::Disconnect) => {
                self.connected = false;
                self.pop_screen();
                self.replace_screen(AnyScreen::ServerList(ServerListScreen { active: false }));
                true
            },
            Some(ClickAction::ToggleVsync) => {
                let new_value = !self.settings.get_bool(BoolSetting::Vsync);
                let label = vsync_label(new_value);
                self.stack[n - 1].relabel_button(i, label);
                self.settings.set_bool(BoolSetting::Vsync, new_value);
                true
            },
            Some(ClickAction::ToggleHat) => {
                let new_value = !self.settings.get_bool(BoolSetting::HatVisible);
                let label = hat_label(new_value);
                self.stack[n - 1].relabel_button(i, label);
                self.settings.set_bool(BoolSetting::HatVisible, new_value);
                false
            },
        }
    }

    /// Drags slider `i` of the active top screen to the pointer: moves its
    /// button to the offset between pointer and slider anchor, writes the
    /// recomputed sensitivity through to the store on this movement event,
    /// and refreshes the label. The coordinate bounds are machine limits,
    /// far beyond any screen.
    pub fn drag_slider(&mut self, i: usize, mouse_x: i64, screen_width: i64) -> (handled: bool)
        requires
            old(self).wf(),
            old(self).stack_wf(),
            old(self).stack@.len() >= 1,
            old(self).top().elements_view() is Some,
            i < old(self).top_elements().sliders.len(),
            -COORD_LIMIT <= mouse_x <= COORD_LIMIT,
            0 <= screen_width <= COORD_LIMIT,
            -COORD_LIMIT <= old(self).top_elements().sliders[i as int].x <= COORD_LIMIT,
        ensures
            handled,
            final(self).wf(),
            final(self).stack_wf(),
            spec_drag_effect(*old(self), *final(self), i as int, mouse_x as int, screen_width as int),
    {
        let n = self.stack.len();
        let sx = self.stack[n - 1].slider_anchor_x(i);
        let pos = mouse_x - screen_width / 2 - sx;
        let sense = sense_of_slider_pos(pos);
        proof {
            let m = pos as int + SENSE_OFFSET as int;
            if m >= 0 {
                lemma_div_pos_bound(m, SENSE_SCALE as int);
            } else {
                lemma_div_pos_bound(-m, SENSE_SCALE as int);
            }
        }
        let label = sense_label(sense);
        self.stack[n - 1].set_slider_state(i, pos, label);
        self.settings.set_float(FloatSetting::MouseSense, sense);
        true
    }
}

/// For a non-negative `a` and positive `b`, the quotient stays between zero
/// and `a`.
proof fn lemma_div_pos_bound(a: int, b: int)
    requires
        a >= 0,
        b >= 1,
    ensures
        0 <= a / b <= a,
{
    lemma_div_nonincreasing(a, b);
    lemma_div_pos_is_pos(a, b);
}

} // verus!
