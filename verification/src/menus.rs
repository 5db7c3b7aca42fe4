//! The five settings screens: the hub, and the audio, video, skin and
//! controls menus.
//!
//! Each screen owns an optional widget bundle, built on activation from the
//! current setting values and discarded on deactivation. The exact bundle a
//! screen builds is pinned by a spec function per screen, so the contracts
//! say precisely which buttons exist, with which labels and which click
//! commands.

use crate::label::{
    fov_label, fps_label, hat_label, sense_label, spec_fov_label, spec_fps_label, spec_hat_label,
    spec_sense_label, spec_vsync_label, vsync_label,
};
use crate::screen::Screen;
use crate::settings::{BoolSetting, FloatSetting, IntSetting, SettingStore};
use crate::widget::{
    resize_background, slider_pos_of_sense, spec_resized, spec_slider_pos, Button, ButtonView,
    ClickAction, HAttach, Image, ImageView, Mode, ScreenKind, Slider, SliderView, UIElements,
    UIElementsView, VAttach, BUTTON_HEIGHT, BUTTON_WIDTH, SENSE_LIMIT, VIRTUAL_HEIGHT,
    VIRTUAL_WIDTH,
};
use vstd::prelude::*;

verus! {

/// The translucent full-layout background every menu screen shows.
pub open spec fn spec_background() -> ImageView {
    ImageView {
        texture: "leafish:solid"@,
        x: 0,
        y: 0,
        width: VIRTUAL_WIDTH as int,
        height: VIRTUAL_HEIGHT as int,
        colour: (0, 0, 0, 100),
    }
}

/// A button of the standard menu size at a position and anchor.
pub open spec fn spec_button(
    x: int,
    y: int,
    v_attach: VAttach,
    h_attach: HAttach,
    text: Seq<char>,
    action: Option<ClickAction>,
) -> ButtonView {
    ButtonView {
        x,
        y,
        width: BUTTON_WIDTH as int,
        height: BUTTON_HEIGHT as int,
        v_attach,
        h_attach,
        text,
        action,
    }
}

/// The "Done" button every screen shows at the bottom centre: it pops the
/// screen off the stack.
pub open spec fn spec_done_button() -> ButtonView {
    spec_button(
        0,
        5000,
        VAttach::Bottom,
        HAttach::Center,
        "Done"@,
        Some(ClickAction::PopScreen),
    )
}

fn background_image() -> (img: Image)
    ensures
        img@ == spec_background(),
{
    let img = Image {
        texture: "leafish:solid".to_owned(),
        x: 0,
        y: 0,
        width: VIRTUAL_WIDTH,
        height: VIRTUAL_HEIGHT,
        colour: (0, 0, 0, 100),
    };
    proof {
        assert(img@ =~~= spec_background());
    }
    img
}

fn standard_button(
    x: i64,
    y: i64,
    v_attach: VAttach,
    h_attach: HAttach,
    text: String,
    action: Option<ClickAction>,
) -> (b: Button)
    ensures
        b@ == spec_button(x as int, y as int, v_attach, h_attach, text@, action),
{
    Button { x, y, width: BUTTON_WIDTH, height: BUTTON_HEIGHT, v_attach, h_attach, text, action }
}

fn done_button() -> (b: Button)
    ensures
        b@ == spec_done_button(),
{
    standard_button(
        0,
        5000,
        VAttach::Bottom,
        HAttach::Center,
        "Done".to_owned(),
        Some(ClickAction::PopScreen),
    )
}

/// The hub's buttons: the 2x3 navigation grid (the language button is a
/// deliberate stub with no command), the "Done" button, and — exactly when
/// the hub was constructed with the disconnect flag — the "Disconnect"
/// button.
pub open spec fn spec_hub_buttons(show_disconnect_button: bool) -> Seq<ButtonView> {
    let base = seq![
        spec_button(
            -16000,
            -5000,
            VAttach::Middle,
            HAttach::Center,
            "Audio settings..."@,
            Some(ClickAction::PushScreen(ScreenKind::Audio)),
        ),
        spec_button(
            16000,
            -5000,
            VAttach::Middle,
            HAttach::Center,
            "Video settings..."@,
            Some(ClickAction::PushScreen(ScreenKind::Video)),
        ),
        spec_button(
            16000,
            0,
            VAttach::Middle,
            HAttach::Center,
            "Controls..."@,
            Some(ClickAction::PushScreen(ScreenKind::Controls)),
        ),
        spec_button(-16000, 0, VAttach::Middle, HAttach::Center, "Language..."@, None),
        spec_button(
            16000,
            -10000,
            VAttach::Middle,
            HAttach::Center,
            "Skin Customization..."@,
            Some(ClickAction::PushScreen(ScreenKind::Skin)),
        ),
        spec_done_button(),
    ];
    if show_disconnect_button {
        base + seq![
            spec_button(
                0,
                10000,
                VAttach::Bottom,
                HAttach::Center,
                "Disconnect"@,
                Some(ClickAction::Disconnect),
            ),
        ]
    } else {
        base
    }
}

/// The hub's widget bundle.
pub open spec fn spec_hub_elements(show_disconnect_button: bool) -> UIElementsView {
    UIElementsView {
        background: spec_background(),
        buttons: spec_hub_buttons(show_disconnect_button),
        sliders: seq![],
    }
}

/// Builds the hub's widget bundle: the navigation grid, "Done", and the
/// "Disconnect" button exactly when the flag is set.
pub fn build_hub_elements(show_disconnect_button: bool) -> (e: UIElements)
    ensures
        e@ == spec_hub_elements(show_disconnect_button),
{
    let background = background_image();
    let mut buttons: Vec<Button> = Vec::new();
    buttons.push(
        standard_button(
            -16000,
            -5000,
            VAttach::Middle,
            HAttach::Center,
            "Audio settings...".to_owned(),
            Some(ClickAction::PushScreen(ScreenKind::Audio)),
        ),
    );
    buttons.push(
        standard_button(
            16000,
            -5000,
            VAttach::Middle,
            HAttach::Center,
            "Video settings...".to_owned(),
            Some(ClickAction::PushScreen(ScreenKind::Video)),
        ),
    );
    buttons.push(
        standard_button(
            16000,
            0,
            VAttach::Middle,
            HAttach::Center,
            "Controls...".to_owned(),
            Some(ClickAction::PushScreen(ScreenKind::Controls)),
        ),
    );
    buttons.push(
        standard_button(
            -16000,
            0,
            VAttach::Middle,
            HAttach::Center,
            "Language...".to_owned(),
            None,
        ),
    );
    buttons.push(
        standard_button(
            16000,
            -10000,
            VAttach::Middle,
            HAttach::Center,
            "Skin Customization...".to_owned(),
            Some(ClickAction::PushScreen(ScreenKind::Skin)),
        ),
    );
    buttons.push(done_button());
    if show_disconnect_button {
        buttons.push(
            standard_button(
                0,
                10000,
                VAttach::Bottom,
                HAttach::Center,
                "Disconnect".to_owned(),
                Some(ClickAction::Disconnect),
            ),
        );
    }
    let e = UIElements { background, buttons, sliders: Vec::new() };
    proof {
        assert(e@ =~~= spec_hub_elements(show_disconnect_button));
    }
    e
}

/// The top-level settings hub: navigation to the other settings screens,
/// and optionally a "Disconnect" button.
pub struct SettingsMenu {
    pub show_disconnect_button: bool,
    pub elements: Option<UIElements>,
}

impl SettingsMenu {
    /// A fresh, inactive hub; its "Disconnect" button exists exactly when
    /// the flag is set.
    pub fn new(show_disconnect_button: bool) -> (r: SettingsMenu)
        ensures
            r.show_disconnect_button == show_disconnect_button,
            r.elements is None,
    {
        SettingsMenu { show_disconnect_button, elements: None }
    }
}

impl Clone for SettingsMenu {
    /// An inactive copy with the same configuration.
    fn clone(&self) -> (r: Self)
        ensures
            r.show_disconnect_button == self.show_disconnect_button,
            r.elements is None,
    {
        SettingsMenu { show_disconnect_button: self.show_disconnect_button, elements: None }
    }
}

impl Screen for SettingsMenu {
    open spec fn elements_view(&self) -> Option<UIElementsView> {
        match self.elements {
            Some(e) => Some(e@),
            None => None,
        }
    }

    open spec fn config_eq(&self, other: &Self) -> bool {
        self.show_disconnect_button == other.show_disconnect_button
    }

    open spec fn build_ok(&self, store: SettingStore) -> bool {
        true
    }

    open spec fn built_view(&self, store: SettingStore) -> UIElementsView {
        spec_hub_elements(self.show_disconnect_button)
    }

    fn on_active(&mut self, _store: &SettingStore) {
        self.elements = Some(build_hub_elements(self.show_disconnect_button));
    }

    fn on_deactive(&mut self) {
        self.elements = None;
    }

    fn tick(&mut self, mode: Mode, screen_width: u32, screen_height: u32) {
        match &mut self.elements {
            Some(e) => resize_background(&mut e.background, mode, screen_width, screen_height),
            None => {},
        }
        proof {
            assert(final(self).elements_view()->0 =~~= spec_resized(
                old(self).elements_view()->0,
                mode,
                screen_width,
                screen_height,
            ));
        }
    }

    fn on_scroll(&mut self, _dx: i64, _dy: i64) {
    }

    fn is_closable(&self) -> (r: bool) {
        true
    }

    fn clone_screen(&self) -> (r: Self) {
        self.clone()
    }
}

/// The video screen's buttons: the display-only FOV and FPS-cap labels, the
/// vsync toggle, and "Done".
pub open spec fn spec_video_buttons(s: SettingStore) -> Seq<ButtonView> {
    seq![
        spec_button(
            16000,
            -5000,
            VAttach::Middle,
            HAttach::Center,
            spec_fov_label(s.fov as int),
            None,
        ),
        spec_button(
            -16000,
            0,
            VAttach::Middle,
            HAttach::Center,
            spec_vsync_label(s.vsync),
            Some(ClickAction::ToggleVsync),
        ),
        spec_button(
            16000,
            0,
            VAttach::Middle,
            HAttach::Center,
            spec_fps_label(s.max_fps as int),
            None,
        ),
        spec_done_button(),
    ]
}

/// The video screen's widget bundle.
pub open spec fn spec_video_elements(s: SettingStore) -> UIElementsView {
    UIElementsView {
        background: spec_background(),
        buttons: spec_video_buttons(s),
        sliders: seq![],
    }
}

/// Builds the video screen's widget bundle, seeding the FOV, vsync and
/// FPS-cap labels from the store's current values.
pub fn build_video_elements(store: &SettingStore) -> (e: UIElements)
    ensures
        e@ == spec_video_elements(*store),
{
    let background = background_image();
    let r_max_fps = store.get_int(IntSetting::MaxFps);
    let r_fov = store.get_int(IntSetting::Fov);
    let r_vsync = store.get_bool(BoolSetting::Vsync);

    let mut buttons: Vec<Button> = Vec::new();
    buttons.push(
        standard_button(16000, -5000, VAttach::Middle, HAttach::Center, fov_label(r_fov), None),
    );
    buttons.push(
        standard_button(
            -16000,
            0,
            VAttach::Middle,
            HAttach::Center,
            vsync_label(r_vsync),
            Some(ClickAction::ToggleVsync),
        ),
    );
    buttons.push(
        standard_button(16000, 0, VAttach::Middle, HAttach::Center, fps_label(r_max_fps), None),
    );
    buttons.push(done_button());
    let e = UIElements { background, buttons, sliders: Vec::new() };
    proof {
        assert(e@ =~~= spec_video_elements(*store));
    }
    e
}

/// The video settings screen: FOV and FPS-cap labels (display-only stubs)
/// and the vsync toggle.
pub struct VideoSettingsMenu {
    pub elements: Option<UIElements>,
}

impl VideoSettingsMenu {
    /// A fresh, inactive video settings screen.
    pub fn new() -> (r: VideoSettingsMenu)
        ensures
            r.elements is None,
    {
        VideoSettingsMenu { elements: None }
    }
}

impl Clone for VideoSettingsMenu {
    /// An inactive copy.
    fn clone(&self) -> (r: Self)
        ensures
            r.elements is None,
    {
        VideoSettingsMenu { elements: None }
    }
}

impl Screen for VideoSettingsMenu {
    open spec fn elements_view(&self) -> Option<UIElementsView> {
        match self.elements {
            Some(e) => Some(e@),
            None => None,
        }
    }

    open spec fn config_eq(&self, other: &Self) -> bool {
        true
    }

    open spec fn build_ok(&self, store: SettingStore) -> bool {
        true
    }

    open spec fn built_view(&self, store: SettingStore) -> UIElementsView {
        spec_video_elements(store)
    }

    fn on_active(&mut self, store: &SettingStore) {
        self.elements = Some(build_video_elements(store));
    }

    fn on_deactive(&mut self) {
        self.elements = None;
    }

    fn tick(&mut self, mode: Mode, screen_width: u32, screen_height: u32) {
        match &mut self.elements {
            Some(e) => resize_background(&mut e.background, mode, screen_width, screen_height),
            None => {},
        }
        proof {
            assert(final(self).elements_view()->0 =~~= spec_resized(
                old(self).elements_view()->0,
                mode,
                screen_width,
                screen_height,
            ));
        }
    }

    fn on_scroll(&mut self, _dx: i64, _dy: i64) {
    }

    fn is_closable(&self) -> (r: bool) {
        true
    }

    fn clone_screen(&self) -> (r: Self) {
        self.clone()
    }
}

/// The audio screen's widget bundle: background and "Done" only.
pub open spec fn spec_audio_elements() -> UIElementsView {
    UIElementsView {
        background: spec_background(),
        buttons: seq![spec_done_button()],
        sliders: seq![],
    }
}

/// Builds the audio screen's widget bundle.
pub fn build_audio_elements() -> (e: UIElements)
    ensures
        e@ == spec_audio_elements(),
{
    let background = background_image();
    let mut buttons: Vec<Button> = Vec::new();
    buttons.push(done_button());
    let e = UIElements { background, buttons, sliders: Vec::new() };
    proof {
        assert(e@ =~~= spec_audio_elements());
    }
    e
}

/// The audio settings screen: a stub exposing no settings yet, only a
/// background and "Done".
pub struct AudioSettingsMenu {
    pub elements: Option<UIElements>,
}

impl AudioSettingsMenu {
    /// A fresh, inactive audio settings screen.
    pub fn new() -> (r: AudioSettingsMenu)
        ensures
            r.elements is None,
    {
        AudioSettingsMenu { elements: None }
    }
}

impl Clone for AudioSettingsMenu {
    /// An inactive copy.
    fn clone(&self) -> (r: Self)
        ensures
            r.elements is None,
    {
        AudioSettingsMenu { elements: None }
    }
}

impl Screen for AudioSettingsMenu {
    open spec fn elements_view(&self) -> Option<UIElementsView> {
        match self.elements {
            Some(e) => Some(e@),
            None => None,
        }
    }

    open spec fn config_eq(&self, other: &Self) -> bool {
        true
    }

    open spec fn build_ok(&self, store: SettingStore) -> bool {
        true
    }

    open spec fn built_view(&self, store: SettingStore) -> UIElementsView {
        spec_audio_elements()
    }

    fn on_active(&mut self, _store: &SettingStore) {
        self.elements = Some(build_audio_elements());
    }

    fn on_deactive(&mut self) {
        self.elements = None;
    }

    fn tick(&mut self, mode: Mode, screen_width: u32, screen_height: u32) {
        match &mut self.elements {
            Some(e) => resize_background(&mut e.background, mode, screen_width, screen_height),
            None => {},
        }
        proof {
            assert(final(self).elements_view()->0 =~~= spec_resized(
                old(self).elements_view()->0,
                mode,
                screen_width,
                screen_height,
            ));
        }
    }

    fn on_scroll(&mut self, _dx: i64, _dy: i64) {
    }

    fn is_closable(&self) -> (r: bool) {
        true
    }

    fn clone_screen(&self) -> (r: Self) {
        self.clone()
    }
}

/// The skin screen's buttons: the hat-visibility toggle and "Done". The
/// other cosmetic flags are not surfaced in the UI yet.
pub open spec fn spec_skin_buttons(s: SettingStore) -> Seq<ButtonView> {
    seq![
        spec_button(
            16000,
            -5000,
            VAttach::Middle,
            HAttach::Center,
            spec_hat_label(s.hat_visible),
            Some(ClickAction::ToggleHat),
        ),
        spec_done_button(),
    ]
}

/// The skin screen's widget bundle.
pub open spec fn spec_skin_elements(s: SettingStore) -> UIElementsView {
    UIElementsView {
        background: spec_background(),
        buttons: spec_skin_buttons(s),
        sliders: seq![],
    }
}

/// Builds the skin screen's widget bundle, seeding the hat label from the
/// store's current value.
pub fn build_skin_elements(store: &SettingStore) -> (e: UIElements)
    ensures
        e@ == spec_skin_elements(*store),
{
    let background = background_image();
    let s_hat = store.get_bool(BoolSetting::HatVisible);

    let mut buttons: Vec<Button> = Vec::new();
    buttons.push(
        standard_button(
            16000,
            -5000,
            VAttach::Middle,
            HAttach::Center,
            hat_label(s_hat),
            Some(ClickAction::ToggleHat),
        ),
    );
    buttons.push(done_button());
    let e = UIElements { background, buttons, sliders: Vec::new() };
    proof {
        assert(e@ =~~= spec_skin_elements(*store));
    }
    e
}

/// The skin customization screen: the hat-visibility toggle.
pub struct SkinSettingsMenu {
    pub elements: Option<UIElements>,
}

impl SkinSettingsMenu {
    /// A fresh, inactive skin customization screen.
    pub fn new() -> (r: SkinSettingsMenu)
        ensures
            r.elements is None,
    {
        SkinSettingsMenu { elements: None }
    }
}

impl Clone for SkinSettingsMenu {
    /// An inactive copy.
    fn clone(&self) -> (r: Self)
        ensures
            r.elements is None,
    {
        SkinSettingsMenu { elements: None }
    }
}

impl Screen for SkinSettingsMenu {
    open spec fn elements_view(&self) -> Option<UIElementsView> {
        match self.elements {
            Some(e) => Some(e@),
            None => None,
        }
    }

    open spec fn config_eq(&self, other: &Self) -> bool {
        true
    }

    open spec fn build_ok(&self, store: SettingStore) -> bool {
        true
    }

    open spec fn built_view(&self, store: SettingStore) -> UIElementsView {
        spec_skin_elements(store)
    }

    fn on_active(&mut self, store: &SettingStore) {
        self.elements = Some(build_skin_elements(store));
    }

    fn on_deactive(&mut self) {
        self.elements = None;
    }

    fn tick(&mut self, mode: Mode, screen_width: u32, screen_height: u32) {
        match &mut self.elements {
            Some(e) => resize_background(&mut e.background, mode, screen_width, screen_height),
            None => {},
        }
        proof {
            assert(final(self).elements_view()->0 =~~= spec_resized(
                old(self).elements_view()->0,
                mode,
                screen_width,
                screen_height,
            ));
        }
    }

    fn on_scroll(&mut self, _dx: i64, _dy: i64) {
    }

    fn is_closable(&self) -> (r: bool) {
        true
    }

    fn clone_screen(&self) -> (r: Self) {
        self.clone()
    }
}

/// The controls screen's slider: the mouse-sensitivity control, its label
/// showing the current value and its button at the position the linear map
/// gives (no clamping is applied at construction).
pub open spec fn spec_sense_slider(s: SettingStore) -> SliderView {
    SliderView {
        x: 16000,
        y: -5000,
        width: BUTTON_WIDTH as int,
        height: BUTTON_HEIGHT as int,
        v_attach: VAttach::Middle,
        h_attach: HAttach::Center,
        text: spec_sense_label(s.mouse_sense as int),
        button_x: spec_slider_pos(s.mouse_sense as int),
    }
}

/// The controls screen's widget bundle.
pub open spec fn spec_controls_elements(s: SettingStore) -> UIElementsView {
    UIElementsView {
        background: spec_background(),
        buttons: seq![spec_done_button()],
        sliders: seq![spec_sense_slider(s)],
    }
}

/// Builds the controls screen's widget bundle, seeding the sensitivity
/// slider from the store's current value.
pub fn build_controls_elements(store: &SettingStore) -> (e: UIElements)
    requires
        -SENSE_LIMIT <= store.mouse_sense <= SENSE_LIMIT,
    ensures
        e@ == spec_controls_elements(*store),
{
    let r_mouse_sens = store.get_float(FloatSetting::MouseSense);

    let background = background_image();
    let mut buttons: Vec<Button> = Vec::new();
    buttons.push(done_button());

    let mut sliders: Vec<Slider> = Vec::new();
    let slider = Slider {
        x: 16000,
        y: -5000,
        width: BUTTON_WIDTH,
        height: BUTTON_HEIGHT,
        v_attach: VAttach::Middle,
        h_attach: HAttach::Center,
        text: sense_label(r_mouse_sens),
        button_x: slider_pos_of_sense(r_mouse_sens),
    };
    sliders.push(slider);

    let e = UIElements { background, buttons, sliders };
    proof {
        assert(e@ =~~= spec_controls_elements(*store));
    }
    e
}

/// The controls screen: the mouse-sensitivity slider.
pub struct ControlsMenu {
    pub elements: Option<UIElements>,
}

impl ControlsMenu {
    /// A fresh, inactive controls screen.
    pub fn new() -> (r: ControlsMenu)
        ensures
            r.elements is None,
    {
        ControlsMenu { elements: None }
    }
}

impl Clone for ControlsMenu {
    /// An inactive copy.
    fn clone(&self) -> (r: Self)
        ensures
            r.elements is None,
    {
        ControlsMenu { elements: None }
    }
}

impl Screen for ControlsMenu {
    open spec fn elements_view(&self) -> Option<UIElementsView> {
        match self.elements {
            Some(e) => Some(e@),
            None => None,
        }
    }

    open spec fn config_eq(&self, other: &Self) -> bool {
        true
    }

    open spec fn build_ok(&self, store: SettingStore) -> bool {
        -SENSE_LIMIT <= store.mouse_sense <= SENSE_LIMIT
    }

    open spec fn built_view(&self, store: SettingStore) -> UIElementsView {
        spec_controls_elements(store)
    }

    fn on_active(&mut self, store: &SettingStore) {
        self.elements = Some(build_controls_elements(store));
    }

    fn on_deactive(&mut self) {
        self.elements = None;
    }

    fn tick(&mut self, mode: Mode, screen_width: u32, screen_height: u32) {
        match &mut self.elements {
            Some(e) => resize_background(&mut e.background, mode, screen_width, screen_height),
            None => {},
        }
        proof {
            assert(final(self).elements_view()->0 =~~= spec_resized(
                old(self).elements_view()->0,
                mode,
                screen_width,
                screen_height,
            ));
        }
    }

    fn on_scroll(&mut self, _dx: i64, _dy: i64) {
    }

    fn is_closable(&self) -> (r: bool) {
        true
    }

    fn clone_screen(&self) -> (r: Self) {
        self.clone()
    }
}

} // verus!
