//! Screen lifecycle: activation builds the widget bundle from the current
//! setting values, deactivation discards it, the tick resizes the
//! background, and cloning yields an inactive copy.

use settings_menu::menus::{
    AudioSettingsMenu, ControlsMenu, SettingsMenu, SkinSettingsMenu, VideoSettingsMenu,
};
use settings_menu::screen::Screen;
use settings_menu::settings::SettingStore;
use settings_menu::widget::{ClickAction, Mode, ScreenKind};

fn store() -> SettingStore {
    SettingStore {
        vsync: true,
        hat_visible: false,
        jacket_visible: false,
        cape_visible: false,
        right_sleeve_visible: false,
        left_sleeve_visible: false,
        right_pants_visible: false,
        left_pants_visible: false,
        max_fps: 60,
        fov: 90,
        mouse_sense: 150,
    }
}

#[test]
fn hub_grid_and_done() {
    let s = store();
    let mut hub = SettingsMenu::new(false);
    assert!(hub.elements.is_none());
    hub.on_active(&s);
    let e = hub.elements.as_ref().unwrap();
    assert_eq!(e.buttons.len(), 6);
    assert_eq!(e.buttons[0].text.as_str(), "Audio settings...");
    assert_eq!(e.buttons[0].action, Some(ClickAction::PushScreen(ScreenKind::Audio)));
    assert_eq!(e.buttons[1].text.as_str(), "Video settings...");
    assert_eq!(e.buttons[2].text.as_str(), "Controls...");
    assert_eq!(e.buttons[3].text.as_str(), "Language...");
    assert_eq!(e.buttons[3].action, None);
    assert_eq!(e.buttons[4].text.as_str(), "Skin Customization...");
    assert_eq!(e.buttons[5].text.as_str(), "Done");
    assert_eq!(e.buttons[5].action, Some(ClickAction::PopScreen));
    assert_eq!(e.sliders.len(), 0);
    assert_eq!(e.background.texture.as_str(), "leafish:solid");
    assert_eq!(e.background.colour, (0, 0, 0, 100));
}

#[test]
fn hub_disconnect_button_iff_flag() {
    let s = store();
    let mut with_flag = SettingsMenu::new(true);
    with_flag.on_active(&s);
    let e = with_flag.elements.as_ref().unwrap();
    assert_eq!(e.buttons.len(), 7);
    assert_eq!(e.buttons[6].text.as_str(), "Disconnect");
    assert_eq!(e.buttons[6].action, Some(ClickAction::Disconnect));

    let mut without_flag = SettingsMenu::new(false);
    without_flag.on_active(&s);
    let e = without_flag.elements.as_ref().unwrap();
    assert!(e.buttons.iter().all(|b| b.action != Some(ClickAction::Disconnect)));
    assert!(e.buttons.iter().all(|b| b.text.as_str() != "Disconnect"));
}

#[test]
fn video_labels_seeded_from_store() {
    let s = store();
    let mut video = VideoSettingsMenu::new();
    video.on_active(&s);
    let e = video.elements.as_ref().unwrap();
    assert_eq!(e.buttons.len(), 4);
    assert_eq!(e.buttons[0].text.as_str(), "FOV: Normal");
    assert_eq!(e.buttons[0].action, None);
    assert_eq!(e.buttons[1].text.as_str(), "VSync: Enabled");
    assert_eq!(e.buttons[1].action, Some(ClickAction::ToggleVsync));
    assert_eq!(e.buttons[2].text.as_str(), "FPS cap: 60");
    assert_eq!(e.buttons[2].action, None);
    assert_eq!(e.buttons[3].text.as_str(), "Done");
}

#[test]
fn video_labels_special_values() {
    let mut s = store();
    s.fov = 110;
    s.max_fps = 0;
    s.vsync = false;
    let mut video = VideoSettingsMenu::new();
    video.on_active(&s);
    let e = video.elements.as_ref().unwrap();
    assert_eq!(e.buttons[0].text.as_str(), "FOV: Quake pro");
    assert_eq!(e.buttons[1].text.as_str(), "VSync: Disabled");
    assert_eq!(e.buttons[2].text.as_str(), "FPS cap: Unlimited");
}

#[test]
fn audio_is_a_stub() {
    let s = store();
    let mut audio = AudioSettingsMenu::new();
    audio.on_active(&s);
    let e = audio.elements.as_ref().unwrap();
    assert_eq!(e.buttons.len(), 1);
    assert_eq!(e.buttons[0].text.as_str(), "Done");
    assert_eq!(e.sliders.len(), 0);
}

#[test]
fn skin_hat_toggle_seeded_from_store() {
    let mut s = store();
    s.hat_visible = true;
    let mut skin = SkinSettingsMenu::new();
    skin.on_active(&s);
    let e = skin.elements.as_ref().unwrap();
    assert_eq!(e.buttons.len(), 2);
    assert_eq!(e.buttons[0].text.as_str(), "Hat: On");
    assert_eq!(e.buttons[0].action, Some(ClickAction::ToggleHat));
    assert_eq!(e.buttons[1].text.as_str(), "Done");
}

#[test]
fn controls_slider_seeded_from_store() {
    let s = store();
    let mut controls = ControlsMenu::new();
    controls.on_active(&s);
    let e = controls.elements.as_ref().unwrap();
    assert_eq!(e.buttons.len(), 1);
    assert_eq!(e.sliders.len(), 1);
    assert_eq!(e.sliders[0].text.as_str(), "Mouse Sensitivity: 1.50x");
    assert_eq!(e.sliders[0].button_x, 150 * 30 - 15000);
}

#[test]
fn deactivation_discards_widgets() {
    let s = store();
    let mut video = VideoSettingsMenu::new();
    video.on_active(&s);
    assert!(video.elements.is_some());
    video.on_deactive();
    assert!(video.elements.is_none());
}

#[test]
fn tick_resizes_background_unscaled() {
    let s = store();
    let mut video = VideoSettingsMenu::new();
    video.on_active(&s);
    // A 2x scale factor, stored in hundredths.
    video.tick(Mode::Unscaled(200), 1920, 1080);
    let e = video.elements.as_ref().unwrap();
    assert_eq!(e.background.width, 42700);
    assert_eq!(e.background.height, 24000);
}

#[test]
fn tick_resizes_background_scaled() {
    let s = store();
    let mut hub = SettingsMenu::new(false);
    hub.on_active(&s);
    hub.tick(Mode::Scaled, 1920, 1080);
    let e = hub.elements.as_ref().unwrap();
    assert_eq!(e.background.width, 192000);
    assert_eq!(e.background.height, 108000);
}

#[test]
fn tick_after_deactivation_is_a_noop() {
    // The contract forbids ticking an inactive screen; the body is still a
    // documented no-op, so the sequence active, tick, deactive, tick leaves
    // the screen inactive and does not panic.
    let s = store();
    let mut audio = AudioSettingsMenu::new();
    audio.on_active(&s);
    audio.tick(Mode::Scaled, 800, 600);
    audio.on_deactive();
    audio.tick(Mode::Scaled, 800, 600);
    assert!(audio.elements.is_none());
}

#[test]
fn scroll_is_a_noop_and_screens_are_closable() {
    let s = store();
    let mut skin = SkinSettingsMenu::new();
    skin.on_active(&s);
    skin.on_scroll(300, -400);
    let e = skin.elements.as_ref().unwrap();
    assert_eq!(e.buttons.len(), 2);
    assert!(skin.is_closable());
    assert!(SettingsMenu::new(true).is_closable());
    assert!(VideoSettingsMenu::new().is_closable());
    assert!(AudioSettingsMenu::new().is_closable());
    assert!(ControlsMenu::new().is_closable());
}

#[test]
fn clone_of_active_screen_is_inactive() {
    let s = store();
    let mut hub = SettingsMenu::new(true);
    hub.on_active(&s);
    assert!(hub.elements.is_some());
    let copy = hub.clone_screen();
    assert!(copy.elements.is_none());
    assert_eq!(copy.show_disconnect_button, true);
    // The original keeps its live widgets.
    assert!(hub.elements.is_some());

    let mut controls = ControlsMenu::new();
    controls.on_active(&s);
    let copy = controls.clone_screen();
    assert!(copy.elements.is_none());
}
