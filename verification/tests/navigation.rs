//! The click interpreter against the game state: navigation pushes, pops
//! and replaces exactly one screen; toggles write through to the store and
//! relabel their button; disconnect ends the session.

use settings_menu::game::{AnyScreen, Game};
use settings_menu::menus::{SettingsMenu, SkinSettingsMenu, VideoSettingsMenu};
use settings_menu::settings::SettingStore;
use settings_menu::widget::Mode;

fn store() -> SettingStore {
    SettingStore {
        vsync: true,
        hat_visible: false,
        jacket_visible: false,
        cape_visible: false,
        right_sleeve_visible: false,
        left_sleeve_visible: false,
        right_pants_visible: false,
        left_pants_visible: false,
        max_fps: 60,
        fov: 90,
        mouse_sense: 150,
    }
}

fn top_buttons(game: &Game) -> &Vec<settings_menu::widget::Button> {
    let top = game.stack.last().unwrap();
    let elements = match top {
        AnyScreen::Settings(s) => &s.elements,
        AnyScreen::Video(s) => &s.elements,
        AnyScreen::Audio(s) => &s.elements,
        AnyScreen::Skin(s) => &s.elements,
        AnyScreen::Controls(s) => &s.elements,
        AnyScreen::ServerList(_) => panic!("server list has no modelled widgets"),
    };
    &elements.as_ref().unwrap().buttons
}

#[test]
fn done_pops_exactly_one_screen() {
    let mut game = Game::new(store(), false);
    game.add_screen(AnyScreen::Settings(SettingsMenu::new(false)));
    game.add_screen(AnyScreen::Video(VideoSettingsMenu::new()));
    assert_eq!(game.stack.len(), 2);
    // "Done" is the last button of the video screen.
    let handled = game.click_top_button(3);
    assert!(handled);
    assert_eq!(game.stack.len(), 1);
    // The revealed hub is re-activated.
    match game.stack.last().unwrap() {
        AnyScreen::Settings(s) => assert!(s.elements.is_some()),
        _ => panic!("expected the hub under the video screen"),
    }
}

#[test]
fn hub_buttons_push_one_screen_of_the_right_kind() {
    let mut game = Game::new(store(), false);
    game.add_screen(AnyScreen::Settings(SettingsMenu::new(false)));

    // Audio settings...
    assert!(game.click_top_button(0));
    assert_eq!(game.stack.len(), 2);
    assert!(matches!(game.stack.last().unwrap(), AnyScreen::Audio(_)));
    // The covered hub is deactivated.
    match &game.stack[0] {
        AnyScreen::Settings(s) => assert!(s.elements.is_none()),
        _ => panic!("expected the hub at the bottom"),
    }
    assert!(game.click_top_button(0)); // Done on the audio screen
    assert_eq!(game.stack.len(), 1);

    // Video settings...
    assert!(game.click_top_button(1));
    assert!(matches!(game.stack.last().unwrap(), AnyScreen::Video(_)));
    assert!(game.click_top_button(3));

    // Controls...
    assert!(game.click_top_button(2));
    assert!(matches!(game.stack.last().unwrap(), AnyScreen::Controls(_)));
    assert!(game.click_top_button(0));

    // Skin Customization...
    assert!(game.click_top_button(4));
    assert!(matches!(game.stack.last().unwrap(), AnyScreen::Skin(_)));
    assert!(game.click_top_button(1));

    assert_eq!(game.stack.len(), 1);
}

#[test]
fn language_button_is_inert() {
    let mut game = Game::new(store(), false);
    game.add_screen(AnyScreen::Settings(SettingsMenu::new(false)));
    let handled = game.click_top_button(3);
    assert!(!handled);
    assert_eq!(game.stack.len(), 1);
    assert_eq!(game.settings, store());
}

#[test]
fn disconnect_ends_session_pops_and_replaces() {
    let mut game = Game::new(store(), true);
    game.add_screen(AnyScreen::ServerList(
        settings_menu::game::ServerListScreen { active: false },
    ));
    game.add_screen(AnyScreen::Settings(SettingsMenu::new(true)));
    assert_eq!(game.stack.len(), 2);
    assert_eq!(top_buttons(&game).len(), 7);

    let handled = game.click_top_button(6);
    assert!(handled);
    assert!(!game.connected);
    // One pop, then the revealed screen replaced by the server list.
    assert_eq!(game.stack.len(), 1);
    match game.stack.last().unwrap() {
        AnyScreen::ServerList(s) => assert!(s.active),
        _ => panic!("expected the server list on top"),
    }
}

#[test]
fn vsync_toggle_writes_through_and_relabels() {
    let mut game = Game::new(store(), false);
    game.add_screen(AnyScreen::Video(VideoSettingsMenu::new()));
    assert_eq!(top_buttons(&game)[1].text.as_str(), "VSync: Enabled");

    let handled = game.click_top_button(1);
    assert!(handled);
    assert!(!game.settings.vsync);
    assert_eq!(top_buttons(&game)[1].text.as_str(), "VSync: Disabled");
    // Everything else in the store is untouched.
    assert_eq!(game.settings.max_fps, 60);
    assert_eq!(game.settings.fov, 90);
    assert_eq!(game.settings.mouse_sense, 150);
}

#[test]
fn vsync_toggle_twice_restores_setting_and_label() {
    let mut game = Game::new(store(), false);
    game.add_screen(AnyScreen::Video(VideoSettingsMenu::new()));
    game.click_top_button(1);
    game.click_top_button(1);
    assert_eq!(game.settings, store());
    assert_eq!(top_buttons(&game)[1].text.as_str(), "VSync: Enabled");
}

#[test]
fn hat_toggle_reports_unhandled_and_writes_through() {
    let mut game = Game::new(store(), false);
    game.add_screen(AnyScreen::Skin(SkinSettingsMenu::new()));
    assert_eq!(top_buttons(&game)[0].text.as_str(), "Hat: Off");

    let handled = game.click_top_button(0);
    assert!(!handled);
    assert!(game.settings.hat_visible);
    assert_eq!(top_buttons(&game)[0].text.as_str(), "Hat: On");
}

#[test]
fn hat_toggle_twice_restores_setting_and_label() {
    let mut game = Game::new(store(), false);
    game.add_screen(AnyScreen::Skin(SkinSettingsMenu::new()));
    game.click_top_button(0);
    game.click_top_button(0);
    assert_eq!(game.settings, store());
    assert_eq!(top_buttons(&game)[0].text.as_str(), "Hat: Off");
}

#[test]
fn game_tick_resizes_top_background() {
    let mut game = Game::new(store(), false);
    game.add_screen(AnyScreen::Settings(SettingsMenu::new(false)));
    game.tick(Mode::Unscaled(100), 1280, 720);
    match game.stack.last().unwrap() {
        AnyScreen::Settings(s) => {
            let e = s.elements.as_ref().unwrap();
            assert_eq!(e.background.width, 85400);
            assert_eq!(e.background.height, 48000);
        },
        _ => panic!("expected the hub on top"),
    }
}

#[test]
fn clone_screen_of_active_stack_entry_is_inactive() {
    let mut game = Game::new(store(), false);
    game.add_screen(AnyScreen::Settings(SettingsMenu::new(true)));
    let copy = game.stack.last().unwrap().clone_screen();
    match copy {
        AnyScreen::Settings(s) => {
            assert!(s.elements.is_none());
            assert!(s.show_disconnect_button);
        },
        _ => panic!("expected a hub copy"),
    }
}
