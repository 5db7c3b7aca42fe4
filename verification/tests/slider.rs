//! The sensitivity slider: the linear position map, its inverse, the round
//! trip between them, and the drag handler's write-through.

use settings_menu::game::{AnyScreen, Game};
use settings_menu::menus::ControlsMenu;
use settings_menu::settings::SettingStore;
use settings_menu::widget::{sense_of_slider_pos, slider_pos_of_sense};

fn store_with_sense(mouse_sense: i64) -> SettingStore {
    SettingStore {
        vsync: true,
        hat_visible: false,
        jacket_visible: false,
        cape_visible: false,
        right_sleeve_visible: false,
        left_sleeve_visible: false,
        right_pants_visible: false,
        left_pants_visible: false,
        max_fps: 60,
        fov: 90,
        mouse_sense,
    }
}

#[test]
fn position_map_exact_values() {
    // A sensitivity of 1.50 sits at 30 * 150 - 15000 hundredths.
    assert_eq!(slider_pos_of_sense(150), -10500);
    // A sensitivity of 5.00 sits at the slider's right end.
    assert_eq!(slider_pos_of_sense(1000), 15000);
    assert_eq!(slider_pos_of_sense(0), -15000);
}

#[test]
fn inverse_map_exact_values() {
    assert_eq!(sense_of_slider_pos(-10500), 150);
    assert_eq!(sense_of_slider_pos(15000), 1000);
    assert_eq!(sense_of_slider_pos(-15000), 0);
    // The inverse map truncates toward zero, as the machine does.
    assert_eq!(sense_of_slider_pos(19000 - 15000), 633);
    assert_eq!(sense_of_slider_pos(-15029), 0);
    assert_eq!(sense_of_slider_pos(-15030), -1);
}

#[test]
fn round_trip_restores_sensitivity() {
    for sense in [0i64, 1, 27, 150, 633, 1000, -40, 250000] {
        assert_eq!(sense_of_slider_pos(slider_pos_of_sense(sense)), sense);
    }
}

#[test]
fn unclamped_out_of_range_seed() {
    // No clamping is applied at construction: an extreme persisted value
    // seeds an out-of-range position, faithfully.
    let s = store_with_sense(100000);
    let mut controls = ControlsMenu::new();
    settings_menu::screen::Screen::on_active(&mut controls, &s);
    let e = controls.elements.as_ref().unwrap();
    assert_eq!(e.sliders[0].button_x, 100000 * 30 - 15000);
}

#[test]
fn drag_writes_through_on_every_movement() {
    let mut game = Game::new(store_with_sense(150), false);
    game.add_screen(AnyScreen::Controls(ControlsMenu::new()));

    // Screen is 1000 px wide; the slider anchor sits 160 px right of the
    // centre; the pointer is at 700 px.
    let handled = game.drag_slider(0, 70000, 100000);
    assert!(handled);
    // Offset: 70000 - 50000 - 16000 = 4000; sensitivity (4000 + 15000) / 30.
    assert_eq!(game.settings.mouse_sense, 633);
    match game.stack.last().unwrap() {
        AnyScreen::Controls(c) => {
            let e = c.elements.as_ref().unwrap();
            assert_eq!(e.sliders[0].button_x, 4000);
            assert_eq!(e.sliders[0].text.as_str(), "Mouse Sensitivity: 6.33x");
        },
        _ => panic!("expected the controls screen on top"),
    }

    // A second movement writes through again.
    let handled = game.drag_slider(0, 35000, 100000);
    assert!(handled);
    // Offset: 35000 - 50000 - 16000 = -31000; truncating inverse map.
    assert_eq!(game.settings.mouse_sense, -533);
    match game.stack.last().unwrap() {
        AnyScreen::Controls(c) => {
            let e = c.elements.as_ref().unwrap();
            assert_eq!(e.sliders[0].button_x, -31000);
            assert_eq!(e.sliders[0].text.as_str(), "Mouse Sensitivity: -5.33x");
        },
        _ => panic!("expected the controls screen on top"),
    }
}
