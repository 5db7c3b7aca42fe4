//! Label formatting is pure and total: exact texts for the special-cased
//! and the generic values.

use settings_menu::label::{
    centi_decimal_string, decimal_string, fov_label, fov_text, fps_label, fps_text, hat_label,
    hat_text, int_decimal_string, sense_label, vsync_label, vsync_text,
};

#[test]
fn fov_special_cases() {
    assert_eq!(fov_text(90).as_str(), "Normal");
    assert_eq!(fov_text(110).as_str(), "Quake pro");
}

#[test]
fn fov_other_values_are_decimal() {
    assert_eq!(fov_text(75).as_str(), "75");
    assert_eq!(fov_text(0).as_str(), "0");
    assert_eq!(fov_text(-5).as_str(), "-5");
}

#[test]
fn fov_full_label() {
    assert_eq!(fov_label(90).as_str(), "FOV: Normal");
    assert_eq!(fov_label(110).as_str(), "FOV: Quake pro");
    assert_eq!(fov_label(103).as_str(), "FOV: 103");
}

#[test]
fn fps_cap_zero_is_unlimited() {
    assert_eq!(fps_text(0).as_str(), "Unlimited");
    assert_eq!(fps_label(0).as_str(), "FPS cap: Unlimited");
}

#[test]
fn fps_cap_other_values_are_decimal() {
    assert_eq!(fps_text(240).as_str(), "240");
    assert_eq!(fps_label(60).as_str(), "FPS cap: 60");
}

#[test]
fn vsync_texts() {
    assert_eq!(vsync_text(true).as_str(), "Enabled");
    assert_eq!(vsync_text(false).as_str(), "Disabled");
    assert_eq!(vsync_label(true).as_str(), "VSync: Enabled");
    assert_eq!(vsync_label(false).as_str(), "VSync: Disabled");
}

#[test]
fn hat_texts() {
    assert_eq!(hat_text(true).as_str(), "On");
    assert_eq!(hat_text(false).as_str(), "Off");
    assert_eq!(hat_label(true).as_str(), "Hat: On");
    assert_eq!(hat_label(false).as_str(), "Hat: Off");
}

#[test]
fn decimal_rendering() {
    assert_eq!(decimal_string(0).as_str(), "0");
    assert_eq!(decimal_string(7).as_str(), "7");
    assert_eq!(decimal_string(10).as_str(), "10");
    assert_eq!(decimal_string(987654321).as_str(), "987654321");
    assert_eq!(decimal_string(u64::MAX).as_str(), "18446744073709551615");
}

#[test]
fn signed_decimal_rendering() {
    assert_eq!(int_decimal_string(0).as_str(), "0");
    assert_eq!(int_decimal_string(-1).as_str(), "-1");
    assert_eq!(int_decimal_string(i32::MAX).as_str(), "2147483647");
    assert_eq!(int_decimal_string(i32::MIN).as_str(), "-2147483648");
}

#[test]
fn sensitivity_two_decimal_places() {
    assert_eq!(centi_decimal_string(150).as_str(), "1.50");
    assert_eq!(centi_decimal_string(0).as_str(), "0.00");
    assert_eq!(centi_decimal_string(7).as_str(), "0.07");
    assert_eq!(centi_decimal_string(-7).as_str(), "-0.07");
    assert_eq!(centi_decimal_string(12345).as_str(), "123.45");
}

#[test]
fn sensitivity_full_label() {
    assert_eq!(sense_label(150).as_str(), "Mouse Sensitivity: 1.50x");
    assert_eq!(sense_label(633).as_str(), "Mouse Sensitivity: 6.33x");
    assert_eq!(sense_label(-50).as_str(), "Mouse Sensitivity: -0.50x");
}
