//! Label formatting for the settings screens.
//!
//! Every label a screen displays is built here, and each builder's contract
//! pins the exact character sequence: the decimal rendering of integers, the
//! special-cased FOV and FPS-cap texts, the boolean texts, and the
//! mouse-sensitivity text with two fixed decimal places and a trailing `x`.

use vstd::prelude::*;
use vstd::string::StringExecFns;

verus! {

/// The character for one decimal digit.
pub open spec fn digit_char(d: nat) -> char {
    if d == 0 {
        '0'
    } else if d == 1 {
        '1'
    } else if d == 2 {
        '2'
    } else if d == 3 {
        '3'
    } else if d == 4 {
        '4'
    } else if d == 5 {
        '5'
    } else if d == 6 {
        '6'
    } else if d == 7 {
        '7'
    } else if d == 8 {
        '8'
    } else {
        '9'
    }
}

/// The decimal digits of a natural number, most significant first.
pub open spec fn spec_decimal(n: nat) -> Seq<char>
    decreases n,
{
    if n < 10 {
        seq![digit_char(n)]
    } else {
        spec_decimal(n / 10) + seq![digit_char(n % 10)]
    }
}

/// The decimal text of an integer: a minus sign for negative values, then
/// the digits of the magnitude.
pub open spec fn spec_int_decimal(v: int) -> Seq<char> {
    if v < 0 {
        "-"@ + spec_decimal((-v) as nat)
    } else {
        spec_decimal(v as nat)
    }
}

/// The text of a fixed-point magnitude in hundredths: the whole part, a
/// point, and exactly two fractional digits.
pub open spec fn spec_centi_magnitude(m: nat) -> Seq<char> {
    spec_decimal(m / 100) + "."@ + seq![digit_char((m % 100) / 10), digit_char(m % 100 % 10)]
}

/// The text of a fixed-point value in hundredths, signed.
pub open spec fn spec_centi_decimal(v: int) -> Seq<char> {
    if v < 0 {
        "-"@ + spec_centi_magnitude((-v) as nat)
    } else {
        spec_centi_magnitude(v as nat)
    }
}

/// The FOV value text: 90 and 110 have named texts, every other value shows
/// its decimal rendering.
pub open spec fn spec_fov_text(v: int) -> Seq<char> {
    if v == 90 {
        "Normal"@
    } else if v == 110 {
        "Quake pro"@
    } else {
        spec_int_decimal(v)
    }
}

/// The FPS-cap value text: 0 means no cap, every other value shows its
/// decimal rendering.
pub open spec fn spec_fps_text(v: int) -> Seq<char> {
    if v == 0 {
        "Unlimited"@
    } else {
        spec_int_decimal(v)
    }
}

/// The vsync value text.
pub open spec fn spec_vsync_text(on: bool) -> Seq<char> {
    if on {
        "Enabled"@
    } else {
        "Disabled"@
    }
}

/// The hat-visibility value text.
pub open spec fn spec_hat_text(on: bool) -> Seq<char> {
    if on {
        "On"@
    } else {
        "Off"@
    }
}

/// The full FOV button label.
pub open spec fn spec_fov_label(v: int) -> Seq<char> {
    "FOV: "@ + spec_fov_text(v)
}

/// The full FPS-cap button label.
pub open spec fn spec_fps_label(v: int) -> Seq<char> {
    "FPS cap: "@ + spec_fps_text(v)
}

/// The full vsync button label.
pub open spec fn spec_vsync_label(on: bool) -> Seq<char> {
    "VSync: "@ + spec_vsync_text(on)
}

/// The full hat-visibility button label.
pub open spec fn spec_hat_label(on: bool) -> Seq<char> {
    "Hat: "@ + spec_hat_text(on)
}

/// The full mouse-sensitivity label, for a sensitivity in hundredths.
pub open spec fn spec_sense_label(v: int) -> Seq<char> {
    "Mouse Sensitivity: "@ + spec_centi_decimal(v) + "x"@
}

/// One decimal digit as a string slice.
fn digit_str(d: u64) -> (r: &'static str)
    requires
        d < 10,
    ensures
        r@ == seq![digit_char(d as nat)],
{
    proof {
        reveal_strlit("0");
        reveal_strlit("1");
        reveal_strlit("2");
        reveal_strlit("3");
        reveal_strlit("4");
        reveal_strlit("5");
        reveal_strlit("6");
        reveal_strlit("7");
        reveal_strlit("8");
        reveal_strlit("9");
    }
    let r: &'static str = match d {
        0 => "0",
        1 => "1",
        2 => "2",
        3 => "3",
        4 => "4",
        5 => "5",
        6 => "6",
        7 => "7",
        8 => "8",
        _ => "9",
    };
    proof {
        assert(r@ =~= seq![digit_char(d as nat)]);
    }
    r
}

/// The decimal rendering of a natural number.
pub fn decimal_string(n: u64) -> (r: String)
    ensures
        r@ == spec_decimal(n as nat),
    decreases n,
{
    if n < 10 {
        let r = digit_str(n).to_owned();
        proof {
            assert(r@ =~= spec_decimal(n as nat));
        }
        r
    } else {
        let mut s = decimal_string(n / 10);
        s.append(digit_str(n % 10));
        proof {
            assert(s@ =~= spec_decimal(n as nat));
        }
        s
    }
}

/// The decimal rendering of a signed integer.
pub fn int_decimal_string(v: i32) -> (r: String)
    ensures
        r@ == spec_int_decimal(v as int),
{
    if v < 0 {
        let mag: u64 = (-(v as i64)) as u64;
        let mut s = "-".to_owned();
        let digits = decimal_string(mag);
        s.append(digits.as_str());
        s
    } else {
        decimal_string(v as u64)
    }
}

/// The rendering of a fixed-point value in hundredths, with exactly two
/// fractional digits.
pub fn centi_decimal_string(v: i64) -> (r: String)
    ensures
        r@ == spec_centi_decimal(v as int),
{
    let mag: u64 = if v < 0 {
        (-(v as i128)) as u64
    } else {
        v as u64
    };
    let frac: u64 = mag % 100;
    let mut s = if v < 0 {
        "-".to_owned()
    } else {
        "".to_owned()
    };
    let whole = decimal_string(mag / 100);
    s.append(whole.as_str());
    s.append(".");
    s.append(digit_str(frac / 10));
    s.append(digit_str(frac % 10));
    proof {
        reveal_strlit("");
        assert(s@ =~= spec_centi_decimal(v as int));
    }
    s
}

/// The FOV value text.
pub fn fov_text(v: i32) -> (r: String)
    ensures
        r@ == spec_fov_text(v as int),
{
    if v == 90 {
        "Normal".to_owned()
    } else if v == 110 {
        "Quake pro".to_owned()
    } else {
        int_decimal_string(v)
    }
}

/// The FPS-cap value text.
pub fn fps_text(v: i32) -> (r: String)
    ensures
        r@ == spec_fps_text(v as int),
{
    if v == 0 {
        "Unlimited".to_owned()
    } else {
        int_decimal_string(v)
    }
}

/// The vsync value text.
pub fn vsync_text(on: bool) -> (r: String)
    ensures
        r@ == spec_vsync_text(on),
{
    if on {
        "Enabled".to_owned()
    } else {
        "Disabled".to_owned()
    }
}

/// The hat-visibility value text.
pub fn hat_text(on: bool) -> (r: String)
    ensures
        r@ == spec_hat_text(on),
{
    if on {
        "On".to_owned()
    } else {
        "Off".to_owned()
    }
}

/// The full FOV button label.
pub fn fov_label(v: i32) -> (r: String)
    ensures
        r@ == spec_fov_label(v as int),
{
    let mut s = "FOV: ".to_owned();
    let t = fov_text(v);
    s.append(t.as_str());
    s
}

/// The full FPS-cap button label.
pub fn fps_label(v: i32) -> (r: String)
    ensures
        r@ == spec_fps_label(v as int),
{
    let mut s = "FPS cap: ".to_owned();
    let t = fps_text(v);
    s.append(t.as_str());
    s
}

/// The full vsync button label.
pub fn vsync_label(on: bool) -> (r: String)
    ensures
        r@ == spec_vsync_label(on),
{
    let mut s = "VSync: ".to_owned();
    let t = vsync_text(on);
    s.append(t.as_str());
    s
}

/// The full hat-visibility button label.
pub fn hat_label(on: bool) -> (r: String)
    ensures
        r@ == spec_hat_label(on),
{
    let mut s = "Hat: ".to_owned();
    let t = hat_text(on);
    s.append(t.as_str());
    s
}

/// The full mouse-sensitivity label, for a sensitivity in hundredths.
pub fn sense_label(v: i64) -> (r: String)
    ensures
        r@ == spec_sense_label(v as int),
{
    let mut s = "Mouse Sensitivity: ".to_owned();
    let t = centi_decimal_string(v);
    s.append(t.as_str());
    s.append("x");
    s
}

} // verus!
