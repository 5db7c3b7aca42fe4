//! The widget model: positioned, anchored UI primitives and the command
//! values their click handlers stand for.
//!
//! All geometry is in hundredths of a pixel, so the fixed virtual layout
//! (854x480), the button grid and the sensitivity-slider maps are exact
//! integer arithmetic. A widget's click behaviour is a `ClickAction` command
//! interpreted by the navigation layer, never a captured closure.

use vstd::prelude::*;

verus! {

/// Hundredths of a pixel per pixel.
pub const CENTI: u64 = 100;

/// The fixed virtual layout width, in hundredths of a pixel (854 pixels).
pub const VIRTUAL_WIDTH: u64 = 85400;

/// The fixed virtual layout height, in hundredths of a pixel (480 pixels).
pub const VIRTUAL_HEIGHT: u64 = 48000;

/// The horizontal travel offset of the sensitivity slider: its button sits
/// at `30 * sensitivity - 15000` (both in hundredths).
pub const SENSE_OFFSET: i64 = 15000;

/// Hundredths of a pixel of slider travel per unit of sensitivity (the
/// slider maps one hundredth of sensitivity to thirty hundredths of a pixel).
pub const SENSE_SCALE: i64 = 30;

/// The standard menu-button width, in hundredths of a pixel (300 pixels).
pub const BUTTON_WIDTH: u64 = 30000;

/// The standard menu-button height, in hundredths of a pixel (40 pixels).
pub const BUTTON_HEIGHT: u64 = 4000;

/// The sensitivity magnitude (in hundredths) up to which the slider maps
/// stay within the machine word; every on-screen value is far inside it.
pub const SENSE_LIMIT: i64 = 0x400_0000_0000_0000;

/// Vertical anchoring of a widget inside its container.
#[derive(Clone, Copy, PartialEq, Eq, Structural, Debug)]
pub enum VAttach {
    Top,
    Middle,
    Bottom,
}

/// Horizontal anchoring of a widget inside its container.
#[derive(Clone, Copy, PartialEq, Eq, Structural, Debug)]
pub enum HAttach {
    Left,
    Center,
    Right,
}

/// A screen that a hub navigation button can open.
#[derive(Clone, Copy, PartialEq, Eq, Structural, Debug)]
pub enum ScreenKind {
    Audio,
    Video,
    Controls,
    Skin,
}

/// The command a button click stands for, interpreted by the navigation
/// layer against the game state.
#[derive(Clone, Copy, PartialEq, Eq, Structural, Debug)]
pub enum ClickAction {
    /// Push a fresh screen of the given kind onto the stack.
    PushScreen(ScreenKind),
    /// Pop the current screen off the stack.
    PopScreen,
    /// Disconnect the server session, pop this screen, then replace the
    /// revealed screen with the server list.
    Disconnect,
    /// Flip the vsync setting and relabel the clicked button.
    ToggleVsync,
    /// Flip the hat-visibility setting and relabel the clicked button.
    ToggleHat,
}

/// The layout mode of the container: a fixed virtual resolution divided by a
/// scale factor (in hundredths, so `Unscaled(200)` is a 2x scale), or the
/// actual screen pixel dimensions.
#[derive(Clone, Copy, PartialEq, Eq, Structural, Debug)]
pub enum Mode {
    Unscaled(u64),
    Scaled,
}

/// A layout mode is well formed when its scale factor is not zero.
pub open spec fn mode_wf(mode: Mode) -> bool {
    match mode {
        Mode::Unscaled(scale) => scale >= 1,
        Mode::Scaled => true,
    }
}

/// The background width for a layout mode, in hundredths of a pixel: the
/// virtual width divided by the scale, or the screen width.
pub open spec fn spec_scaled_width(mode: Mode, screen_width: u32) -> int {
    match mode {
        Mode::Unscaled(scale) => (VIRTUAL_WIDTH * CENTI) as int / scale as int,
        Mode::Scaled => screen_width as int * CENTI as int,
    }
}

/// The background height for a layout mode, in hundredths of a pixel.
pub open spec fn spec_scaled_height(mode: Mode, screen_height: u32) -> int {
    match mode {
        Mode::Unscaled(scale) => (VIRTUAL_HEIGHT * CENTI) as int / scale as int,
        Mode::Scaled => screen_height as int * CENTI as int,
    }
}

/// A positioned, anchored background image.
pub struct Image {
    pub texture: String,
    pub x: i64,
    pub y: i64,
    pub width: u64,
    pub height: u64,
    pub colour: (u8, u8, u8, u8),
}

/// The mathematical model of an `Image`.
#[verifier::ext_equal]
pub struct ImageView {
    pub texture: Seq<char>,
    pub x: int,
    pub y: int,
    pub width: int,
    pub height: int,
    pub colour: (u8, u8, u8, u8),
}

impl View for Image {
    type V = ImageView;

    open spec fn view(&self) -> ImageView {
        ImageView {
            texture: self.texture@,
            x: self.x as int,
            y: self.y as int,
            width: self.width as int,
            height: self.height as int,
            colour: self.colour,
        }
    }
}

/// A positioned, anchored button with a text label and the command its
/// click stands for (`None` for an inert button).
pub struct Button {
    pub x: i64,
    pub y: i64,
    pub width: u64,
    pub height: u64,
    pub v_attach: VAttach,
    pub h_attach: HAttach,
    pub text: String,
    pub action: Option<ClickAction>,
}

/// The mathematical model of a `Button`.
#[verifier::ext_equal]
pub struct ButtonView {
    pub x: int,
    pub y: int,
    pub width: int,
    pub height: int,
    pub v_attach: VAttach,
    pub h_attach: HAttach,
    pub text: Seq<char>,
    pub action: Option<ClickAction>,
}

impl View for Button {
    type V = ButtonView;

    open spec fn view(&self) -> ButtonView {
        ButtonView {
            x: self.x as int,
            y: self.y as int,
            width: self.width as int,
            height: self.height as int,
            v_attach: self.v_attach,
            h_attach: self.h_attach,
            text: self.text@,
            action: self.action,
        }
    }
}

/// A positioned, anchored slider with a text label and an inner draggable
/// button at a horizontal offset. The one slider in these menus adjusts the
/// mouse sensitivity; dragging is interpreted by the navigation layer.
pub struct Slider {
    pub x: i64,
    pub y: i64,
    pub width: u64,
    pub height: u64,
    pub v_attach: VAttach,
    pub h_attach: HAttach,
    pub text: String,
    pub button_x: i64,
}

/// The mathematical model of a `Slider`.
#[verifier::ext_equal]
pub struct SliderView {
    pub x: int,
    pub y: int,
    pub width: int,
    pub height: int,
    pub v_attach: VAttach,
    pub h_attach: HAttach,
    pub text: Seq<char>,
    pub button_x: int,
}

impl View for Slider {
    type V = SliderView;

    open spec fn view(&self) -> SliderView {
        SliderView {
            x: self.x as int,
            y: self.y as int,
            width: self.width as int,
            height: self.height as int,
            v_attach: self.v_attach,
            h_attach: self.h_attach,
            text: self.text@,
            button_x: self.button_x as int,
        }
    }
}

/// The widget bundle a screen owns while it is active: its background and
/// its interactive widgets. Dropping the bundle removes the widgets.
pub struct UIElements {
    pub background: Image,
    pub buttons: Vec<Button>,
    pub sliders: Vec<Slider>,
}

/// The mathematical model of a `UIElements` bundle.
#[verifier::ext_equal]
pub struct UIElementsView {
    pub background: ImageView,
    pub buttons: Seq<ButtonView>,
    pub sliders: Seq<SliderView>,
}

impl View for UIElements {
    type V = UIElementsView;

    open spec fn view(&self) -> UIElementsView {
        UIElementsView {
            background: self.background@,
            buttons: self.buttons@.map_values(|b: Button| b@),
            sliders: self.sliders@.map_values(|s: Slider| s@),
        }
    }
}

/// The bundle after a per-frame resize: the background matched to the
/// layout mode and viewport, everything else unchanged.
pub open spec fn spec_resized(
    e: UIElementsView,
    mode: Mode,
    screen_width: u32,
    screen_height: u32,
) -> UIElementsView {
    UIElementsView {
        background: ImageView {
            width: spec_scaled_width(mode, screen_width),
            height: spec_scaled_height(mode, screen_height),
            ..e.background
        },
        ..e
    }
}

/// Resizes a background image to the current viewport: the fixed virtual
/// resolution divided by the scale factor, or the screen pixel dimensions.
pub fn resize_background(img: &mut Image, mode: Mode, screen_width: u32, screen_height: u32)
    requires
        mode_wf(mode),
    ensures
        final(img)@ == (ImageView {
            width: spec_scaled_width(mode, screen_width),
            height: spec_scaled_height(mode, screen_height),
            ..old(img)@
        }),
{
    match mode {
        Mode::Unscaled(scale) => {
            img.width = (VIRTUAL_WIDTH * CENTI) / scale;
            img.height = (VIRTUAL_HEIGHT * CENTI) / scale;
        },
        Mode::Scaled => {
            img.width = (screen_width as u64) * CENTI;
            img.height = (screen_height as u64) * CENTI;
        },
    }
    proof {
        assert(final(img)@ =~= (ImageView {
            width: spec_scaled_width(mode, screen_width),
            height: spec_scaled_height(mode, screen_height),
            ..old(img)@
        }));
    }
}

/// A coordinate magnitude (in hundredths of a pixel) far beyond any screen,
/// up to which the drag arithmetic stays within the machine word.
pub const COORD_LIMIT: i64 = 0x1_0000_0000_0000;

/// The bundle with one button's label replaced, everything else unchanged.
pub open spec fn spec_relabeled(e: UIElementsView, i: int, text: Seq<char>) -> UIElementsView {
    UIElementsView {
        buttons: e.buttons.update(i, ButtonView { text, ..e.buttons[i] }),
        ..e
    }
}

/// The bundle with one slider's button offset and label replaced,
/// everything else unchanged.
pub open spec fn spec_slider_updated(
    e: UIElementsView,
    i: int,
    button_x: int,
    text: Seq<char>,
) -> UIElementsView {
    UIElementsView {
        sliders: e.sliders.update(i, SliderView { button_x, text, ..e.sliders[i] }),
        ..e
    }
}

impl UIElements {
    /// Replaces one button's label in place.
    pub fn set_button_text(&mut self, i: usize, text: String)
        requires
            i < old(self)@.buttons.len(),
        ensures
            final(self)@ == spec_relabeled(old(self)@, i as int, text@),
    {
        let b = &mut self.buttons[i];
        b.text = text;
        proof {
            assert(self@ =~~= spec_relabeled(old(self)@, i as int, text@));
        }
    }

    /// Moves one slider's button and replaces its label in place.
    pub fn set_slider_state(&mut self, i: usize, button_x: i64, text: String)
        requires
            i < old(self)@.sliders.len(),
        ensures
            final(self)@ == spec_slider_updated(old(self)@, i as int, button_x as int, text@),
    {
        let s = &mut self.sliders[i];
        s.button_x = button_x;
        s.text = text;
        proof {
            assert(self@ =~~= spec_slider_updated(old(self)@, i as int, button_x as int, text@));
        }
    }
}

/// Truncating division of `a` by a positive `b`, as the machine performs it.
pub open spec fn spec_div_trunc(a: int, b: int) -> int {
    if a >= 0 {
        a / b
    } else {
        -((-a) / b)
    }
}

/// The slider-button offset that displays a sensitivity (in hundredths):
/// the linear map `30 * sensitivity - 15000`.
pub open spec fn spec_slider_pos(sense: int) -> int {
    SENSE_SCALE as int * sense - SENSE_OFFSET as int
}

/// The sensitivity (in hundredths) read back from a slider-button offset:
/// the inverse map `(offset + 15000) / 30`, truncated.
pub open spec fn spec_sense_of_pos(x: int) -> int {
    spec_div_trunc(x + SENSE_OFFSET as int, SENSE_SCALE as int)
}

/// The slider-button offset for a sensitivity, in hundredths of a pixel.
/// The bound on the sensitivity keeps the product within the machine word;
/// no on-screen value comes near it.
pub fn slider_pos_of_sense(sense: i64) -> (x: i64)
    requires
        -SENSE_LIMIT <= sense <= SENSE_LIMIT,
    ensures
        x == spec_slider_pos(sense as int),
{
    SENSE_SCALE * sense - SENSE_OFFSET
}

/// The sensitivity, in hundredths, at a slider-button offset.
pub fn sense_of_slider_pos(x: i64) -> (sense: i64)
    requires
        x <= i64::MAX - SENSE_OFFSET,
    ensures
        sense == spec_sense_of_pos(x as int),
{
    let n = x + SENSE_OFFSET;
    if n >= 0 {
        n / SENSE_SCALE
    } else {
        -((-n) / SENSE_SCALE)
    }
}

/// Where a drag leaves the slider button: the pointer's horizontal offset
/// from the slider's anchor at the centre of the screen.
pub open spec fn spec_drag_pos(mouse_x: int, screen_width: int, slider_x: int) -> int {
    mouse_x - screen_width / 2 - slider_x
}

/// The sensitivity a drag writes through to the store: the inverse map at
/// the dragged button position.
pub open spec fn spec_dragged_sense(mouse_x: int, screen_width: int, slider_x: int) -> int {
    spec_sense_of_pos(spec_drag_pos(mouse_x, screen_width, slider_x))
}

} // verus!
