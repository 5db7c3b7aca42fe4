//! Laws relating the menus' operations, stated and proved over the same
//! spec functions the operations' own contracts use.

use crate::game::{spec_toggle_effect, Game};
use crate::label::{spec_hat_label, spec_vsync_label};
use crate::menus::spec_hub_buttons;
use crate::settings::BoolSetting;
use crate::widget::{
    spec_relabeled, spec_sense_of_pos, spec_slider_pos, ClickAction, ScreenKind, SENSE_OFFSET,
    SENSE_SCALE,
};
use vstd::arithmetic::div_mod::lemma_div_multiples_vanish;
use vstd::prelude::*;

verus! {

/// Initializing the slider from a sensitivity and reading it back through
/// the inverse map yields the same sensitivity, exactly: the round trip
/// through the slider position loses nothing.
pub proof fn lemma_slider_round_trip(sense: int)
    ensures
        spec_sense_of_pos(spec_slider_pos(sense)) == sense,
{
    let pos = spec_slider_pos(sense);
    assert(pos + SENSE_OFFSET as int == SENSE_SCALE as int * sense);
    if sense >= 0 {
        lemma_div_multiples_vanish(sense, SENSE_SCALE as int);
    } else {
        assert(-(SENSE_SCALE as int * sense) == SENSE_SCALE as int * (-sense));
        lemma_div_multiples_vanish(-sense, SENSE_SCALE as int);
    }
}

/// Clicking the vsync toggle twice returns the setting to its original
/// value and the button label to its original text; the whole widget
/// bundle of the screen is restored.
pub proof fn lemma_vsync_toggle_idempotent(pre: Game, mid: Game, post: Game, i: int)
    requires
        pre.stack@.len() >= 1,
        pre.top().elements_view() is Some,
        0 <= i < pre.top_buttons().len(),
        pre.top_buttons()[i].text == spec_vsync_label(pre.settings.vsync),
        spec_toggle_effect(pre, mid, i, BoolSetting::Vsync, spec_vsync_label(!pre.settings.vsync)),
        spec_toggle_effect(mid, post, i, BoolSetting::Vsync, spec_vsync_label(!mid.settings.vsync)),
    ensures
        post.settings == pre.settings,
        post.top().elements_view() == pre.top().elements_view(),
{
    let e0 = pre.top().elements_view()->0;
    let e1 = mid.top().elements_view()->0;
    assert(e1 == spec_relabeled(e0, i, spec_vsync_label(!pre.settings.vsync)));
    assert(mid.settings.vsync == !pre.settings.vsync);
    assert(post.settings == pre.settings);
    assert(post.top().elements_view()->0 =~~= e0);
}

/// Clicking the hat toggle twice returns the setting to its original value
/// and the button label to its original text; the whole widget bundle of
/// the screen is restored.
pub proof fn lemma_hat_toggle_idempotent(pre: Game, mid: Game, post: Game, i: int)
    requires
        pre.stack@.len() >= 1,
        pre.top().elements_view() is Some,
        0 <= i < pre.top_buttons().len(),
        pre.top_buttons()[i].text == spec_hat_label(pre.settings.hat_visible),
        spec_toggle_effect(
            pre,
            mid,
            i,
            BoolSetting::HatVisible,
            spec_hat_label(!pre.settings.hat_visible),
        ),
        spec_toggle_effect(
            mid,
            post,
            i,
            BoolSetting::HatVisible,
            spec_hat_label(!mid.settings.hat_visible),
        ),
    ensures
        post.settings == pre.settings,
        post.top().elements_view() == pre.top().elements_view(),
{
    let e0 = pre.top().elements_view()->0;
    let e1 = mid.top().elements_view()->0;
    assert(e1 == spec_relabeled(e0, i, spec_hat_label(!pre.settings.hat_visible)));
    assert(mid.settings.hat_visible == !pre.settings.hat_visible);
    assert(post.settings == pre.settings);
    assert(post.top().elements_view()->0 =~~= e0);
}

/// The hub's widget set holds a button with the disconnect command if and
/// only if the hub was constructed with the disconnect flag set.
pub proof fn lemma_disconnect_button_iff(show_disconnect_button: bool)
    ensures
        show_disconnect_button <==> exists|j: int|
            0 <= j < spec_hub_buttons(show_disconnect_button).len() && (#[trigger] spec_hub_buttons(
                show_disconnect_button,
            )[j]).action == Some(ClickAction::Disconnect),
{
    let b = spec_hub_buttons(show_disconnect_button);
    if show_disconnect_button {
        assert(b[6].action == Some(ClickAction::Disconnect));
    } else {
        assert forall|j: int| 0 <= j < b.len() implies (#[trigger] b[j]).action != Some(
            ClickAction::Disconnect,
        ) by {
            assert(b.len() == 6);
            if j == 0 {
                assert(b[0].action == Some(ClickAction::PushScreen(ScreenKind::Audio)));
            } else if j == 1 {
                assert(b[1].action == Some(ClickAction::PushScreen(ScreenKind::Video)));
            } else if j == 2 {
                assert(b[2].action == Some(
                    ClickAction::PushScreen(ScreenKind::Controls),
                ));
            } else if j == 3 {
                assert(b[3].action == None::<ClickAction>);
            } else if j == 4 {
                assert(b[4].action == Some(ClickAction::PushScreen(ScreenKind::Skin)));
            } else {
                assert(b[5].action == Some(ClickAction::PopScreen));
            }
        }
    }
}

} // verus!
