//! The slider light bar: a raw level is clamped to 0..=200 and turned into
//! a level meter with a dim filled tail and a bright head.

use vstd::prelude::*;
use crate::lights::{Brightness, LightModel, SLIDER_BAR_LEN};

verus! {

/// A raw level clamped into 0..=200.
pub open spec fn spec_clamp_level(l: int) -> int {
    if l < 0 {
        0
    } else if l > 200 {
        200
    } else {
        l
    }
}

/// The bar position of the meter head for a level: `(L - 1 + 5) * 25 / 200
/// - 1` after clamping.  Level 0 and 1 give -1 (no head); level 200 gives
/// 24 (bar full).
pub open spec fn spec_fill_index(l: int) -> int {
    (spec_clamp_level(l) - 1 + 5) * 25 / 200 - 1
}

/// Brightness of one bar position for a level: the head position is
/// `Normal`, the 25 positions below it `Dim`, everything else `Off`.
pub open spec fn spec_bar_brightness(l: int, p: int) -> Brightness {
    let d = spec_fill_index(l) - p;
    if d == 0 {
        Brightness::Normal
    } else if 1 <= d <= 25 {
        Brightness::Dim
    } else {
        Brightness::Off
    }
}

/// Repaints the whole slider bar for a raw level.
pub fn apply_slider_level(lights: &mut LightModel, level: u8)
    requires
        old(lights).wf(),
    ensures
        final(lights).wf(),
        forall|p: int|
            0 <= p < SLIDER_BAR_LEN ==> final(lights).slider@[p] == spec_bar_brightness(
                level as int,
                p,
            ),
        final(lights).buttons@ == old(lights).buttons@,
        final(lights).pads@ == old(lights).pads@,
        final(lights).dirty,
{
    let clamped: u8 = if level > 200 {
        200
    } else {
        level
    };
    let cnt: i32 = ((clamped as i32 + 4) * 25) / 200 - 1;
    proof {
        assert(cnt == spec_fill_index(level as int));
    }
    let mut p: usize = 0;
    while p < SLIDER_BAR_LEN
        invariant
            p <= SLIDER_BAR_LEN,
            lights.wf(),
            cnt == spec_fill_index(level as int),
            -1 <= cnt <= 24,
            forall|t: int|
                0 <= t < p ==> lights.slider@[t] == spec_bar_brightness(level as int, t),
            lights.buttons@ == old(lights).buttons@,
            lights.pads@ == old(lights).pads@,
            p > 0 ==> lights.dirty,
        decreases SLIDER_BAR_LEN - p,
    {
        let d: i32 = cnt - p as i32;
        let b = if d == 0 {
            Brightness::Normal
        } else if 1 <= d && d <= 25 {
            Brightness::Dim
        } else {
            Brightness::Off
        };
        lights.set_slider(p, b);
        p = p + 1;
    }
}

/// Applies an inbound slider level, clamping the message argument into
/// 0..=200 first.
pub fn apply_slider_message(lights: &mut LightModel, value: i32)
    requires
        old(lights).wf(),
    ensures
        final(lights).wf(),
        forall|p: int|
            0 <= p < SLIDER_BAR_LEN ==> final(lights).slider@[p] == spec_bar_brightness(
                value as int,
                p,
            ),
        final(lights).buttons@ == old(lights).buttons@,
        final(lights).pads@ == old(lights).pads@,
        final(lights).dirty,
{
    let level: u8 = if value < 0 {
        0
    } else if value > 200 {
        200
    } else {
        value as u8
    };
    proof {
        assert(spec_clamp_level(level as int) == spec_clamp_level(value as int));
    }
    apply_slider_level(lights, level);
    proof {
        assert forall|p: int| 0 <= p < SLIDER_BAR_LEN implies lights.slider@[p]
            == spec_bar_brightness(value as int, p) by {
            assert(lights.slider@[p] == spec_bar_brightness(level as int, p));
            assert(spec_fill_index(level as int) == spec_fill_index(value as int));
        }
    }
}

} // verus!
