//! In-memory light snapshot: desired brightness for every button, pad and
//! slider-bar position, with a dirty flag so one tick flushes at most once.

use vstd::prelude::*;

verus! {

/// Number of addressable buttons on the control surface.
pub const BUTTON_COUNT: usize = 41;

/// Number of pads.
pub const PAD_COUNT: usize = 16;

/// Number of positions in the slider light bar.
pub const SLIDER_BAR_LEN: usize = 25;

/// Desired LED intensity, from darkest to brightest.
#[derive(Clone, Copy, Debug, PartialEq, Eq, Structural)]
pub enum Brightness {
    Off,
    Dim,
    Normal,
    Bright,
}

/// Fixed palette of pad colors.
#[derive(Clone, Copy, Debug, PartialEq, Eq, Structural)]
pub enum PadColor {
    Off,
    Red,
    Orange,
    Amber,
    Yellow,
    Lime,
    Green,
    Mint,
    Cyan,
    Turquoise,
    Blue,
    Plum,
    Violet,
    Purple,
    Magenta,
    Fuchsia,
    White,
}

/// The palette entry a numeric color code selects; codes outside the
/// palette fall back to `Off`.
pub open spec fn spec_color_from_code(code: int) -> PadColor {
    if code == 0 {
        PadColor::Off
    } else if code == 1 {
        PadColor::Red
    } else if code == 2 {
        PadColor::Orange
    } else if code == 3 {
        PadColor::Amber
    } else if code == 4 {
        PadColor::Yellow
    } else if code == 5 {
        PadColor::Lime
    } else if code == 6 {
        PadColor::Green
    } else if code == 7 {
        PadColor::Mint
    } else if code == 8 {
        PadColor::Cyan
    } else if code == 9 {
        PadColor::Turquoise
    } else if code == 10 {
        PadColor::Blue
    } else if code == 11 {
        PadColor::Plum
    } else if code == 12 {
        PadColor::Violet
    } else if code == 13 {
        PadColor::Purple
    } else if code == 14 {
        PadColor::Magenta
    } else if code == 15 {
        PadColor::Fuchsia
    } else if code == 16 {
        PadColor::White
    } else {
        PadColor::Off
    }
}

impl PadColor {
    /// Maps a numeric color code from an inbound message to a palette entry.
    pub fn from_code(code: i32) -> (r: PadColor)
        ensures
            r == spec_color_from_code(code as int),
    {
        match code {
            0 => PadColor::Off,
            1 => PadColor::Red,
            2 => PadColor::Orange,
            3 => PadColor::Amber,
            4 => PadColor::Yellow,
            5 => PadColor::Lime,
            6 => PadColor::Green,
            7 => PadColor::Mint,
            8 => PadColor::Cyan,
            9 => PadColor::Turquoise,
            10 => PadColor::Blue,
            11 => PadColor::Plum,
            12 => PadColor::Violet,
            13 => PadColor::Purple,
            14 => PadColor::Magenta,
            15 => PadColor::Fuchsia,
            16 => PadColor::White,
            _ => PadColor::Off,
        }
    }
}

/// The code a brightness level is flushed to the device as.
pub open spec fn spec_level_code(b: Brightness) -> u8 {
    match b {
        Brightness::Off => 0,
        Brightness::Dim => 1,
        Brightness::Normal => 2,
        Brightness::Bright => 3,
    }
}

/// Maps a brightness level to its device code.
pub fn level_code(b: Brightness) -> (r: u8)
    ensures
        r == spec_level_code(b),
{
    match b {
        Brightness::Off => 0,
        Brightness::Dim => 1,
        Brightness::Normal => 2,
        Brightness::Bright => 3,
    }
}

/// The code a palette entry is flushed to the device as; the inverse of
/// `spec_color_from_code` on the palette.
pub open spec fn spec_color_code(c: PadColor) -> u8 {
    match c {
        PadColor::Off => 0,
        PadColor::Red => 1,
        PadColor::Orange => 2,
        PadColor::Amber => 3,
        PadColor::Yellow => 4,
        PadColor::Lime => 5,
        PadColor::Green => 6,
        PadColor::Mint => 7,
        PadColor::Cyan => 8,
        PadColor::Turquoise => 9,
        PadColor::Blue => 10,
        PadColor::Plum => 11,
        PadColor::Violet => 12,
        PadColor::Purple => 13,
        PadColor::Magenta => 14,
        PadColor::Fuchsia => 15,
        PadColor::White => 16,
    }
}

/// Maps a palette entry to its device code.
pub fn color_code(c: PadColor) -> (r: u8)
    ensures
        r == spec_color_code(c),
{
    match c {
        PadColor::Off => 0,
        PadColor::Red => 1,
        PadColor::Orange => 2,
        PadColor::Amber => 3,
        PadColor::Yellow => 4,
        PadColor::Lime => 5,
        PadColor::Green => 6,
        PadColor::Mint => 7,
        PadColor::Cyan => 8,
        PadColor::Turquoise => 9,
        PadColor::Blue => 10,
        PadColor::Plum => 11,
        PadColor::Violet => 12,
        PadColor::Purple => 13,
        PadColor::Magenta => 14,
        PadColor::Fuchsia => 15,
        PadColor::White => 16,
    }
}

/// Color and brightness of one pad light.
#[derive(Clone, Copy, Debug, PartialEq, Eq, Structural)]
pub struct PadLight {
    pub color: PadColor,
    pub level: Brightness,
}

/// Snapshot of every light on the surface plus a dirty flag.  Mutators set
/// the flag; the event loop flushes the snapshot to the device at most once
/// per tick, only when the flag is set.
pub struct LightModel {
    pub buttons: Vec<Brightness>,
    pub pads: Vec<PadLight>,
    pub slider: Vec<Brightness>,
    pub dirty: bool,
}

impl LightModel {
    /// Shape invariant: one entry per button, pad and bar position.
    pub open spec fn wf(&self) -> bool {
        &&& self.buttons@.len() == BUTTON_COUNT
        &&& self.pads@.len() == PAD_COUNT
        &&& self.slider@.len() == SLIDER_BAR_LEN
    }

    /// A fresh snapshot: everything dark, nothing dirty.
    pub fn new() -> (r: LightModel)
        ensures
            r.wf(),
            !r.dirty,
            forall|i: int| 0 <= i < BUTTON_COUNT ==> r.buttons@[i] == Brightness::Off,
            forall|i: int|
                0 <= i < PAD_COUNT ==> r.pads@[i] == (PadLight {
                    color: PadColor::Off,
                    level: Brightness::Off,
                }),
            forall|i: int| 0 <= i < SLIDER_BAR_LEN ==> r.slider@[i] == Brightness::Off,
    {
        let mut buttons: Vec<Brightness> = Vec::new();
        let mut k: usize = 0;
        while k < BUTTON_COUNT
            invariant
                k <= BUTTON_COUNT,
                buttons@.len() == k,
                forall|i: int| 0 <= i < k ==> buttons@[i] == Brightness::Off,
            decreases BUTTON_COUNT - k,
        {
            buttons.push(Brightness::Off);
            k = k + 1;
        }
        let mut pads: Vec<PadLight> = Vec::new();
        let mut k: usize = 0;
        while k < PAD_COUNT
            invariant
                k <= PAD_COUNT,
                pads@.len() == k,
                forall|i: int|
                    0 <= i < k ==> pads@[i] == (PadLight {
                        color: PadColor::Off,
                        level: Brightness::Off,
                    }),
            decreases PAD_COUNT - k,
        {
            pads.push(PadLight { color: PadColor::Off, level: Brightness::Off });
            k = k + 1;
        }
        let mut slider: Vec<Brightness> = Vec::new();
        let mut k: usize = 0;
        while k < SLIDER_BAR_LEN
            invariant
                k <= SLIDER_BAR_LEN,
                slider@.len() == k,
                forall|i: int| 0 <= i < k ==> slider@[i] == Brightness::Off,
            decreases SLIDER_BAR_LEN - k,
        {
            slider.push(Brightness::Off);
            k = k + 1;
        }
        LightModel { buttons, pads, slider, dirty: false }
    }

    /// Current brightness of one button light.
    pub fn get_button(&self, i: usize) -> (r: Brightness)
        requires
            self.wf(),
            i < BUTTON_COUNT,
        ensures
            r == self.buttons@[i as int],
    {
        self.buttons[i]
    }

    /// Sets one button light and marks the snapshot dirty.
    pub fn set_button(&mut self, i: usize, b: Brightness)
        requires
            old(self).wf(),
            i < BUTTON_COUNT,
        ensures
            final(self).wf(),
            final(self).buttons@ == old(self).buttons@.update(i as int, b),
            final(self).pads@ == old(self).pads@,
            final(self).slider@ == old(self).slider@,
            final(self).dirty,
    {
        self.buttons.set(i, b);
        self.dirty = true;
    }

    /// Current color and brightness of one pad light.
    pub fn get_pad(&self, i: usize) -> (r: PadLight)
        requires
            self.wf(),
            i < PAD_COUNT,
        ensures
            r == self.pads@[i as int],
    {
        self.pads[i]
    }

    /// Sets one pad light and marks the snapshot dirty.
    pub fn set_pad(&mut self, i: usize, color: PadColor, level: Brightness)
        requires
            old(self).wf(),
            i < PAD_COUNT,
        ensures
            final(self).wf(),
            final(self).pads@ == old(self).pads@.update(i as int, PadLight { color, level }),
            final(self).buttons@ == old(self).buttons@,
            final(self).slider@ == old(self).slider@,
            final(self).dirty,
    {
        self.pads.set(i, PadLight { color, level });
        self.dirty = true;
    }

    /// Sets one slider-bar position and marks the snapshot dirty.
    pub fn set_slider(&mut self, i: usize, b: Brightness)
        requires
            old(self).wf(),
            i < SLIDER_BAR_LEN,
        ensures
            final(self).wf(),
            final(self).slider@ == old(self).slider@.update(i as int, b),
            final(self).buttons@ == old(self).buttons@,
            final(self).pads@ == old(self).pads@,
            final(self).dirty,
    {
        self.slider.set(i, b);
        self.dirty = true;
    }

    /// Serializes the whole snapshot into one light report for the device
    /// write: the report tag, one brightness code per button, one packed
    /// color-and-brightness byte per pad, one code per bar position.
    pub fn light_report(&self) -> (r: Vec<u8>)
        requires
            self.wf(),
        ensures
            r@.len() == 1 + BUTTON_COUNT + PAD_COUNT + SLIDER_BAR_LEN,
            r@[0] == 0x80u8,
            forall|i: int|
                0 <= i < BUTTON_COUNT ==> r@[1 + i] == spec_level_code(self.buttons@[i]),
            forall|i: int|
                0 <= i < PAD_COUNT ==> r@[1 + BUTTON_COUNT + i] == spec_color_code(
                    self.pads@[i].color,
                ) * 4 + spec_level_code(self.pads@[i].level),
            forall|i: int|
                0 <= i < SLIDER_BAR_LEN ==> r@[1 + BUTTON_COUNT + PAD_COUNT + i]
                    == spec_level_code(self.slider@[i]),
    {
        let mut report: Vec<u8> = Vec::new();
        report.push(0x80);
        let mut i: usize = 0;
        while i < BUTTON_COUNT
            invariant
                i <= BUTTON_COUNT,
                self.wf(),
                report@.len() == 1 + i,
                report@[0] == 0x80u8,
                forall|t: int| 0 <= t < i ==> report@[1 + t] == spec_level_code(self.buttons@[t]),
            decreases BUTTON_COUNT - i,
        {
            report.push(level_code(self.buttons[i]));
            i = i + 1;
        }
        let mut i: usize = 0;
        while i < PAD_COUNT
            invariant
                i <= PAD_COUNT,
                self.wf(),
                report@.len() == 1 + BUTTON_COUNT + i,
                report@[0] == 0x80u8,
                forall|t: int|
                    0 <= t < BUTTON_COUNT ==> report@[1 + t] == spec_level_code(self.buttons@[t]),
                forall|t: int|
                    0 <= t < i ==> report@[1 + BUTTON_COUNT + t] == spec_color_code(
                        self.pads@[t].color,
                    ) * 4 + spec_level_code(self.pads@[t].level),
            decreases PAD_COUNT - i,
        {
            let pad = self.pads[i];
            report.push(color_code(pad.color) * 4 + level_code(pad.level));
            i = i + 1;
        }
        let mut i: usize = 0;
        while i < SLIDER_BAR_LEN
            invariant
                i <= SLIDER_BAR_LEN,
                self.wf(),
                report@.len() == 1 + BUTTON_COUNT + PAD_COUNT + i,
                report@[0] == 0x80u8,
                forall|t: int|
                    0 <= t < BUTTON_COUNT ==> report@[1 + t] == spec_level_code(self.buttons@[t]),
                forall|t: int|
                    0 <= t < PAD_COUNT ==> report@[1 + BUTTON_COUNT + t] == spec_color_code(
                        self.pads@[t].color,
                    ) * 4 + spec_level_code(self.pads@[t].level),
                forall|t: int|
                    0 <= t < i ==> report@[1 + BUTTON_COUNT + PAD_COUNT + t] == spec_level_code(
                        self.slider@[t],
                    ),
            decreases SLIDER_BAR_LEN - i,
        {
            report.push(level_code(self.slider[i]));
            i = i + 1;
        }
        report
    }

    /// Reads and clears the dirty flag; the caller flushes the snapshot to
    /// the device exactly when this returns true.
    pub fn take_dirty(&mut self) -> (r: bool)
        requires
            old(self).wf(),
        ensures
            final(self).wf(),
            r == old(self).dirty,
            !final(self).dirty,
            final(self).buttons@ == old(self).buttons@,
            final(self).pads@ == old(self).pads@,
            final(self).slider@ == old(self).slider@,
    {
        let d = self.dirty;
        self.dirty = false;
        d
    }
}

} // verus!
