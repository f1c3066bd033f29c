//! Stateless pad translation: a pad event becomes a light target and,
//! for strike and press events, a note event with a floored velocity.

use vstd::prelude::*;
use crate::lights::{Brightness, LightModel, PadColor, PAD_COUNT};

verus! {

/// Kind of one pad event, decoded from the event nibble of a pad tuple.
#[derive(Clone, Copy, Debug, PartialEq, Eq, Structural)]
pub enum PadEventType {
    NoteOn,
    NoteOff,
    Aftertouch,
    PressOn,
    PressOff,
}

/// The pad event kind an event nibble selects; nibbles outside the table
/// decode to nothing and the tuple is skipped.
pub open spec fn spec_event_from_nibble(b: u8) -> Option<PadEventType> {
    if b == 0x10 {
        Some(PadEventType::NoteOn)
    } else if b == 0x20 {
        Some(PadEventType::NoteOff)
    } else if b == 0x30 {
        Some(PadEventType::Aftertouch)
    } else if b == 0x40 {
        Some(PadEventType::PressOn)
    } else if b == 0x50 {
        Some(PadEventType::PressOff)
    } else {
        None
    }
}

impl PadEventType {
    /// Decodes the event nibble of a pad tuple.
    pub fn from_nibble(b: u8) -> (r: Option<PadEventType>)
        ensures
            r == spec_event_from_nibble(b),
    {
        match b {
            0x10 => Some(PadEventType::NoteOn),
            0x20 => Some(PadEventType::NoteOff),
            0x30 => Some(PadEventType::Aftertouch),
            0x40 => Some(PadEventType::PressOn),
            0x50 => Some(PadEventType::PressOff),
            _ => None,
        }
    }
}

/// One decoded pad event: the pad, the kind, and the 12-bit strike or
/// pressure value.
#[derive(Clone, Copy, Debug, PartialEq, Eq, Structural)]
pub struct PadEvent {
    pub index: u8,
    pub event: PadEventType,
    pub value: u16,
}

/// One note event for the output port.
#[derive(Clone, Copy, Debug, PartialEq, Eq, Structural)]
pub struct NoteEvent {
    /// Note-on when true, note-off when false.
    pub on: bool,
    pub key: u8,
    pub velocity: u8,
}

/// Velocity for a 12-bit pad value: the value shifted down five bits,
/// floored to 1 while the raw value is nonzero, so that a soft strike never
/// becomes a zero-velocity note-on.
pub open spec fn spec_velocity(value: u16) -> u8 {
    if value > 0 && value >> 5 == 0 {
        1
    } else {
        (value >> 5) as u8
    }
}

/// Law: pad values 1 to 31 floor to velocity exactly 1, and no nonzero
/// value yields velocity zero.
pub proof fn lemma_velocity_floor(value: u16)
    requires
        value > 0,
        value < 0x1000,
    ensures
        spec_velocity(value) >= 1,
        value < 32 ==> spec_velocity(value) == 1,
{
    assert(value < 32 ==> value >> 5 == 0) by (bit_vector);
    assert(value >= 32 ==> value >> 5 >= 1) by (bit_vector);
    assert(value < 0x1000 ==> value >> 5 < 128) by (bit_vector);
}

/// The brightness a pad event drives its pad light toward.
pub open spec fn spec_pad_brightness(event: PadEventType, value: u16) -> Brightness {
    match event {
        PadEventType::NoteOn | PadEventType::PressOn => Brightness::Normal,
        PadEventType::NoteOff | PadEventType::PressOff => Brightness::Off,
        PadEventType::Aftertouch => if value > 0 {
            Brightness::Normal
        } else {
            Brightness::Off
        },
    }
}

/// The note event a pad event produces: note-on for strikes and presses,
/// note-off for their releases, nothing for aftertouch.
pub open spec fn spec_pad_note(event: PadEventType, key: u8, value: u16) -> Option<NoteEvent> {
    match event {
        PadEventType::NoteOn | PadEventType::PressOn => Some(
            NoteEvent { on: true, key, velocity: spec_velocity(value) },
        ),
        PadEventType::NoteOff | PadEventType::PressOff => Some(
            NoteEvent { on: false, key, velocity: spec_velocity(value) },
        ),
        PadEventType::Aftertouch => None,
    }
}

/// Runs one pad event: updates the pad light only when the target
/// brightness differs from the current one (painting the pad in the accent
/// color), and returns the note event to send, with the key taken from the
/// note map.
pub fn translate_pad(ev: &PadEvent, notemap: &Vec<u8>, lights: &mut LightModel) -> (r: Option<
    NoteEvent,
>)
    requires
        old(lights).wf(),
        notemap@.len() == PAD_COUNT,
        ev.index < PAD_COUNT,
        ev.value < 0x1000,
    ensures
        final(lights).wf(),
        r == spec_pad_note(ev.event, notemap@[ev.index as int], ev.value),
        ({
            let target = spec_pad_brightness(ev.event, ev.value);
            if target != old(lights).pads@[ev.index as int].level {
                final(lights).pads@ == old(lights).pads@.update(
                    ev.index as int,
                    crate::lights::PadLight { color: PadColor::Blue, level: target },
                ) && final(lights).dirty
            } else {
                final(lights).pads@ == old(lights).pads@ && final(lights).dirty == old(
                    lights,
                ).dirty
            }
        }),
        final(lights).buttons@ == old(lights).buttons@,
        final(lights).slider@ == old(lights).slider@,
{
    let idx = ev.index as usize;
    let prev = lights.get_pad(idx);
    let target = match ev.event {
        PadEventType::NoteOn | PadEventType::PressOn => Brightness::Normal,
        PadEventType::NoteOff | PadEventType::PressOff => Brightness::Off,
        PadEventType::Aftertouch => if ev.value > 0 {
            Brightness::Normal
        } else {
            Brightness::Off
        },
    };
    if prev.level != target {
        lights.set_pad(idx, PadColor::Blue, target);
    }
    let key = notemap[idx];
    let shifted = (ev.value >> 5) as u8;
    let velocity = if ev.value > 0 && shifted == 0 {
        1
    } else {
        shifted
    };
    proof {
        let v = ev.value;
        assert(v < 0x1000 ==> v >> 5 < 128) by (bit_vector);
        assert(velocity == spec_velocity(ev.value));
    }
    match ev.event {
        PadEventType::NoteOn | PadEventType::PressOn => Some(
            NoteEvent { on: true, key, velocity },
        ),
        PadEventType::NoteOff | PadEventType::PressOff => Some(
            NoteEvent { on: false, key, velocity },
        ),
        PadEventType::Aftertouch => None,
    }
}

} // verus!
