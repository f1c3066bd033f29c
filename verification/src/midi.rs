//! Note and controller events on the output port, encoded to wire bytes
//! through the `midly` crate.

use vstd::prelude::*;

verus! {

/// One channel-voice event on channel 0.
#[derive(Clone, Copy, Debug, PartialEq, Eq, Structural)]
pub enum ChannelMessage {
    NoteOn { key: u8, vel: u8 },
    NoteOff { key: u8, vel: u8 },
    Controller { number: u8, value: u8 },
}

/// Channel-voice data bytes carry seven bits.
pub open spec fn spec_midi_wf(m: ChannelMessage) -> bool {
    match m {
        ChannelMessage::NoteOn { key, vel } => key < 128 && vel < 128,
        ChannelMessage::NoteOff { key, vel } => key < 128 && vel < 128,
        ChannelMessage::Controller { number, value } => number < 128 && value < 128,
    }
}

/// The wire bytes of a channel-voice event on channel 0: the status byte,
/// then the two data bytes.
pub open spec fn spec_midi_bytes(m: ChannelMessage) -> Seq<u8> {
    match m {
        ChannelMessage::NoteOn { key, vel } => seq![0x90u8, key, vel],
        ChannelMessage::NoteOff { key, vel } => seq![0x80u8, key, vel],
        ChannelMessage::Controller { number, value } => seq![0xB0u8, number, value],
    }
}

/// Relies on midly's `LiveEvent::write`: a channel-voice event on channel
/// 0 is written as its status byte (note-off 0x80, note-on 0x90,
/// controller 0xB0) followed by its two data bytes, and writing into a
/// byte vector never fails.  Data bytes below 128 pass through midly's
/// 7-bit masking unchanged.
#[verifier::external_body]
pub(crate) fn midi_event_bytes(m: &ChannelMessage) -> (r: Vec<u8>)
    requires
        spec_midi_wf(*m),
    ensures
        r@ == spec_midi_bytes(*m),
{
    let message = match *m {
        ChannelMessage::NoteOn { key, vel } => midly::MidiMessage::NoteOn { key: key.into(), vel: vel.into() },
        ChannelMessage::NoteOff { key, vel } => midly::MidiMessage::NoteOff { key: key.into(), vel: vel.into() },
        ChannelMessage::Controller { number, value } => midly::MidiMessage::Controller { controller: number.into(), value: value.into() },
    };
    let mut out = Vec::new();
    let event = midly::live::LiveEvent::Midi { channel: 0.into(), message };
    let _ = event.write(&mut out);
    out
}

} // verus!
