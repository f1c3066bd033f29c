//! Input-frame decoding: a raw frame tagged by its selector byte becomes
//! typed events.  A control frame maps 48 bit positions onto the button
//! table (unmapped positions are ignored) and carries one raw encoder byte
//! and one raw slider byte at fixed offsets.  A pad frame is a run of
//! 3-byte tuples ended by the first all-zero tuple after the first; a tuple
//! with an unrecognized event nibble or an out-of-range pad index is
//! skipped without aborting the scan.

use vstd::prelude::*;
use crate::ident::ControlIdentifier;
use crate::lights::{BUTTON_COUNT, PAD_COUNT};
use crate::pads::{spec_event_from_nibble, PadEvent, PadEventType};

verus! {

/// Selector byte of a control frame.
pub const CONTROL_FRAME: u8 = 0x01;

/// Selector byte of a pad frame.
pub const PAD_FRAME: u8 = 0x02;

/// Offset of the encoder byte in a control frame.
pub const ENCODER_OFFSET: usize = 7;

/// Offset of the slider byte in a control frame.
pub const SLIDER_OFFSET: usize = 10;

/// One button reading from a control frame.
#[derive(Clone, Copy, Debug, PartialEq, Eq, Structural)]
pub struct ButtonEdge {
    pub id: ControlIdentifier,
    pub pressed: bool,
}

/// A decoded input frame.
#[derive(Debug)]
pub enum DecodedFrame {
    /// One reading per mapped button, plus the raw encoder and slider bytes.
    Control { edges: Vec<ButtonEdge>, encoder: u8, slider: u8 },
    /// The pad events of a pad frame, in frame order.
    Pads { events: Vec<PadEvent> },
    /// A frame with an unknown selector byte; ignored.
    Unrecognized,
}

/// Whether the bit for button position `idx` is set in a control frame:
/// the button bitmap starts at offset 1, eight positions per byte, least
/// significant bit first.
pub open spec fn spec_bit(frame: Seq<u8>, idx: int) -> bool {
    (frame[1 + idx / 8] >> ((idx % 8) as u8)) & 1 == 1
}

/// The pad events encoded from tuple offset `i` on: tuples of pad index,
/// event nibble with the value's high bits, and the value's low byte.  The
/// scan ends at the frame's end or at the first all-zero tuple after the
/// first; tuples with an unmapped nibble or an out-of-range index are left
/// out.
pub open spec fn spec_pad_events(frame: Seq<u8>, i: int) -> Seq<PadEvent>
    decreases frame.len() - i,
{
    if i < 0 || i + 2 >= frame.len() {
        Seq::empty()
    } else {
        let idx = frame[i];
        let evtn = frame[i + 1] & 0xf0;
        let val = (((frame[i + 1] & 0x0f) as u16) << 8) | (frame[i + 2] as u16);
        if i > 1 && idx == 0 && evtn == 0 && val == 0 {
            Seq::empty()
        } else {
            let rest = spec_pad_events(frame, i + 3);
            if idx < PAD_COUNT && spec_event_from_nibble(evtn) is Some {
                seq![
                    PadEvent { index: idx, event: spec_event_from_nibble(evtn)->0, value: val },
                ] + rest
            } else {
                rest
            }
        }
    }
}

/// Decodes one raw input frame.
pub fn decode_frame(frame: &[u8]) -> (r: DecodedFrame)
    requires
        frame@.len() > SLIDER_OFFSET,
    ensures
        frame@[0] == CONTROL_FRAME ==> (r matches DecodedFrame::Control { edges, encoder, slider }
            && edges@.len() == BUTTON_COUNT && (forall|k: int|
            0 <= k < BUTTON_COUNT ==> (#[trigger] edges@[k]).id
                == ControlIdentifier::spec_from_index(k) && edges@[k].pressed == spec_bit(
                frame@,
                k,
            )) && encoder == frame@[ENCODER_OFFSET as int] && slider == frame@[SLIDER_OFFSET as int]),
        frame@[0] == PAD_FRAME ==> (r matches DecodedFrame::Pads { events } && events@
            == spec_pad_events(frame@, 1) && (forall|k: int|
            0 <= k < events@.len() ==> (#[trigger] events@[k]).index < PAD_COUNT
                && events@[k].value < 0x1000)),
        frame@[0] != CONTROL_FRAME && frame@[0] != PAD_FRAME ==> r is Unrecognized,
{
    if frame[0] == CONTROL_FRAME {
        let mut edges: Vec<ButtonEdge> = Vec::new();
        let mut idx: usize = 0;
        while idx < BUTTON_COUNT
            invariant
                idx <= BUTTON_COUNT,
                frame@.len() > SLIDER_OFFSET,
                edges@.len() == idx,
                forall|k: int|
                    0 <= k < idx ==> (#[trigger] edges@[k]).id
                        == ControlIdentifier::spec_from_index(k) && edges@[k].pressed == spec_bit(
                        frame@,
                        k,
                    ),
            decreases BUTTON_COUNT - idx,
        {
            let id = ControlIdentifier::from_index(idx).unwrap();
            let byte = frame[1 + idx / 8];
            let shift = (idx % 8) as u8;
            let pressed = (byte >> shift) & 1 == 1;
            edges.push(ButtonEdge { id, pressed });
            idx = idx + 1;
        }
        let encoder = frame[ENCODER_OFFSET];
        let slider = frame[SLIDER_OFFSET];
        DecodedFrame::Control { edges, encoder, slider }
    } else if frame[0] == PAD_FRAME {
        let mut events: Vec<PadEvent> = Vec::new();
        proof {
            assert(events@ + spec_pad_events(frame@, 1) =~= spec_pad_events(frame@, 1));
        }
        let mut i: usize = 1;
        while i < frame.len() - 2
            invariant_except_break
                events@ + spec_pad_events(frame@, i as int) == spec_pad_events(frame@, 1),
            invariant
                1 <= i <= frame@.len(),
                frame@.len() > SLIDER_OFFSET,
                forall|k: int|
                    0 <= k < events@.len() ==> (#[trigger] events@[k]).index < PAD_COUNT
                        && events@[k].value < 0x1000,
            ensures
                events@ == spec_pad_events(frame@, 1),
            decreases frame@.len() - i,
        {
            let idx = frame[i];
            let eb = frame[i + 1];
            let lo = frame[i + 2];
            let evtn = eb & 0xf0;
            let hi = eb & 0x0f;
            proof {
                assert(hi <= 0x0f) by (bit_vector)
                    requires
                        hi == eb & 0x0f,
                ;
            }
            let val: u16 = ((hi as u16) << 8) | (lo as u16);
            proof {
                let h16 = hi as u16;
                let l16 = lo as u16;
                assert(h16 <= 15 && l16 <= 255 ==> ((h16 << 8) | l16) < 0x1000) by (bit_vector);
            }
            if i > 1 && idx == 0 && evtn == 0 && val == 0 {
                proof {
                    assert(spec_pad_events(frame@, i as int) =~= Seq::<PadEvent>::empty());
                    assert(events@ + spec_pad_events(frame@, i as int) =~= events@);
                }
                break ;
            }
            let ghost pre = events@;
            if idx < PAD_COUNT as u8 {
                if let Some(event) = PadEventType::from_nibble(evtn) {
                    events.push(PadEvent { index: idx, event, value: val });
                }
            }
            proof {
                let rest = spec_pad_events(frame@, i as int + 3);
                if idx < PAD_COUNT && spec_event_from_nibble(evtn) is Some {
                    let e = PadEvent {
                        index: idx,
                        event: spec_event_from_nibble(evtn)->0,
                        value: val,
                    };
                    assert(spec_pad_events(frame@, i as int) =~= seq![e] + rest);
                    assert(pre + (seq![e] + rest) =~= pre.push(e) + rest);
                } else {
                    assert(spec_pad_events(frame@, i as int) =~= rest);
                }
            }
            i = i + 3;
        }
        DecodedFrame::Pads { events }
    } else {
        DecodedFrame::Unrecognized
    }
}

} // verus!
