//! One polling tick, orchestrated: decode and process at most one input
//! frame (button emissions first, then the encoder reading, then the
//! slider), drain the tick's inbound datagrams, and report whether the
//! light snapshot needs one batched flush.  All outbound traffic leaves as
//! encoded packets for the caller to send.

use vstd::prelude::*;
use vstd::string::StringSliceAdditionalSpecFns;
use crate::buttons::{apply_model, ButtonStateMachine, Emission};
use crate::decoder::{
    decode_frame, spec_bit, spec_pad_events, ButtonEdge, DecodedFrame, CONTROL_FRAME,
    ENCODER_OFFSET, PAD_FRAME, SLIDER_OFFSET,
};
use crate::ident::ControlIdentifier;
use crate::lights::{Brightness, LightModel, PadColor, PadLight, BUTTON_COUNT, PAD_COUNT};
use crate::midi::{midi_event_bytes, spec_midi_bytes, ChannelMessage};
use crate::osc::{encode_status, osc_decoded, osc_encoded, spec_status_addr, status_addr};
use crate::pads::{
    spec_pad_brightness, spec_pad_note, spec_velocity, translate_pad, NoteEvent, PadEvent,
};
use crate::router::{route, route_effect};
use crate::settings::{notes_in_range, ButtonConfig, Settings};
use crate::slider::{apply_slider_level, spec_bar_brightness};

verus! {

/// The state one event loop owns: the button state machine, the pad note
/// map, and the encoder reading of the previous tick.
pub struct Context {
    pub machine: ButtonStateMachine,
    pub notemap: Vec<u8>,
    pub last_encoder: u8,
}

impl Context {
    /// Well-formed state: full button tables and a validated note map.
    pub open spec fn wf(&self) -> bool {
        &&& self.machine.wf()
        &&& self.notemap@.len() == PAD_COUNT
        &&& notes_in_range(self.notemap@)
    }

    /// Builds the loop state from validated settings.
    pub fn new(settings: &Settings) -> (r: Context)
        requires
            settings.spec_valid(),
            settings.button_configs@.len() == BUTTON_COUNT,
        ensures
            r.wf(),
            r.machine.configs@ == settings.button_configs@,
            forall|i: int| 0 <= i < BUTTON_COUNT ==> !r.machine.latch@[i],
            r.notemap@ == settings.notemaps@,
            r.last_encoder == 0,
    {
        let mut configs: Vec<ButtonConfig> = Vec::new();
        let mut k: usize = 0;
        while k < settings.button_configs.len()
            invariant
                k <= settings.button_configs@.len(),
                configs@ == settings.button_configs@.subrange(0, k as int),
            decreases settings.button_configs@.len() - k,
        {
            configs.push(settings.button_configs[k]);
            proof {
                assert(configs@ =~= settings.button_configs@.subrange(0, k as int + 1));
            }
            k = k + 1;
        }
        proof {
            assert(settings.button_configs@.subrange(0, settings.button_configs@.len() as int)
                =~= settings.button_configs@);
        }
        let mut notemap: Vec<u8> = Vec::new();
        let mut k: usize = 0;
        while k < settings.notemaps.len()
            invariant
                k <= settings.notemaps@.len(),
                notemap@ == settings.notemaps@.subrange(0, k as int),
            decreases settings.notemaps@.len() - k,
        {
            notemap.push(settings.notemaps[k]);
            proof {
                assert(notemap@ =~= settings.notemaps@.subrange(0, k as int + 1));
            }
            k = k + 1;
        }
        proof {
            assert(settings.notemaps@.subrange(0, settings.notemaps@.len() as int)
                =~= settings.notemaps@);
        }
        Context { machine: ButtonStateMachine::new(configs), notemap, last_encoder: 0 }
    }
}

/// Everything one tick hands back to the caller: encoded status datagrams
/// and note-port packets in send order, a surfaced encoder reading, screen
/// texts asked for by inbound messages, and whether the light snapshot
/// must be flushed to the device now.
pub struct TickOutput {
    pub status: Vec<Vec<u8>>,
    pub midi: Vec<Vec<u8>>,
    pub encoder: Option<u8>,
    pub screen: Vec<String>,
    pub flush: bool,
}

/// The wire bytes of the status message one emission produces.
pub open spec fn spec_status_of(e: Emission) -> Seq<u8> {
    osc_encoded(
        spec_status_addr(e.id.spec_name_bytes()),
        if e.value {
            1
        } else {
            0
        },
    )
}

/// The secondary controller message an accepted emission produces, when
/// the button has one configured; out-of-range message numbers have no
/// effect.
pub open spec fn spec_cc_of(cfg: ButtonConfig, accepted: Option<bool>) -> Seq<ChannelMessage> {
    match accepted {
        Some(v) => match cfg.cc {
            Some(c) => if c < 128 {
                seq![
                    ChannelMessage::Controller {
                        number: c,
                        value: if v {
                            127
                        } else {
                            0
                        },
                    },
                ]
            } else {
                Seq::empty()
            },
            None => Seq::empty(),
        },
        None => Seq::empty(),
    }
}

/// The state and outputs after running the first `k` button readings of a
/// control frame through the state machine.
pub struct ButtonsPhase {
    pub latch: Seq<bool>,
    pub blights: Seq<Brightness>,
    pub emissions: Seq<Emission>,
    pub midi: Seq<ChannelMessage>,
    pub lit: bool,
}

/// Folds the button state machine over the first `k` readings.
pub open spec fn spec_buttons_phase(
    cfgs: Seq<ButtonConfig>,
    latch: Seq<bool>,
    blights: Seq<Brightness>,
    presses: Seq<bool>,
    k: nat,
) -> ButtonsPhase
    decreases k,
{
    if k == 0 {
        ButtonsPhase { latch, blights, emissions: Seq::empty(), midi: Seq::empty(), lit: false }
    } else {
        let prev = spec_buttons_phase(cfgs, latch, blights, presses, (k - 1) as nat);
        let m = apply_model(cfgs, prev.latch, prev.blights, k - 1, presses[k - 1]);
        ButtonsPhase {
            latch: m.latch,
            blights: m.blights,
            emissions: prev.emissions + m.emissions,
            midi: prev.midi + spec_cc_of(cfgs[k - 1], m.accepted),
            lit: prev.lit || m.lit,
        }
    }
}

/// The button readings a control frame carries, in identifier order.
pub open spec fn spec_frame_presses(frame: Seq<u8>) -> Seq<bool> {
    Seq::new(BUTTON_COUNT as nat, |k: int| spec_bit(frame, k))
}

/// The pad lights and note packets after running the first `k` pad events.
pub struct PadsPhase {
    pub pads: Seq<PadLight>,
    pub midi: Seq<ChannelMessage>,
    pub lit: bool,
}

/// The note-port message one pad note event produces.
pub open spec fn spec_note_msg(n: Option<NoteEvent>) -> Seq<ChannelMessage> {
    match n {
        Some(e) => if e.on {
            seq![ChannelMessage::NoteOn { key: e.key, vel: e.velocity }]
        } else {
            seq![ChannelMessage::NoteOff { key: e.key, vel: e.velocity }]
        },
        None => Seq::empty(),
    }
}

/// Folds the pad translator over the first `k` pad events.
pub open spec fn spec_pads_phase(
    notemap: Seq<u8>,
    pads: Seq<PadLight>,
    events: Seq<PadEvent>,
    k: nat,
) -> PadsPhase
    decreases k,
{
    if k == 0 {
        PadsPhase { pads, midi: Seq::empty(), lit: false }
    } else {
        let prev = spec_pads_phase(notemap, pads, events, (k - 1) as nat);
        let ev = events[k - 1];
        let target = spec_pad_brightness(ev.event, ev.value);
        let changed = target != prev.pads[ev.index as int].level;
        PadsPhase {
            pads: if changed {
                prev.pads.update(ev.index as int, PadLight { color: PadColor::Blue, level: target })
            } else {
                prev.pads
            },
            midi: prev.midi + spec_note_msg(
                spec_pad_note(ev.event, notemap[ev.index as int], ev.value),
            ),
            lit: prev.lit || changed,
        }
    }
}

/// Runs every button reading of a control frame through the state machine,
/// returning the encoded status datagrams and the encoded secondary
/// controller packets, in emission order.
fn run_buttons(
    machine: &mut ButtonStateMachine,
    lights: &mut LightModel,
    edges: &Vec<ButtonEdge>,
) -> (r: (Vec<Vec<u8>>, Vec<Vec<u8>>))
    requires
        old(machine).wf(),
        old(lights).wf(),
        edges@.len() == BUTTON_COUNT,
        forall|k: int|
            0 <= k < BUTTON_COUNT ==> (#[trigger] edges@[k]).id
                == ControlIdentifier::spec_from_index(k),
    ensures
        final(machine).wf(),
        final(lights).wf(),
        final(machine).configs@ == old(machine).configs@,
        ({
            let bp = spec_buttons_phase(
                old(machine).configs@,
                old(machine).latch@,
                old(lights).buttons@,
                edges@.map_values(|e: ButtonEdge| e.pressed),
                BUTTON_COUNT as nat,
            );
            &&& final(machine).latch@ == bp.latch
            &&& final(lights).buttons@ == bp.blights
            &&& r.0@.len() == bp.emissions.len()
            &&& (forall|t: int|
                0 <= t < bp.emissions.len() ==> (#[trigger] r.0@[t])@ == spec_status_of(
                    bp.emissions[t],
                ))
            &&& r.1@.len() == bp.midi.len()
            &&& (forall|t: int|
                0 <= t < bp.midi.len() ==> (#[trigger] r.1@[t])@ == spec_midi_bytes(bp.midi[t]))
            &&& final(lights).dirty == (old(lights).dirty || bp.lit)
        }),
        final(lights).pads@ == old(lights).pads@,
        final(lights).slider@ == old(lights).slider@,
{
    let ghost cfgs0 = machine.configs@;
    let ghost latch0 = machine.latch@;
    let ghost blights0 = lights.buttons@;
    let ghost presses = edges@.map_values(|e: ButtonEdge| e.pressed);
    let mut status: Vec<Vec<u8>> = Vec::new();
    let mut midi: Vec<Vec<u8>> = Vec::new();
    let mut k: usize = 0;
    while k < BUTTON_COUNT
        invariant
            k <= BUTTON_COUNT,
            machine.wf(),
            lights.wf(),
            machine.configs@ == cfgs0,
            latch0.len() == BUTTON_COUNT,
            blights0.len() == BUTTON_COUNT,
            edges@.len() == BUTTON_COUNT,
            presses == edges@.map_values(|e: ButtonEdge| e.pressed),
            forall|t: int|
                0 <= t < BUTTON_COUNT ==> (#[trigger] edges@[t]).id
                    == ControlIdentifier::spec_from_index(t),
            ({
                let bp = spec_buttons_phase(cfgs0, latch0, blights0, presses, k as nat);
                &&& machine.latch@ == bp.latch
                &&& lights.buttons@ == bp.blights
                &&& status@.len() == bp.emissions.len()
                &&& (forall|t: int|
                    0 <= t < bp.emissions.len() ==> (#[trigger] status@[t])@ == spec_status_of(
                        bp.emissions[t],
                    ))
                &&& midi@.len() == bp.midi.len()
                &&& (forall|t: int|
                    0 <= t < bp.midi.len() ==> (#[trigger] midi@[t])@ == spec_midi_bytes(
                        bp.midi[t],
                    ))
                &&& lights.dirty == (old(lights).dirty || bp.lit)
            }),
            lights.pads@ == old(lights).pads@,
            lights.slider@ == old(lights).slider@,
        decreases BUTTON_COUNT - k,
    {
        let edge = edges[k];
        let ghost bp_pre = spec_buttons_phase(cfgs0, latch0, blights0, presses, k as nat);
        let (em, accepted) = machine.apply(lights, edge.id, edge.pressed);
        proof {
            assert(presses[k as int] == edge.pressed);
        }
        let ghost m = apply_model(cfgs0, bp_pre.latch, bp_pre.blights, k as int, edge.pressed);
        let ghost status_pre = status@;
        let mut t: usize = 0;
        while t < em.len()
            invariant
                t <= em@.len(),
                em@ == m.emissions,
                status@.len() == status_pre.len() + t,
                forall|u: int| 0 <= u < status_pre.len() ==> #[trigger] status@[u] == status_pre[u],
                forall|u: int|
                    0 <= u < t ==> (#[trigger] status@[status_pre.len() + u])@ == spec_status_of(
                        em@[u],
                    ),
            decreases em@.len() - t,
        {
            let e = em[t];
            let name = e.id.name_bytes();
            let addr = status_addr(name.as_slice());
            let packet = encode_status(&addr, if e.value { 1 } else { 0 });
            status.push(packet);
            t = t + 1;
        }
        if let Some(v) = accepted {
            let cfg = machine.configs[k];
            if let Some(c) = cfg.cc {
                if c < 128 {
                    let message = ChannelMessage::Controller {
                        number: c,
                        value: if v { 127 } else { 0 },
                    };
                    let packet = midi_event_bytes(&message);
                    midi.push(packet);
                }
            }
        }
        proof {
            let bp_post = spec_buttons_phase(cfgs0, latch0, blights0, presses, k as nat + 1);
            assert(bp_post.emissions =~= bp_pre.emissions + m.emissions);
            assert(bp_post.midi =~= bp_pre.midi + spec_cc_of(cfgs0[k as int], m.accepted));
            assert forall|u: int| 0 <= u < bp_post.emissions.len() implies (#[trigger] status@[u])@
                == spec_status_of(bp_post.emissions[u]) by {
                if u < bp_pre.emissions.len() {
                    assert(status@[u] == status_pre[u]);
                } else {
                    let w = u - status_pre.len();
                    assert(status@[status_pre.len() + w]@ == spec_status_of(em@[w]));
                    assert(bp_post.emissions[u] == em@[w]);
                }
            }
        }
        k = k + 1;
    }
    (status, midi)
}

/// Runs every pad event of a pad frame through the pad translator,
/// returning the encoded note packets in frame order.
fn run_pads(notemap: &Vec<u8>, lights: &mut LightModel, events: &Vec<PadEvent>) -> (midi: Vec<
    Vec<u8>,
>)
    requires
        old(lights).wf(),
        notemap@.len() == PAD_COUNT,
        notes_in_range(notemap@),
        forall|k: int|
            0 <= k < events@.len() ==> (#[trigger] events@[k]).index < PAD_COUNT
                && events@[k].value < 0x1000,
    ensures
        final(lights).wf(),
        ({
            let pp = spec_pads_phase(notemap@, old(lights).pads@, events@, events@.len() as nat);
            &&& final(lights).pads@ == pp.pads
            &&& midi@.len() == pp.midi.len()
            &&& (forall|t: int|
                0 <= t < pp.midi.len() ==> (#[trigger] midi@[t])@ == spec_midi_bytes(pp.midi[t]))
            &&& final(lights).dirty == (old(lights).dirty || pp.lit)
        }),
        final(lights).buttons@ == old(lights).buttons@,
        final(lights).slider@ == old(lights).slider@,
{
    let ghost pads0 = old(lights).pads@;
    let mut midi: Vec<Vec<u8>> = Vec::new();
    let mut k: usize = 0;
    while k < events.len()
        invariant
            k <= events@.len(),
            lights.wf(),
            notemap@.len() == PAD_COUNT,
            notes_in_range(notemap@),
            forall|t: int|
                0 <= t < events@.len() ==> (#[trigger] events@[t]).index < PAD_COUNT
                    && events@[t].value < 0x1000,
            ({
                let pp = spec_pads_phase(notemap@, pads0, events@, k as nat);
                &&& lights.pads@ == pp.pads
                &&& midi@.len() == pp.midi.len()
                &&& (forall|t: int|
                    0 <= t < pp.midi.len() ==> (#[trigger] midi@[t])@ == spec_midi_bytes(
                        pp.midi[t],
                    ))
                &&& lights.dirty == (old(lights).dirty || pp.lit)
            }),
            pads0 == old(lights).pads@,
            lights.buttons@ == old(lights).buttons@,
            lights.slider@ == old(lights).slider@,
        decreases events@.len() - k,
    {
        let ev = events[k];
        let note = translate_pad(&ev, notemap, lights);
        if let Some(n) = note {
            proof {
                let v = ev.value;
                assert(v < 0x1000 ==> v >> 5 < 128) by (bit_vector);
                assert(v > 0 && v >> 5 == 0 ==> spec_velocity(v) == 1);
                assert(spec_velocity(ev.value) < 128);
            }
            let message = if n.on {
                ChannelMessage::NoteOn { key: n.key, vel: n.velocity }
            } else {
                ChannelMessage::NoteOff { key: n.key, vel: n.velocity }
            };
            let packet = midi_event_bytes(&message);
            midi.push(packet);
            proof {
                let pp_post = spec_pads_phase(notemap@, pads0, events@, k as nat + 1);
                assert(pp_post.midi =~= spec_pads_phase(notemap@, pads0, events@, k as nat).midi
                    + spec_note_msg(Some(n)));
            }
        } else {
            proof {
                let pp_post = spec_pads_phase(notemap@, pads0, events@, k as nat + 1);
                assert(pp_post.midi =~= spec_pads_phase(notemap@, pads0, events@, k as nat).midi);
            }
        }
        k = k + 1;
    }
    midi
}

/// What handling one datagram does: when the bytes decode to a message,
/// its routed light effect and screen text; otherwise nothing.
pub open spec fn datagram_effect(
    dgram: Seq<u8>,
    l0: LightModel,
    l1: LightModel,
    screen: Option<String>,
) -> bool {
    match osc_decoded(dgram) {
        Some(m) => route_effect(m, l0, l1, screen),
        None => l1 == l0 && screen is None,
    }
}

/// What draining a queue of datagrams in order does: each datagram's
/// effect applies to the state the previous ones left, and the screen
/// texts collect in order.
pub open spec fn drain_effect(
    dgrams: Seq<Vec<u8>>,
    l0: LightModel,
    l1: LightModel,
    screens: Seq<String>,
) -> bool
    decreases dgrams.len(),
{
    if dgrams.len() == 0 {
        &&& l1 == l0
        &&& screens.len() == 0
    } else {
        exists|mid: LightModel, r: Option<String>|
            {
                &&& #[trigger] datagram_effect(dgrams.last()@, mid, l1, r)
                &&& match r {
                    Some(s) => {
                        &&& screens.len() >= 1
                        &&& screens.last() == s
                        &&& drain_effect(dgrams.drop_last(), l0, mid, screens.drop_last())
                    },
                    None => drain_effect(dgrams.drop_last(), l0, mid, screens),
                }
            }
    }
}

/// Decodes one inbound datagram and routes it: a datagram that decodes to
/// a message gets exactly that message's routed effect; a bundle or a
/// malformed datagram is dropped silently, leaving everything unchanged.
pub fn handle_datagram(lights: &mut LightModel, dgram: &[u8]) -> (r: Option<String>)
    requires
        old(lights).wf(),
    ensures
        final(lights).wf(),
        datagram_effect(dgram@, *old(lights), *final(lights), r),
{
    match crate::osc::decode_datagram(dgram) {
        Some(msg) => {
            let r = route(&msg, lights);
            proof {
                assert(route_effect(msg@, *old(lights), *lights, r));
            }
            r
        },
        None => None,
    }
}

/// One polling tick: process at most one input frame, drain this tick's
/// inbound datagrams in order, and clear the dirty flag, telling the
/// caller whether to flush.  Light updates from the frame are applied
/// before any inbound update, and the flush decision comes after both.
pub fn tick(
    ctx: &mut Context,
    lights: &mut LightModel,
    frame: Option<&[u8]>,
    datagrams: &Vec<Vec<u8>>,
) -> (out: TickOutput)
    requires
        old(ctx).wf(),
        old(lights).wf(),
        frame matches Some(f) ==> f@.len() > SLIDER_OFFSET,
    ensures
        final(ctx).wf(),
        final(lights).wf(),
        final(ctx).machine.configs@ == old(ctx).machine.configs@,
        final(ctx).notemap@ == old(ctx).notemap@,
        !final(lights).dirty,
        out.screen@.len() <= datagrams@.len(),
        frame matches Some(f) ==> (f@[0] == CONTROL_FRAME ==> ({
            let bp = spec_buttons_phase(
                old(ctx).machine.configs@,
                old(ctx).machine.latch@,
                old(lights).buttons@,
                spec_frame_presses(f@),
                BUTTON_COUNT as nat,
            );
            let enc = f@[ENCODER_OFFSET as int];
            let sv = f@[SLIDER_OFFSET as int];
            &&& final(ctx).machine.latch@ == bp.latch
            &&& out.status@.len() == bp.emissions.len() + (if sv != 0 {
                1int
            } else {
                0int
            })
            &&& (forall|t: int|
                0 <= t < bp.emissions.len() ==> (#[trigger] out.status@[t])@ == spec_status_of(
                    bp.emissions[t],
                ))
            &&& (sv != 0 ==> out.status@[bp.emissions.len() as int]@ == osc_encoded(
                spec_status_addr("slider".spec_bytes()),
                sv as int,
            ))
            &&& out.midi@.len() == bp.midi.len()
            &&& (forall|t: int|
                0 <= t < bp.midi.len() ==> (#[trigger] out.midi@[t])@ == spec_midi_bytes(
                    bp.midi[t],
                ))
            &&& out.encoder == (if enc != 0 || old(ctx).last_encoder != enc {
                Some(enc)
            } else {
                None::<u8>
            })
            &&& final(ctx).last_encoder == enc
            &&& exists|ld: LightModel, lend: LightModel|
                {
                    &&& #[trigger] drain_effect(datagrams@, ld, lend, out.screen@)
                    &&& ld.wf()
                    &&& ld.buttons@ == bp.blights
                    &&& ld.pads@ == old(lights).pads@
                    &&& (sv != 0 ==> forall|p: int|
                        0 <= p < crate::lights::SLIDER_BAR_LEN ==> ld.slider@[p]
                            == spec_bar_brightness(sv as int, p))
                    &&& (sv == 0 ==> ld.slider@ == old(lights).slider@)
                    &&& ld.dirty == (old(lights).dirty || bp.lit || sv != 0)
                    &&& final(lights).buttons@ == lend.buttons@
                    &&& final(lights).pads@ == lend.pads@
                    &&& final(lights).slider@ == lend.slider@
                    &&& out.flush == lend.dirty
                }
        })),
        frame matches Some(f) ==> (f@[0] == PAD_FRAME ==> ({
            let pp = spec_pads_phase(
                old(ctx).notemap@,
                old(lights).pads@,
                spec_pad_events(f@, 1),
                spec_pad_events(f@, 1).len() as nat,
            );
            &&& final(ctx).machine.latch@ == old(ctx).machine.latch@
            &&& final(ctx).last_encoder == old(ctx).last_encoder
            &&& out.status@.len() == 0
            &&& out.midi@.len() == pp.midi.len()
            &&& (forall|t: int|
                0 <= t < pp.midi.len() ==> (#[trigger] out.midi@[t])@ == spec_midi_bytes(
                    pp.midi[t],
                ))
            &&& out.encoder is None
            &&& exists|ld: LightModel, lend: LightModel|
                {
                    &&& #[trigger] drain_effect(datagrams@, ld, lend, out.screen@)
                    &&& ld.wf()
                    &&& ld.pads@ == pp.pads
                    &&& ld.buttons@ == old(lights).buttons@
                    &&& ld.slider@ == old(lights).slider@
                    &&& ld.dirty == (old(lights).dirty || pp.lit)
                    &&& final(lights).buttons@ == lend.buttons@
                    &&& final(lights).pads@ == lend.pads@
                    &&& final(lights).slider@ == lend.slider@
                    &&& out.flush == lend.dirty
                }
        })),
        (match frame {
            Some(f) => f@[0] != CONTROL_FRAME && f@[0] != PAD_FRAME,
            None => true,
        }) ==> ({
            &&& final(ctx).machine.latch@ == old(ctx).machine.latch@
            &&& final(ctx).last_encoder == old(ctx).last_encoder
            &&& out.status@.len() == 0
            &&& out.midi@.len() == 0
            &&& out.encoder is None
            &&& exists|lend: LightModel|
                {
                    &&& #[trigger] drain_effect(datagrams@, *old(lights), lend, out.screen@)
                    &&& final(lights).buttons@ == lend.buttons@
                    &&& final(lights).pads@ == lend.pads@
                    &&& final(lights).slider@ == lend.slider@
                    &&& out.flush == lend.dirty
                }
        }),
{
    let mut status: Vec<Vec<u8>> = Vec::new();
    let mut midi: Vec<Vec<u8>> = Vec::new();
    let mut encoder: Option<u8> = None;
    match frame {
        Some(f) => {
            match decode_frame(f) {
                DecodedFrame::Control { edges, encoder: enc, slider: sv } => {
                    proof {
                        assert(edges@.map_values(|e: ButtonEdge| e.pressed) =~= spec_frame_presses(
                            f@,
                        ));
                    }
                    let (st, md) = run_buttons(&mut ctx.machine, lights, &edges);
                    status = st;
                    midi = md;
                    if enc != 0 || ctx.last_encoder != enc {
                        encoder = Some(enc);
                    }
                    ctx.last_encoder = enc;
                    if sv != 0 {
                        let tail = "slider".as_bytes();
                        let addr = status_addr(tail);
                        let packet = encode_status(&addr, sv as i32);
                        status.push(packet);
                        apply_slider_level(lights, sv);
                    }
                },
                DecodedFrame::Pads { events } => {
                    midi = run_pads(&ctx.notemap, lights, &events);
                },
                DecodedFrame::Unrecognized => {},
            }
        },
        None => {},
    }
    let mut screen: Vec<String> = Vec::new();
    let ghost pre_drain = *lights;
    proof {
        assert(datagrams@.subrange(0, 0) =~= Seq::<Vec<u8>>::empty());
    }
    let mut d: usize = 0;
    while d < datagrams.len()
        invariant
            d <= datagrams@.len(),
            lights.wf(),
            screen@.len() <= d,
            drain_effect(datagrams@.subrange(0, d as int), pre_drain, *lights, screen@),
        decreases datagrams@.len() - d,
    {
        let ghost mid = *lights;
        let ghost screen_pre = screen@;
        let text = handle_datagram(lights, datagrams[d].as_slice());
        let ghost rg = text;
        match text {
            Some(s) => screen.push(s),
            None => {},
        }
        proof {
            let done = datagrams@.subrange(0, d as int + 1);
            assert(done.drop_last() =~= datagrams@.subrange(0, d as int));
            assert(done.last() == datagrams@[d as int]);
            assert(datagram_effect(done.last()@, mid, *lights, rg));
            if rg is Some {
                assert(screen@.last() == rg->0);
                assert(screen@.drop_last() =~= screen_pre);
            }
            assert(drain_effect(done, pre_drain, *lights, screen@));
        }
        d = d + 1;
    }
    proof {
        assert(datagrams@.subrange(0, datagrams@.len() as int) =~= datagrams@);
    }
    let ghost after_drain = *lights;
    let flush = lights.take_dirty();
    let out = TickOutput { status, midi, encoder, screen, flush };
    proof {
        assert(drain_effect(datagrams@, pre_drain, after_drain, out.screen@));
    }
    out
}

} // verus!
