//! Inbound status-message routing: an inbound message's slash-delimited
//! address selects a slider repaint, a direct pad write, a screen text, or
//! a direct button-light override, each applied to the light snapshot.

use vstd::prelude::*;
use vstd::string::StringSliceAdditionalSpecFns;
use crate::ident::{spec_lookup, identifier_from_segment, bytes_eq, ControlIdentifier};
use crate::lights::{
    spec_color_from_code, Brightness, LightModel, PadColor, PadLight, PAD_COUNT, SLIDER_BAR_LEN,
};
use crate::slider::{apply_slider_message, spec_bar_brightness};

verus! {

/// One typed argument of an inbound message.  Arguments of kinds the
/// router never reads are kept as `Other` so that their positions still
/// count.
#[derive(Debug)]
pub enum OscArg {
    Int(i32),
    Str(String),
    Other,
}

/// One decoded inbound message: the raw address bytes and the ordered
/// arguments.
#[derive(Debug)]
pub struct InboundMessage {
    pub addr: Vec<u8>,
    pub args: Vec<OscArg>,
}

/// Ghost view of one inbound argument: the value it carries.
pub enum OscArgView {
    Int(i32),
    Str(Seq<char>),
    Other,
}

impl View for OscArg {
    type V = OscArgView;

    open spec fn view(&self) -> OscArgView {
        match self {
            OscArg::Int(v) => OscArgView::Int(*v),
            OscArg::Str(s) => OscArgView::Str(s@),
            OscArg::Other => OscArgView::Other,
        }
    }
}

/// The views of a list of arguments, in order.
pub open spec fn arg_views(args: Seq<OscArg>) -> Seq<OscArgView> {
    args.map_values(|a: OscArg| a@)
}

/// Ghost view of one inbound message: its address bytes and argument
/// values.
pub struct InboundMessageView {
    pub addr: Seq<u8>,
    pub args: Seq<OscArgView>,
}

impl View for InboundMessage {
    type V = InboundMessageView;

    open spec fn view(&self) -> InboundMessageView {
        InboundMessageView { addr: self.addr@, args: arg_views(self.args@) }
    }
}

/// The index of the first path separator at or after `i`, or the address
/// length when none follows.
pub open spec fn spec_seg_end(a: Seq<u8>, i: int) -> int
    decreases a.len() - i,
{
    if i < 0 || i >= a.len() || a[i] == 47 {
        i
    } else {
        spec_seg_end(a, i + 1)
    }
}

/// One unfolding of `spec_seg_end`.
proof fn seg_end_unfold(a: Seq<u8>, i: int)
    ensures
        spec_seg_end(a, i) == (if i < 0 || i >= a.len() || a[i] == 47 {
            i
        } else {
            spec_seg_end(a, i + 1)
        }),
{
}

/// `spec_seg_end` stays between its start and the address length.
proof fn lemma_seg_end_bounds(a: Seq<u8>, i: int)
    requires
        0 <= i <= a.len(),
    ensures
        i <= spec_seg_end(a, i) <= a.len(),
    decreases a.len() - i,
{
    seg_end_unfold(a, i);
    if !(i >= a.len() || a[i] == 47) {
        lemma_seg_end_bounds(a, i + 1);
    }
}

/// A position is the segment end exactly when no separator sits before it
/// and it is the length or a separator.
proof fn lemma_seg_end_char(a: Seq<u8>, i: int, j: int)
    requires
        0 <= i <= j <= a.len(),
        forall|t: int| i <= t < j ==> a[t] != 47,
        j == a.len() || a[j] == 47,
    ensures
        spec_seg_end(a, i) == j,
    decreases j - i,
{
    seg_end_unfold(a, i);
    if i < j {
        lemma_seg_end_char(a, i + 1, j);
    }
}

/// The slash-delimited path segments of an address from position `i` on,
/// with empty segments dropped.
pub open spec fn spec_segments_from(a: Seq<u8>, i: int) -> Seq<Seq<u8>>
    decreases a.len() - i,
    via spec_segments_from_decreases
{
    if i < 0 || i >= a.len() {
        Seq::empty()
    } else if a[i] == 47 {
        spec_segments_from(a, i + 1)
    } else {
        seq![a.subrange(i, spec_seg_end(a, i))] + spec_segments_from(a, spec_seg_end(a, i))
    }
}

#[via_fn]
proof fn spec_segments_from_decreases(a: Seq<u8>, i: int) {
    if 0 <= i < a.len() && a[i] != 47 {
        seg_end_unfold(a, i);
        lemma_seg_end_bounds(a, i + 1);
    }
}

/// The path segments of a whole address.
pub open spec fn spec_segments(a: Seq<u8>) -> Seq<Seq<u8>> {
    spec_segments_from(a, 0)
}

/// The byte sequences a list of segment vectors holds.
pub open spec fn seg_views(s: Seq<Vec<u8>>) -> Seq<Seq<u8>> {
    s.map_values(|v: Vec<u8>| v@)
}

/// Splits an address into its slash-delimited segments, dropping empty
/// ones.
pub fn split_segments(addr: &[u8]) -> (r: Vec<Vec<u8>>)
    ensures
        seg_views(r@) == spec_segments(addr@),
{
    let mut segs: Vec<Vec<u8>> = Vec::new();
    proof {
        assert(seg_views(segs@) + spec_segments_from(addr@, 0) =~= spec_segments_from(addr@, 0));
    }
    let mut i: usize = 0;
    while i < addr.len()
        invariant
            i <= addr@.len(),
            seg_views(segs@) + spec_segments_from(addr@, i as int) == spec_segments(addr@),
        decreases addr@.len() - i,
    {
        if addr[i] == 47 {
            proof {
                assert(spec_segments_from(addr@, i as int) == spec_segments_from(
                    addr@,
                    i as int + 1,
                ));
            }
            i = i + 1;
        } else {
            let start = i;
            let mut seg: Vec<u8> = Vec::new();
            while i < addr.len() && addr[i] != 47
                invariant
                    start <= i <= addr@.len(),
                    start < addr@.len(),
                    addr@[start as int] != 47,
                    seg@ == addr@.subrange(start as int, i as int),
                    forall|t: int| start <= t < i ==> addr@[t] != 47,
                decreases addr@.len() - i,
            {
                seg.push(addr[i]);
                proof {
                    assert(seg@ =~= addr@.subrange(start as int, i as int + 1));
                }
                i = i + 1;
            }
            proof {
                lemma_seg_end_char(addr@, start as int, i as int);
            }
            let ghost pre = segs@;
            segs.push(seg);
            proof {
                assert(spec_segments_from(addr@, start as int) == seq![
                    addr@.subrange(start as int, i as int),
                ] + spec_segments_from(addr@, i as int));
                assert(seg_views(segs@) =~= seg_views(pre).push(addr@.subrange(
                    start as int,
                    i as int,
                )));
                assert(seg_views(segs@) + spec_segments_from(addr@, i as int) =~= seg_views(pre)
                    + spec_segments_from(addr@, start as int));
            }
        }
    }
    proof {
        assert(seg_views(segs@) + spec_segments_from(addr@, i as int) =~= seg_views(segs@));
    }
    segs
}

/// The numeric value of a run of decimal digits, most significant first.
pub open spec fn spec_digits_value(s: Seq<u8>) -> int
    decreases s.len(),
{
    if s.len() == 0 {
        0
    } else {
        spec_digits_value(s.drop_last()) * 10 + (s.last() - 48)
    }
}

/// Whether a segment is one or more decimal digits.
pub open spec fn spec_all_digits(s: Seq<u8>) -> bool {
    forall|t: int| 0 <= t < s.len() ==> 48 <= #[trigger] s[t] <= 57
}

/// The number a segment spells, when it is all digits.
pub open spec fn spec_parse_index(s: Seq<u8>) -> Option<int> {
    if s.len() > 0 && spec_all_digits(s) {
        Some(spec_digits_value(s))
    } else {
        None
    }
}

/// Parses a pad-index segment; in-range indices only, so that leading
/// zeros are accepted but anything spelling 16 or more is rejected.
pub fn parse_pad_index(seg: &[u8]) -> (r: Option<usize>)
    ensures
        r matches Some(n) ==> spec_parse_index(seg@) == Some(n as int) && n < PAD_COUNT,
        r is None ==> (spec_parse_index(seg@) is None || spec_parse_index(seg@)->0 >= PAD_COUNT),
{
    if seg.len() == 0 {
        return None;
    }
    let mut acc: usize = 0;
    let mut big: bool = false;
    let mut t: usize = 0;
    while t < seg.len()
        invariant
            t <= seg@.len(),
            forall|u: int| 0 <= u < t ==> 48 <= #[trigger] seg@[u] <= 57,
            !big ==> acc == spec_digits_value(seg@.subrange(0, t as int)) && acc < PAD_COUNT,
            big ==> spec_digits_value(seg@.subrange(0, t as int)) >= PAD_COUNT,
        decreases seg@.len() - t,
    {
        let b = seg[t];
        if b < 48 || b > 57 {
            return None;
        }
        let d: usize = (b - 48) as usize;
        proof {
            assert(seg@.subrange(0, t as int + 1).drop_last() =~= seg@.subrange(0, t as int));
            assert(seg@.subrange(0, t as int + 1).last() == seg@[t as int]);
        }
        if big {
            proof {
                let v = spec_digits_value(seg@.subrange(0, t as int));
                assert(v * 10 + (seg@[t as int] - 48) >= v);
            }
        } else {
            let next: usize = acc * 10 + d;
            if next >= PAD_COUNT {
                big = true;
            } else {
                acc = next;
            }
        }
        t = t + 1;
    }
    proof {
        assert(seg@.subrange(0, seg@.len() as int) =~= seg@);
    }
    if big {
        None
    } else {
        Some(acc)
    }
}

/// The brightness an inbound brightness code selects.
pub open spec fn spec_brightness_from_code(b: int) -> Brightness {
    if b == 1 {
        Brightness::Dim
    } else if b == 2 {
        Brightness::Normal
    } else if b == 3 {
        Brightness::Bright
    } else {
        Brightness::Off
    }
}

/// Maps an inbound brightness code to a brightness.
pub fn brightness_from_code(b: i32) -> (r: Brightness)
    ensures
        r == spec_brightness_from_code(b as int),
{
    match b {
        1 => Brightness::Dim,
        2 => Brightness::Normal,
        3 => Brightness::Bright,
        _ => Brightness::Off,
    }
}

/// What an inbound message asks for.
pub enum RouteDecision {
    /// Repaint the slider bar for this level.
    Slider(int),
    /// Set pad (index, color code, brightness code).
    Pad(int, int, int),
    /// Show this text on the screen.
    Screen(Seq<char>),
    /// Set one button light directly: `Bright` for argument 1, `Off`
    /// otherwise.
    Light(ControlIdentifier, int),
    /// Unmatched address or missing arguments; dropped silently.
    Ignore,
}

/// The dispatch rule, on the address segments in order: `slider` with an
/// integer argument; `pad/<n>` with `n` in range and two integer
/// arguments; the reserved screen-text address with a string argument; a
/// single segment naming a button, or the second of several segments
/// naming one, with one integer argument.  Anything else is ignored.
pub open spec fn spec_decision(addr: Seq<u8>, args: Seq<OscArgView>) -> RouteDecision {
    let s = spec_segments(addr);
    if s == seq!["slider".spec_bytes()] {
        if args.len() >= 1 && args[0] is Int {
            RouteDecision::Slider(args[0]->Int_0 as int)
        } else {
            RouteDecision::Ignore
        }
    } else if s.len() == 2 && s[0] == "pad".spec_bytes() {
        match spec_parse_index(s[1]) {
            Some(n) => {
                if n < PAD_COUNT && args.len() >= 2 && args[0] is Int && args[1] is Int {
                    RouteDecision::Pad(n, args[0]->Int_0 as int, args[1]->Int_0 as int)
                } else {
                    RouteDecision::Ignore
                }
            },
            None => RouteDecision::Ignore,
        }
    } else if s == seq!["maschine".spec_bytes(), "screen".spec_bytes(), "text".spec_bytes()] {
        if args.len() >= 1 && args[0] is Str {
            RouteDecision::Screen(args[0]->Str_0)
        } else {
            RouteDecision::Ignore
        }
    } else if s.len() == 1 && spec_lookup(s[0]) is Some && args.len() >= 1 && args[0] is Int {
        RouteDecision::Light(spec_lookup(s[0])->0, args[0]->Int_0 as int)
    } else if s.len() >= 2 && spec_lookup(s[1]) is Some && args.len() >= 1 && args[0] is Int {
        RouteDecision::Light(spec_lookup(s[1])->0, args[0]->Int_0 as int)
    } else {
        RouteDecision::Ignore
    }
}

/// What routing one message does to the light snapshot and the returned
/// screen text.
pub open spec fn route_effect(
    m: InboundMessageView,
    l0: LightModel,
    l1: LightModel,
    screen: Option<String>,
) -> bool {
    match spec_decision(m.addr, m.args) {
        RouteDecision::Slider(v) => {
            &&& l1.buttons@ == l0.buttons@
            &&& l1.pads@ == l0.pads@
            &&& l1.slider@.len() == l0.slider@.len()
            &&& forall|p: int|
                0 <= p < SLIDER_BAR_LEN ==> l1.slider@[p] == spec_bar_brightness(v, p)
            &&& l1.dirty
            &&& screen is None
        },
        RouteDecision::Pad(n, c, b) => {
            &&& l1.pads@ == l0.pads@.update(
                n,
                PadLight { color: spec_color_from_code(c), level: spec_brightness_from_code(b) },
            )
            &&& l1.buttons@ == l0.buttons@
            &&& l1.slider@ == l0.slider@
            &&& l1.dirty
            &&& screen is None
        },
        RouteDecision::Screen(text) => {
            &&& l1.buttons@ == l0.buttons@
            &&& l1.pads@ == l0.pads@
            &&& l1.slider@ == l0.slider@
            &&& l1.dirty == l0.dirty
            &&& screen matches Some(x) && x@ == text
        },
        RouteDecision::Light(id, v) => {
            &&& l1.buttons@ == l0.buttons@.update(
                id.spec_index(),
                if v == 1 {
                    Brightness::Bright
                } else {
                    Brightness::Off
                },
            )
            &&& l1.pads@ == l0.pads@
            &&& l1.slider@ == l0.slider@
            &&& l1.dirty
            &&& screen is None
        },
        RouteDecision::Ignore => {
            &&& l1.buttons@ == l0.buttons@
            &&& l1.pads@ == l0.pads@
            &&& l1.slider@ == l0.slider@
            &&& l1.dirty == l0.dirty
            &&& screen is None
        },
    }
}

/// The integer at argument position `k`, if there is one.
fn arg_int(args: &Vec<OscArg>, k: usize) -> (r: Option<i32>)
    ensures
        r == (if k < args@.len() && arg_views(args@)[k as int] is Int {
            Some(arg_views(args@)[k as int]->Int_0)
        } else {
            None::<i32>
        }),
{
    if k < args.len() {
        proof {
            assert(arg_views(args@)[k as int] == args@[k as int]@);
        }
        match &args[k] {
            OscArg::Int(v) => Some(*v),
            _ => None,
        }
    } else {
        None
    }
}

/// A copy of the string at argument position `k`, if there is one.
fn arg_str(args: &Vec<OscArg>, k: usize) -> (r: Option<String>)
    ensures
        (k < args@.len() && arg_views(args@)[k as int] is Str) <==> r is Some,
        r matches Some(s) ==> s@ == arg_views(args@)[k as int]->Str_0,
{
    if k < args.len() {
        proof {
            assert(arg_views(args@)[k as int] == args@[k as int]@);
        }
        match &args[k] {
            OscArg::Str(s) => Some(s.clone()),
            _ => None,
        }
    } else {
        None
    }
}

/// Routes one inbound message: applies its light effect to the snapshot
/// and returns the text to show on the screen, if the message asked for
/// one.  Unmatched addresses and missing or mistyped arguments leave
/// everything unchanged.
pub fn route(msg: &InboundMessage, lights: &mut LightModel) -> (r: Option<String>)
    requires
        old(lights).wf(),
    ensures
        final(lights).wf(),
        route_effect(msg@, *old(lights), *final(lights), r),
{
    let segs = split_segments(msg.addr.as_slice());
    let ghost s = spec_segments(msg.addr@);
    if segs.len() == 1 && bytes_eq(segs[0].as_slice(), "slider".as_bytes()) {
        proof {
            assert(s =~= seq!["slider".spec_bytes()]);
        }
        if let Some(v) = arg_int(&msg.args, 0) {
            apply_slider_message(lights, v);
            return None;
        }
        return None;
    }
    proof {
        assert(s.len() == segs@.len());
        assert(s != seq!["slider".spec_bytes()]) by {
            if s == seq!["slider".spec_bytes()] {
                assert(s.len() == 1);
                assert(s[0] == "slider".spec_bytes());
                assert(s[0] == segs@[0]@);
            }
        }
    }
    if segs.len() == 2 && bytes_eq(segs[0].as_slice(), "pad".as_bytes()) {
        if let Some(n) = parse_pad_index(segs[1].as_slice()) {
            if let Some(c) = arg_int(&msg.args, 0) {
                if let Some(b) = arg_int(&msg.args, 1) {
                    lights.set_pad(n, PadColor::from_code(c), brightness_from_code(b));
                    return None;
                }
            }
        }
        return None;
    }
    if segs.len() == 3 && bytes_eq(segs[0].as_slice(), "maschine".as_bytes()) && bytes_eq(
        segs[1].as_slice(),
        "screen".as_bytes(),
    ) && bytes_eq(segs[2].as_slice(), "text".as_bytes()) {
        proof {
            assert(s =~= seq![
                "maschine".spec_bytes(),
                "screen".spec_bytes(),
                "text".spec_bytes(),
            ]);
        }
        return arg_str(&msg.args, 0);
    }
    proof {
        assert(s.len() == segs@.len());
        assert(s != seq!["maschine".spec_bytes(), "screen".spec_bytes(), "text".spec_bytes()]) by {
            if s == seq!["maschine".spec_bytes(), "screen".spec_bytes(), "text".spec_bytes()] {
                assert(s.len() == 3);
                assert(s[0] == "maschine".spec_bytes() && s[1] == "screen".spec_bytes() && s[2]
                    == "text".spec_bytes());
                assert(s[0] == segs@[0]@ && s[1] == segs@[1]@ && s[2] == segs@[2]@);
            }
        }
    }
    if segs.len() == 1 {
        if let Some(id) = identifier_from_segment(segs[0].as_slice()) {
            if let Some(v) = arg_int(&msg.args, 0) {
                let target = if v == 1 {
                    Brightness::Bright
                } else {
                    Brightness::Off
                };
                lights.set_button(id.index(), target);
                return None;
            }
        }
        return None;
    }
    if segs.len() >= 2 {
        if let Some(id) = identifier_from_segment(segs[1].as_slice()) {
            if let Some(v) = arg_int(&msg.args, 0) {
                let target = if v == 1 {
                    Brightness::Bright
                } else {
                    Brightness::Off
                };
                lights.set_button(id.index(), target);
                return None;
            }
        }
        return None;
    }
    None
}

} // verus!
