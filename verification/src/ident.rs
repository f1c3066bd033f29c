//! The fixed enumeration of physical buttons, with a stable lowercase name
//! per identifier (used in status-message addresses) and a stable index
//! (the button's bit position in a control frame, also used to key the
//! per-button tables).  Name lookup is case-insensitive over ASCII.

use vstd::prelude::*;
use vstd::string::StrSliceExecFns;
use vstd::string::StringSliceAdditionalSpecFns;
use crate::lights::BUTTON_COUNT;

verus! {

/// One physical button of the control surface.  The declaration order gives
/// each identifier its bit position in a control frame.
#[derive(Clone, Copy, Debug, PartialEq, Eq, Structural)]
pub enum ControlIdentifier {
    NativeInstruments,
    Star,
    Browse,
    Volume,
    Swing,
    Tempo,
    Plugin,
    Sampling,
    Left,
    Right,
    Pitch,
    Modwheel,
    Perform,
    Notes,
    Group,
    Auto,
    Lock,
    NoteRepeat,
    Restart,
    Erase,
    Tap,
    Follow,
    Play,
    Rec,
    Stop,
    Shift,
    FixedVel,
    PadMode,
    Keyboard,
    Chords,
    Step,
    Scene,
    Pattern,
    Events,
    Variation,
    Duplicate,
    Select,
    Solo,
    Mute,
    Encoder,
    EncoderPress,
}

impl ControlIdentifier {
    /// The identifier's bit position in a control frame.
    pub open spec fn spec_index(self) -> int {
        match self {
            ControlIdentifier::NativeInstruments => 0,
            ControlIdentifier::Star => 1,
            ControlIdentifier::Browse => 2,
            ControlIdentifier::Volume => 3,
            ControlIdentifier::Swing => 4,
            ControlIdentifier::Tempo => 5,
            ControlIdentifier::Plugin => 6,
            ControlIdentifier::Sampling => 7,
            ControlIdentifier::Left => 8,
            ControlIdentifier::Right => 9,
            ControlIdentifier::Pitch => 10,
            ControlIdentifier::Modwheel => 11,
            ControlIdentifier::Perform => 12,
            ControlIdentifier::Notes => 13,
            ControlIdentifier::Group => 14,
            ControlIdentifier::Auto => 15,
            ControlIdentifier::Lock => 16,
            ControlIdentifier::NoteRepeat => 17,
            ControlIdentifier::Restart => 18,
            ControlIdentifier::Erase => 19,
            ControlIdentifier::Tap => 20,
            ControlIdentifier::Follow => 21,
            ControlIdentifier::Play => 22,
            ControlIdentifier::Rec => 23,
            ControlIdentifier::Stop => 24,
            ControlIdentifier::Shift => 25,
            ControlIdentifier::FixedVel => 26,
            ControlIdentifier::PadMode => 27,
            ControlIdentifier::Keyboard => 28,
            ControlIdentifier::Chords => 29,
            ControlIdentifier::Step => 30,
            ControlIdentifier::Scene => 31,
            ControlIdentifier::Pattern => 32,
            ControlIdentifier::Events => 33,
            ControlIdentifier::Variation => 34,
            ControlIdentifier::Duplicate => 35,
            ControlIdentifier::Select => 36,
            ControlIdentifier::Solo => 37,
            ControlIdentifier::Mute => 38,
            ControlIdentifier::Encoder => 39,
            ControlIdentifier::EncoderPress => 40,
        }
    }

    /// The identifier at a given bit position (total on `int`; positions
    /// outside the table are never produced by `from_index`).
    pub open spec fn spec_from_index(i: int) -> ControlIdentifier {
        if i == 0 {
            ControlIdentifier::NativeInstruments
        } else if i == 1 {
            ControlIdentifier::Star
        } else if i == 2 {
            ControlIdentifier::Browse
        } else if i == 3 {
            ControlIdentifier::Volume
        } else if i == 4 {
            ControlIdentifier::Swing
        } else if i == 5 {
            ControlIdentifier::Tempo
        } else if i == 6 {
            ControlIdentifier::Plugin
        } else if i == 7 {
            ControlIdentifier::Sampling
        } else if i == 8 {
            ControlIdentifier::Left
        } else if i == 9 {
            ControlIdentifier::Right
        } else if i == 10 {
            ControlIdentifier::Pitch
        } else if i == 11 {
            ControlIdentifier::Modwheel
        } else if i == 12 {
            ControlIdentifier::Perform
        } else if i == 13 {
            ControlIdentifier::Notes
        } else if i == 14 {
            ControlIdentifier::Group
        } else if i == 15 {
            ControlIdentifier::Auto
        } else if i == 16 {
            ControlIdentifier::Lock
        } else if i == 17 {
            ControlIdentifier::NoteRepeat
        } else if i == 18 {
            ControlIdentifier::Restart
        } else if i == 19 {
            ControlIdentifier::Erase
        } else if i == 20 {
            ControlIdentifier::Tap
        } else if i == 21 {
            ControlIdentifier::Follow
        } else if i == 22 {
            ControlIdentifier::Play
        } else if i == 23 {
            ControlIdentifier::Rec
        } else if i == 24 {
            ControlIdentifier::Stop
        } else if i == 25 {
            ControlIdentifier::Shift
        } else if i == 26 {
            ControlIdentifier::FixedVel
        } else if i == 27 {
            ControlIdentifier::PadMode
        } else if i == 28 {
            ControlIdentifier::Keyboard
        } else if i == 29 {
            ControlIdentifier::Chords
        } else if i == 30 {
            ControlIdentifier::Step
        } else if i == 31 {
            ControlIdentifier::Scene
        } else if i == 32 {
            ControlIdentifier::Pattern
        } else if i == 33 {
            ControlIdentifier::Events
        } else if i == 34 {
            ControlIdentifier::Variation
        } else if i == 35 {
            ControlIdentifier::Duplicate
        } else if i == 36 {
            ControlIdentifier::Select
        } else if i == 37 {
            ControlIdentifier::Solo
        } else if i == 38 {
            ControlIdentifier::Mute
        } else if i == 39 {
            ControlIdentifier::Encoder
        } else {
            ControlIdentifier::EncoderPress
        }
    }

    /// The stable lowercase name, as the bytes that appear in status-message
    /// addresses.
    pub open spec fn spec_name_bytes(self) -> Seq<u8> {
        match self {
            ControlIdentifier::NativeInstruments => "nativeinstruments".spec_bytes(),
            ControlIdentifier::Star => "star".spec_bytes(),
            ControlIdentifier::Browse => "browse".spec_bytes(),
            ControlIdentifier::Volume => "volume".spec_bytes(),
            ControlIdentifier::Swing => "swing".spec_bytes(),
            ControlIdentifier::Tempo => "tempo".spec_bytes(),
            ControlIdentifier::Plugin => "plugin".spec_bytes(),
            ControlIdentifier::Sampling => "sampling".spec_bytes(),
            ControlIdentifier::Left => "left".spec_bytes(),
            ControlIdentifier::Right => "right".spec_bytes(),
            ControlIdentifier::Pitch => "pitch".spec_bytes(),
            ControlIdentifier::Modwheel => "modwheel".spec_bytes(),
            ControlIdentifier::Perform => "perform".spec_bytes(),
            ControlIdentifier::Notes => "notes".spec_bytes(),
            ControlIdentifier::Group => "group".spec_bytes(),
            ControlIdentifier::Auto => "auto".spec_bytes(),
            ControlIdentifier::Lock => "lock".spec_bytes(),
            ControlIdentifier::NoteRepeat => "noterepeat".spec_bytes(),
            ControlIdentifier::Restart => "restart".spec_bytes(),
            ControlIdentifier::Erase => "erase".spec_bytes(),
            ControlIdentifier::Tap => "tap".spec_bytes(),
            ControlIdentifier::Follow => "follow".spec_bytes(),
            ControlIdentifier::Play => "play".spec_bytes(),
            ControlIdentifier::Rec => "rec".spec_bytes(),
            ControlIdentifier::Stop => "stop".spec_bytes(),
            ControlIdentifier::Shift => "shift".spec_bytes(),
            ControlIdentifier::FixedVel => "fixedvel".spec_bytes(),
            ControlIdentifier::PadMode => "padmode".spec_bytes(),
            ControlIdentifier::Keyboard => "keyboard".spec_bytes(),
            ControlIdentifier::Chords => "chords".spec_bytes(),
            ControlIdentifier::Step => "step".spec_bytes(),
            ControlIdentifier::Scene => "scene".spec_bytes(),
            ControlIdentifier::Pattern => "pattern".spec_bytes(),
            ControlIdentifier::Events => "events".spec_bytes(),
            ControlIdentifier::Variation => "variation".spec_bytes(),
            ControlIdentifier::Duplicate => "duplicate".spec_bytes(),
            ControlIdentifier::Select => "select".spec_bytes(),
            ControlIdentifier::Solo => "solo".spec_bytes(),
            ControlIdentifier::Mute => "mute".spec_bytes(),
            ControlIdentifier::Encoder => "encoder".spec_bytes(),
            ControlIdentifier::EncoderPress => "encoderpress".spec_bytes(),
        }
    }

    /// The identifier's bit position, as a table index.
    pub fn index(&self) -> (r: usize)
        ensures
            r == self.spec_index(),
            r < BUTTON_COUNT,
    {
        match self {
            ControlIdentifier::NativeInstruments => 0,
            ControlIdentifier::Star => 1,
            ControlIdentifier::Browse => 2,
            ControlIdentifier::Volume => 3,
            ControlIdentifier::Swing => 4,
            ControlIdentifier::Tempo => 5,
            ControlIdentifier::Plugin => 6,
            ControlIdentifier::Sampling => 7,
            ControlIdentifier::Left => 8,
            ControlIdentifier::Right => 9,
            ControlIdentifier::Pitch => 10,
            ControlIdentifier::Modwheel => 11,
            ControlIdentifier::Perform => 12,
            ControlIdentifier::Notes => 13,
            ControlIdentifier::Group => 14,
            ControlIdentifier::Auto => 15,
            ControlIdentifier::Lock => 16,
            ControlIdentifier::NoteRepeat => 17,
            ControlIdentifier::Restart => 18,
            ControlIdentifier::Erase => 19,
            ControlIdentifier::Tap => 20,
            ControlIdentifier::Follow => 21,
            ControlIdentifier::Play => 22,
            ControlIdentifier::Rec => 23,
            ControlIdentifier::Stop => 24,
            ControlIdentifier::Shift => 25,
            ControlIdentifier::FixedVel => 26,
            ControlIdentifier::PadMode => 27,
            ControlIdentifier::Keyboard => 28,
            ControlIdentifier::Chords => 29,
            ControlIdentifier::Step => 30,
            ControlIdentifier::Scene => 31,
            ControlIdentifier::Pattern => 32,
            ControlIdentifier::Events => 33,
            ControlIdentifier::Variation => 34,
            ControlIdentifier::Duplicate => 35,
            ControlIdentifier::Select => 36,
            ControlIdentifier::Solo => 37,
            ControlIdentifier::Mute => 38,
            ControlIdentifier::Encoder => 39,
            ControlIdentifier::EncoderPress => 40,
        }
    }

    /// The identifier mapped to a bit position, if the position is mapped.
    pub fn from_index(i: usize) -> (r: Option<ControlIdentifier>)
        ensures
            i < BUTTON_COUNT ==> r == Some(ControlIdentifier::spec_from_index(i as int)),
            i >= BUTTON_COUNT ==> r is None,
    {
        match i {
            0 => Some(ControlIdentifier::NativeInstruments),
            1 => Some(ControlIdentifier::Star),
            2 => Some(ControlIdentifier::Browse),
            3 => Some(ControlIdentifier::Volume),
            4 => Some(ControlIdentifier::Swing),
            5 => Some(ControlIdentifier::Tempo),
            6 => Some(ControlIdentifier::Plugin),
            7 => Some(ControlIdentifier::Sampling),
            8 => Some(ControlIdentifier::Left),
            9 => Some(ControlIdentifier::Right),
            10 => Some(ControlIdentifier::Pitch),
            11 => Some(ControlIdentifier::Modwheel),
            12 => Some(ControlIdentifier::Perform),
            13 => Some(ControlIdentifier::Notes),
            14 => Some(ControlIdentifier::Group),
            15 => Some(ControlIdentifier::Auto),
            16 => Some(ControlIdentifier::Lock),
            17 => Some(ControlIdentifier::NoteRepeat),
            18 => Some(ControlIdentifier::Restart),
            19 => Some(ControlIdentifier::Erase),
            20 => Some(ControlIdentifier::Tap),
            21 => Some(ControlIdentifier::Follow),
            22 => Some(ControlIdentifier::Play),
            23 => Some(ControlIdentifier::Rec),
            24 => Some(ControlIdentifier::Stop),
            25 => Some(ControlIdentifier::Shift),
            26 => Some(ControlIdentifier::FixedVel),
            27 => Some(ControlIdentifier::PadMode),
            28 => Some(ControlIdentifier::Keyboard),
            29 => Some(ControlIdentifier::Chords),
            30 => Some(ControlIdentifier::Step),
            31 => Some(ControlIdentifier::Scene),
            32 => Some(ControlIdentifier::Pattern),
            33 => Some(ControlIdentifier::Events),
            34 => Some(ControlIdentifier::Variation),
            35 => Some(ControlIdentifier::Duplicate),
            36 => Some(ControlIdentifier::Select),
            37 => Some(ControlIdentifier::Solo),
            38 => Some(ControlIdentifier::Mute),
            39 => Some(ControlIdentifier::Encoder),
            40 => Some(ControlIdentifier::EncoderPress),
            _ => None,
        }
    }

    /// The stable lowercase name as fresh bytes.
    pub fn name_bytes(&self) -> (r: Vec<u8>)
        ensures
            r@ == self.spec_name_bytes(),
    {
        match self {
            ControlIdentifier::NativeInstruments => "nativeinstruments".as_bytes_vec(),
            ControlIdentifier::Star => "star".as_bytes_vec(),
            ControlIdentifier::Browse => "browse".as_bytes_vec(),
            ControlIdentifier::Volume => "volume".as_bytes_vec(),
            ControlIdentifier::Swing => "swing".as_bytes_vec(),
            ControlIdentifier::Tempo => "tempo".as_bytes_vec(),
            ControlIdentifier::Plugin => "plugin".as_bytes_vec(),
            ControlIdentifier::Sampling => "sampling".as_bytes_vec(),
            ControlIdentifier::Left => "left".as_bytes_vec(),
            ControlIdentifier::Right => "right".as_bytes_vec(),
            ControlIdentifier::Pitch => "pitch".as_bytes_vec(),
            ControlIdentifier::Modwheel => "modwheel".as_bytes_vec(),
            ControlIdentifier::Perform => "perform".as_bytes_vec(),
            ControlIdentifier::Notes => "notes".as_bytes_vec(),
            ControlIdentifier::Group => "group".as_bytes_vec(),
            ControlIdentifier::Auto => "auto".as_bytes_vec(),
            ControlIdentifier::Lock => "lock".as_bytes_vec(),
            ControlIdentifier::NoteRepeat => "noterepeat".as_bytes_vec(),
            ControlIdentifier::Restart => "restart".as_bytes_vec(),
            ControlIdentifier::Erase => "erase".as_bytes_vec(),
            ControlIdentifier::Tap => "tap".as_bytes_vec(),
            ControlIdentifier::Follow => "follow".as_bytes_vec(),
            ControlIdentifier::Play => "play".as_bytes_vec(),
            ControlIdentifier::Rec => "rec".as_bytes_vec(),
            ControlIdentifier::Stop => "stop".as_bytes_vec(),
            ControlIdentifier::Shift => "shift".as_bytes_vec(),
            ControlIdentifier::FixedVel => "fixedvel".as_bytes_vec(),
            ControlIdentifier::PadMode => "padmode".as_bytes_vec(),
            ControlIdentifier::Keyboard => "keyboard".as_bytes_vec(),
            ControlIdentifier::Chords => "chords".as_bytes_vec(),
            ControlIdentifier::Step => "step".as_bytes_vec(),
            ControlIdentifier::Scene => "scene".as_bytes_vec(),
            ControlIdentifier::Pattern => "pattern".as_bytes_vec(),
            ControlIdentifier::Events => "events".as_bytes_vec(),
            ControlIdentifier::Variation => "variation".as_bytes_vec(),
            ControlIdentifier::Duplicate => "duplicate".as_bytes_vec(),
            ControlIdentifier::Select => "select".as_bytes_vec(),
            ControlIdentifier::Solo => "solo".as_bytes_vec(),
            ControlIdentifier::Mute => "mute".as_bytes_vec(),
            ControlIdentifier::Encoder => "encoder".as_bytes_vec(),
            ControlIdentifier::EncoderPress => "encoderpress".as_bytes_vec(),
        }
    }
}

/// Every identifier sits at a mapped position, and the position determines
/// the identifier.
pub proof fn lemma_index_roundtrip(id: ControlIdentifier)
    ensures
        0 <= id.spec_index() < BUTTON_COUNT,
        ControlIdentifier::spec_from_index(id.spec_index()) == id,
{
}

/// ASCII lowercasing of one byte.
pub open spec fn spec_lower_byte(b: u8) -> u8 {
    if 65 <= b <= 90 {
        (b + 32) as u8
    } else {
        b
    }
}

/// ASCII lowercasing of a byte sequence.
pub open spec fn spec_lower_bytes(s: Seq<u8>) -> Seq<u8> {
    s.map_values(|b: u8| spec_lower_byte(b))
}

/// A path segment names an identifier when its ASCII lowercasing equals the
/// identifier's stable name.
pub open spec fn matches_name(seg: Seq<u8>, id: ControlIdentifier) -> bool {
    spec_lower_bytes(seg) == id.spec_name_bytes()
}

fn lower_byte(b: u8) -> (r: u8)
    ensures
        r == spec_lower_byte(b),
{
    if b >= 65 && b <= 90 {
        b + 32
    } else {
        b
    }
}

/// The first identifier in table order whose name a segment matches, over
/// the table positions from `k` up.
pub open spec fn spec_lookup_from(seg: Seq<u8>, k: nat) -> Option<ControlIdentifier>
    decreases BUTTON_COUNT - k,
{
    if k >= BUTTON_COUNT {
        None
    } else if matches_name(seg, ControlIdentifier::spec_from_index(k as int)) {
        Some(ControlIdentifier::spec_from_index(k as int))
    } else {
        spec_lookup_from(seg, (k + 1) as nat)
    }
}

/// The identifier a path segment names.
pub open spec fn spec_lookup(seg: Seq<u8>) -> Option<ControlIdentifier> {
    spec_lookup_from(seg, 0)
}

/// The identifier a path segment names, matched case-insensitively; `None`
/// when the segment names no identifier.
pub fn identifier_from_segment(seg: &[u8]) -> (r: Option<ControlIdentifier>)
    ensures
        r == spec_lookup(seg@),
        r matches Some(id) ==> matches_name(seg@, id),
{
    let mut lowered: Vec<u8> = Vec::new();
    let mut i: usize = 0;
    while i < seg.len()
        invariant
            i <= seg@.len(),
            lowered@.len() == i,
            forall|t: int| 0 <= t < i ==> lowered@[t] == spec_lower_byte(seg@[t]),
        decreases seg@.len() - i,
    {
        lowered.push(lower_byte(seg[i]));
        i = i + 1;
    }
    proof {
        assert(lowered@ =~= spec_lower_bytes(seg@));
    }
    let mut k: usize = 0;
    while k < BUTTON_COUNT
        invariant
            k <= BUTTON_COUNT,
            lowered@ == spec_lower_bytes(seg@),
            spec_lookup(seg@) == spec_lookup_from(seg@, k as nat),
        decreases BUTTON_COUNT - k,
    {
        let id = match ControlIdentifier::from_index(k) {
            Some(id) => id,
            None => {
                return None;
            },
        };
        let name = id.name_bytes();
        if bytes_eq(lowered.as_slice(), name.as_slice()) {
            return Some(id);
        }
        k = k + 1;
    }
    None
}

/// The identifier a name string selects, matched case-insensitively over the
/// string's bytes; used when translating a name-keyed configuration table.
pub fn identifier_from_name(name: &str) -> (r: Option<ControlIdentifier>)
    ensures
        r == spec_lookup(name.spec_bytes()),
        r matches Some(id) ==> matches_name(name.spec_bytes(), id),
{
    let bytes = name.as_bytes();
    identifier_from_segment(bytes)
}

/// Byte-sequence equality.
pub fn bytes_eq(a: &[u8], b: &[u8]) -> (r: bool)
    ensures
        r == (a@ == b@),
{
    if a.len() != b.len() {
        proof {
            assert(a@.len() != b@.len());
        }
        return false;
    }
    let mut i: usize = 0;
    while i < a.len()
        invariant
            i <= a@.len(),
            a@.len() == b@.len(),
            forall|t: int| 0 <= t < i ==> a@[t] == b@[t],
        decreases a@.len() - i,
    {
        if a[i] != b[i] {
            return false;
        }
        i = i + 1;
    }
    proof {
        assert(a@ =~= b@);
    }
    true
}

} // verus!
