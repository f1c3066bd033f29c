//! Validated configuration the engine runs with: the 16-entry note map, the
//! per-button mode table, and the endpoint names the embedding opens.

use vstd::prelude::*;
use vstd::string::StringExecFns;
use crate::lights::{BUTTON_COUNT, PAD_COUNT};

verus! {

/// How a button's presses and releases turn into state changes.
#[derive(Clone, Copy, Debug, PartialEq, Eq, Structural)]
pub enum ButtonMode {
    /// 1 on press, 0 on release.
    Momentary,
    /// Flip between 1 and 0 on press; releases emit nothing.
    Latching,
}

impl Default for ButtonMode {
    /// An unconfigured button acts as a momentary switch.
    fn default() -> (r: ButtonMode)
        ensures
            r == ButtonMode::Momentary,
    {
        ButtonMode::Momentary
    }
}

/// Per-button configuration: the mode, an optional mutual-exclusion group
/// for latching buttons, and an optional secondary controller-message
/// number emitted alongside state changes.
#[derive(Clone, Copy, Debug)]
pub struct ButtonConfig {
    pub mode: ButtonMode,
    pub group_id: Option<u8>,
    pub cc: Option<u8>,
}

impl Default for ButtonConfig {
    /// Momentary, ungrouped, no secondary message.
    fn default() -> (r: ButtonConfig)
        ensures
            r.mode == ButtonMode::Momentary,
            r.group_id is None,
            r.cc is None,
    {
        ButtonConfig { mode: ButtonMode::Momentary, group_id: None, cc: None }
    }
}

/// The character one decimal digit prints as.
pub open spec fn spec_digit_char(d: int) -> char {
    if d == 0 {
        '0'
    } else if d == 1 {
        '1'
    } else if d == 2 {
        '2'
    } else if d == 3 {
        '3'
    } else if d == 4 {
        '4'
    } else if d == 5 {
        '5'
    } else if d == 6 {
        '6'
    } else if d == 7 {
        '7'
    } else if d == 8 {
        '8'
    } else {
        '9'
    }
}

/// The decimal rendering of a number, most significant digit first.
pub open spec fn spec_decimal(n: int) -> Seq<char>
    decreases n,
{
    if n < 10 {
        seq![spec_digit_char(n)]
    } else {
        spec_decimal(n / 10) + seq![spec_digit_char(n % 10)]
    }
}

/// One decimal digit as a string.
fn digit_str(d: usize) -> (r: &'static str)
    requires
        d < 10,
    ensures
        r@ == seq![spec_digit_char(d as int)],
{
    proof {
        reveal_strlit("0");
        reveal_strlit("1");
        reveal_strlit("2");
        reveal_strlit("3");
        reveal_strlit("4");
        reveal_strlit("5");
        reveal_strlit("6");
        reveal_strlit("7");
        reveal_strlit("8");
        reveal_strlit("9");
        assert("0"@ =~= seq!['0']);
        assert("1"@ =~= seq!['1']);
        assert("2"@ =~= seq!['2']);
        assert("3"@ =~= seq!['3']);
        assert("4"@ =~= seq!['4']);
        assert("5"@ =~= seq!['5']);
        assert("6"@ =~= seq!['6']);
        assert("7"@ =~= seq!['7']);
        assert("8"@ =~= seq!['8']);
        assert("9"@ =~= seq!['9']);
    }
    match d {
        0 => "0",
        1 => "1",
        2 => "2",
        3 => "3",
        4 => "4",
        5 => "5",
        6 => "6",
        7 => "7",
        8 => "8",
        _ => "9",
    }
}

/// Renders a number in decimal.
fn decimal_string(n: usize) -> (r: String)
    ensures
        r@ == spec_decimal(n as int),
    decreases n,
{
    if n < 10 {
        let mut s = String::new();
        s.append(digit_str(n));
        proof {
            assert(s@ =~= spec_decimal(n as int));
        }
        s
    } else {
        let mut s = decimal_string(n / 10);
        s.append(digit_str(n % 10));
        proof {
            assert(s@ =~= spec_decimal(n as int));
        }
        s
    }
}

/// Every note number fits in the 7-bit note range.
pub open spec fn notes_in_range(s: Seq<u8>) -> bool {
    forall|i: int| 0 <= i < s.len() ==> s[i] < 128
}

/// Engine configuration.  The button table is keyed by identifier index,
/// one entry per physical button.
#[derive(Debug)]
pub struct Settings {
    /// Note number per pad, validated to 16 entries below 128.
    pub notemaps: Vec<u8>,
    /// Name of the note-output client.
    pub client_name: String,
    /// Name of the virtual output port.
    pub port_name: String,
    /// Destination host for outbound status messages.
    pub osc_ip: String,
    /// Destination port for outbound status messages.
    pub osc_port: u16,
    /// Listener port for inbound status messages.
    pub osc_listen_port: u16,
    /// Per-button configuration, indexed by identifier index.
    pub button_configs: Vec<ButtonConfig>,
}

impl Settings {
    /// The conditions under which the engine may start.
    pub open spec fn spec_valid(&self) -> bool {
        &&& self.notemaps@.len() == PAD_COUNT
        &&& notes_in_range(self.notemaps@)
        &&& self.client_name@.len() > 0
        &&& self.port_name@.len() > 0
    }

    /// Checks the configuration before the engine starts: exactly 16 note
    /// map entries, every note below 128, and non-empty endpoint names.
    /// Returns `Ok` exactly on valid settings, and the first failing
    /// check's message otherwise.
    pub fn validate(&self) -> (r: Result<(), String>)
        ensures
            r is Ok <==> self.spec_valid(),
            self.notemaps@.len() != PAD_COUNT ==> (r matches Err(m) && m@
                == "There should be 16 pads exactly (found "@ + spec_decimal(
                self.notemaps@.len() as int,
            ) + ")"@),
            self.notemaps@.len() == PAD_COUNT && !notes_in_range(self.notemaps@) ==> (r matches Err(
                m,
            ) && m@ == "MIDI notes should be 0 to 127"@),
            self.notemaps@.len() == PAD_COUNT && notes_in_range(self.notemaps@)
                && self.client_name@.len() == 0 ==> (r matches Err(m) && m@
                == "Client name must not be empty"@),
            self.notemaps@.len() == PAD_COUNT && notes_in_range(self.notemaps@)
                && self.client_name@.len() > 0 && self.port_name@.len() == 0 ==> (r matches Err(m)
                && m@ == "Port name must not be empty"@),
    {
        if self.notemaps.len() != PAD_COUNT {
            let mut m = "There should be 16 pads exactly (found ".to_owned();
            m.append(decimal_string(self.notemaps.len()).as_str());
            m.append(")");
            return Err(m);
        }
        let mut i: usize = 0;
        while i < self.notemaps.len()
            invariant
                i <= self.notemaps@.len(),
                self.notemaps@.len() == PAD_COUNT,
                forall|t: int| 0 <= t < i ==> self.notemaps@[t] < 128,
            decreases self.notemaps@.len() - i,
        {
            if self.notemaps[i] >= 128 {
                return Err("MIDI notes should be 0 to 127".to_owned());
            }
            i = i + 1;
        }
        if self.client_name.as_str().is_empty() {
            return Err("Client name must not be empty".to_owned());
        }
        if self.port_name.as_str().is_empty() {
            return Err("Port name must not be empty".to_owned());
        }
        Ok(())
    }
}

impl Default for Settings {
    /// The stock configuration: a drum-kit note map, standard endpoint
    /// names, and every button momentary and ungrouped.
    fn default() -> (r: Settings)
        ensures
            r.notemaps@ == seq![
                49u8,
                27u8,
                31u8,
                57u8,
                48u8,
                47u8,
                43u8,
                59u8,
                36u8,
                38u8,
                46u8,
                51u8,
                36u8,
                38u8,
                42u8,
                44u8,
            ],
            r.client_name@ == "Maschine Mikro MK3"@,
            r.port_name@ == "Maschine Mikro MK3 MIDI Out"@,
            r.osc_ip@ == "127.0.0.1"@,
            r.osc_port == 57120u16,
            r.osc_listen_port == 57121u16,
            r.button_configs@.len() == BUTTON_COUNT,
            forall|i: int|
                0 <= i < BUTTON_COUNT ==> (#[trigger] r.button_configs@[i]).mode
                    == ButtonMode::Momentary && r.button_configs@[i].group_id is None
                    && r.button_configs@[i].cc is None,
            r.spec_valid(),
    {
        let notemaps: Vec<u8> = vec![49, 27, 31, 57, 48, 47, 43, 59, 36, 38, 46, 51, 36, 38, 42, 44];
        proof {
            assert(notemaps@ =~= seq![
                49u8,
                27u8,
                31u8,
                57u8,
                48u8,
                47u8,
                43u8,
                59u8,
                36u8,
                38u8,
                46u8,
                51u8,
                36u8,
                38u8,
                42u8,
                44u8,
            ]);
        }
        let mut button_configs: Vec<ButtonConfig> = Vec::new();
        let mut k: usize = 0;
        while k < BUTTON_COUNT
            invariant
                k <= BUTTON_COUNT,
                button_configs@.len() == k,
                forall|i: int|
                    0 <= i < k ==> (#[trigger] button_configs@[i]).mode == ButtonMode::Momentary
                        && button_configs@[i].group_id is None && button_configs@[i].cc is None,
            decreases BUTTON_COUNT - k,
        {
            button_configs.push(ButtonConfig::default());
            k = k + 1;
        }
        let client_name = "Maschine Mikro MK3".to_owned();
        let port_name = "Maschine Mikro MK3 MIDI Out".to_owned();
        proof {
            reveal_strlit("Maschine Mikro MK3");
            reveal_strlit("Maschine Mikro MK3 MIDI Out");
        }
        Settings {
            notemaps,
            client_name,
            port_name,
            osc_ip: "127.0.0.1".to_owned(),
            osc_port: 57120,
            osc_listen_port: 57121,
            button_configs,
        }
    }
}

} // verus!
