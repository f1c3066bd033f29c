use mikro_bridge::buttons::{ButtonStateMachine, Emission};
use mikro_bridge::decoder::{decode_frame, DecodedFrame};
use mikro_bridge::ident::{identifier_from_name, identifier_from_segment, ControlIdentifier};
use mikro_bridge::lights::{Brightness, LightModel, PadColor, PadLight};
use mikro_bridge::pads::{translate_pad, PadEvent, PadEventType};
use mikro_bridge::settings::{ButtonConfig, ButtonMode, Settings};
use mikro_bridge::slider::{apply_slider_level, apply_slider_message};

fn default_machine() -> ButtonStateMachine {
    ButtonStateMachine::new(Settings::default().button_configs)
}

fn latching(group: Option<u8>) -> ButtonConfig {
    ButtonConfig {
        mode: ButtonMode::Latching,
        group_id: group,
        cc: None,
    }
}

#[test]
fn momentary_press_release_emits_one_zero() {
    let mut machine = default_machine();
    let mut lights = LightModel::new();
    let play = ControlIdentifier::Play;

    let (em, accepted) = machine.apply(&mut lights, play, true);
    assert_eq!(em, vec![Emission { id: play, value: true }]);
    assert_eq!(accepted, Some(true));
    assert_eq!(lights.get_button(play.index()), Brightness::Normal);

    let (em, accepted) = machine.apply(&mut lights, play, false);
    assert_eq!(em, vec![Emission { id: play, value: false }]);
    assert_eq!(accepted, Some(false));
    assert_eq!(lights.get_button(play.index()), Brightness::Off);
}

#[test]
fn momentary_repeat_reading_emits_nothing() {
    let mut machine = default_machine();
    let mut lights = LightModel::new();
    let rec = ControlIdentifier::Rec;

    let (em, _) = machine.apply(&mut lights, rec, true);
    assert_eq!(em.len(), 1);
    let (em, accepted) = machine.apply(&mut lights, rec, true);
    assert!(em.is_empty());
    assert_eq!(accepted, None);
}

#[test]
fn latching_group_switch_leaves_exactly_one_on() {
    let play = ControlIdentifier::Play;
    let stop = ControlIdentifier::Stop;
    let mut settings = Settings::default();
    settings.button_configs[play.index()] = latching(Some(1));
    settings.button_configs[stop.index()] = latching(Some(1));
    let mut machine = ButtonStateMachine::new(settings.button_configs);
    let mut lights = LightModel::new();

    let (em, _) = machine.apply(&mut lights, play, true);
    // Every other group member is forced off before the activation's own
    // emission, whatever its previous state.
    assert_eq!(
        em,
        vec![
            Emission { id: stop, value: false },
            Emission { id: play, value: true },
        ]
    );
    assert_eq!(lights.get_button(play.index()), Brightness::Bright);

    let (em, _) = machine.apply(&mut lights, play, false);
    assert!(em.is_empty());
    assert_eq!(lights.get_button(play.index()), Brightness::Dim);

    let (em, _) = machine.apply(&mut lights, stop, true);
    assert_eq!(
        em,
        vec![
            Emission { id: play, value: false },
            Emission { id: stop, value: true },
        ]
    );
    assert_eq!(lights.get_button(stop.index()), Brightness::Bright);
    assert_eq!(lights.get_button(play.index()), Brightness::Off);
    assert!(machine.latch[stop.index()]);
    assert!(!machine.latch[play.index()]);
}

#[test]
fn latching_group_invariant_holds_after_every_transition() {
    let members = [
        ControlIdentifier::Play,
        ControlIdentifier::Stop,
        ControlIdentifier::Rec,
    ];
    let mut settings = Settings::default();
    for id in members {
        settings.button_configs[id.index()] = latching(Some(7));
    }
    let mut machine = ButtonStateMachine::new(settings.button_configs);
    let mut lights = LightModel::new();

    let script = [
        (ControlIdentifier::Play, true),
        (ControlIdentifier::Play, false),
        (ControlIdentifier::Stop, true),
        (ControlIdentifier::Stop, false),
        (ControlIdentifier::Rec, true),
        (ControlIdentifier::Rec, false),
        (ControlIdentifier::Stop, true),
    ];
    for (id, pressed) in script {
        machine.apply(&mut lights, id, pressed);
        let on: usize = members
            .iter()
            .filter(|m| machine.latch[m.index()])
            .count();
        assert!(on <= 1);
    }
}

#[test]
fn latching_press_while_bright_is_debounced() {
    let play = ControlIdentifier::Play;
    let mut settings = Settings::default();
    settings.button_configs[play.index()] = latching(None);
    let mut machine = ButtonStateMachine::new(settings.button_configs);
    let mut lights = LightModel::new();

    let (em, _) = machine.apply(&mut lights, play, true);
    assert_eq!(em.len(), 1);
    // The button is still held: its light is Bright, so the repeated
    // reading is ignored.
    let (em, _) = machine.apply(&mut lights, play, true);
    assert!(em.is_empty());
    assert!(machine.latch[play.index()]);
}

#[test]
fn slider_level_one_leaves_bar_dark() {
    let mut lights = LightModel::new();
    apply_slider_level(&mut lights, 1);
    // (1 - 1 + 5) * 25 / 200 - 1 == -1: no head, nothing dim.
    for p in 0..25 {
        assert_eq!(lights.slider[p], Brightness::Off);
    }
    assert!(lights.dirty);
}

#[test]
fn slider_level_200_fills_bar_with_head_at_24() {
    let mut lights = LightModel::new();
    apply_slider_level(&mut lights, 200);
    assert_eq!(lights.slider[24], Brightness::Normal);
    for p in 0..24 {
        assert_eq!(lights.slider[p], Brightness::Dim);
    }
}

#[test]
fn slider_level_250_clamps_to_200() {
    let mut clamped = LightModel::new();
    apply_slider_message(&mut clamped, 250);
    let mut full = LightModel::new();
    apply_slider_level(&mut full, 200);
    assert_eq!(clamped.slider, full.slider);
}

#[test]
fn slider_level_100_puts_head_at_12() {
    let mut lights = LightModel::new();
    apply_slider_level(&mut lights, 100);
    // (100 - 1 + 5) * 25 / 200 - 1 == 12.
    for p in 0..25 {
        let expected = if p == 12 {
            Brightness::Normal
        } else if p < 12 {
            Brightness::Dim
        } else {
            Brightness::Off
        };
        assert_eq!(lights.slider[p], expected);
    }
}

#[test]
fn velocity_floors_to_one_for_small_nonzero_values() {
    let notemap = Settings::default().notemaps;
    for value in 1..32u16 {
        let mut lights = LightModel::new();
        let ev = PadEvent {
            index: 0,
            event: PadEventType::NoteOn,
            value,
        };
        let note = translate_pad(&ev, &notemap, &mut lights).unwrap();
        assert!(note.on);
        assert_eq!(note.velocity, 1);
    }
}

#[test]
fn velocity_shifts_larger_values() {
    let notemap = Settings::default().notemaps;
    let mut lights = LightModel::new();
    let ev = PadEvent {
        index: 3,
        event: PadEventType::NoteOn,
        value: 0x200,
    };
    let note = translate_pad(&ev, &notemap, &mut lights).unwrap();
    assert_eq!(note.velocity, 16);
    assert_eq!(note.key, notemap[3]);

    let hardest = PadEvent {
        index: 3,
        event: PadEventType::PressOff,
        value: 0xFFF,
    };
    let note = translate_pad(&hardest, &notemap, &mut lights).unwrap();
    assert!(!note.on);
    assert_eq!(note.velocity, 127);
}

#[test]
fn zero_value_note_on_keeps_velocity_zero() {
    let notemap = Settings::default().notemaps;
    let mut lights = LightModel::new();
    let ev = PadEvent {
        index: 0,
        event: PadEventType::NoteOn,
        value: 0,
    };
    let note = translate_pad(&ev, &notemap, &mut lights).unwrap();
    assert_eq!(note.velocity, 0);
}

#[test]
fn aftertouch_changes_light_only() {
    let notemap = Settings::default().notemaps;
    let mut lights = LightModel::new();
    let ev = PadEvent {
        index: 5,
        event: PadEventType::Aftertouch,
        value: 40,
    };
    let note = translate_pad(&ev, &notemap, &mut lights);
    assert!(note.is_none());
    assert_eq!(
        lights.get_pad(5),
        PadLight {
            color: PadColor::Blue,
            level: Brightness::Normal
        }
    );
}

#[test]
fn pad_light_writes_only_on_brightness_change() {
    let notemap = Settings::default().notemaps;
    let mut lights = LightModel::new();
    let ev = PadEvent {
        index: 2,
        event: PadEventType::NoteOn,
        value: 100,
    };
    translate_pad(&ev, &notemap, &mut lights);
    assert!(lights.take_dirty());
    // Same target brightness again: no write, no dirt.
    translate_pad(&ev, &notemap, &mut lights);
    assert!(!lights.dirty);
}

#[test]
fn control_frame_decodes_bits_and_fixed_offsets() {
    let mut frame = [0u8; 64];
    frame[0] = 0x01;
    let play = ControlIdentifier::Play.index(); // bit position 22
    frame[1 + play / 8] |= 1 << (play % 8);
    frame[7] = 5;
    frame[10] = 7;
    match decode_frame(&frame) {
        DecodedFrame::Control {
            edges,
            encoder,
            slider,
        } => {
            assert_eq!(edges.len(), 41);
            assert!(edges[play].pressed);
            assert_eq!(edges[play].id, ControlIdentifier::Play);
            assert!(!edges[0].pressed);
            assert_eq!(encoder, 5);
            assert_eq!(slider, 7);
        }
        _ => panic!("expected a control frame"),
    }
}

#[test]
fn pad_frame_decodes_tuples_until_terminator() {
    let mut frame = [0u8; 64];
    frame[0] = 0x02;
    // Pad 3, note-on, value 0x123.
    frame[1] = 3;
    frame[2] = 0x11;
    frame[3] = 0x23;
    // All-zero tuple after the first: end of the run.
    // Then stale bytes that must not be decoded.
    frame[7] = 4;
    frame[8] = 0x12;
    frame[9] = 0x34;
    match decode_frame(&frame) {
        DecodedFrame::Pads { events } => {
            assert_eq!(
                events,
                vec![PadEvent {
                    index: 3,
                    event: PadEventType::NoteOn,
                    value: 0x123
                }]
            );
        }
        _ => panic!("expected a pad frame"),
    }
}

#[test]
fn pad_frame_skips_unrecognized_nibble() {
    let mut frame = [0u8; 64];
    frame[0] = 0x02;
    // Unknown event nibble 0x70: this tuple is dropped.
    frame[1] = 1;
    frame[2] = 0x70;
    frame[3] = 0x01;
    // The scan continues: a valid note-off on pad 2.
    frame[4] = 2;
    frame[5] = 0x20;
    frame[6] = 0x10;
    match decode_frame(&frame) {
        DecodedFrame::Pads { events } => {
            assert_eq!(
                events,
                vec![PadEvent {
                    index: 2,
                    event: PadEventType::NoteOff,
                    value: 0x10
                }]
            );
        }
        _ => panic!("expected a pad frame"),
    }
}

#[test]
fn unknown_selector_is_ignored() {
    let mut frame = [0u8; 64];
    frame[0] = 0x03;
    assert!(matches!(decode_frame(&frame), DecodedFrame::Unrecognized));
}

#[test]
fn default_settings_validate() {
    assert!(Settings::default().validate().is_ok());
}

#[test]
fn validate_rejects_wrong_note_map_length() {
    let mut settings = Settings::default();
    settings.notemaps.pop();
    assert_eq!(
        settings.validate(),
        Err("There should be 16 pads exactly (found 15)".to_string())
    );
}

#[test]
fn validate_reports_the_found_pad_count() {
    let mut settings = Settings::default();
    settings.notemaps.push(60);
    settings.notemaps.push(61);
    assert_eq!(
        settings.validate(),
        Err("There should be 16 pads exactly (found 18)".to_string())
    );
    settings.notemaps.clear();
    assert_eq!(
        settings.validate(),
        Err("There should be 16 pads exactly (found 0)".to_string())
    );
}

#[test]
fn validate_rejects_out_of_range_note() {
    let mut settings = Settings::default();
    settings.notemaps[4] = 128;
    assert_eq!(
        settings.validate(),
        Err("MIDI notes should be 0 to 127".to_string())
    );
}

#[test]
fn validate_rejects_empty_client_name() {
    let mut settings = Settings::default();
    settings.client_name = String::new();
    assert_eq!(
        settings.validate(),
        Err("Client name must not be empty".to_string())
    );
}

#[test]
fn validate_rejects_empty_port_name() {
    let mut settings = Settings::default();
    settings.port_name = String::new();
    assert_eq!(
        settings.validate(),
        Err("Port name must not be empty".to_string())
    );
}

#[test]
fn name_lookup_ignores_ascii_case() {
    assert_eq!(
        identifier_from_name("PLAY"),
        Some(ControlIdentifier::Play)
    );
    assert_eq!(
        identifier_from_name("NoteRepeat"),
        Some(ControlIdentifier::NoteRepeat)
    );
    assert_eq!(identifier_from_name("bogus"), None);
    assert_eq!(
        identifier_from_segment(b"events"),
        Some(ControlIdentifier::Events)
    );
}

#[test]
fn light_report_serializes_the_whole_snapshot() {
    let mut lights = LightModel::new();
    lights.set_button(ControlIdentifier::Play.index(), Brightness::Bright);
    lights.set_pad(3, PadColor::Orange, Brightness::Dim);
    lights.set_slider(24, Brightness::Normal);
    let report = lights.light_report();
    assert_eq!(report.len(), 1 + 41 + 16 + 25);
    assert_eq!(report[0], 0x80);
    assert_eq!(report[1 + ControlIdentifier::Play.index()], 3);
    assert_eq!(report[1 + 41 + 3], 2 * 4 + 1);
    assert_eq!(report[1 + 41 + 16 + 24], 2);
}

#[test]
fn every_identifier_round_trips_through_its_name() {
    for k in 0..41 {
        let id = ControlIdentifier::from_index(k).unwrap();
        assert_eq!(id.index(), k);
        let name = id.name_bytes();
        assert_eq!(identifier_from_segment(&name), Some(id));
    }
    assert_eq!(ControlIdentifier::from_index(41), None);
}
