use mikro_bridge::engine::{tick, Context};
use mikro_bridge::ident::ControlIdentifier;
use mikro_bridge::lights::{Brightness, LightModel, PadColor, PadLight};
use mikro_bridge::router::{route, InboundMessage, OscArg};
use mikro_bridge::settings::{ButtonConfig, ButtonMode, Settings};

fn msg(addr: &str, args: Vec<OscArg>) -> InboundMessage {
    InboundMessage {
        addr: addr.as_bytes().to_vec(),
        args,
    }
}

fn osc_bytes(addr: &str, args: Vec<rosc::OscType>) -> Vec<u8> {
    rosc::encoder::encode(&rosc::OscPacket::Message(rosc::OscMessage {
        addr: addr.to_string(),
        args,
    }))
    .unwrap()
}

fn decode_status(bytes: &[u8]) -> (String, Vec<rosc::OscType>) {
    match rosc::decoder::decode_udp(bytes) {
        Ok((_, rosc::OscPacket::Message(m))) => (m.addr, m.args),
        other => panic!("not a single status message: {other:?}"),
    }
}

fn control_frame(pressed: &[ControlIdentifier]) -> [u8; 64] {
    let mut frame = [0u8; 64];
    frame[0] = 0x01;
    for id in pressed {
        let bit = id.index();
        frame[1 + bit / 8] |= 1 << (bit % 8);
    }
    frame
}

#[test]
fn inbound_pad_three_sets_color_and_brightness() {
    let mut lights = LightModel::new();
    let r = route(
        &msg("/pad/3", vec![OscArg::Int(2), OscArg::Int(3)]),
        &mut lights,
    );
    assert!(r.is_none());
    assert_eq!(
        lights.get_pad(3),
        PadLight {
            color: PadColor::Orange,
            level: Brightness::Bright
        }
    );
    assert!(lights.dirty);
}

#[test]
fn inbound_pad_sixteen_is_ignored() {
    let mut lights = LightModel::new();
    let r = route(
        &msg("/pad/16", vec![OscArg::Int(2), OscArg::Int(3)]),
        &mut lights,
    );
    assert!(r.is_none());
    assert!(!lights.dirty);
    for p in 0..16 {
        assert_eq!(
            lights.get_pad(p),
            PadLight {
                color: PadColor::Off,
                level: Brightness::Off
            }
        );
    }
}

#[test]
fn inbound_slider_repaints_bar() {
    let mut lights = LightModel::new();
    route(&msg("/slider", vec![OscArg::Int(100)]), &mut lights);
    assert_eq!(lights.slider[12], Brightness::Normal);
    assert_eq!(lights.slider[0], Brightness::Dim);
    assert_eq!(lights.slider[13], Brightness::Off);
    assert!(lights.dirty);
}

#[test]
fn inbound_button_name_sets_light_directly() {
    let mut lights = LightModel::new();
    route(&msg("/Play", vec![OscArg::Int(1)]), &mut lights);
    assert_eq!(
        lights.get_button(ControlIdentifier::Play.index()),
        Brightness::Bright
    );
    route(&msg("/play", vec![OscArg::Int(0)]), &mut lights);
    assert_eq!(
        lights.get_button(ControlIdentifier::Play.index()),
        Brightness::Off
    );
}

#[test]
fn inbound_second_segment_names_button_too() {
    let mut lights = LightModel::new();
    route(&msg("/prefix/stop", vec![OscArg::Int(1)]), &mut lights);
    assert_eq!(
        lights.get_button(ControlIdentifier::Stop.index()),
        Brightness::Bright
    );
}

#[test]
fn inbound_screen_text_returns_text_without_touching_lights() {
    let mut lights = LightModel::new();
    let r = route(
        &msg(
            "/maschine/screen/text",
            vec![OscArg::Str("hello".to_string())],
        ),
        &mut lights,
    );
    assert_eq!(r, Some("hello".to_string()));
    assert!(!lights.dirty);
}

#[test]
fn inbound_unknown_address_is_ignored() {
    let mut lights = LightModel::new();
    let r = route(&msg("/no/such/thing", vec![OscArg::Int(1)]), &mut lights);
    assert!(r.is_none());
    assert!(!lights.dirty);
}

#[test]
fn inbound_missing_argument_is_ignored() {
    let mut lights = LightModel::new();
    route(&msg("/play", vec![]), &mut lights);
    assert!(!lights.dirty);
    route(&msg("/pad/3", vec![OscArg::Int(2)]), &mut lights);
    assert!(!lights.dirty);
}

#[test]
fn tick_emits_status_message_for_momentary_press() {
    let settings = Settings::default();
    let mut ctx = Context::new(&settings);
    let mut lights = LightModel::new();
    let frame = control_frame(&[ControlIdentifier::Play]);
    let out = tick(&mut ctx, &mut lights, Some(&frame), &vec![]);
    assert_eq!(out.status.len(), 1);
    let (addr, args) = decode_status(&out.status[0]);
    assert_eq!(addr, "/maschine/play");
    assert_eq!(args, vec![rosc::OscType::Int(1)]);
    assert!(out.flush);
    assert!(!lights.dirty);
}

#[test]
fn tick_latching_group_end_to_end() {
    let play = ControlIdentifier::Play;
    let stop = ControlIdentifier::Stop;
    let mut settings = Settings::default();
    settings.button_configs[play.index()] = ButtonConfig {
        mode: ButtonMode::Latching,
        group_id: Some(1),
        cc: None,
    };
    settings.button_configs[stop.index()] = ButtonConfig {
        mode: ButtonMode::Latching,
        group_id: Some(1),
        cc: None,
    };
    let mut ctx = Context::new(&settings);
    let mut lights = LightModel::new();

    let mut emitted: Vec<(String, Vec<rosc::OscType>)> = Vec::new();
    for frame in [
        control_frame(&[play]),
        control_frame(&[]),
        control_frame(&[stop]),
    ] {
        let out = tick(&mut ctx, &mut lights, Some(&frame), &vec![]);
        for packet in &out.status {
            emitted.push(decode_status(packet));
        }
    }
    // Each accepted activation first forces every other group member off,
    // then emits its own state change.
    assert_eq!(
        emitted,
        vec![
            ("/maschine/stop".to_string(), vec![rosc::OscType::Int(0)]),
            ("/maschine/play".to_string(), vec![rosc::OscType::Int(1)]),
            ("/maschine/play".to_string(), vec![rosc::OscType::Int(0)]),
            ("/maschine/stop".to_string(), vec![rosc::OscType::Int(1)]),
        ]
    );
    assert_eq!(lights.get_button(stop.index()), Brightness::Bright);
    assert_eq!(lights.get_button(play.index()), Brightness::Off);
}

#[test]
fn tick_sends_secondary_controller_message() {
    let play = ControlIdentifier::Play;
    let mut settings = Settings::default();
    settings.button_configs[play.index()] = ButtonConfig {
        mode: ButtonMode::Momentary,
        group_id: None,
        cc: Some(20),
    };
    let mut ctx = Context::new(&settings);
    let mut lights = LightModel::new();
    let frame = control_frame(&[play]);
    let out = tick(&mut ctx, &mut lights, Some(&frame), &vec![]);
    assert_eq!(out.midi, vec![vec![0xB0, 20, 127]]);

    let release = control_frame(&[]);
    let out = tick(&mut ctx, &mut lights, Some(&release), &vec![]);
    assert_eq!(out.midi, vec![vec![0xB0, 20, 0]]);
}

#[test]
fn tick_out_of_range_secondary_number_has_no_effect() {
    let play = ControlIdentifier::Play;
    let mut settings = Settings::default();
    settings.button_configs[play.index()] = ButtonConfig {
        mode: ButtonMode::Momentary,
        group_id: None,
        cc: Some(200),
    };
    let mut ctx = Context::new(&settings);
    let mut lights = LightModel::new();
    let frame = control_frame(&[play]);
    let out = tick(&mut ctx, &mut lights, Some(&frame), &vec![]);
    assert!(out.midi.is_empty());
    assert_eq!(out.status.len(), 1);
}

#[test]
fn tick_pad_frame_sends_note_on_wire_bytes() {
    let settings = Settings::default();
    let note = settings.notemaps[3];
    let mut ctx = Context::new(&settings);
    let mut lights = LightModel::new();
    let mut frame = [0u8; 64];
    frame[0] = 0x02;
    frame[1] = 3;
    frame[2] = 0x11; // note-on nibble, value high bits 0x1
    frame[3] = 0x23; // value low byte: value 0x123, velocity 0x123 >> 5 == 9
    let out = tick(&mut ctx, &mut lights, Some(&frame), &vec![]);
    assert_eq!(out.midi, vec![vec![0x90, note, 9]]);
    assert!(out.flush);
}

#[test]
fn tick_slider_movement_emits_raw_level() {
    let settings = Settings::default();
    let mut ctx = Context::new(&settings);
    let mut lights = LightModel::new();
    let mut frame = [0u8; 64];
    frame[0] = 0x01;
    frame[10] = 42;
    let out = tick(&mut ctx, &mut lights, Some(&frame), &vec![]);
    assert_eq!(out.status.len(), 1);
    let (addr, args) = decode_status(&out.status[0]);
    assert_eq!(addr, "/maschine/slider");
    assert_eq!(args, vec![rosc::OscType::Int(42)]);
    assert_eq!(lights.slider[4], Brightness::Normal);
}

#[test]
fn tick_surfaces_encoder_changes_only() {
    let settings = Settings::default();
    let mut ctx = Context::new(&settings);
    let mut lights = LightModel::new();
    let mut frame = [0u8; 64];
    frame[0] = 0x01;
    frame[7] = 5;
    let out = tick(&mut ctx, &mut lights, Some(&frame), &vec![]);
    assert_eq!(out.encoder, Some(5));
    frame[7] = 0;
    let out = tick(&mut ctx, &mut lights, Some(&frame), &vec![]);
    assert_eq!(out.encoder, Some(0)); // differs from the previous reading
    let out = tick(&mut ctx, &mut lights, Some(&frame), &vec![]);
    assert_eq!(out.encoder, None); // zero and unchanged
}

#[test]
fn tick_routes_inbound_datagrams() {
    let settings = Settings::default();
    let mut ctx = Context::new(&settings);
    let mut lights = LightModel::new();
    let dgram = osc_bytes(
        "/pad/3",
        vec![rosc::OscType::Int(2), rosc::OscType::Int(3)],
    );
    let out = tick(&mut ctx, &mut lights, None, &vec![dgram]);
    assert!(out.flush);
    assert_eq!(
        lights.get_pad(3),
        PadLight {
            color: PadColor::Orange,
            level: Brightness::Bright
        }
    );
}

#[test]
fn tick_returns_screen_text_from_datagram() {
    let settings = Settings::default();
    let mut ctx = Context::new(&settings);
    let mut lights = LightModel::new();
    let dgram = osc_bytes(
        "/maschine/screen/text",
        vec![rosc::OscType::String("hi".to_string())],
    );
    let out = tick(&mut ctx, &mut lights, None, &vec![dgram]);
    assert_eq!(out.screen, vec!["hi".to_string()]);
    assert!(!out.flush);
}

#[test]
fn tick_drops_malformed_datagrams() {
    let settings = Settings::default();
    let mut ctx = Context::new(&settings);
    let mut lights = LightModel::new();
    let out = tick(&mut ctx, &mut lights, None, &vec![vec![1, 2, 3, 4]]);
    assert!(!out.flush);
    assert!(out.screen.is_empty());
    assert!(out.status.is_empty());
}

#[test]
fn tick_applies_frame_before_inbound_messages() {
    // The frame turns Play's light on; the datagram then forces it off.
    // The inbound update must win, and one flush covers both.
    let play = ControlIdentifier::Play;
    let settings = Settings::default();
    let mut ctx = Context::new(&settings);
    let mut lights = LightModel::new();
    let frame = control_frame(&[play]);
    let dgram = osc_bytes("/play", vec![rosc::OscType::Int(0)]);
    let out = tick(&mut ctx, &mut lights, Some(&frame), &vec![dgram]);
    assert!(out.flush);
    assert_eq!(lights.get_button(play.index()), Brightness::Off);
}
