//! What the editor shows, and what a click does.

use the_tweed::gui::{
    background, cab_row, central_view, get_or_load, knob_view, settings_view, shows_microphone,
    signal_zone, switch_view, three_way_switch_view, written_in_volts, CabRow, CentralView,
    EditorAction, EditorEvent, EditorPanel, EditorPicture, SignalZone,
};
use the_tweed::ir_load::StripColor;
use the_tweed::{
    ir_load_status, CabModellingMode, ChannelMode, GuiState, MicSelection, MicXPosition,
    OversamplingFactor, RoomSelection, TextureCache,
};

type State = GuiState<(), (), String, f32, u8, String>;

fn opened() -> State {
    GuiState::new((), (), String::from("/ir.wav"), 1.0, 2.0, 3.0, 4.0, 5.0, 6.0, 4)
}

fn panel() -> EditorPanel {
    EditorPanel {
        channel: ChannelMode::Both,
        power_on: true,
        tube_toggle: false,
        microphone: MicSelection::Dynamic57,
        room: RoomSelection::LiveRoom,
    }
}

#[test]
fn editor_opens_on_the_control_panel() {
    let state = opened();
    assert!(!state.show_amp_view && !state.show_circuit_stats && !state.show_settings);
    assert_eq!(state.ir_path, "/ir.wav");
    assert_eq!(
        (
            state.meter_peak_volts,
            state.meter_bplus_volts,
            state.meter_v1_volts,
            state.meter_v2_volts,
            state.meter_v3v4_volts,
            state.meter_output_db,
            state.active_os_ratio,
        ),
        (1.0, 2.0, 3.0, 4.0, 5.0, 6.0, 4)
    );
    assert_eq!(state.textures.knob_frames.len(), 100);
    assert!(state.textures.knob_frames.iter().all(|f| f.is_none()));
}

#[test]
fn buttons_toggle() {
    let mut state = opened();
    for _ in 0..2 {
        state.handle(EditorEvent::ViewButton, panel());
        state.handle(EditorEvent::StatsButton, panel());
        assert!(matches!(
            state.handle(EditorEvent::SettingsButton, panel()),
            EditorAction::Stay
        ));
    }
    assert!(!state.show_amp_view && !state.show_circuit_stats && !state.show_settings);
    state.handle(EditorEvent::ViewButton, panel());
    assert!(state.show_amp_view && !state.show_circuit_stats && !state.show_settings);
}

#[test]
fn click_beside_an_overlay_closes_it() {
    let mut state = opened();
    state.handle(EditorEvent::StatsButton, panel());
    state.handle(EditorEvent::SettingsButton, panel());
    state.handle(EditorEvent::StatsOverlay { inside: true }, panel());
    state.handle(EditorEvent::SettingsOverlay { inside: true }, panel());
    assert!(state.show_circuit_stats && state.show_settings);
    state.handle(EditorEvent::StatsOverlay { inside: false }, panel());
    assert!(!state.show_circuit_stats && state.show_settings);
    state.handle(EditorEvent::SettingsOverlay { inside: false }, panel());
    assert!(!state.show_settings);
}

#[test]
fn switches_move_on() {
    let mut state = opened();
    assert!(matches!(
        state.handle(EditorEvent::ChannelSwitch, panel()),
        EditorAction::SetChannel(ChannelMode::Bright)
    ));
    assert!(matches!(
        state.handle(EditorEvent::PowerSwitch, panel()),
        EditorAction::SetPower(false)
    ));
    assert!(matches!(
        state.handle(EditorEvent::TubeSwitch, panel()),
        EditorAction::SetTubeToggle(true)
    ));
}

#[test]
fn rebuild_goes_by_the_choice() {
    let mut state = opened();
    assert!(matches!(
        state.handle(EditorEvent::Microphone(MicSelection::Ribbon77), panel()),
        EditorAction::SetMicrophone {
            microphone: MicSelection::Ribbon77,
            room: RoomSelection::LiveRoom
        }
    ));
    assert!(matches!(
        state.handle(EditorEvent::Room(RoomSelection::NoRoom), panel()),
        EditorAction::SetRoom {
            microphone: MicSelection::Dynamic57,
            room: RoomSelection::NoRoom
        }
    ));
}

#[test]
fn other_choices_are_handed_on() {
    let mut state = opened();
    assert!(matches!(
        state.handle(EditorEvent::MicX(MicXPosition::Cone), panel()),
        EditorAction::SetMicX(MicXPosition::Cone)
    ));
    assert!(matches!(
        state.handle(EditorEvent::Oversampling(OversamplingFactor::X8), panel()),
        EditorAction::PersistFactor("X8")
    ));
    assert!(matches!(
        state.handle(EditorEvent::CabMode(CabModellingMode::Ir), panel()),
        EditorAction::SetCabMode(CabModellingMode::Ir)
    ));
}

#[test]
fn pictures_have_keys_and_files() {
    for (picture, key, file) in [
        (EditorPicture::AmpOn, "amp_on", "amp_on.png"),
        (EditorPicture::AmpOff, "amp_off", "amp_off.png"),
        (EditorPicture::Amp, "amp_view", "amp.png"),
        (EditorPicture::SwitchOn, "switch_on", "toggle_on.png"),
        (EditorPicture::SwitchCenter, "switch_center", "toggle_centered.png"),
        (EditorPicture::SwitchOff, "switch_off", "toggle_off.png"),
        (EditorPicture::Knob(0), "knob_001", "0000.png"),
        (EditorPicture::Knob(41), "knob_042", "0041.png"),
        (EditorPicture::Knob(99), "knob_100", "0099.png"),
    ] {
        assert_eq!(picture.key(), key);
        assert_eq!(picture.file_name(), file);
    }
}

#[test]
fn switches_show_their_state() {
    let on = switch_view(true, "Power", "[remark]");
    assert_eq!(on.picture, EditorPicture::SwitchOn);
    assert_eq!((on.id.as_str(), on.tooltip_id.as_str()), ("switch_Power", "tooltip_Power"));
    assert_eq!(on.tooltip, "Power: ON\n[remark]");
    let off = switch_view(false, "Power", "");
    assert_eq!((off.picture, off.tooltip.as_str()), (EditorPicture::SwitchOff, "Power: OFF\n"));

    for (mode, picture, text) in [
        (ChannelMode::Normal, EditorPicture::SwitchOff, "C: NORMAL\nr"),
        (ChannelMode::Both, EditorPicture::SwitchCenter, "C: BOTH (Jumpered)\nr"),
        (ChannelMode::Bright, EditorPicture::SwitchOn, "C: BRIGHT\nr"),
    ] {
        let view = three_way_switch_view(mode, "C", "r");
        assert_eq!((view.picture, view.tooltip.as_str()), (picture, text));
        assert_eq!((view.id.as_str(), view.tooltip_id.as_str()), ("switch_C", "tooltip_C"));
    }
}

#[test]
fn knobs_stop_at_their_last_frame() {
    for (position, frame) in [(0, 0), (50, 50), (99, 99), (100, 99), (usize::MAX, 99)] {
        let view = knob_view(position, "Tone", "Tone Control");
        assert_eq!(view.picture, EditorPicture::Knob(frame));
        assert_eq!((view.id.as_str(), view.tooltip_id.as_str()), ("knob_Tone", "tooltip_Tone"));
        assert_eq!(view.tooltip, "Tone Control");
    }
}

#[test]
fn amp_view_hides_the_controls() {
    assert!(matches!(
        central_view(true, panel(), 1, 2, 3),
        CentralView::Amp(EditorPicture::Amp)
    ));
    match central_view(false, panel(), 44, 95, 24) {
        CentralView::Panel(front) => {
            assert_eq!(front.background, EditorPicture::AmpOn);
            assert_eq!(
                front.channel.tooltip,
                "Channel Select: BOTH (Jumpered)\n\
                 [DOWN = Normal, MID = Both (jumpered), UP = Bright]"
            );
            assert_eq!(front.power.tooltip, "Power Toggle: ON\n[This plugin has no pass-thru]");
            assert_eq!(front.tone.picture, EditorPicture::Knob(44));
            assert_eq!(front.bright_volume.picture, EditorPicture::Knob(95));
            assert_eq!(front.normal_volume.picture, EditorPicture::Knob(24));
            assert_eq!(
                front.tube.tooltip,
                "Change V1A/V1B to 12ax7: OFF\n[A 12ax7 tube has more gain (60-70mu)]"
            );
        }
        CentralView::Amp(_) => panic!("the controls are hidden"),
    }
    assert_eq!(background(false), EditorPicture::AmpOff);
}

#[test]
fn textures_are_loaded_once() {
    let mut cache: TextureCache<String> = TextureCache::new();
    let first = cache.texture(EditorPicture::Knob(7), |name| format!("loaded {name}"));
    assert_eq!(first, "loaded knob_008");
    let again = cache.texture(EditorPicture::Knob(7), |_| panic!("loaded twice"));
    assert_eq!(again, first);
    assert_eq!(cache.knob_frames.iter().filter(|f| f.is_some()).count(), 1);
    for picture in [
        EditorPicture::AmpOn,
        EditorPicture::AmpOff,
        EditorPicture::Amp,
        EditorPicture::SwitchOn,
        EditorPicture::SwitchCenter,
        EditorPicture::SwitchOff,
    ] {
        assert_eq!(cache.texture(picture, |name| name.to_owned()), picture.key());
    }
    assert_eq!(cache.amp.as_deref(), Some("amp_view"));
    assert_eq!(cache.switch_center.as_deref(), Some("switch_center"));

    let mut slot = None;
    assert_eq!(get_or_load(&mut slot, "a", |n| n.len()), 1);
    assert_eq!(get_or_load(&mut slot, "abc", |n| n.len()), 1);
}

#[test]
fn ir_row_names_the_file() {
    for (path, name, expected) in [
        (Some("/a/b.wav"), Some("b.wav"), Some("(b.wav)")),
        (Some("/"), None, Some("(unknown)")),
        (Some(""), None, None),
        (None, None, None),
    ] {
        match cab_row(CabModellingMode::Ir, ir_load_status::LOADED, path, name, None, None) {
            CabRow::Ir { color, status, file } => {
                assert_eq!((color, status), (StripColor::Green, "Loaded"));
                assert_eq!(file.as_deref(), expected);
            }
            CabRow::Dynamic { .. } => panic!("not the row of an impulse response"),
        }
    }
}

#[test]
fn dynamic_row_names_the_rig() {
    for (cabinet, speaker, labels) in [
        (Some("Tweed"), Some("Jensen"), ("Cabinet: Tweed", "Speaker: Jensen")),
        (None, None, ("Cabinet: tweed_5e3_open_back_1x12", "Speaker: p12r")),
    ] {
        match cab_row(CabModellingMode::Dynamic, 0, None, None, cabinet, speaker) {
            CabRow::Dynamic { cabinet, speaker } => {
                assert_eq!((cabinet.as_str(), speaker.as_str()), labels);
            }
            CabRow::Ir { .. } => panic!("not the row of the dynamic arm"),
        }
    }
    assert!(shows_microphone(CabModellingMode::Dynamic));
    assert!(!shows_microphone(CabModellingMode::Ir));
}

#[test]
fn input_has_zones() {
    for (mv, zone) in [
        (0.0_f32, SignalZone::Silent),
        (-0.0, SignalZone::Silent),
        (-5000.0, SignalZone::Silent),
        (f32::NEG_INFINITY, SignalZone::Silent),
        (9.999, SignalZone::Silent),
        (10.0, SignalZone::Typical),
        (800.0, SignalZone::Typical),
        (800.001, SignalZone::Hot),
        (1500.0, SignalZone::Hot),
        (1500.001, SignalZone::TooHot),
        (f32::INFINITY, SignalZone::TooHot),
        (f32::NAN, SignalZone::TooHot),
        (-f32::NAN, SignalZone::TooHot),
    ] {
        assert_eq!(signal_zone(mv.to_bits()), zone, "{}", mv);
    }
}

#[test]
fn loud_input_is_written_in_volts() {
    for (volts, expected) in [
        (0.0_f32, false),
        (0.999, false),
        (1.0, true),
        (2.5, true),
        (-2.0, false),
        (f32::NAN, false),
        (f32::INFINITY, true),
    ] {
        assert_eq!(written_in_volts(volts.to_bits()), expected, "{}", volts);
    }
}

#[test]
fn settings_show_a_factor_that_waits() {
    let same = settings_view(Some("X4"), 4);
    assert_eq!(same.selected, OversamplingFactor::X4);
    assert_eq!((same.current_line.as_str(), same.selected_line), ("Current: 4x", None));
    let waiting = settings_view(Some("X1"), 8);
    assert_eq!(waiting.selected, OversamplingFactor::X1);
    assert_eq!(waiting.current_line, "Current: 8x");
    assert_eq!(waiting.selected_line.as_deref(), Some("Selected: 1x (none)"));
    let unread = settings_view(None, 0);
    assert_eq!((unread.selected, unread.selected_line), (OversamplingFactor::X4, None));
}
