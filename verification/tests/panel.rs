//! What the front panel, the parameters and the parts list say.

use the_tweed::cab::{
    build_cab_arm, build_cab_processor, request_cab_rebuild, CabProcessorConfig,
    CabProcessorLoadState,
};
use the_tweed::oversampling::{os_factor_choices, selected_os_factor};
use the_tweed::params::{Smoothing, ValueText};
use the_tweed::preamp::{
    build_5e3_amp_topology_config, build_preamp_tube, build_v1_pair, preamp_load_line, v1_specimen,
    V1_MOD_BIAS_MV, V1_MOD_SPECIMEN, V1_STOCK_BIAS_MV, V1_STOCK_SPECIMEN,
};
use the_tweed::selection::{cab_mode_choices, mic_choices, mic_x_choices, room_choices};
use the_tweed::{
    active_os_factor, build_v2a_tube, mic_label, mic_x_label, os_factor_label, os_factor_str,
    parse_os_factor, room_selection_label, CabModellingMode, ChannelMode, MicSelection,
    MicXPosition, OversamplingFactor, RoomSelection, TheTweedParams,
};

#[test]
fn channel_switch_goes_round() {
    assert_eq!(ChannelMode::Normal.next(), ChannelMode::Both);
    assert_eq!(ChannelMode::Both.next(), ChannelMode::Bright);
    assert_eq!(ChannelMode::Bright.next(), ChannelMode::Normal);
    assert_eq!(ChannelMode::Normal.state_label(), "NORMAL");
    assert_eq!(ChannelMode::Both.state_label(), "BOTH (Jumpered)");
    assert_eq!(ChannelMode::Bright.state_label(), "BRIGHT");
}

#[test]
fn channel_feeds_its_grids() {
    assert_eq!(ChannelMode::Normal.split_input(0.5_f32, 0.0), (0.5, 0.0));
    assert_eq!(ChannelMode::Both.split_input(0.5_f32, 0.0), (0.5, 0.5));
    assert_eq!(ChannelMode::Bright.split_input(0.5_f32, 0.0), (0.0, 0.5));
}

#[test]
fn cab_modes_have_labels() {
    assert_eq!(CabModellingMode::Ir.label(), "IR");
    assert_eq!(CabModellingMode::Dynamic.label(), "Dynamic");
    assert_eq!(cab_mode_choices(), vec![CabModellingMode::Ir, CabModellingMode::Dynamic]);
}

#[test]
fn mic_positions_go_outwards() {
    let choices = mic_x_choices();
    let offsets: Vec<u8> = choices.iter().map(|x| x.radial_offset_cm()).collect();
    assert_eq!(offsets, vec![0, 3, 8, 14]);
    let labels: Vec<&str> = choices.iter().map(|x| mic_x_label(*x)).collect();
    assert_eq!(labels, vec!["Cap", "Cap Edge", "Cone", "Cone Edge"]);
    assert_eq!(choices[1], MicXPosition::CapEdge);
}

#[test]
fn microphones_are_registered() {
    let choices = mic_choices();
    let ids: Vec<&str> = choices.iter().map(|m| m.registry_id()).collect();
    assert_eq!(
        ids,
        vec!["dynamic_57", "dynamic_421", "ribbon_121", "condenser_87", "ribbon_44", "ribbon_77"]
    );
    let labels: Vec<&str> = choices.iter().map(|m| mic_label(*m)).collect();
    assert_eq!(
        labels,
        vec![
            "Shure SM57",
            "Sennheiser MD 421-II",
            "Royer R-121 Ribbon",
            "Neumann U 87 Ai (Cardioid)",
            "RCA 44-BX",
            "RCA 77-DX",
        ]
    );
}

#[test]
fn rooms_are_registered() {
    let choices = room_choices();
    let ids: Vec<Option<&str>> = choices.iter().map(|r| r.registry_id()).collect();
    assert_eq!(
        ids,
        vec![
            None,
            Some("small_studio"),
            Some("large_studio"),
            Some("live_room"),
            Some("small_bedroom"),
            Some("wooden_barn"),
            Some("iso_box"),
        ]
    );
    let labels: Vec<&str> = choices.iter().map(|r| room_selection_label(*r)).collect();
    assert_eq!(
        labels,
        vec![
            "None",
            "Small Studio",
            "Large Studio",
            "Live Room",
            "Small Bedroom",
            "Wooden Barn",
            "Iso Box",
        ]
    );
}

#[test]
fn factors_round_trip() {
    for factor in os_factor_choices() {
        assert_eq!(parse_os_factor(os_factor_str(factor)), factor);
        assert_eq!(active_os_factor(factor.ratio()), factor);
    }
    let ratios: Vec<u8> = os_factor_choices().iter().map(|f| f.ratio()).collect();
    assert_eq!(ratios, vec![1, 2, 4, 8]);
    let labels: Vec<&str> = os_factor_choices().iter().map(|f| os_factor_label(*f)).collect();
    assert_eq!(labels, vec!["1x (none)", "2x", "4x", "8x"]);
}

#[test]
fn unknown_factors_fall_back() {
    for s in ["", "x4", "X16", " X4", "X2"] {
        assert_eq!(parse_os_factor(s), OversamplingFactor::X2);
    }
    assert_eq!(selected_os_factor(None), OversamplingFactor::X4);
    assert_eq!(selected_os_factor(Some("X8")), OversamplingFactor::X8);
    assert_eq!(selected_os_factor(Some("?")), OversamplingFactor::X2);
    for ratio in [0, 3, 4, 16, 255] {
        assert_eq!(active_os_factor(ratio), OversamplingFactor::X4);
    }
}

#[test]
fn knobs_come_up_as_documented() {
    let params = TheTweedParams::default();
    for (knob, id, name, default, ms) in [
        (&params.bright_volume, "bright_volume", "Bright", 960, 10),
        (&params.normal_volume, "normal_volume", "Normal", 250, 10),
        (&params.tone, "tone", "Tone", 450, 5),
    ] {
        assert_eq!((knob.id, knob.name, knob.default_milli), (id, name, default));
        assert_eq!((knob.min_milli, knob.max_milli, knob.unit), (10, 1_000, ""));
        assert_eq!(knob.step_milli, None);
        assert_eq!(knob.smoothing, Smoothing::Logarithmic(ms));
        assert_eq!(knob.text, ValueText::Dial);
    }
}

#[test]
fn sliders_come_up_as_documented() {
    let params = TheTweedParams::default();
    for (slider, id, name, range, unit, ms) in [
        (&params.input_trim_db, "input_trim", "Input Trim", (0, -18_000, 12_000), " dB", 5),
        (&params.output_trim_db, "output_trim", "Output Trim", (-6_000, -24_000, 0), " dB", 5),
        (
            &params.mic_distance_inches,
            "mic_distance_inches",
            "Mic Distance",
            (3_000, 100, 24_000),
            " in",
            20,
        ),
    ] {
        assert_eq!((slider.id, slider.name), (id, name));
        assert_eq!((slider.default_milli, slider.min_milli, slider.max_milli), range);
        assert_eq!((slider.unit, slider.step_milli), (unit, Some(100)));
        assert_eq!(slider.smoothing, Smoothing::Linear(ms));
        assert_eq!(slider.text, ValueText::OneDecimal);
    }
}

#[test]
fn choices_come_up_as_documented() {
    let params = TheTweedParams::default();
    assert_eq!(params.channel_select.id, "channel_select");
    assert_eq!(params.channel_select.name, "Channel");
    assert_eq!(params.channel_select.default, ChannelMode::Normal);
    assert_eq!((params.power.id, params.power.name, params.power.default), ("power", "Power", true));
    assert_eq!(
        (params.tube_toggle.id, params.tube_toggle.name, params.tube_toggle.default),
        ("tube_toggle", "Tube Toggle", false)
    );
    assert_eq!(params.cab_modelling_mode.id, "cab_modelling_mode");
    assert_eq!(params.cab_modelling_mode.name, "Cab Modelling");
    assert_eq!(params.cab_modelling_mode.default, CabModellingMode::Dynamic);
    assert_eq!((params.mic_x_position.id, params.mic_x_position.name), ("mic_x_position", "Mic X"));
    assert_eq!(params.mic_x_position.default, MicXPosition::CapEdge);
    assert_eq!((params.microphone.id, params.microphone.name), ("microphone", "Mic"));
    assert_eq!(params.microphone.default, MicSelection::Ribbon77);
    assert_eq!((params.room_selection.id, params.room_selection.name), ("room_selection", "Room"));
    assert_eq!(params.room_selection.default, RoomSelection::SmallStudio);
    assert_eq!(params.ir_file_path, "");
    assert_eq!(parse_os_factor(&params.oversampling_factor), OversamplingFactor::X4);
}

#[test]
fn toggle_exchanges_the_tube_of_v1() {
    assert_eq!(v1_specimen(false), "ge_12ay7");
    assert_eq!(v1_specimen(true), "ge_12ax7");
}

#[test]
fn load_line_leaves_the_cathode_out() {
    let line = preamp_load_line(-1_500);
    assert_eq!(
        line.plate_operating_points,
        vec![100, 95, 90, 85, 80, 75, 71, 67, 63, 59, 55, 51, 47, 43, 39, 35]
    );
    assert_eq!((line.plate_resistor_ohms, line.cathode_resistor_ohms), (100_000, 0));
    assert_eq!((line.reference_bplus_volts, line.reference_bias_mv), (330, -1_500));
}

#[test]
fn v1_shares_its_cathode() {
    for (specimen, bias) in
        [(V1_STOCK_SPECIMEN, V1_STOCK_BIAS_MV), (V1_MOD_SPECIMEN, V1_MOD_BIAS_MV)]
    {
        let pair = build_v1_pair(specimen, bias);
        assert_eq!(pair.specimen_id, specimen);
        assert_eq!(pair.load_line.reference_bias_mv, bias);
        assert_eq!(pair.shared_cathode_resistor_ohms, 820);
        assert_eq!(pair.shared_cathode_bypass_cap_uf, Some(25));
        assert_eq!(
            pair.shared_cathode_bypass_dielectric.as_deref(),
            Some("electrolytic_vintage")
        );
        assert_eq!((pair.plate_resistor_a_ohms, pair.plate_resistor_b_ohms), (100_000, 100_000));
        assert_eq!(pair.tube_mismatch_permille, Some(50));
        assert_eq!(pair.linear_blend_threshold, None);
        assert_eq!((pair.plate_voltage_percent, pair.plate_bplus_volts), (100, 250));
    }
}

#[test]
fn v2a_has_a_cathode_of_its_own() {
    let v2a = build_v2a_tube();
    assert_eq!(v2a.specimen_id, "ge_12ax7");
    assert_eq!(v2a.load_line.reference_bias_mv, -1_200);
    assert_eq!((v2a.cathode_resistor_ohms, v2a.cathode_bypass_cap_uf), (1_500, Some(25)));
    assert_eq!(v2a.plate_bplus_volts, 250);
    let bare = build_preamp_tube("x", preamp_load_line(-1), 7, None);
    assert_eq!((bare.specimen_id.as_str(), bare.cathode_bypass_cap_uf), ("x", None));
}

#[test]
fn power_section_names_its_parts() {
    let overrides = build_5e3_amp_topology_config();
    assert_eq!(overrides.transformer_spec, "sst_108");
    assert_eq!(overrides.rectifier_spec, "ge_5y3");
}

#[test]
fn chain_has_a_room_when_one_is_named() {
    for room in room_choices() {
        let config = build_cab_processor(48_000.0_f32, 512, "s", "c", "m", room, (0.1_f32, 3_u8));
        assert_eq!(config.room_enabled, room != RoomSelection::NoRoom);
        assert_eq!(config.room_id.as_deref(), room.registry_id());
        assert_eq!((config.sample_rate, config.max_buffer_size), (48_000.0, 512));
        assert_eq!(
            (config.speaker_id.as_str(), config.cabinet_id.as_str(), config.microphone_id.as_str()),
            ("s", "c", "m")
        );
        assert_eq!(config.placement, (0.1, 3));
        assert_eq!((config.preamp_gain_db, config.pan_percent), (35, 0));
        assert!(!config.polarity_inverted && !config.secondary_mic);
        assert!(config.speaker_enabled && config.cabinet_enabled);
        assert!(config.mic_enabled && config.response_enabled);
    }
}

#[test]
fn rebuilt_arm_is_offered_once() {
    let mut slot: CabProcessorLoadState<String> = CabProcessorLoadState::default();
    assert!(slot.take_pending().is_none());
    let make = |config: CabProcessorConfig<f32, ()>| {
        format!(
            "{} {} {} {:?} {}",
            config.speaker_id,
            config.cabinet_id,
            config.microphone_id,
            config.room_id,
            config.max_buffer_size
        )
    };
    request_cab_rebuild(
        &mut slot,
        48_000.0,
        256,
        MicSelection::Ribbon44,
        RoomSelection::IsoBox,
        (),
        make,
    );
    let arm = slot.take_pending();
    assert_eq!(
        arm.as_deref(),
        Some("p12r tweed_5e3_open_back_1x12 ribbon_44 Some(\"iso_box\") 256")
    );
    assert!(slot.take_pending().is_none());
    let other = build_cab_arm(1.0, 2, "a", "b", "c", RoomSelection::NoRoom, (), make);
    assert_eq!(other, "a b c None 2");
    slot.offer(other);
    slot.clear();
    assert!(slot.pending.is_none());
}
