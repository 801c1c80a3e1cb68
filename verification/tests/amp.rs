//! How a sample runs through the amplifier and a buffer through the plug-in,
//! with stages that note down what was done to them.

use the_tweed::audio_state::{copy_block, samples_in, silence, silence_channels};
use the_tweed::plugin::output_reading;
use the_tweed::preamp::{PairBuild, TopologyOverrides, TubeBuild};
use the_tweed::{
    ir_load_status, AudioState, BoundaryBuild, BufferOps, BuildOps, CabModellingMode,
    CabProcessorConfig, CabProcessorLoadState, ChannelMode, ControlOps, GridElement, GridNetlist,
    GridTube, InnerOps, IrLoadState, IrOps, Magnitude, MeterOps, MicSelection, MicXPosition,
    OutputRoute, OversamplingFactor, PairOutput, PanelValues, PlateVolts, PotHandle, RateOps,
    RoomSelection, StateOps, TheTweed, TheTweedParams, TweedInner,
};

const SAMPLE_RATES: [f32; 6] = [44_100.0, 48_000.0, 88_200.0, 96_000.0, 176_400.0, 192_000.0];

type Log = Vec<String>;
type Inner = TweedInner<f32, Log, Log, Log, f32, Log, Log>;
type Audio = AudioState<f32, Engine, Log, Log>;
type Plugin = TheTweed<f32, Audio>;

/// An engine that notes down its buffers, round an amplifier.
struct Engine {
    log: Log,
    inner: Inner,
}

fn inner_mut(engine: &mut Engine) -> &mut Inner {
    &mut engine.inner
}

fn inner_ref(engine: &Engine) -> &Inner {
    &engine.inner
}

fn pot(element: usize) -> PotHandle {
    PotHandle { element }
}

fn noted(what: &str) -> Log {
    vec![what.to_owned()]
}

fn set_pot(c: &mut Log, pot: PotHandle, position: f32) {
    c.push(format!("{}={}", pot.element, position));
}

fn pair(b: PairBuild) -> Log {
    noted(&format!("{} {}", b.specimen_id, b.load_line.reference_bias_mv))
}

fn tube(b: TubeBuild) -> Log {
    noted(&format!("{} {}", b.specimen_id, b.cathode_resistor_ohms))
}

fn cap(pf: u32, ohms: u32) -> Log {
    noted(&format!("{pf} {ohms}"))
}

fn power(o: TopologyOverrides) -> Log {
    noted(&format!("{} {}", o.transformer_spec, o.rectifier_spec))
}

fn source_z(specimen: &'static str) -> f32 {
    if specimen == "ge_12ay7" {
        1.0
    } else {
        2.0
    }
}

fn grid(specimen: &'static str, tube: &Log) -> GridTube<f32> {
    assert_eq!((specimen, tube[0].as_str()), ("ge_12ax7", "ge_12ax7 1500"));
    GridTube {
        miller_capacitance: 3.0,
        grid_perveance: 4.0,
        contact_potential: 5.0,
        cathode_voltage: 6.0,
    }
}

fn solve(netlist: GridNetlist<f32>) -> Log {
    match netlist.elements[0] {
        GridElement::Resistor { ohms, .. } => noted(&format!("from {ohms}")),
        _ => panic!("the network starts at no plate"),
    }
}

fn smoother(position: f32, ms: u32) -> f32 {
    assert_eq!(ms, 20);
    position
}

fn inner(tube_toggle: bool) -> Inner {
    TweedInner::build(
        tube_toggle,
        ChannelMode::Normal,
        0.1,
        0.2,
        0.3,
        0.0,
        BuildOps { pair, tube, cap, amp: power, source_z, grid, solve, set_pot, smoother },
    )
}

fn run_inner(inner: &mut Inner, input: f32) -> f32 {
    inner.process_inner(
        input,
        0.0,
        InnerOps {
            rail: |a: &mut Log| {
                a.push("rail".to_owned());
                250.0
            },
            pair: |p: &mut Log, a: f32, b: f32, rail: f32| {
                p.push(format!("{a} {b} {rail}"));
                PairOutput {
                    plate_a_ac_volts: 10.0 * a,
                    plate_b_ac_volts: 20.0 * b,
                    plate_a_current_amps: 1.0,
                    plate_b_current_amps: 2.0,
                }
            },
            grid: |c: &mut Log, a: f32, b: f32| {
                c.push(format!("{a} {b}"));
                a + b
            },
            tube: |t: &mut Log, grid: f32, rail: f32| {
                t.push(format!("{grid} {rail}"));
                -grid
            },
            couple: |k: &mut Log, plate: f32| {
                k.push(format!("{plate}"));
                plate / 2.0
            },
            power: |a: &mut Log, pi: f32| {
                a.push(format!("power {pi}"));
                pi * 3.0
            },
            plates: |p: &Log, t: &Log, a: &Log| PlateVolts {
                v1: p.len() as f32,
                v2: t.len() as f32,
                v3v4: a.len() as f32,
            },
            current: |t: &Log| 10.0 * t.len() as f32,
            draw: |a: &mut Log, amps: f32| a.push(format!("draw {amps}")),
            plus: |a: f32, b: f32| a + b,
        },
    )
}

#[test]
fn both_networks_are_built() {
    let stock = inner(false);
    assert_eq!(stock.grid_circuit, vec!["from 1", "2=0.1", "5=0.2", "7=0.3"]);
    assert_eq!(stock.grid_spare.circuit, vec!["from 2"]);
    assert_eq!(stock.active_pair(), &noted("ge_12ay7 -1500"));
    let modded = inner(true);
    assert_eq!(modded.grid_circuit[0], "from 2");
    assert_eq!(modded.grid_spare.circuit, vec!["from 1"]);
    assert_eq!(modded.active_pair(), &noted("ge_12ax7 -1200"));
    assert_eq!((stock.norm_smoother, stock.bright_smoother, stock.tone_smoother), (0.1, 0.2, 0.3));
    assert!(!stock.meter_this_host_sample);
    assert_eq!(stock.plate_samples_counted, 0);
    for amp in [stock, modded] {
        assert_eq!(amp.v1_pair_stock, vec!["ge_12ay7 -1500"]);
        assert_eq!(amp.v1_pair_mod, vec!["ge_12ax7 -1200"]);
        assert_eq!(amp.v2a_tube, vec!["ge_12ax7 1500"]);
        assert_eq!(amp.coupling_v2a, vec!["20000 1000000"]);
        assert_eq!(amp.amp, vec!["sst_108 ge_5y3"]);
        assert_eq!(
            (amp.grid_norm_handle, amp.grid_bright_handle, amp.grid_tone_handle),
            (pot(2), pot(5), pot(7))
        );
    }
}

#[test]
fn sample_runs_through_the_stages() {
    let mut amp = inner(false);
    amp.current_channel_mode = ChannelMode::Both;
    assert_eq!(run_inner(&mut amp, 1.0), -45.0);
    assert_eq!(amp.v1_pair_stock, vec!["ge_12ay7 -1500", "1 1 250"]);
    assert_eq!(amp.v1_pair_mod, vec!["ge_12ax7 -1200"]);
    assert_eq!(amp.grid_circuit.last().unwrap(), "10 20");
    assert_eq!(amp.v2a_tube, vec!["ge_12ax7 1500", "30 250"]);
    assert_eq!(amp.coupling_v2a, vec!["20000 1000000", "-30"]);
    assert_eq!(amp.amp, vec!["sst_108 ge_5y3", "rail", "power -15", "draw 23"]);
    assert_eq!(amp.plate_samples_counted, 0);
    amp.current_channel_mode = ChannelMode::Bright;
    amp.current_tube_toggle = true;
    assert_eq!(run_inner(&mut amp, 1.0), -30.0);
    assert_eq!(amp.v1_pair_mod, vec!["ge_12ax7 -1200", "0 1 250"]);
}

#[test]
fn plates_are_metered_once_per_host_sample() {
    let mut amp = inner(false);
    for _ in 0..2 {
        amp.begin_host_sample(
            |a| a.push("begin".to_owned()),
            |s: &mut f32| {
                *s += 1.0;
                *s
            },
            set_pot,
        );
        for _ in 0..4 {
            run_inner(&mut amp, 0.0);
        }
    }
    assert_eq!(amp.plate_samples_counted, 2);
    // The pair and the tube have seen one sample, then five; the power section
    // is read before its draw.
    assert_eq!((amp.v1_plate_sum, amp.v2_plate_sum, amp.v3v4_plate_sum), (8.0, 8.0, 21.0));
    let means = amp.plate_means(|sum, n| sum / n as f32).unwrap();
    assert_eq!((means.v1, means.v2, means.v3v4), (4.0, 4.0, 10.5));
    assert_eq!(amp.grid_circuit[4..7], ["2=1.1", "5=1.2", "7=1.3"]);
    amp.reset_plate_meters(0.0);
    assert!(amp.plate_means(|sum, n| sum / n as f32).is_none());
    assert_eq!(amp.v1_plate_sum, 0.0);
}

#[test]
fn full_count_stops_no_unmetered_sample() {
    let mut amp = inner(false);
    amp.plate_samples_counted = u32::MAX;
    run_inner(&mut amp, 1.0);
    assert_eq!(amp.plate_samples_counted, u32::MAX);
}

#[test]
fn toggle_swaps_the_networks() {
    let mut amp = inner(false);
    let flip = |amp: &mut Inner, toggle| {
        amp.follow_tube_toggle(
            toggle,
            0.5,
            0.6,
            0.7,
            |c: &mut Log| c.push("reset".to_owned()),
            |s, x| *s = x,
            set_pot,
        )
    };
    assert!(!flip(&mut amp, false));
    assert_eq!(amp.norm_smoother, 0.1);
    assert!(flip(&mut amp, true));
    assert!(amp.current_tube_toggle);
    assert_eq!(amp.grid_circuit, vec!["from 2", "reset", "2=0.5", "5=0.6", "7=0.7"]);
    assert_eq!(amp.grid_spare.circuit[0], "from 1");
    assert_eq!((amp.norm_smoother, amp.bright_smoother, amp.tone_smoother), (0.5, 0.6, 0.7));
    assert!(flip(&mut amp, false));
    assert_eq!(amp.grid_circuit[0], "from 1");
    amp.swap_grid_network(|c| c.clear());
    amp.swap_grid_network(|c| c.clear());
    assert!(amp.grid_circuit.is_empty() && amp.grid_spare.circuit.is_empty());
}

#[test]
fn panel_moves_the_targets() {
    let mut amp = inner(false);
    amp.follow_panel(ChannelMode::Bright, 0.5, 0.6, 0.7, |s, x| *s = x);
    assert_eq!(amp.current_channel_mode, ChannelMode::Bright);
    assert_eq!((amp.norm_smoother, amp.bright_smoother, amp.tone_smoother), (0.5, 0.6, 0.7));
    assert_eq!(amp.grid_circuit.len(), 4);
}

#[test]
fn reset_rests_the_stages() {
    let mut amp = inner(true);
    amp.meter_this_host_sample = true;
    run_inner(&mut amp, 1.0);
    amp.meter_this_host_sample = true;
    amp.reset(0.0, |p| p.clear(), |c| c.clear(), |t| t.clear(), |k| k.clear(), |a| a.clear());
    assert!(amp.v1_pair_stock.is_empty() && amp.v1_pair_mod.is_empty());
    assert!(amp.grid_circuit.is_empty() && amp.v2a_tube.is_empty());
    assert!(amp.coupling_v2a.is_empty() && amp.amp.is_empty());
    assert!(!amp.grid_spare.circuit.is_empty() && amp.current_tube_toggle);
    assert!(!amp.meter_this_host_sample);
    assert_eq!((amp.plate_samples_counted, amp.v1_plate_sum), (0, 0.0));
}

fn engine(sample_rate: f32, factor: OversamplingFactor, inner: Inner) -> Engine {
    Engine { log: noted(&format!("{sample_rate} {factor:?}")), inner }
}

fn times(a: f32, b: f32) -> f32 {
    a * b
}

fn over(a: f32, b: f32) -> f32 {
    a / b
}

fn whole(x: f32) -> usize {
    x as usize
}

/// A panel with the knobs at a tenth, two tenths and three tenths.
fn first_panel(tube_toggle: bool) -> PanelValues<f32> {
    PanelValues {
        power_on: true,
        channel: ChannelMode::Normal,
        tube_toggle,
        normal_wiper: 0.1,
        bright_wiper: 0.2,
        tone: 0.3,
        input_trim_db: -3.0,
        output_trim_db: -6.5,
        cab_mode: CabModellingMode::Dynamic,
        mic_x: MicXPosition::Cone,
        mic_distance_inches: 12.5,
    }
}

fn audio(
    sample_rate: f32,
    block: usize,
    factor: OversamplingFactor,
    panel: PanelValues<f32>,
) -> Audio {
    AudioState::build(
        sample_rate,
        block,
        factor,
        panel,
        MicSelection::Ribbon77,
        RoomSelection::IsoBox,
        0.0,
        1.0,
        BuildOps { pair, tube, cap, amp: power, source_z, grid, solve, set_pot, smoother },
        StateOps {
            place: |_: MicXPosition, inches: f32| inches,
            engine,
            boundary: |pair: &Log, _: BoundaryBuild<f32>| noted(&format!("io for {}", pair[0])),
            dynamic: |_: CabProcessorConfig<f32, f32>| noted("dynamic"),
            ir: |_: &[f32], _: usize, _: usize| noted("ir"),
        },
        RateOps { times, over, whole },
    )
}

#[test]
fn state_starts_as_selected() {
    for (toggle, active) in [(false, "ge_12ay7 -1500"), (true, "ge_12ax7 -1200")] {
        let state: Audio = AudioState::build(
            44_100.0_f32,
            8,
            OversamplingFactor::X2,
            first_panel(toggle),
            MicSelection::Condenser87,
            RoomSelection::NoRoom,
            0.0,
            1.0,
            BuildOps { pair, tube, cap, amp: power, source_z, grid, solve, set_pot, smoother },
            StateOps {
                place: |x: MicXPosition, inches: f32| format!("{x:?} {inches}"),
                engine,
                boundary: |pair: &Log, b: BoundaryBuild<f32>| {
                    vec![
                        pair[0].clone(),
                        format!("{} {}", b.input_trim_db, b.output_trim_db),
                        format!("{} {}", b.jack_series_ohms, b.jack_grid_leak_ohms),
                        format!("{}", b.dc_block_hz),
                    ]
                },
                dynamic: |config: CabProcessorConfig<f32, String>| {
                    vec![
                        format!("{} {}", config.speaker_id, config.cabinet_id),
                        format!("{} {:?}", config.microphone_id, config.room_id),
                        format!("{} {}", config.sample_rate, config.max_buffer_size),
                        config.placement,
                    ]
                },
                ir: |ir: &[f32], block: usize, fir_len: usize| {
                    noted(&format!("{ir:?} {block} {fir_len}"))
                },
            },
            RateOps { times, over, whole },
        );
        assert_eq!(
            state.cab_dynamic,
            vec!["p12r tweed_5e3_open_back_1x12", "condenser_87 None", "44100 8", "Cone 12.5"]
        );
        assert_eq!(state.cab_ir, vec!["[1.0] 8 1"]);
        assert_eq!(state.amp_io, vec![active, "-3 -6.5", "68000 1000000", "10"]);
        assert_eq!(state.engine.log, vec!["44100 X2"]);
        let amp = state.engine.inner;
        assert_eq!(amp.current_tube_toggle, toggle);
        assert_eq!(amp.current_channel_mode, ChannelMode::Normal);
        assert_eq!(amp.grid_circuit[1..], ["2=0.1", "5=0.2", "7=0.3"]);
        assert_eq!(state.os_factor, OversamplingFactor::X2);
    }
}

#[test]
fn audio_state_is_silent_at_first() {
    let state = audio(44_100.0, 8, OversamplingFactor::X4, first_panel(false));
    assert_eq!(state.amp_io, vec!["io for ge_12ay7 -1500"]);
    assert_eq!(state.pre_cab_buffer, vec![0.0; 8]);
    assert_eq!(state.post_cab_left, vec![0.0; 8]);
    assert_eq!(state.post_cab_right, vec![0.0; 8]);
    assert_eq!((state.ir_crossfade_samples, state.meter_window_len), (1_323, 4_410));
    assert_eq!((state.meter_window_samples, state.meter_output_peak.bits), (0, 0));
    for (sample_rate, crossfade, window) in [
        (0.0, 0, 1),
        (9.0, 0, 1),
        (20.0, 0, 2),
        (33.0, 0, 3),
        (33.5, 1, 3),
        (44_099.9, 1_322, 4_409),
        (29_866.666, 896, 2_986),
    ] {
        let state = audio(sample_rate, 1, OversamplingFactor::X1, first_panel(false));
        assert_eq!((state.ir_crossfade_samples, state.meter_window_len), (crossfade, window));
    }
}

#[test]
fn samples_are_counted_in_the_rates_arithmetic() {
    let ops = RateOps {
        times: |a: f32, b: f32| a * b,
        over: |a: f32, b: f32| a / b,
        whole: |x: f32| x as usize,
    };
    for sample_rate in [29_866.666_f32, 44_099.9, 44_100.0, 47_999.996, 96_000.0, 12_345.678] {
        for ms in [30_u16, 100] {
            let expected = (f32::from(ms) * sample_rate / 1000.0) as usize;
            assert_eq!(samples_in(ms, sample_rate, &ops), expected);
        }
    }
}

fn plugin_at(sample_rate: f32, block: usize, factor: OversamplingFactor) -> Plugin {
    let mut plugin = Plugin::default();
    plugin.initialize_audio_state(sample_rate, block, factor, first_panel(false), audio);
    plugin
}

#[test]
fn plugin_default_constructs_without_panic() {
    let plugin = Plugin::default();
    assert!(plugin.audio_state.is_none());
    assert_eq!(plugin.cached_input_trim_db, 0.0);
    assert_eq!(plugin.cached_mic_x_position, MicXPosition::CapEdge);
    assert_eq!(plugin.cached_mic_distance_inches, 3.0);
    assert!(!plugin.output_latched);
    assert_eq!(plugin.os_ratio, 0);
}

#[test]
fn plugin_default_is_repeatable() {
    for _ in 0..3 {
        let _plugin = Plugin::default();
    }
}

#[test]
fn audio_state_builds_at_common_sample_rates() {
    for sr in SAMPLE_RATES {
        let plugin = plugin_at(sr, 512, OversamplingFactor::X4);
        let state = plugin.audio_state.unwrap();
        assert_eq!(state.ir_block_size, 512);
        assert_eq!(state.meter_window_len, (100.0 * sr / 1000.0) as usize);
        assert_eq!(state.ir_crossfade_samples, (30.0 * sr / 1000.0) as usize);
        assert_eq!(plugin.os_ratio, 4);
    }
}

#[test]
fn audio_state_rebuild_is_idempotent() {
    let mut plugin = Plugin::default();
    for (sr, block, factor) in [
        (48_000.0, 512, OversamplingFactor::X4),
        (96_000.0, 1024, OversamplingFactor::X2),
        (44_100.0, 256, OversamplingFactor::X8),
    ] {
        plugin.initialize_audio_state(sr, block, factor, first_panel(false), audio);
        let state = plugin.audio_state.as_ref().unwrap();
        assert_eq!((state.ir_block_size, state.os_factor), (block, factor));
        assert_eq!(state.pre_cab_buffer.len(), block);
        assert_eq!(plugin.os_ratio, factor.ratio());
    }
}

#[test]
fn fresh_plugin_matches_the_parameters() {
    let plugin = Plugin::default();
    let params = TheTweedParams::default();
    assert_eq!(plugin.cached_mic_x_position, params.mic_x_position.default);
    assert_eq!(
        plugin.cached_mic_distance_inches,
        params.mic_distance_inches.default_milli as f32 / 1000.0
    );
    assert_eq!(
        plugin.cached_input_trim_db,
        params.input_trim_db.default_milli as f32 / 1000.0
    );
}

#[test]
fn plugin_starts_with_what_was_persisted() {
    const LOADED: &str = "/x.wav at 96000, centred, levelled, 64 / 64";
    for (path, exists, loads, status, pending) in [
        (None, true, true, ir_load_status::NO_IR, None),
        (Some(""), true, true, ir_load_status::NO_IR, None),
        (Some("/x.wav"), false, true, ir_load_status::FAILED, None),
        (Some("/x.wav"), true, false, ir_load_status::FAILED, None),
        (Some("/x.wav"), true, true, ir_load_status::LOADED, Some(LOADED)),
    ] {
        let mut plugin = Plugin::default();
        let mut ir: IrLoadState<f32, String> = IrLoadState::new();
        ir.finish_load(Some("stale".to_owned()));
        let mut cab: CabProcessorLoadState<Log> = CabProcessorLoadState::new();
        cab.offer(noted("stale"));
        plugin.initialize(
            &mut ir,
            &mut cab,
            Some("X8"),
            path,
            96_000.0,
            64,
            PanelValues { input_trim_db: 2.5, ..first_panel(true) },
            audio,
            |_| exists,
            IrOps {
                read: |path: &str, rate: f32| {
                    if loads {
                        Some(format!("{path} at {rate}"))
                    } else {
                        None
                    }
                },
                center: |r: &mut String| r.push_str(", centred"),
                level: |r: &mut String| r.push_str(", levelled"),
                convolve: |r: &String, block: usize, fir: usize| format!("{r}, {block} / {fir}"),
            },
        );
        assert_eq!(ir.status, status);
        assert_eq!(ir.pending.as_deref(), pending);
        assert_eq!((ir.sample_rate, ir.block_size), (96_000.0, 64));
        assert!(cab.pending.is_none());
        assert_eq!((plugin.os_ratio, plugin.cached_input_trim_db), (8, 2.5));
        let state = plugin.audio_state.unwrap();
        assert_eq!((state.os_factor, state.ir_block_size), (OversamplingFactor::X8, 64));
        assert_eq!(state.meter_window_len, 9_600);
        assert_eq!(state.amp_io, vec!["io for ge_12ax7 -1200"]);
    }
}

#[test]
fn output_goes_where_the_host_can_take_it() {
    assert_eq!(OutputRoute::of(false, 2), OutputRoute::Silence);
    assert_eq!(OutputRoute::of(true, 2), OutputRoute::Stereo);
    assert_eq!(OutputRoute::of(true, 3), OutputRoute::Stereo);
    assert_eq!(OutputRoute::of(true, 1), OutputRoute::LeftOnly);
}

#[test]
fn blocks_are_silenced_and_copied() {
    let mut buf = [1, 2, 3, 4];
    silence(&mut buf, 1, 3, 0);
    assert_eq!(buf, [1, 0, 0, 4]);
    silence(&mut buf, 2, 2, 9);
    assert_eq!(buf, [1, 0, 0, 4]);
    copy_block(&mut buf, &[7, 8, 9], 2);
    assert_eq!(buf, [7, 8, 0, 4]);
    let (mut a, mut b) = ([1, 2, 3], [4, 5]);
    silence_channels(&mut [&mut a[..], &mut b[..]], 2, 0);
    assert_eq!((a, b), ([0, 0, 3], [0, 0]));
}

fn panel(power_on: bool, cab_mode: CabModellingMode) -> PanelValues<f32> {
    PanelValues {
        power_on,
        channel: ChannelMode::Normal,
        tube_toggle: false,
        normal_wiper: 0.25,
        bright_wiper: 0.5,
        tone: 0.75,
        input_trim_db: -3.0,
        output_trim_db: -6.0,
        cab_mode,
        mic_x: MicXPosition::CapEdge,
        mic_distance_inches: 3.0,
    }
}

/// Runs a buffer of a host with no more than two channels.
fn run(
    plugin: &mut Plugin,
    panel: PanelValues<f32>,
    loaded_ir: Option<&str>,
    rebuilt_cab: Option<Log>,
    channels: usize,
    left: &mut [f32],
    right: &mut [f32],
    run_length: u32,
) -> Option<(f32, Option<(f32, Option<f32>)>, f32)> {
    run_all(plugin, panel, loaded_ir, rebuilt_cab, channels, left, right, &mut [], run_length)
}

/// Runs a buffer: the amplifier doubles and picks up 100 volts at a plate, the
/// arm adds one to the left side and takes one off the right, the exit boundary
/// halves.
fn run_all(
    plugin: &mut Plugin,
    panel: PanelValues<f32>,
    loaded_ir: Option<&str>,
    rebuilt_cab: Option<Log>,
    channels: usize,
    left: &mut [f32],
    right: &mut [f32],
    others: &mut [&mut [f32]],
    run_length: u32,
) -> Option<(f32, Option<(f32, Option<f32>)>, f32)> {
    let n = left.len();
    let readings = plugin.process(
        panel,
        loaded_ir,
        rebuilt_cab,
        channels,
        left,
        right,
        others,
        n,
        0.0,
        ControlOps {
            queue: |b: &mut Log, conv: &str, fade: usize| b.push(format!("{conv} in {fade}")),
            trim_moved: |a: f32, b: f32| (a - b).abs() > 0.01,
            trim: |io: &mut Log, db: f32| io.push(format!("trim {db}")),
            far: |a: f32, b: f32| (a - b).abs() > 0.001,
            place: |b: &mut Log, x: MicXPosition, inches: f32| {
                b.push(format!("place {x:?} {inches}"))
            },
            inner_mut,
            inner: inner_ref,
            reset: |c: &mut Log| c.push("reset".to_owned()),
            set_target: |s: &mut f32, x: f32| *s = x,
            set_pot,
            ceiling: |io: &mut Log, pair: &Log| io.push(format!("ceiling of {}", pair[0])),
            begin: |e: &mut Engine, n: usize| {
                e.log.push(format!("begin {n}, tone {}", e.inner.tone_smoother))
            },
            output: |io: &mut Log, db: f32| io.push(format!("out {db}")),
        },
        BufferOps {
            enter: |io: &mut Log, x: f32| {
                io.push(format!("in {x}"));
                x
            },
            run: |e: &mut Engine, x: f32| {
                e.inner.plate_samples_counted += 1;
                e.inner.v1_plate_sum += 100.0;
                2.0 * x
            },
            route: |b: &mut Log, x: f32| {
                b.push("route".to_owned());
                x
            },
            end: |e: &mut Engine| e.log.push("end".to_owned()),
            block: |b: &mut Log, pre: &[f32], l: &mut [f32], r: &mut [f32]| {
                b.push(format!("block {}", pre.len()));
                for i in 0..pre.len() {
                    l[i] = pre[i] + 1.0;
                    r[i] = pre[i] - 1.0;
                }
            },
            exit: |io: &mut Log, l: &mut [f32], r: &mut [f32]| {
                io.push(format!("exit {} {}", l.len(), r.len()));
                let mut peak = 0.0_f32;
                for x in l.iter_mut().chain(r.iter_mut()) {
                    *x *= 0.5;
                    peak = peak.max(x.abs());
                }
                peak.to_bits()
            },
        },
        MeterOps {
            run: |_: &Log| run_length,
            clear: |io: &mut Log| io.push("clear".to_owned()),
            peak: |io: &mut Log| {
                io.push("metrics".to_owned());
                0.125
            },
            inner_mut,
            inner: inner_ref,
            rail: |amp: &Log| 329.0 + amp.len() as f32,
            mean: |sum: f32, n: u32| sum / n as f32,
            decibels: |bits: u32| 20.0 * f32::from_bits(bits).log10(),
        },
    )?;
    Some((
        readings.peak_volts,
        readings.power.map(|p| (p.bplus_volts, p.plates.map(|v| v.v1))),
        readings.output_db,
    ))
}

#[test]
fn buffer_runs_through_the_dynamic_arm() {
    let mut plugin = plugin_at(48_000.0, 4, OversamplingFactor::X4);
    let (mut left, mut right) = ([1.0, 2.0, 3.0], [9.0, 9.0, 9.0]);
    let panel = panel(true, CabModellingMode::Dynamic);
    let readings = run(&mut plugin, panel, None, None, 2, &mut left, &mut right, 0);
    assert!(readings.is_none());
    assert_eq!(left, [1.5, 2.5, 3.5]);
    assert_eq!(right, [0.5, 1.5, 2.5]);
    let state = plugin.audio_state.unwrap();
    assert_eq!(state.cab_dynamic, vec!["dynamic", "route", "route", "route", "block 3"]);
    assert_eq!(state.cab_ir, vec!["ir"]);
    assert_eq!(state.engine.log, vec!["48000 X4", "begin 3, tone 0.75", "end"]);
    let amp = state.engine.inner;
    assert_eq!((amp.norm_smoother, amp.bright_smoother, amp.tone_smoother), (0.25, 0.5, 0.75));
    // The tube stayed, so the wipers glide to where the knobs are.
    assert_eq!(amp.grid_circuit.len(), 4);
    assert_eq!(
        state.amp_io,
        vec!["io for ge_12ay7 -1500", "out -6", "in 1", "in 2", "in 3", "exit 3 3"]
    );
    assert_eq!(state.meter_window_samples, 3);
    assert_eq!(state.meter_output_peak.bits, 3.5_f32.to_bits());
    assert!(!plugin.output_latched);
}

#[test]
fn short_buffer_is_padded_for_the_convolver() {
    let mut plugin = plugin_at(48_000.0, 4, OversamplingFactor::X4);
    if let Some(state) = plugin.audio_state.as_mut() {
        state.pre_cab_buffer = vec![5.0; 4];
    }
    let (mut left, mut right) = ([1.0, 2.0], [9.0, 9.0]);
    let panel = panel(true, CabModellingMode::Ir);
    run(&mut plugin, panel, Some("conv"), None, 2, &mut left, &mut right, 0);
    let state = plugin.audio_state.unwrap();
    assert_eq!(state.pre_cab_buffer, vec![2.0, 4.0, 0.0, 0.0]);
    assert_eq!(state.post_cab_left, vec![3.0, 5.0, 1.0, 1.0]);
    assert_eq!(state.cab_ir, vec!["ir", "conv in 1440", "route", "route", "block 4"]);
    assert_eq!(state.cab_dynamic, vec!["dynamic"]);
    assert_eq!((left, right), ([1.5, 2.5], [0.5, 1.5]));
}

#[test]
fn host_with_one_channel_gets_the_left_side() {
    let mut plugin = plugin_at(48_000.0, 4, OversamplingFactor::X4);
    let mut left = [1.0, 2.0];
    let panel = panel(true, CabModellingMode::Dynamic);
    run(&mut plugin, panel, None, None, 1, &mut left, &mut [], 0);
    assert_eq!(left, [1.5, 2.5]);
    let state = plugin.audio_state.unwrap();
    assert_eq!(state.post_cab_right[..2], [0.5, 1.5]);
    assert_eq!(state.amp_io.last().unwrap(), "exit 2 2");
}

#[test]
fn plugin_that_is_off_lets_nothing_through() {
    for channels in [0, 1, 2] {
        let mut plugin = plugin_at(48_000.0, 4, OversamplingFactor::X4);
        let (mut left, mut right) = ([1.0, 2.0], [3.0, 4.0]);
        let panel = panel(false, CabModellingMode::Dynamic);
        run(&mut plugin, panel, None, None, channels, &mut left, &mut right, 0);
        assert_eq!(left, if channels >= 1 { [0.0, 0.0] } else { [1.0, 2.0] });
        assert_eq!(right, if channels == 2 { [0.0, 0.0] } else { [3.0, 4.0] });
        let state = plugin.audio_state.unwrap();
        assert_eq!(state.amp_io, vec!["io for ge_12ay7 -1500", "out -6"]);
        assert_eq!(state.cab_dynamic, vec!["dynamic", "block 2"]);
        assert_eq!(state.engine.log.last().unwrap(), "end");
        assert_eq!(state.meter_output_peak.bits, 0);
    }
}

#[test]
fn channels_beyond_the_second_are_silent_when_off() {
    for power_on in [false, true] {
        let mut plugin = plugin_at(48_000.0, 4, OversamplingFactor::X4);
        let (mut left, mut right) = ([1.0, 2.0], [3.0, 4.0]);
        let (mut third, mut fourth) = ([5.0, 6.0], [7.0, 8.0, 9.0]);
        run_all(
            &mut plugin,
            panel(power_on, CabModellingMode::Dynamic),
            None,
            None,
            4,
            &mut left,
            &mut right,
            &mut [&mut third[..], &mut fourth[..]],
            0,
        );
        if power_on {
            assert_eq!((left, right), ([1.5, 2.5], [0.5, 1.5]));
            assert_eq!((third, fourth), ([5.0, 6.0], [7.0, 8.0, 9.0]));
        } else {
            assert_eq!((left, right), ([0.0, 0.0], [0.0, 0.0]));
            assert_eq!((third, fourth), ([0.0, 0.0], [0.0, 0.0, 9.0]));
        }
    }
}

#[test]
fn controls_are_put_in_place_when_they_move() {
    let mut plugin = plugin_at(48_000.0, 4, OversamplingFactor::X4);
    let mut moved = panel(false, CabModellingMode::Dynamic);
    moved.input_trim_db = 6.0;
    moved.mic_x = MicXPosition::Cone;
    moved.mic_distance_inches = 12.0;
    moved.channel = ChannelMode::Bright;
    moved.tube_toggle = true;
    for _ in 0..2 {
        run(
            &mut plugin,
            moved,
            None,
            Some(noted("rebuilt")),
            1,
            &mut [0.0],
            &mut [],
            0,
        );
    }
    assert_eq!(plugin.cached_input_trim_db, 6.0);
    assert_eq!(plugin.cached_mic_x_position, MicXPosition::Cone);
    assert_eq!(plugin.cached_mic_distance_inches, 12.0);
    let state = plugin.audio_state.as_ref().unwrap();
    assert_eq!(
        state.amp_io,
        vec![
            "io for ge_12ay7 -1500",
            "trim 6",
            "ceiling of ge_12ax7 -1200",
            "out -6",
            "out -6"
        ]
    );
    let amp = &state.engine.inner;
    assert!(amp.current_tube_toggle);
    assert_eq!(amp.current_channel_mode, ChannelMode::Bright);
    // The network that came in starts from rest, with its wipers in place.
    assert_eq!(amp.grid_circuit, vec!["from 2", "reset", "2=0.25", "5=0.5", "7=0.75"]);
    assert_eq!(amp.grid_spare.circuit, vec!["from 1", "2=0.1", "5=0.2", "7=0.3"]);
    // The second arm came in after the microphone had been placed.
    assert_eq!(state.cab_dynamic, vec!["rebuilt", "block 1"]);

    moved.mic_distance_inches = 12.0005;
    run(&mut plugin, moved, None, None, 1, &mut [0.0], &mut [], 0);
    assert_eq!(plugin.cached_mic_distance_inches, 12.0);
    moved.mic_x = MicXPosition::Cap;
    run(&mut plugin, moved, None, Some(noted("third")), 1, &mut [0.0], &mut [], 0);
    let state = plugin.audio_state.as_ref().unwrap();
    assert_eq!(state.cab_dynamic, vec!["third", "place Cap 12.0005", "block 1"]);
}

#[test]
fn latched_amplifier_stays_shown() {
    let mut plugin = plugin_at(48_000.0, 4, OversamplingFactor::X4);
    let panel = panel(true, CabModellingMode::Dynamic);
    run(&mut plugin, panel, None, None, 1, &mut [0.0], &mut [], 512);
    assert!(!plugin.output_latched);
    run(&mut plugin, panel, None, None, 1, &mut [0.0], &mut [], 513);
    assert!(plugin.output_latched);
    assert_eq!(plugin.audio_state.as_ref().unwrap().amp_io.last().unwrap(), "clear");
    run(&mut plugin, panel, None, None, 1, &mut [0.0], &mut [], 0);
    assert!(plugin.output_latched);
}

#[test]
fn meters_are_published_when_their_window_closes() {
    let mut plugin = plugin_at(30.0, 4, OversamplingFactor::X4);
    assert_eq!(plugin.audio_state.as_ref().unwrap().meter_window_len, 3);
    let on = panel(true, CabModellingMode::Dynamic);
    assert!(run(&mut plugin, on, None, None, 1, &mut [9.5, 0.0], &mut [], 0).is_none());
    let (peak, power, db) =
        run(&mut plugin, on, None, None, 1, &mut [0.0], &mut [], 0).unwrap();
    assert_eq!((peak, power, db), (0.125, Some((330.0, Some(100.0))), 20.0));
    let state = plugin.audio_state.as_ref().unwrap();
    assert_eq!((state.meter_window_samples, state.meter_output_peak.bits), (0, 0));
    assert_eq!(state.engine.inner.plate_samples_counted, 0);
    assert_eq!(state.engine.inner.v1_plate_sum, 0.0);
    assert_eq!(state.amp_io.last().unwrap(), "metrics");

    let off = panel(false, CabModellingMode::Dynamic);
    let (peak, power, db) =
        run(&mut plugin, off, None, None, 1, &mut [0.0; 4], &mut [], 0).unwrap();
    assert_eq!((peak, power, db), (0.125, None, -120.0));
}

#[test]
fn output_meter_reads_silence() {
    let decibels = |bits: u32| 20.0 * f32::from_bits(bits).log10();
    for (peak, reading) in
        [(0.0_f32, -120.0_f32), (1e-11, -120.0), (1e-10, -120.0), (1.0, 0.0), (10.0, 20.0)]
    {
        let peak = Magnitude::from_bits(peak.to_bits()).unwrap();
        assert_eq!(output_reading(peak, decibels), reading);
    }
    let above = f32::from_bits(1e-10_f32.to_bits() + 1);
    let reading: f32 =
        output_reading(Magnitude::from_bits(above.to_bits()).unwrap(), decibels);
    assert!((reading + 200.0).abs() < 0.01);
}

#[test]
fn readings_hold_their_peak() {
    let one = Magnitude::zero().raised_to(1.0_f32.to_bits());
    assert_eq!(one.bits, 1.0_f32.to_bits());
    assert_eq!(one.raised_to(0.5_f32.to_bits()), one);
    assert_eq!(one.raised_to(2.0_f32.to_bits()).bits, 2.0_f32.to_bits());
    assert_eq!(one.raised_to((-2.0_f32).to_bits()), one);
    assert_eq!(one.raised_to(f32::NAN.to_bits()), one);
    assert_eq!(Magnitude::from_bits((-1.0_f32).to_bits()), None);
    assert!(Magnitude::zero().below(one) && !one.below(one));
}

#[test]
fn plugin_rests_on_reset() {
    let mut plugin = Plugin::default();
    plugin.reset(0.0, |e| e.log.clear(), |b| b.clear(), |io| io.clear());
    assert!(plugin.audio_state.is_none());
    let mut plugin = plugin_at(48_000.0, 2, OversamplingFactor::X4);
    let panel = panel(true, CabModellingMode::Ir);
    run(&mut plugin, panel, None, None, 1, &mut [1.0, 1.0], &mut [], 0);
    plugin.reset(0.0, |e| e.log.clear(), |b| b.clear(), |io| io.clear());
    assert_eq!(plugin.cached_input_trim_db, -3.0);
    let state = plugin.audio_state.unwrap();
    assert!(state.engine.log.is_empty() && state.cab_ir.is_empty());
    assert!(state.cab_dynamic.is_empty() && state.amp_io.is_empty());
    assert_eq!(state.pre_cab_buffer, vec![0.0; 2]);
    assert_eq!(state.post_cab_left, vec![0.0; 2]);
    assert_eq!(state.post_cab_right, vec![0.0; 2]);
    assert_eq!((state.meter_window_samples, state.meter_output_peak.bits), (0, 0));
}
