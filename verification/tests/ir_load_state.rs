//! The life of an impulse response: none, loading, loaded or failed.

use the_tweed::ir_load::{remember_ir_path, status_strip, StripColor};
use the_tweed::{
    finish_ir_load, ir_load_status, load_convolver, load_ir_file_into_state, IrLoadState, IrOps,
    IrRequest, TheTweed,
};

type State = IrLoadState<f32, Vec<f32>>;

/// A response of a few taps for every file that exists.
fn read(path: &std::path::Path, _rate: f32) -> Option<Vec<f32>> {
    if path.exists() {
        Some(vec![3.0, 1.0])
    } else {
        None
    }
}

fn center(ir: &mut Vec<f32>) {
    let mean = ir.iter().sum::<f32>() / ir.len() as f32;
    ir.iter_mut().for_each(|x| *x -= mean);
}

fn level(ir: &mut Vec<f32>) {
    let peak = ir.iter().fold(0.0_f32, |p, x| p.max(x.abs()));
    ir.iter_mut().for_each(|x| *x /= peak);
}

fn convolve(ir: &Vec<f32>, block: usize, fir_len: usize) -> Vec<f32> {
    let mut conv = ir.clone();
    conv.push(block as f32);
    conv.push(fir_len as f32);
    conv
}

#[test]
fn default_state_is_no_ir() {
    let state = State::default();
    assert_eq!(state.status, ir_load_status::NO_IR);
    assert!(state.pending.is_none());
}

#[test]
fn missing_file_transitions_to_failed() {
    let mut state = State::default();
    state.set_audio_format(48_000.0, 512);
    load_ir_file_into_state(
        &mut state,
        std::path::Path::new("/nonexistent/path-that-cannot-exist.wav"),
        IrOps { read, center, level, convolve },
    );
    assert_eq!(state.status, ir_load_status::FAILED);
    assert!(
        state.pending.is_none(),
        "FAILED load must not leave a stale pending convolver"
    );
}

#[test]
fn set_audio_format_round_trips() {
    let mut state = State::default();
    state.set_audio_format(96_000.0, 1024);
    assert_eq!(state.sample_rate, 96_000.0);
    assert_eq!(state.block_size, 1024);
}

#[test]
fn fresh_state_assumes_a_format() {
    let state = State::new();
    assert_eq!(state.sample_rate, 48_000.0);
    assert_eq!(state.block_size, 512);
}

#[test]
fn loaded_file_is_on_offer_once() {
    let mut state = State::default();
    state.set_audio_format(44_100.0, 64);
    load_ir_file_into_state(&mut state, "/cab.wav", IrOps {
        read: |path: &str, rate: f32| {
            assert_eq!((path, rate), ("/cab.wav", 44_100.0));
            Some(vec![3.0, 1.0])
        },
        center,
        level,
        convolve,
    });
    assert_eq!(state.status, ir_load_status::LOADED);
    // Centred, then levelled: the other way round the peak would be a third.
    assert_eq!(state.take_pending(), Some(vec![1.0, -1.0, 64.0, 64.0]));
    assert_eq!(state.take_pending(), None);
    assert_eq!(state.status, ir_load_status::LOADED);
}

#[test]
fn convolver_is_built_in_order() {
    let request = IrRequest { sample_rate: 48_000.0_f32, block_size: 256, fir_len: 128 };
    let conv = load_convolver(request, 7_u8, IrOps {
        read: |path: u8, rate: f32| Some(format!("{path}@{rate}")),
        center: |r: &mut String| r.push_str(" centre"),
        level: |r: &mut String| r.push_str(" level"),
        convolve: |r: &String, block: usize, fir: usize| format!("{r} {block} {fir}"),
    });
    assert_eq!(conv.as_deref(), Some("7@48000 centre level 256 128"));
}

#[test]
fn direct_section_is_capped() {
    let mut state = State::default();
    state.set_audio_format(48_000.0, 1024);
    assert_eq!(state.begin_load().fir_len, 128);
    assert_eq!(state.status, ir_load_status::LOADING);
    state.set_audio_format(48_000.0, 128);
    assert_eq!(state.begin_load().fir_len, 128);
    state.set_audio_format(48_000.0, 127);
    assert_eq!(state.begin_load().fir_len, 127);
}

#[test]
fn failed_load_takes_the_offer_back() {
    let mut state = State::default();
    state.finish_load(Some(vec![2.0]));
    state.finish_load(None);
    assert_eq!(state.status, ir_load_status::FAILED);
    assert_eq!(state.pending, None);
}

#[test]
fn restart_forgets_the_file() {
    let mut state = State::default();
    state.finish_load(Some(vec![2.0]));
    state.restart(88_200.0, 256);
    assert_eq!(state.status, ir_load_status::NO_IR);
    assert_eq!((state.sample_rate, state.block_size), (88_200.0, 256));
    assert!(state.pending.is_none());
}

#[test]
fn only_a_loaded_path_is_persisted() {
    let mut state = State::default();
    let mut persisted = String::from("/old.wav");
    TheTweed::<f32, ()>::load_ir_from_file(
        &mut state,
        &mut persisted,
        std::path::Path::new("/nonexistent/broken.wav"),
        String::from("/broken.wav"),
        IrOps { read, center, level, convolve },
    );
    assert_eq!(persisted, "/old.wav");
    assert_eq!(state.status, ir_load_status::FAILED);
    TheTweed::<f32, ()>::load_ir_from_file(
        &mut state,
        &mut persisted,
        std::path::Path::new("/"),
        String::from("/new.wav"),
        IrOps { read, center, level, convolve },
    );
    assert_eq!(persisted, "/new.wav");
    assert_eq!(state.status, ir_load_status::LOADED);

    for status in [ir_load_status::LOADING, ir_load_status::FAILED, ir_load_status::NO_IR] {
        remember_ir_path(status, &mut persisted, String::from("/other.wav"));
        assert_eq!(persisted, "/new.wav");
    }
}

#[test]
fn status_strip_reads_the_status() {
    assert_eq!(status_strip(ir_load_status::LOADING), (StripColor::Gray, "Loading..."));
    assert_eq!(status_strip(ir_load_status::LOADED), (StripColor::Green, "Loaded"));
    assert_eq!(status_strip(ir_load_status::FAILED), (StripColor::Red, "Failed"));
    assert_eq!(status_strip(ir_load_status::NO_IR), (StripColor::Gray, "No IR Loaded"));
    assert_eq!(status_strip(200), (StripColor::Gray, "No IR Loaded"));
}

#[test]
fn finished_load_persists_the_path_of_a_file_that_loaded() {
    let mut state = State::default();
    let mut persisted = String::from("/old.wav");
    state.begin_load();
    finish_ir_load(&mut state, None, &mut persisted, String::from("/broken.wav"));
    assert_eq!((state.status, persisted.as_str()), (ir_load_status::FAILED, "/old.wav"));
    state.begin_load();
    finish_ir_load(&mut state, Some(vec![2.0]), &mut persisted, String::from("/new.wav"));
    assert_eq!((state.status, persisted.as_str()), (ir_load_status::LOADED, "/new.wav"));
    assert_eq!(state.pending, Some(vec![2.0]));
}
