//! The plug-in: what it remembers from one buffer to the next, and how it
//! starts.

use crate::cab::CabProcessorLoadState;
use crate::ir_load::{
    finish_ir_load, load_convolver, load_ir_file_into_state, IrLoadState, IrOps,
};
use crate::ir_load_status;
use crate::magnitude::Magnitude;
use crate::oversampling::{selected_os_factor, OversamplingFactor};
use crate::process::PanelValues;
use crate::selection::MicXPosition;
use vstd::prelude::*;

#[allow(unused_imports)]
use crate::magnitude::{one, reading_of};
#[allow(unused_imports)]
use crate::oversampling::{running_factor, stored_factor};
#[allow(unused_imports)]
use crate::params::TheTweedParams;
#[allow(unused_imports)]
use crate::stage::runs;
#[allow(unused_imports)]
use vstd::arithmetic::power2::{lemma2_to64_rest, lemma_pow2_adds, pow2};

verus! {

/// A run of samples that are no numbers which is longer than this means that
/// the amplifier has latched up and is silent until it is rebuilt.
pub const LATCHED_SAMPLES: u32 = 512;

/// The output meter reads silence up to this peak: the bit pattern of the
/// single-precision number next to 1e-10.
pub const SILENT_PEAK_BITS: u32 = 0x2EDB_E6FF;

/// What the output meter reads for silence, in decibels.
pub const SILENT_OUTPUT_DB: i8 = -120;

/// The trim that is in place before the plug-in is initialised, in decibels.
pub const INITIAL_TRIM_DB: i8 = 0;

/// The microphone distance that the first buffer is compared with, in inches.
pub const INITIAL_MIC_DISTANCE_INCHES: i8 = 3;

/// What the plug-in remembers from one buffer to the next. `F` is the type of
/// a number and `S` of the audio state, which is missing until the host has
/// named its sample rate.
pub struct TheTweed<F, S> {
    pub audio_state: Option<S>,
    pub cached_input_trim_db: F,
    pub cached_mic_x_position: MicXPosition,
    pub cached_mic_distance_inches: F,
    pub output_latched: bool,
    pub os_ratio: u8,
}

impl<F: Copy + From<i8>, S> TheTweed<F, S> {
    /// The plug-in before the host has named its format. The trim and the
    /// placement that it remembers are those of the parameters' defaults, so
    /// that the first buffer finds neither of them moved.
    pub open spec fn is_fresh(self) -> bool {
        &&& self.audio_state is None
        &&& call_ensures(F::from, (INITIAL_TRIM_DB,), self.cached_input_trim_db)
        &&& self.cached_mic_x_position == MicXPosition::CapEdge
        &&& call_ensures(
            F::from,
            (INITIAL_MIC_DISTANCE_INCHES,),
            self.cached_mic_distance_inches,
        )
        &&& !self.output_latched
        &&& self.os_ratio == 0
    }
}

impl<F: Copy + From<i8>, S> Default for TheTweed<F, S> {
    fn default() -> (plugin: Self)
        ensures
            plugin.is_fresh(),
    {
        TheTweed {
            audio_state: None,
            cached_input_trim_db: F::from(INITIAL_TRIM_DB),
            cached_mic_x_position: MicXPosition::CapEdge,
            cached_mic_distance_inches: F::from(INITIAL_MIC_DISTANCE_INCHES),
            output_latched: false,
            os_ratio: 0,
        }
    }
}

impl<F: Copy, S> TheTweed<F, S> {
    /// The plug-in with an audio state that was built for a factor and a trim.
    pub open spec fn with_audio(
        self,
        audio: Option<S>,
        os_factor: OversamplingFactor,
        input_trim_db: F,
    ) -> Self {
        TheTweed {
            audio_state: audio,
            cached_input_trim_db: input_trim_db,
            os_ratio: os_factor.inner_samples(),
            ..self
        }
    }

    /// Builds the audio state for the host's format, an oversampling factor and
    /// a front panel, in place of any that was there, and publishes the ratio
    /// it runs at. The trim it was built with is the one in place.
    pub fn initialize_audio_state<
        Build: FnOnce(F, usize, OversamplingFactor, PanelValues<F>) -> S,
    >(
        &mut self,
        sample_rate: F,
        max_buffer_size: usize,
        os_factor: OversamplingFactor,
        panel: PanelValues<F>,
        build: Build,
    )
        requires
            call_requires(build, (sample_rate, max_buffer_size, os_factor, panel)),
        ensures
            final(self).audio_state matches Some(audio) && call_ensures(
                build,
                (sample_rate, max_buffer_size, os_factor, panel),
                audio,
            ),
            *final(self) == old(self).with_audio(
                final(self).audio_state,
                os_factor,
                panel.input_trim_db,
            ),
    {
        self.cached_input_trim_db = panel.input_trim_db;
        let audio = build(sample_rate, max_buffer_size, os_factor, panel);
        self.os_ratio = os_factor.ratio();
        self.audio_state = Some(audio);
    }

    /// Starts the plug-in at the host's format: the audio state is built with
    /// the persisted oversampling factor, both slots are emptied, and the
    /// persisted impulse response is loaded, if there is one. A persisted
    /// string that could not be read is `None`.
    pub fn initialize<R, C, B, Build, Exists, Read, Center, Level, Convolve>(
        &mut self,
        ir: &mut IrLoadState<F, C>,
        cab: &mut CabProcessorLoadState<B>,
        persisted_factor: Option<&str>,
        persisted_path: Option<&str>,
        sample_rate: F,
        max_buffer_size: usize,
        panel: PanelValues<F>,
        build: Build,
        exists_file: Exists,
        ops: IrOps<Read, Center, Level, Convolve>,
    ) where
        Build: FnOnce(F, usize, OversamplingFactor, PanelValues<F>) -> S,
        Exists: FnOnce(&str) -> bool,
        Read: FnOnce(&str, F) -> Option<R>,
        Center: FnOnce(&mut R),
        Level: FnOnce(&mut R),
        Convolve: FnOnce(&R, usize, usize) -> C,

        requires
            forall|factor: OversamplingFactor| #[trigger]
                call_requires(build, (sample_rate, max_buffer_size, factor, panel)),
            forall|path: &str| #[trigger] call_requires(exists_file, (path,)),
            forall|path: &str, rate: F| #[trigger] call_requires(ops.read, (path, rate)),
            runs(ops.center),
            runs(ops.level),
            forall|r: &R, block_size: usize, fir_len: usize| #[trigger]
                call_requires(ops.convolve, (r, block_size, fir_len)),
        ensures
            ({
                let factor = stored_factor(match persisted_factor {
                    Some(s) => Some(s@),
                    None => None,
                });
                &&& final(self).audio_state matches Some(audio) && call_ensures(
                    build,
                    (sample_rate, max_buffer_size, factor, panel),
                    audio,
                )
                &&& *final(self) == old(self).with_audio(
                    final(self).audio_state,
                    factor,
                    panel.input_trim_db,
                )
            }),
            final(cab).pending is None,
            ({
                let fresh = IrLoadState {
                    pending: None::<C>,
                    sample_rate,
                    block_size: max_buffer_size,
                    status: ir_load_status::NO_IR,
                };
                match persisted_path {
                    None => *final(ir) == fresh,
                    Some(path) => if path@.len() == 0 {
                        *final(ir) == fresh
                    } else {
                        ||| call_ensures(exists_file, (path,), false) && *final(ir)
                            == fresh.after_load(None)
                        ||| call_ensures(exists_file, (path,), true) && exists|loaded: Option<C>|
                            {
                                &&& #[trigger] call_ensures(
                                    load_convolver::<&str, F, R, C, Read, Center, Level, Convolve>,
                                    (fresh.request(), path, ops),
                                    loaded,
                                )
                                &&& *final(ir) == fresh.after_load(loaded)
                            }
                    },
                }
            }),
    {
        let os_factor = selected_os_factor(persisted_factor);
        self.initialize_audio_state(sample_rate, max_buffer_size, os_factor, panel, build);
        ir.restart(sample_rate, max_buffer_size);
        cab.clear();
        if let Some(path) = persisted_path {
            if !path.is_empty() {
                if exists_file(path) {
                    load_ir_file_into_state(ir, path, ops);
                } else {
                    ir.finish_load(None);
                }
            }
        }
    }

    /// Loads an impulse response and, if that succeeds, persists its path, as
    /// `shown` writes it.
    pub fn load_ir_from_file<D, R, C, Read, Center, Level, Convolve>(
        ir: &mut IrLoadState<F, C>,
        persisted_path: &mut String,
        path: D,
        shown: String,
        ops: IrOps<Read, Center, Level, Convolve>,
    ) where
        Read: FnOnce(D, F) -> Option<R>,
        Center: FnOnce(&mut R),
        Level: FnOnce(&mut R),
        Convolve: FnOnce(&R, usize, usize) -> C,

        requires
            call_requires(ops.read, (path, old(ir).sample_rate)),
            runs(ops.center),
            runs(ops.level),
            forall|r: &R, block_size: usize, fir_len: usize| #[trigger]
                call_requires(ops.convolve, (r, block_size, fir_len)),
        ensures
            exists|loaded: Option<C>|
                {
                    &&& #[trigger] call_ensures(
                        load_convolver::<D, F, R, C, Read, Center, Level, Convolve>,
                        (old(ir).request(), path, ops),
                        loaded,
                    )
                    &&& *final(ir) == old(ir).after_load(loaded)
                    &&& *final(persisted_path) == if loaded is Some {
                        shown
                    } else {
                        *old(persisted_path)
                    }
                },
    {
        let request = ir.begin_load();
        let loaded = load_convolver(request, path, ops);
        finish_ir_load(ir, loaded, persisted_path, shown);
    }

    /// Compares the input trim with the one in place; hands it out, to be put
    /// in place, if `moved` finds the two apart.
    pub fn follow_input_trim<Moved: FnOnce(F, F) -> bool>(
        &mut self,
        input_trim_db: F,
        moved: Moved,
    ) -> (changed: Option<F>)
        requires
            call_requires(moved, (input_trim_db, old(self).cached_input_trim_db)),
        ensures
            call_ensures(moved, (input_trim_db, old(self).cached_input_trim_db), changed is Some),
            changed is None ==> *final(self) == *old(self),
            changed matches Some(trim) ==> trim == input_trim_db && *final(self) == (TheTweed {
                cached_input_trim_db: input_trim_db,
                ..*old(self)
            }),
    {
        if moved(input_trim_db, self.cached_input_trim_db) {
            self.cached_input_trim_db = input_trim_db;
            Some(input_trim_db)
        } else {
            None
        }
    }

    /// Compares the placement of the microphone with the one in place; hands
    /// it out, to be put in place, if the position differs or `moved` finds
    /// the distances apart.
    pub fn follow_placement<Moved: FnOnce(F, F) -> bool>(
        &mut self,
        mic_x: MicXPosition,
        distance_inches: F,
        moved: Moved,
    ) -> (changed: Option<(MicXPosition, F)>)
        requires
            call_requires(moved, (distance_inches, old(self).cached_mic_distance_inches)),
        ensures
            mic_x != old(self).cached_mic_x_position ==> changed is Some,
            mic_x == old(self).cached_mic_x_position ==> call_ensures(
                moved,
                (distance_inches, old(self).cached_mic_distance_inches),
                changed is Some,
            ),
            changed is None ==> *final(self) == *old(self),
            changed matches Some(placement) ==> placement == (mic_x, distance_inches)
                && *final(self) == (TheTweed {
                cached_mic_x_position: mic_x,
                cached_mic_distance_inches: distance_inches,
                ..*old(self)
            }),
    {
        if mic_x != self.cached_mic_x_position || moved(
            distance_inches,
            self.cached_mic_distance_inches,
        ) {
            self.cached_mic_x_position = mic_x;
            self.cached_mic_distance_inches = distance_inches;
            Some((mic_x, distance_inches))
        } else {
            None
        }
    }

    /// Looks at how long the run of samples that are no numbers has become.
    /// One that is too long is shown for good, and its counter has to be
    /// cleared, which the result says.
    pub fn check_health(&mut self, run_length: u32) -> (clear: bool)
        ensures
            clear == (run_length > LATCHED_SAMPLES),
            *final(self) == (TheTweed {
                output_latched: old(self).output_latched || clear,
                ..*old(self)
            }),
    {
        if run_length > LATCHED_SAMPLES {
            self.output_latched = true;
            true
        } else {
            false
        }
    }
}

/// What a fresh plug-in remembers of the input trim and of the microphone is
/// what the parameters come up with: the numbers it was made from are their
/// defaults, and so is the position.
pub proof fn law_fresh_plugin_matches_defaults<F: Copy + From<i8>, S>(
    plugin: TheTweed<F, S>,
    params: TheTweedParams,
)
    requires
        plugin.is_fresh(),
        params.is_default(),
    ensures
        1000 * INITIAL_TRIM_DB == params.input_trim_db.default_milli,
        call_ensures(F::from, (INITIAL_TRIM_DB,), plugin.cached_input_trim_db),
        1000 * INITIAL_MIC_DISTANCE_INCHES == params.mic_distance_inches.default_milli,
        call_ensures(
            F::from,
            (INITIAL_MIC_DISTANCE_INCHES,),
            plugin.cached_mic_distance_inches,
        ),
        plugin.cached_mic_x_position == params.mic_x_position.default,
{
}

/// Initialising again, at the same or at another factor, leaves nothing of the
/// audio state before.
pub proof fn law_initialising_again_starts_over<F: Copy, S>(
    plugin: TheTweed<F, S>,
    first: Option<S>,
    first_factor: OversamplingFactor,
    first_trim: F,
    second: Option<S>,
    second_factor: OversamplingFactor,
    second_trim: F,
)
    ensures
        plugin.with_audio(first, first_factor, first_trim).with_audio(
            second,
            second_factor,
            second_trim,
        ) == plugin.with_audio(second, second_factor, second_trim),
{
}

/// The ratio that an initialised plug-in publishes is read back by the editor
/// as the factor that the audio state was built with.
pub proof fn law_editor_shows_running_factor<F: Copy, S>(
    plugin: TheTweed<F, S>,
    audio: Option<S>,
    os_factor: OversamplingFactor,
    trim: F,
)
    ensures
        running_factor(plugin.with_audio(audio, os_factor, trim).os_ratio) == os_factor,
{
}

/// The pattern up to which the output meter reads silence stands for the
/// number nearest to 1e-10: in units of its last place it is 14411519, and
/// 1e-10 is less than half a unit away.
pub proof fn law_silence_ends_next_to_1e_minus_10()
    ensures
        reading_of(SILENT_PEAK_BITS) == 14_411_519 * pow2(92),
        one() == pow2(57) * pow2(92),
        -5_000_000_000 < 14_411_519 * 10_000_000_000 - pow2(57) < 5_000_000_000,
{
    lemma2_to64_rest();
    lemma_pow2_adds(57, 92);
}

/// What the output meter reads for a peak: `decibels` of its bit pattern, or
/// the lowest reading for a peak that counts as silence.
pub fn output_reading<F: From<i8>, Decibels: FnOnce(u32) -> F>(
    peak: Magnitude,
    decibels: Decibels,
) -> (reading: F)
    requires
        peak.wf(),
        call_requires(decibels, (peak.bits,)),
    ensures
        peak.reading() > reading_of(SILENT_PEAK_BITS) ==> call_ensures(decibels, (peak.bits,), reading),
        peak.reading() <= reading_of(SILENT_PEAK_BITS) ==> call_ensures(
            F::from,
            (SILENT_OUTPUT_DB,),
            reading,
        ),
{
    let floor = Magnitude { bits: SILENT_PEAK_BITS };
    if floor.below(peak) {
        decibels(peak.bits)
    } else {
        F::from(SILENT_OUTPUT_DB)
    }
}

/// A trim is put in place exactly when it lies apart from the one in place, as
/// it was handed in, and then it is the one in place; nothing else changes.
pub proof fn law_trim_in_place_is_the_latest_that_moved<
    F: Copy,
    S,
    Moved: FnOnce(F, F) -> bool,
>(trim_db: F, moved: Moved, apart: spec_fn(F, F) -> bool)
    requires
        forall|a: F, b: F, r: bool| #[trigger] call_ensures(moved, (a, b), r) ==> r == apart(a, b),
    ensures
        forall|plugin: &mut TheTweed<F, S>, changed: Option<F>| #[trigger]
            call_ensures(
                TheTweed::<F, S>::follow_input_trim::<Moved>,
                (plugin, trim_db, moved),
                changed,
            ) ==> {
                &&& changed == if apart(trim_db, plugin.cached_input_trim_db) {
                    Some(trim_db)
                } else {
                    None
                }
                &&& changed is Some ==> final(plugin).cached_input_trim_db == trim_db
                &&& changed is None ==> final(plugin).cached_input_trim_db
                    == plugin.cached_input_trim_db
                &&& final(plugin).audio_state == plugin.audio_state
                &&& final(plugin).cached_mic_x_position == plugin.cached_mic_x_position
                &&& final(plugin).cached_mic_distance_inches == plugin.cached_mic_distance_inches
                &&& final(plugin).output_latched == plugin.output_latched
                &&& final(plugin).os_ratio == plugin.os_ratio
            },
{
}

/// The microphone is placed exactly when its position differs from the one in
/// place or its distance lies apart from it, both as handed in, and then they
/// are the ones in place; nothing else changes.
pub proof fn law_placement_is_the_latest_that_moved<F: Copy, S, Moved: FnOnce(F, F) -> bool>(
    x: MicXPosition,
    inches: F,
    moved: Moved,
    apart: spec_fn(F, F) -> bool,
)
    requires
        forall|a: F, b: F, r: bool| #[trigger] call_ensures(moved, (a, b), r) ==> r == apart(a, b),
    ensures
        forall|plugin: &mut TheTweed<F, S>, changed: Option<(MicXPosition, F)>| #[trigger]
            call_ensures(
                TheTweed::<F, S>::follow_placement::<Moved>,
                (plugin, x, inches, moved),
                changed,
            ) ==> {
                &&& changed == if x != plugin.cached_mic_x_position || apart(
                    inches,
                    plugin.cached_mic_distance_inches,
                ) {
                    Some((x, inches))
                } else {
                    None
                }
                &&& changed is Some ==> final(plugin).cached_mic_x_position == x
                    && final(plugin).cached_mic_distance_inches == inches
                &&& changed is None ==> *final(plugin) == *plugin
                &&& final(plugin).audio_state == plugin.audio_state
                &&& final(plugin).cached_input_trim_db == plugin.cached_input_trim_db
                &&& final(plugin).output_latched == plugin.output_latched
                &&& final(plugin).os_ratio == plugin.os_ratio
            },
{
}

/// A run of more than 512 samples that are no numbers is shown, and once shown
/// it stays so, however short the runs become; only then is the counter to be
/// cleared.
pub proof fn law_long_run_is_shown_for_good<F: Copy, S>(run_length: u32)
    ensures
        forall|plugin: &mut TheTweed<F, S>, clear: bool| #[trigger]
            call_ensures(TheTweed::<F, S>::check_health, (plugin, run_length), clear) ==> {
                &&& clear <==> run_length > 512
                &&& run_length > 512 ==> final(plugin).output_latched
                &&& plugin.output_latched ==> final(plugin).output_latched
                &&& run_length <= 512 ==> *final(plugin) == *plugin
                &&& final(plugin).audio_state == plugin.audio_state
                &&& final(plugin).cached_input_trim_db == plugin.cached_input_trim_db
                &&& final(plugin).cached_mic_x_position == plugin.cached_mic_x_position
                &&& final(plugin).cached_mic_distance_inches == plugin.cached_mic_distance_inches
                &&& final(plugin).os_ratio == plugin.os_ratio
            },
{
}

/// An initialised plug-in has the audio state of the format, the factor and the
/// panel it was given, remembers the trim of that panel and publishes the
/// ratio of that factor; the placement and the health it remembers stay.
pub proof fn law_initialised_for_what_was_given<F: Copy, S, Build>(
    sample_rate: F,
    max_buffer_size: usize,
    os_factor: OversamplingFactor,
    panel: PanelValues<F>,
    build: Build,
) where Build: FnOnce(F, usize, OversamplingFactor, PanelValues<F>) -> S
    ensures
        forall|plugin: &mut TheTweed<F, S>| #[trigger]
            call_ensures(
                TheTweed::<F, S>::initialize_audio_state::<Build>,
                (plugin, sample_rate, max_buffer_size, os_factor, panel, build),
                (),
            ) ==> {
                &&& final(plugin).audio_state is Some
                &&& call_ensures(
                    build,
                    (sample_rate, max_buffer_size, os_factor, panel),
                    final(plugin).audio_state->0,
                )
                &&& final(plugin).cached_input_trim_db == panel.input_trim_db
                &&& forall|ratio: u8| #[trigger]
                    call_ensures(OversamplingFactor::ratio, (os_factor,), ratio) ==> final(plugin).os_ratio == ratio
                &&& final(plugin).cached_mic_x_position == plugin.cached_mic_x_position
                &&& final(plugin).cached_mic_distance_inches == plugin.cached_mic_distance_inches
                &&& final(plugin).output_latched == plugin.output_latched
            },
{
}

/// A start builds the audio state with the factor that was persisted, empties
/// both slots, and then offers the convolver of the persisted file for the
/// host's format. Without a persisted path there is no file; a path that leads
/// nowhere, or to no response, is shown as failed.
pub proof fn law_start_loads_what_was_persisted<
    F: Copy,
    S,
    R,
    C,
    B,
    Build,
    Exists,
    Read,
    Center,
    Level,
    Convolve,
>(
    persisted_factor: Option<&str>,
    persisted_path: Option<&str>,
    sample_rate: F,
    max_buffer_size: usize,
    panel: PanelValues<F>,
    build: Build,
    exists_file: Exists,
    ops: IrOps<Read, Center, Level, Convolve>,
    there: spec_fn(&str) -> bool,
    response: spec_fn(&str, F) -> Option<R>,
    centered: spec_fn(R) -> R,
    leveled: spec_fn(R) -> R,
    convolver: spec_fn(R, usize, usize) -> C,
) where
    Build: FnOnce(F, usize, OversamplingFactor, PanelValues<F>) -> S,
    Exists: FnOnce(&str) -> bool,
    Read: FnOnce(&str, F) -> Option<R>,
    Center: FnOnce(&mut R),
    Level: FnOnce(&mut R),
    Convolve: FnOnce(&R, usize, usize) -> C,

    requires
        forall|path: &str, r: bool| #[trigger]
            call_ensures(exists_file, (path,), r) ==> r == there(path),
        forall|path: &str, rate: F, r: Option<R>| #[trigger]
            call_ensures(ops.read, (path, rate), r) ==> r == response(path, rate),
        forall|r: &mut R| #[trigger] call_ensures(ops.center, (r,), ()) ==> *final(r) == centered(*r),
        forall|r: &mut R| #[trigger] call_ensures(ops.level, (r,), ()) ==> *final(r) == leveled(*r),
        forall|r: &R, block_size: usize, fir_len: usize, c: C| #[trigger]
            call_ensures(ops.convolve, (r, block_size, fir_len), c) ==> c == convolver(
                *r,
                block_size,
                fir_len,
            ),
    ensures
        forall|
            plugin: &mut TheTweed<F, S>,
            ir: &mut IrLoadState<F, C>,
            cab: &mut CabProcessorLoadState<B>,
        | #[trigger]
            call_ensures(
                TheTweed::<F, S>::initialize::<
                    R,
                    C,
                    B,
                    Build,
                    Exists,
                    Read,
                    Center,
                    Level,
                    Convolve,
                >,
                (
                    plugin,
                    ir,
                    cab,
                    persisted_factor,
                    persisted_path,
                    sample_rate,
                    max_buffer_size,
                    panel,
                    build,
                    exists_file,
                    ops,
                ),
                (),
            ) ==> {
                &&& forall|factor: OversamplingFactor, ratio: u8|
                    #[trigger] call_ensures(selected_os_factor, (persisted_factor,), factor)
                        && #[trigger] call_ensures(OversamplingFactor::ratio, (factor,), ratio)
                        ==> final(plugin).audio_state is Some && call_ensures(
                        build,
                        (sample_rate, max_buffer_size, factor, panel),
                        final(plugin).audio_state->0,
                    ) && final(plugin).os_ratio == ratio
                &&& final(plugin).cached_input_trim_db == panel.input_trim_db
                &&& final(plugin).cached_mic_x_position == plugin.cached_mic_x_position
                &&& final(plugin).cached_mic_distance_inches == plugin.cached_mic_distance_inches
                &&& final(plugin).output_latched == plugin.output_latched
                &&& final(cab).pending is None
                &&& final(ir).sample_rate == sample_rate
                &&& final(ir).block_size == max_buffer_size
                &&& persisted_path is None ==> final(ir).pending is None && final(ir).status == 3
                &&& persisted_path matches Some(path) ==> {
                    let raw = if there(path) {
                        response(path, sample_rate)
                    } else {
                        None
                    };
                    if path@.len() == 0 {
                        final(ir).pending is None && final(ir).status == 3
                    } else {
                        match raw {
                            None => final(ir).pending is None && final(ir).status == 2,
                            Some(r) => final(ir).status == 1 && final(ir).pending == Some(
                                convolver(
                                    leveled(centered(r)),
                                    max_buffer_size,
                                    if max_buffer_size < 128 {
                                        max_buffer_size
                                    } else {
                                        128
                                    },
                                ),
                            ),
                        }
                    }
                }
            },
{
    let fresh = IrLoadState {
        pending: None::<C>,
        sample_rate,
        block_size: max_buffer_size,
        status: ir_load_status::NO_IR,
    };
    assert forall|path: &str, loaded: Option<C>| #[trigger]
        call_ensures(
            load_convolver::<&str, F, R, C, Read, Center, Level, Convolve>,
            (fresh.request(), path, ops),
            loaded,
        ) implies loaded == match response(path, sample_rate) {
        Some(raw) => Some(
            convolver(
                leveled(centered(raw)),
                max_buffer_size,
                if max_buffer_size < 128 {
                    max_buffer_size
                } else {
                    128
                },
            ),
        ),
        None => None,
    } by {
        crate::ir_load::law_convolver_is_that_of_the_file::<
            &str,
            F,
            R,
            C,
            Read,
            Center,
            Level,
            Convolve,
        >(fresh.request(), path, ops, loaded, response, centered, leveled, convolver);
    }
}

/// Loading a file persists its path exactly when it has a response, and offers
/// the convolver of that response for the host's format.
pub proof fn law_loading_persists_the_path_of_a_response<
    F: Copy,
    S,
    D,
    R,
    C,
    Read,
    Center,
    Level,
    Convolve,
>(
    path: D,
    shown: String,
    ops: IrOps<Read, Center, Level, Convolve>,
    response: spec_fn(D, F) -> Option<R>,
    centered: spec_fn(R) -> R,
    leveled: spec_fn(R) -> R,
    convolver: spec_fn(R, usize, usize) -> C,
) where
    Read: FnOnce(D, F) -> Option<R>,
    Center: FnOnce(&mut R),
    Level: FnOnce(&mut R),
    Convolve: FnOnce(&R, usize, usize) -> C,

    requires
        forall|d: D, rate: F, r: Option<R>| #[trigger]
            call_ensures(ops.read, (d, rate), r) ==> r == response(d, rate),
        forall|r: &mut R| #[trigger] call_ensures(ops.center, (r,), ()) ==> *final(r) == centered(*r),
        forall|r: &mut R| #[trigger] call_ensures(ops.level, (r,), ()) ==> *final(r) == leveled(*r),
        forall|r: &R, block_size: usize, fir_len: usize, c: C| #[trigger]
            call_ensures(ops.convolve, (r, block_size, fir_len), c) ==> c == convolver(
                *r,
                block_size,
                fir_len,
            ),
    ensures
        forall|ir: &mut IrLoadState<F, C>, persisted: &mut String| #[trigger]
            call_ensures(
                TheTweed::<F, S>::load_ir_from_file::<D, R, C, Read, Center, Level, Convolve>,
                (ir, persisted, path, shown, ops),
                (),
            ) ==> match response(path, ir.sample_rate) {
                None => {
                    &&& *final(persisted) == *persisted
                    &&& final(ir).pending is None
                    &&& final(ir).status == 2
                },
                Some(r) => {
                    &&& *final(persisted) == shown
                    &&& final(ir).status == 1
                    &&& final(ir).pending == Some(
                        convolver(
                            leveled(centered(r)),
                            ir.block_size,
                            if ir.block_size < 128 {
                                ir.block_size
                            } else {
                                128
                            },
                        ),
                    )
                },
            } && final(ir).sample_rate == ir.sample_rate && final(ir).block_size == ir.block_size,
{
    assert forall|ir: &mut IrLoadState<F, C>, loaded: Option<C>| #[trigger]
        call_ensures(
            load_convolver::<D, F, R, C, Read, Center, Level, Convolve>,
            (ir.request(), path, ops),
            loaded,
        ) implies loaded == match response(path, ir.sample_rate) {
        Some(raw) => Some(
            convolver(
                leveled(centered(raw)),
                ir.block_size,
                if ir.block_size < 128 {
                    ir.block_size
                } else {
                    128
                },
            ),
        ),
        None => None,
    } by {
        crate::ir_load::law_convolver_is_that_of_the_file::<D, F, R, C, Read, Center, Level, Convolve>(
            ir.request(),
            path,
            ops,
            loaded,
            response,
            centered,
            leveled,
            convolver,
        );
    }
}

/// The output meter reads the decibels of every peak above the number nearest
/// to 1e-10, and -120 for that one and every peak below.
pub proof fn law_meter_reads_decibels_above_silence<F: From<i8>, Decibels: FnOnce(u32) -> F>(
    peak: Magnitude,
    decibels: Decibels,
    reading: F,
)
    requires
        call_ensures(output_reading::<F, Decibels>, (peak, decibels), reading),
    ensures
        peak.bits > 0x2EDB_E6FF ==> call_ensures(decibels, (peak.bits,), reading),
        peak.bits <= 0x2EDB_E6FF ==> exists|lowest: i8|
            lowest == -120 && #[trigger] call_ensures(F::from, (lowest,), reading),
{
    crate::magnitude::law_patterns_order_as_readings(0x2EDB_E6FF, peak.bits);
}

} // verus!
