//! What a host buffer turns into: three passes over the scratch buffers, and
//! the meter window.

use crate::cab::{build_cab_arm, CabProcessorConfig, DEFAULT_CABINET_ID, DEFAULT_SPEAKER_ID};
use crate::grid_network::{GridNetlist, GridTube, PotHandle};
use crate::inner::{BuildOps, TweedInner};
use crate::magnitude::Magnitude;
use crate::oversampling::OversamplingFactor;
use crate::preamp::{
    PairBuild, TopologyOverrides, TubeBuild, JACK_GRID_LEAK_OHMS, JACK_SERIES_OHMS,
};
use crate::process::PanelValues;
use crate::selection::{CabModellingMode, MicSelection, MicXPosition, RoomSelection};
use vstd::prelude::*;

#[allow(unused_imports)]
use crate::magnitude::INFINITY_BITS;
#[allow(unused_imports)]
use crate::stage::{runs, runs_on, runs_on_two, takes_two};

verus! {

/// How long the crossfade to a newly loaded impulse response takes, in
/// milliseconds.
pub const IR_CROSSFADE_MS: u16 = 30;

/// How often the meters are published, in milliseconds.
pub const METER_UPDATE_INTERVAL_MS: u16 = 100;

/// The milliseconds of a second.
pub const MS_PER_SECOND: u16 = 1_000;

/// The corner of the blockers that keep a steady voltage out of the output, in
/// hertz.
pub const OUTPUT_DC_BLOCK_HZ: u32 = 10;

/// What the entry and exit boundary is built from, besides the tube in the
/// socket: the trims of the two sides, the input jack, and the exit's blockers.
#[derive(Debug, Clone, Copy)]
pub struct BoundaryBuild<F> {
    pub input_trim_db: F,
    pub output_trim_db: F,
    pub jack_series_ohms: u32,
    pub jack_grid_leak_ohms: u32,
    pub dc_block_hz: u32,
}

/// The operations that build what runs at the host's rate, round the amplifier.
pub struct StateOps<Place, Engine, Boundary, Dynamic, Ir> {
    /// Where a microphone at a place on the cone and a distance stands.
    pub place: Place,
    /// Puts the amplifier into an engine at a sample rate, oversampled.
    pub engine: Engine,
    /// Builds the boundary, whose input meter goes by a pair.
    pub boundary: Boundary,
    /// Builds the dynamic arm of the cabinet.
    pub dynamic: Dynamic,
    /// Builds the arm of an impulse response for a block size and a length of
    /// its direct section.
    pub ir: Ir,
}

/// Arithmetic on numbers: the product, the quotient and the whole part.
pub struct RateOps<Times, Over, Whole> {
    pub times: Times,
    pub over: Over,
    pub whole: Whole,
}

/// How many whole samples pass in so many milliseconds at a sample rate: the
/// product of the two over a thousand, computed in the numbers' own arithmetic
/// and in this order.
pub fn samples_in<F: Copy + From<u16>, Times, Over, Whole>(
    ms: u16,
    sample_rate: F,
    ops: &RateOps<Times, Over, Whole>,
) -> (samples: usize) where
    Times: Fn(F, F) -> F,
    Over: Fn(F, F) -> F,
    Whole: Fn(F) -> usize,

    requires
        takes_two(ops.times),
        takes_two(ops.over),
        forall|x: F| #[trigger] call_requires(ops.whole, (x,)),
    ensures
        exists|length: F, product: F, second: F, quotient: F|
            {
                &&& #[trigger] call_ensures(F::from, (ms,), length)
                &&& #[trigger] call_ensures(ops.times, (length, sample_rate), product)
                &&& #[trigger] call_ensures(F::from, (MS_PER_SECOND,), second)
                &&& #[trigger] call_ensures(ops.over, (product, second), quotient)
                &&& #[trigger] call_ensures(ops.whole, (quotient,), samples)
            },
{
    let product = (ops.times)(F::from(ms), sample_rate);
    let quotient = (ops.over)(product, F::from(MS_PER_SECOND));
    (ops.whole)(quotient)
}

/// The place of one of the first `n` samples.
pub open spec fn within(i: int, n: int) -> bool {
    0 <= i < n
}

/// `buf` with the samples from `from` up to `to` replaced by `zero`.
pub open spec fn zeroed<F>(buf: Seq<F>, from: int, to: int, zero: F) -> Seq<F> {
    Seq::new(buf.len(), |i: int| if from <= i < to { zero } else { buf[i] })
}

/// `dst` with its first `n` samples replaced by those of `src`.
pub open spec fn overlaid<F>(dst: Seq<F>, src: Seq<F>, n: int) -> Seq<F> {
    Seq::new(dst.len(), |i: int| if 0 <= i < n { src[i] } else { dst[i] })
}

/// Sets the samples from `from` up to `to` to `zero`.
pub fn silence<F: Copy>(buf: &mut [F], from: usize, to: usize, zero: F)
    requires
        from <= to <= old(buf)@.len(),
    ensures
        final(buf)@ == zeroed(old(buf)@, from as int, to as int, zero),
{
    let ghost before = buf@;
    let mut i: usize = from;
    assert(buf@ =~= zeroed(before, from as int, i as int, zero));
    while i < to
        invariant
            from <= i <= to <= buf@.len(),
            buf@ == zeroed(before, from as int, i as int, zero),
        decreases to - i,
    {
        buf[i] = zero;
        i += 1;
        assert(buf@ =~= zeroed(before, from as int, i as int, zero));
    }
}

/// What one of several channels holds.
pub open spec fn held<F>(channels: Seq<&mut [F]>, i: int) -> Seq<F> {
    (*channels[i])@
}

/// Sets the first `n` samples of every channel to `zero`.
pub fn silence_channels<F: Copy>(channels: &mut [&mut [F]], n: usize, zero: F)
    requires
        forall|i: int|
            0 <= i < old(channels)@.len() ==> n <= (#[trigger] held(old(channels)@, i)).len(),
    ensures
        final(channels)@.len() == old(channels)@.len(),
        forall|i: int|
            0 <= i < old(channels)@.len() ==> #[trigger] held(final(channels)@, i) == zeroed(
                held(old(channels)@, i),
                0,
                n as int,
                zero,
            ) && final(final(channels)@[i])@ == final(old(channels)@[i])@,
{
    let ghost before = channels@;
    let mut i: usize = 0;
    while i < channels.len()
        invariant
            i <= channels@.len(),
            channels@.len() == before.len(),
            forall|j: int| 0 <= j < before.len() ==> n <= (#[trigger] held(before, j)).len(),
            forall|j: int|
                0 <= j < before.len() ==> #[trigger] held(channels@, j) == (if j < i {
                    zeroed(held(before, j), 0, n as int, zero)
                } else {
                    held(before, j)
                }) && final(channels@[j])@ == final(before[j])@,
        decreases channels@.len() - i,
    {
        let ghost prev = channels@;
        assert(held(prev, i as int) == held(before, i as int));
        let channel: &mut &mut [F] = &mut channels[i];
        silence(&mut **channel, 0, n, zero);
        proof {
            assert forall|j: int| 0 <= j < before.len() implies #[trigger] held(channels@, j) == (
            if j < i + 1 {
                zeroed(held(before, j), 0, n as int, zero)
            } else {
                held(before, j)
            }) && final(channels@[j])@ == final(before[j])@ by {
                assert(held(prev, j) == held(prev, j));
                if j != i {
                    assert(channels@[j] == prev[j]);
                }
            }
        }
        i += 1;
    }
}

/// Copies the first `n` samples of `src` over those of `dst`.
pub fn copy_block<F: Copy>(dst: &mut [F], src: &[F], n: usize)
    requires
        n <= old(dst)@.len(),
        n <= src@.len(),
    ensures
        final(dst)@ == overlaid(old(dst)@, src@, n as int),
{
    let ghost before = dst@;
    let mut i: usize = 0;
    assert(dst@ =~= overlaid(before, src@, 0));
    while i < n
        invariant
            i <= n <= dst@.len(),
            n <= src@.len(),
            dst@ == overlaid(before, src@, i as int),
        decreases n - i,
    {
        dst[i] = src[i];
        i += 1;
        assert(dst@ =~= overlaid(before, src@, i as int));
    }
}

/// Where the processed block goes.
#[derive(Debug, Clone, Copy, PartialEq, Eq, Structural)]
pub enum OutputRoute {
    /// Every channel of the host is silenced.
    Silence,
    /// The first two channels of the host carry left and right.
    Stereo,
    /// The only channel of the host carries left; right still runs through the
    /// exit boundary, so that the two sides stay in step.
    LeftOnly,
}

/// The route for a buffer: a plug-in that is off passes nothing through, and a
/// host that ignored the stereo layout gets the left side.
pub open spec fn output_route(power_on: bool, channels: usize) -> OutputRoute {
    if !power_on {
        OutputRoute::Silence
    } else if channels >= 2 {
        OutputRoute::Stereo
    } else {
        OutputRoute::LeftOnly
    }
}

impl OutputRoute {
    pub fn of(power_on: bool, channels: usize) -> (route: OutputRoute)
        ensures
            route == output_route(power_on, channels),
    {
        if !power_on {
            OutputRoute::Silence
        } else if channels >= 2 {
            OutputRoute::Stereo
        } else {
            OutputRoute::LeftOnly
        }
    }
}

/// The operations of the engine that a buffer of the host runs through.
pub struct BufferOps<Enter, Run, Route, End, Block, Exit> {
    /// Runs a sample of the host through the entry boundary, to grid volts.
    pub enter: Enter,
    /// Runs grid volts through the oversampled amplifier, to the volts at the
    /// output transformer.
    pub run: Run,
    /// Transduces those volts for an arm of the cabinet.
    pub route: Route,
    /// Ends the buffer of the amplifier.
    pub end: End,
    /// Runs an arm of the cabinet over a block, to left and right.
    pub block: Block,
    /// Runs left and right through the exit boundary in place and reports
    /// their peak, as a bit pattern.
    pub exit: Exit,
}

/// All that runs at the host's sample rate and buffer size. `F` is the type of
/// a sample, `E` of the oversampled engine, `I` of the entry and exit boundary
/// and `B` of an arm of the cabinet.
pub struct AudioState<F, E, I, B> {
    pub os_factor: OversamplingFactor,
    pub engine: E,
    pub amp_io: I,
    pub cab_dynamic: B,
    pub cab_ir: B,
    pub pre_cab_buffer: Vec<F>,
    pub post_cab_left: Vec<F>,
    pub post_cab_right: Vec<F>,
    pub ir_block_size: usize,
    pub ir_crossfade_samples: usize,
    pub meter_window_len: usize,
    pub meter_window_samples: usize,
    pub meter_output_peak: Magnitude,
}

impl<F: Copy, E, I, B> AudioState<F, E, I, B> {
    /// The three scratch buffers hold a block, and the meter window is open.
    pub open spec fn wf(self) -> bool {
        &&& self.pre_cab_buffer@.len() == self.ir_block_size
        &&& self.post_cab_left@.len() == self.ir_block_size
        &&& self.post_cab_right@.len() == self.ir_block_size
        &&& self.meter_window_samples < self.meter_window_len
        &&& self.meter_output_peak.wf()
    }

    /// The arm that a mode selects.
    pub open spec fn active_cab(self, mode: CabModellingMode) -> B {
        match mode {
            CabModellingMode::Ir => self.cab_ir,
            CabModellingMode::Dynamic => self.cab_dynamic,
        }
    }

    /// The arm that a mode leaves alone.
    pub open spec fn resident_cab(self, mode: CabModellingMode) -> B {
        match mode {
            CabModellingMode::Ir => self.cab_dynamic,
            CabModellingMode::Dynamic => self.cab_ir,
        }
    }

    /// How many samples the cabinet runs over for `n` samples of the host: the
    /// convolver of the impulse response has a fixed block size, the dynamic
    /// arm takes any.
    pub open spec fn cab_block(self, mode: CabModellingMode, n: int) -> int {
        match mode {
            CabModellingMode::Ir => self.ir_block_size as int,
            CabModellingMode::Dynamic => n,
        }
    }

    /// The state for a sample rate, a largest buffer size and a front panel: the
    /// amplifier in its oversampled engine, both arms of the cabinet, silent
    /// scratch buffers, and an empty meter window. The dynamic arm is that of
    /// the 5E3's own speaker and cabinet, heard as selected; the other one
    /// starts from a unit impulse, which passes everything through until an
    /// impulse response is loaded. The boundary goes by the pair in the socket.
    pub fn build<
        L,
        P,
        T,
        C,
        S,
        K,
        A,
        Pair,
        Tube,
        Cap,
        Amp,
        SourceZ,
        Grid,
        Solve,
        SetPot,
        Smoother,
        Place,
        Engine,
        Boundary,
        Dynamic,
        Ir,
        Times,
        Over,
        Whole,
    >(
        sample_rate: F,
        max_buffer_size: usize,
        os_factor: OversamplingFactor,
        panel: PanelValues<F>,
        microphone: MicSelection,
        room: RoomSelection,
        zero: F,
        one: F,
        inner_ops: BuildOps<Pair, Tube, Cap, Amp, SourceZ, Grid, Solve, SetPot, Smoother>,
        ops: StateOps<Place, Engine, Boundary, Dynamic, Ir>,
        rate_ops: RateOps<Times, Over, Whole>,
    ) -> (audio: Self) where
        F: From<u16>,
        Pair: Fn(PairBuild) -> P,
        Tube: FnOnce(TubeBuild) -> T,
        Cap: FnOnce(u32, u32) -> K,
        Amp: FnOnce(TopologyOverrides) -> A,
        SourceZ: Fn(&'static str) -> F,
        Grid: FnOnce(&'static str, &T) -> GridTube<F>,
        Solve: Fn(GridNetlist<F>) -> C,
        SetPot: Fn(&mut C, PotHandle, F),
        Smoother: Fn(F, u32) -> S,
        Place: FnOnce(MicXPosition, F) -> L,
        Engine: FnOnce(F, OversamplingFactor, TweedInner<F, P, T, C, S, K, A>) -> E,
        Boundary: FnOnce(&P, BoundaryBuild<F>) -> I,
        Dynamic: FnOnce(CabProcessorConfig<F, L>) -> B,
        Ir: FnOnce(&[F], usize, usize) -> B,
        Times: Fn(F, F) -> F,
        Over: Fn(F, F) -> F,
        Whole: Fn(F) -> usize,

        requires
            forall|b: PairBuild| #[trigger] call_requires(inner_ops.pair, (b,)),
            forall|b: TubeBuild| #[trigger] call_requires(inner_ops.tube, (b,)),
            takes_two(inner_ops.cap),
            forall|o: TopologyOverrides| #[trigger] call_requires(inner_ops.amp, (o,)),
            forall|id: &'static str| #[trigger] call_requires(inner_ops.source_z, (id,)),
            forall|id: &'static str, t: &T| #[trigger] call_requires(inner_ops.grid, (id, t)),
            forall|n: GridNetlist<F>| #[trigger] call_requires(inner_ops.solve, (n,)),
            runs_on_two(inner_ops.set_pot),
            takes_two(inner_ops.smoother),
            takes_two(ops.place),
            forall|inner: TweedInner<F, P, T, C, S, K, A>| #[trigger]
                call_requires(ops.engine, (sample_rate, os_factor, inner)),
            forall|p: &P, b: BoundaryBuild<F>| #[trigger] call_requires(ops.boundary, (p, b)),
            forall|config: CabProcessorConfig<F, L>| #[trigger]
                call_requires(ops.dynamic, (config,)),
            forall|ir: &[F], block_size: usize, fir_len: usize| #[trigger]
                call_requires(ops.ir, (ir, block_size, fir_len)),
            takes_two(rate_ops.times),
            takes_two(rate_ops.over),
            forall|x: F| #[trigger] call_requires(rate_ops.whole, (x,)),
        ensures
            audio.wf(),
            audio.os_factor == os_factor,
            exists|inner: TweedInner<F, P, T, C, S, K, A>|
                {
                    &&& #[trigger] call_ensures(
                        TweedInner::<F, P, T, C, S, K, A>::build::<
                            Pair,
                            Tube,
                            Cap,
                            Amp,
                            SourceZ,
                            Grid,
                            Solve,
                            SetPot,
                            Smoother,
                        >,
                        (
                            panel.tube_toggle,
                            panel.channel,
                            panel.normal_wiper,
                            panel.bright_wiper,
                            panel.tone,
                            zero,
                            inner_ops,
                        ),
                        inner,
                    )
                    &&& call_ensures(ops.engine, (sample_rate, os_factor, inner), audio.engine)
                    &&& call_ensures(
                        ops.boundary,
                        (
                            &inner.active(),
                            (BoundaryBuild {
                                input_trim_db: panel.input_trim_db,
                                output_trim_db: panel.output_trim_db,
                                jack_series_ohms: JACK_SERIES_OHMS,
                                jack_grid_leak_ohms: JACK_GRID_LEAK_OHMS,
                                dc_block_hz: OUTPUT_DC_BLOCK_HZ,
                            }),
                        ),
                        audio.amp_io,
                    )
                },
            exists|placement: L, config: CabProcessorConfig<F, L>|
                {
                    &&& #[trigger] call_ensures(
                        ops.place,
                        (panel.mic_x, panel.mic_distance_inches),
                        placement,
                    )
                    &&& #[trigger] call_ensures(ops.dynamic, (config,), audio.cab_dynamic)
                    &&& config.is_one_mic_rig(
                        sample_rate,
                        max_buffer_size,
                        DEFAULT_SPEAKER_ID@,
                        DEFAULT_CABINET_ID@,
                        microphone.registry_text(),
                        room,
                        placement,
                    )
                },
            exists|ir: &[F]|
                ir@ == seq![one] && #[trigger] call_ensures(
                    ops.ir,
                    (ir, max_buffer_size, 1),
                    audio.cab_ir,
                ),
            audio.ir_block_size == max_buffer_size,
            audio.pre_cab_buffer@ == Seq::new(max_buffer_size as nat, |i: int| zero),
            audio.post_cab_left@ == Seq::new(max_buffer_size as nat, |i: int| zero),
            audio.post_cab_right@ == Seq::new(max_buffer_size as nat, |i: int| zero),
            call_ensures(
                samples_in::<F, Times, Over, Whole>,
                (IR_CROSSFADE_MS, sample_rate, &rate_ops),
                audio.ir_crossfade_samples,
            ),
            exists|interval: usize|
                {
                    &&& #[trigger] call_ensures(
                        samples_in::<F, Times, Over, Whole>,
                        (METER_UPDATE_INTERVAL_MS, sample_rate, &rate_ops),
                        interval,
                    )
                    &&& audio.meter_window_len == if interval >= 1 {
                        interval
                    } else {
                        1
                    }
                },
            audio.meter_window_samples == 0,
            audio.meter_output_peak.reading() == 0,
    {
        let StateOps { place, engine: make_engine, boundary, dynamic, ir: make_ir } = ops;
        let inner = TweedInner::build(
            panel.tube_toggle,
            panel.channel,
            panel.normal_wiper,
            panel.bright_wiper,
            panel.tone,
            zero,
            inner_ops,
        );
        let amp_io = boundary(
            inner.active_pair(),
            BoundaryBuild {
                input_trim_db: panel.input_trim_db,
                output_trim_db: panel.output_trim_db,
                jack_series_ohms: JACK_SERIES_OHMS,
                jack_grid_leak_ohms: JACK_GRID_LEAK_OHMS,
                dc_block_hz: OUTPUT_DC_BLOCK_HZ,
            },
        );
        let engine = make_engine(sample_rate, os_factor, inner);
        let mut impulse: Vec<F> = Vec::new();
        impulse.push(one);
        let ir = impulse.as_slice();
        assert(ir@ =~= seq![one]);
        let cab_ir = make_ir(ir, max_buffer_size, 1);
        let cab_dynamic = build_cab_arm(
            sample_rate,
            max_buffer_size,
            DEFAULT_SPEAKER_ID,
            DEFAULT_CABINET_ID,
            microphone.registry_id(),
            room,
            place(panel.mic_x, panel.mic_distance_inches),
            dynamic,
        );
        let interval: usize = samples_in(METER_UPDATE_INTERVAL_MS, sample_rate, &rate_ops);
        let meter_window_len: usize = if interval >= 1 {
            interval
        } else {
            1
        };
        let audio = AudioState {
            os_factor,
            engine,
            amp_io,
            cab_dynamic,
            cab_ir,
            pre_cab_buffer: silent_buffer(max_buffer_size, zero),
            post_cab_left: silent_buffer(max_buffer_size, zero),
            post_cab_right: silent_buffer(max_buffer_size, zero),
            ir_block_size: max_buffer_size,
            ir_crossfade_samples: samples_in(IR_CROSSFADE_MS, sample_rate, &rate_ops),
            meter_window_len,
            meter_window_samples: 0,
            meter_output_peak: Magnitude::zero(),
        };
        assert(audio.cab_dynamic == cab_dynamic && audio.cab_ir == cab_ir);
        audio
    }

    /// Hands a newly loaded impulse response to the convolver of its arm, to
    /// fade over to.
    pub fn swap_in_ir<C, Queue: FnOnce(&mut B, C, usize)>(
        &mut self,
        pending: Option<C>,
        queue: Queue,
    )
        requires
            runs_on_two(queue),
        ensures
            pending is None ==> *final(self) == *old(self),
            pending matches Some(conv) ==> exists|b: &mut B|
                *b == old(self).cab_ir && *final(b) == final(self).cab_ir
                    && #[trigger] call_ensures(queue, (b, conv, old(self).ir_crossfade_samples), ()),
            *final(self) == (AudioState { cab_ir: final(self).cab_ir, ..*old(self) }),
    {
        if let Some(conv) = pending {
            let crossfade: usize = self.ir_crossfade_samples;
            queue(&mut self.cab_ir, conv, crossfade);
        }
    }

    /// The first pass, one host sample at a time: through the entry boundary,
    /// the oversampled amplifier and the transduction of the active arm into
    /// the scratch buffer. A plug-in that is off runs none of them and writes
    /// silence.
    pub fn render_amp<Enter, Run, Route>(
        &mut self,
        power_on: bool,
        mode: CabModellingMode,
        input: &[F],
        n: usize,
        zero: F,
        enter: Enter,
        run: Run,
        route: Route,
    ) where Enter: Fn(&mut I, F) -> F, Run: Fn(&mut E, F) -> F, Route: Fn(&mut B, F) -> F
        requires
            old(self).wf(),
            n <= old(self).ir_block_size,
            power_on ==> n <= input@.len(),
            runs_on(enter),
            runs_on(run),
            runs_on(route),
        ensures
            final(self).wf(),
            !power_on ==> *final(self) == (AudioState {
                pre_cab_buffer: final(self).pre_cab_buffer,
                ..*old(self)
            }),
            !power_on ==> final(self).pre_cab_buffer@ == zeroed(
                old(self).pre_cab_buffer@,
                0,
                n as int,
                zero,
            ),
            power_on ==> exists|ios: Seq<I>, engines: Seq<E>, cabs: Seq<B>|
                {
                    &&& #[trigger] ios.len() == n + 1 && ios[0] == old(self).amp_io && ios[n as int]
                        == final(self).amp_io
                    &&& #[trigger] engines.len() == n + 1 && engines[0] == old(self).engine
                        && engines[n as int] == final(self).engine
                    &&& #[trigger] cabs.len() == n + 1 && cabs[0] == old(self).active_cab(mode)
                        && cabs[n as int] == final(self).active_cab(mode)
                    &&& forall|i: int|
                        #[trigger] within(i, n as int) ==> exists|
                            io: &mut I,
                            engine: &mut E,
                            cab: &mut B,
                            grid_volts: F,
                            ot_volts: F,
                        |
                            {
                                &&& #[trigger] call_ensures(enter, (io, input@[i]), grid_volts)
                                &&& #[trigger] call_ensures(run, (engine, grid_volts), ot_volts)
                                &&& #[trigger] call_ensures(
                                    route,
                                    (cab, ot_volts),
                                    final(self).pre_cab_buffer@[i],
                                )
                                &&& *io == ios[i] && *final(io) == ios[i + 1]
                                &&& *engine == engines[i] && *final(engine) == engines[i + 1]
                                &&& *cab == cabs[i] && *final(cab) == cabs[i + 1]
                            }
                },
            forall|i: int|
                n <= i < old(self).ir_block_size ==> final(self).pre_cab_buffer@[i] == old(
                    self).pre_cab_buffer@[i],
            final(self).resident_cab(mode) == old(self).resident_cab(mode),
            *final(self) == (AudioState {
                amp_io: final(self).amp_io,
                engine: final(self).engine,
                cab_ir: final(self).cab_ir,
                cab_dynamic: final(self).cab_dynamic,
                pre_cab_buffer: final(self).pre_cab_buffer,
                ..*old(self)
            }),
    {
        if !power_on {
            silence(self.pre_cab_buffer.as_mut_slice(), 0, n, zero);
            return;
        }
        let ghost before = *self;
        let ghost mut ios: Seq<I> = seq![self.amp_io];
        let ghost mut engines: Seq<E> = seq![self.engine];
        let ghost mut cabs: Seq<B> = seq![self.active_cab(mode)];
        let mut i: usize = 0;
        while i < n
            invariant
                i <= n <= self.ir_block_size,
                n <= input@.len(),
                self.wf(),
                runs_on(enter),
                runs_on(run),
                runs_on(route),
                self.ir_block_size == before.ir_block_size,
                ios.len() == i + 1 && ios[0] == before.amp_io && ios[i as int] == self.amp_io,
                engines.len() == i + 1 && engines[0] == before.engine && engines[i as int]
                    == self.engine,
                cabs.len() == i + 1 && cabs[0] == before.active_cab(mode) && cabs[i as int]
                    == self.active_cab(mode),
                forall|j: int|
                    #[trigger] within(j, i as int) ==> exists|
                        io: &mut I,
                        engine: &mut E,
                        cab: &mut B,
                        grid_volts: F,
                        ot_volts: F,
                    |
                        {
                            &&& #[trigger] call_ensures(enter, (io, input@[j]), grid_volts)
                            &&& #[trigger] call_ensures(run, (engine, grid_volts), ot_volts)
                            &&& #[trigger] call_ensures(
                                route,
                                (cab, ot_volts),
                                self.pre_cab_buffer@[j],
                            )
                            &&& *io == ios[j] && *final(io) == ios[j + 1]
                            &&& *engine == engines[j] && *final(engine) == engines[j + 1]
                            &&& *cab == cabs[j] && *final(cab) == cabs[j + 1]
                        },
                forall|j: int|
                    i <= j < before.ir_block_size ==> self.pre_cab_buffer@[j]
                        == before.pre_cab_buffer@[j],
                self.resident_cab(mode) == before.resident_cab(mode),
                *self == (AudioState {
                    amp_io: self.amp_io,
                    engine: self.engine,
                    cab_ir: self.cab_ir,
                    cab_dynamic: self.cab_dynamic,
                    pre_cab_buffer: self.pre_cab_buffer,
                    ..before
                }),
            decreases n - i,
        {
            let ghost (old_ios, old_engines, old_cabs, old_buffer) = (
                ios,
                engines,
                cabs,
                self.pre_cab_buffer@,
            );
            let grid_volts = enter(&mut self.amp_io, input[i]);
            let ot_volts = run(&mut self.engine, grid_volts);
            let sample = match mode {
                CabModellingMode::Ir => route(&mut self.cab_ir, ot_volts),
                CabModellingMode::Dynamic => route(&mut self.cab_dynamic, ot_volts),
            };
            self.pre_cab_buffer[i] = sample;
            proof {
                ios = ios.push(self.amp_io);
                engines = engines.push(self.engine);
                cabs = cabs.push(self.active_cab(mode));
                assert forall|j: int| #[trigger] within(j, i + 1) implies exists|
                    io: &mut I,
                    engine: &mut E,
                    cab: &mut B,
                    grid_volts: F,
                    ot_volts: F,
                |
                    {
                        &&& #[trigger] call_ensures(enter, (io, input@[j]), grid_volts)
                        &&& #[trigger] call_ensures(run, (engine, grid_volts), ot_volts)
                        &&& #[trigger] call_ensures(
                            route,
                            (cab, ot_volts),
                            self.pre_cab_buffer@[j],
                        )
                        &&& *io == ios[j] && *final(io) == ios[j + 1]
                        &&& *engine == engines[j] && *final(engine) == engines[j + 1]
                        &&& *cab == cabs[j] && *final(cab) == cabs[j + 1]
                    } by {
                    if j < i {
                        assert(within(j, i as int));
                        assert(self.pre_cab_buffer@[j] == old_buffer[j]);
                        assert(ios[j] == old_ios[j] && ios[j + 1] == old_ios[j + 1]);
                        assert(engines[j] == old_engines[j] && engines[j + 1] == old_engines[j
                            + 1]);
                        assert(cabs[j] == old_cabs[j] && cabs[j + 1] == old_cabs[j + 1]);
                    } else {
                        assert(self.pre_cab_buffer@[j] == sample);
                    }
                }
            }
            i += 1;
        }
    }

    /// The second pass: the active arm turns the block into left and right. A
    /// host buffer that is shorter than the convolver's block is padded with
    /// silence up to it.
    pub fn run_cab<Block: FnOnce(&mut B, &[F], &mut [F], &mut [F])>(
        &mut self,
        mode: CabModellingMode,
        n: usize,
        zero: F,
        block: Block,
    )
        requires
            old(self).wf(),
            n <= old(self).ir_block_size,
            forall|b: &mut B, pre: &[F], left: &mut [F], right: &mut [F]| #[trigger]
                call_requires(block, (b, pre, left, right)),
            forall|b: &mut B, pre: &[F], left: &mut [F], right: &mut [F]| #[trigger]
                call_ensures(block, (b, pre, left, right), ()) ==> final(left)@.len() == left@.len()
                    && final(right)@.len() == right@.len(),
        ensures
            final(self).wf(),
            final(self).pre_cab_buffer@ == zeroed(
                old(self).pre_cab_buffer@,
                n as int,
                old(self).cab_block(mode, n as int),
                zero,
            ),
            exists|b: &mut B, pre: &[F], left: &mut [F], right: &mut [F]|
                {
                    let len = old(self).cab_block(mode, n as int);
                    &&& #[trigger] call_ensures(block, (b, pre, left, right), ())
                    &&& *b == old(self).active_cab(mode) && *final(b) == final(self).active_cab(mode)
                    &&& pre@ == final(self).pre_cab_buffer@.subrange(0, len)
                    &&& left@ == old(self).post_cab_left@.subrange(0, len)
                    &&& final(self).post_cab_left@ == final(left)@ + old(
                        self).post_cab_left@.skip(len)
                    &&& right@ == old(self).post_cab_right@.subrange(0, len)
                    &&& final(self).post_cab_right@ == final(right)@ + old(
                        self).post_cab_right@.skip(len)
                },
            final(self).resident_cab(mode) == old(self).resident_cab(mode),
            *final(self) == (AudioState {
                cab_ir: final(self).cab_ir,
                cab_dynamic: final(self).cab_dynamic,
                pre_cab_buffer: final(self).pre_cab_buffer,
                post_cab_left: final(self).post_cab_left,
                post_cab_right: final(self).post_cab_right,
                ..*old(self)
            }),
    {
        let len: usize = match mode {
            CabModellingMode::Ir => self.ir_block_size,
            CabModellingMode::Dynamic => n,
        };
        silence(self.pre_cab_buffer.as_mut_slice(), n, len, zero);
        let (pre, _) = self.pre_cab_buffer.as_slice().split_at(len);
        let (left, _) = self.post_cab_left.as_mut_slice().split_at_mut(len);
        let (right, _) = self.post_cab_right.as_mut_slice().split_at_mut(len);
        match mode {
            CabModellingMode::Ir => block(&mut self.cab_ir, pre, left, right),
            CabModellingMode::Dynamic => block(&mut self.cab_dynamic, pre, left, right),
        }
    }

    /// The third pass for a host with two channels: left and right go to them
    /// and through the exit boundary in place. Returns the peak that the exit
    /// boundary reports, as a bit pattern.
    pub fn exit_stereo<Exit: FnOnce(&mut I, &mut [F], &mut [F]) -> u32>(
        &mut self,
        left: &mut [F],
        right: &mut [F],
        n: usize,
        exit: Exit,
    ) -> (peak_bits: u32)
        requires
            old(self).wf(),
            n <= old(self).ir_block_size,
            n <= old(left)@.len(),
            n <= old(right)@.len(),
            forall|io: &mut I, l: &mut [F], r: &mut [F]| #[trigger]
                call_requires(exit, (io, l, r)),
        ensures
            final(self).wf(),
            exists|io: &mut I, l: &mut [F], r: &mut [F]|
                {
                    &&& #[trigger] call_ensures(exit, (io, l, r), peak_bits)
                    &&& *io == old(self).amp_io && *final(io) == final(self).amp_io
                    &&& l@ == old(self).post_cab_left@.take(n as int)
                    &&& r@ == old(self).post_cab_right@.take(n as int)
                    &&& final(left)@ == final(l)@ + old(left)@.skip(n as int)
                    &&& final(right)@ == final(r)@ + old(right)@.skip(n as int)
                },
            *final(self) == (AudioState { amp_io: final(self).amp_io, ..*old(self) }),
    {
        copy_block(left, self.post_cab_left.as_slice(), n);
        copy_block(right, self.post_cab_right.as_slice(), n);
        let (l, _) = left.split_at_mut(n);
        let (r, _) = right.split_at_mut(n);
        assert(l@ =~= self.post_cab_left@.take(n as int));
        assert(r@ =~= self.post_cab_right@.take(n as int));
        exit(&mut self.amp_io, l, r)
    }

    /// The third pass for a host with one channel: left goes to it, and right
    /// runs through the exit boundary in the scratch buffer.
    pub fn exit_left_only<Exit: FnOnce(&mut I, &mut [F], &mut [F]) -> u32>(
        &mut self,
        left: &mut [F],
        n: usize,
        exit: Exit,
    ) -> (peak_bits: u32)
        requires
            old(self).wf(),
            n <= old(self).ir_block_size,
            n <= old(left)@.len(),
            forall|io: &mut I, l: &mut [F], r: &mut [F]| #[trigger]
                call_requires(exit, (io, l, r)),
            forall|io: &mut I, l: &mut [F], r: &mut [F], y: u32| #[trigger]
                call_ensures(exit, (io, l, r), y) ==> final(r)@.len() == r@.len(),
        ensures
            final(self).wf(),
            exists|io: &mut I, l: &mut [F], r: &mut [F]|
                {
                    &&& #[trigger] call_ensures(exit, (io, l, r), peak_bits)
                    &&& *io == old(self).amp_io && *final(io) == final(self).amp_io
                    &&& l@ == old(self).post_cab_left@.take(n as int)
                    &&& r@ == old(self).post_cab_right@.take(n as int)
                    &&& final(left)@ == final(l)@ + old(left)@.skip(n as int)
                    &&& final(self).post_cab_right@ == final(r)@ + old(
                        self).post_cab_right@.skip(n as int)
                },
            *final(self) == (AudioState {
                amp_io: final(self).amp_io,
                post_cab_right: final(self).post_cab_right,
                ..*old(self)
            }),
    {
        copy_block(left, self.post_cab_left.as_slice(), n);
        let (l, _) = left.split_at_mut(n);
        let (r, _) = self.post_cab_right.as_mut_slice().split_at_mut(n);
        assert(l@ =~= self.post_cab_left@.take(n as int));
        exit(&mut self.amp_io, l, r)
    }

    /// Runs a buffer of the host through the three passes. The first channel
    /// of the host is the input, which is read before anything is written to
    /// it, and takes the left side; the second, where there is one, takes the
    /// right side; `others` are those beyond. Returns the peak of the buffer,
    /// as a bit pattern.
    pub fn process_buffer<Enter, Run, Route, End, Block, Exit>(
        &mut self,
        power_on: bool,
        mode: CabModellingMode,
        channels: usize,
        left: &mut [F],
        right: &mut [F],
        others: &mut [&mut [F]],
        n: usize,
        zero: F,
        ops: BufferOps<Enter, Run, Route, End, Block, Exit>,
    ) -> (peak_bits: u32) where
        Enter: Fn(&mut I, F) -> F,
        Run: Fn(&mut E, F) -> F,
        Route: Fn(&mut B, F) -> F,
        End: FnOnce(&mut E),
        Block: FnOnce(&mut B, &[F], &mut [F], &mut [F]),
        Exit: FnOnce(&mut I, &mut [F], &mut [F]) -> u32,

        requires
            old(self).wf(),
            n <= old(self).ir_block_size,
            power_on ==> channels >= 1,
            channels >= 1 ==> n <= old(left)@.len(),
            channels >= 2 ==> n <= old(right)@.len(),
            !power_on ==> forall|i: int|
                0 <= i < old(others)@.len() ==> n <= (#[trigger] held(old(others)@, i)).len(),
            runs_on(ops.enter),
            runs_on(ops.run),
            runs_on(ops.route),
            runs(ops.end),
            forall|b: &mut B, pre: &[F], l: &mut [F], r: &mut [F]| #[trigger]
                call_requires(ops.block, (b, pre, l, r)),
            forall|b: &mut B, pre: &[F], l: &mut [F], r: &mut [F]| #[trigger]
                call_ensures(ops.block, (b, pre, l, r), ()) ==> final(l)@.len() == l@.len()
                    && final(r)@.len() == r@.len(),
            forall|io: &mut I, l: &mut [F], r: &mut [F]| #[trigger]
                call_requires(ops.exit, (io, l, r)),
            forall|io: &mut I, l: &mut [F], r: &mut [F], y: u32| #[trigger]
                call_ensures(ops.exit, (io, l, r), y) ==> final(r)@.len() == r@.len(),
        ensures
            final(self).wf(),
            // The arm that is not selected keeps its state.
            final(self).resident_cab(mode) == old(self).resident_cab(mode),
            // The channels beyond the second carry nothing of their own.
            final(others)@.len() == old(others)@.len(),
            forall|i: int|
                0 <= i < old(others)@.len() ==> #[trigger] held(final(others)@, i) == (
                if power_on {
                    held(old(others)@, i)
                } else {
                    zeroed(held(old(others)@, i), 0, n as int, zero)
                }) && final(final(others)@[i])@ == final(old(others)@[i])@,
            exists|a0: &mut Self, a1: &mut Self, a2: Self, input: &[F], e: &mut E|
                {
                    &&& #[trigger] call_ensures(
                        AudioState::<F, E, I, B>::render_amp::<Enter, Run, Route>,
                        (a0, power_on, mode, input, n, zero, ops.enter, ops.run, ops.route),
                        (),
                    )
                    &&& *a0 == *old(self) && input@ == old(left)@
                    &&& #[trigger] call_ensures(ops.end, (e,), ())
                    &&& *e == final(a0).engine
                    &&& #[trigger] call_ensures(
                        AudioState::<F, E, I, B>::run_cab::<Block>,
                        (a1, mode, n, zero, ops.block),
                        (),
                    )
                    &&& *a1 == (AudioState { engine: *final(e), ..*final(a0) })
                    &&& #[trigger] a2.wf() && a2 == *final(a1)
                    &&& match output_route(power_on, channels) {
                        OutputRoute::Silence => {
                            &&& *final(self) == a2
                            &&& final(left)@ == if channels >= 1 {
                                zeroed(old(left)@, 0, n as int, zero)
                            } else {
                                old(left)@
                            }
                            &&& final(right)@ == if channels >= 2 {
                                zeroed(old(right)@, 0, n as int, zero)
                            } else {
                                old(right)@
                            }
                            &&& peak_bits == 0
                        },
                        OutputRoute::Stereo => exists|a3: &mut Self, l: &mut [F], r: &mut [F]|
                            {
                                &&& #[trigger] call_ensures(
                                    AudioState::<F, E, I, B>::exit_stereo::<Exit>,
                                    (a3, l, r, n, ops.exit),
                                    peak_bits,
                                )
                                &&& *a3 == a2 && *final(a3) == *final(self)
                                &&& l@ == old(left)@ && final(l)@ == final(left)@
                                &&& r@ == old(right)@ && final(r)@ == final(right)@
                            },
                        OutputRoute::LeftOnly => exists|a3: &mut Self, l: &mut [F]|
                            {
                                &&& #[trigger] call_ensures(
                                    AudioState::<F, E, I, B>::exit_left_only::<Exit>,
                                    (a3, l, n, ops.exit),
                                    peak_bits,
                                )
                                &&& *a3 == a2 && *final(a3) == *final(self)
                                &&& l@ == old(left)@ && final(l)@ == final(left)@
                                &&& final(right)@ == old(right)@
                            },
                    }
                },
    {
        let BufferOps { enter, run, route, end, block, exit } = ops;
        self.render_amp(power_on, mode, &*left, n, zero, enter, run, route);
        end(&mut self.engine);
        self.run_cab(mode, n, zero, block);
        match OutputRoute::of(power_on, channels) {
            OutputRoute::Silence => {
                if channels >= 1 {
                    silence(left, 0, n, zero);
                }
                if channels >= 2 {
                    silence(right, 0, n, zero);
                }
                silence_channels(others, n, zero);
                0
            },
            OutputRoute::Stereo => self.exit_stereo(left, right, n, exit),
            OutputRoute::LeftOnly => self.exit_left_only(left, n, exit),
        }
    }

    /// Counts a buffer of `n` samples into the meter window and holds its
    /// peak. When the window is full it hands out the held peak and starts
    /// over.
    pub fn close_meter_window(&mut self, n: usize, peak_bits: u32) -> (published: Option<Magnitude>)
        requires
            old(self).wf(),
        ensures
            final(self).wf(),
            ({
                let held = old(self).meter_output_peak.raised(peak_bits);
                if old(self).meter_window_samples + n >= old(self).meter_window_len {
                    &&& published == Some(held)
                    &&& *final(self) == (AudioState {
                        meter_window_samples: 0,
                        meter_output_peak: Magnitude { bits: 0 },
                        ..*old(self)
                    })
                } else {
                    &&& published is None
                    &&& *final(self) == (AudioState {
                        meter_window_samples: (old(self).meter_window_samples + n) as usize,
                        meter_output_peak: held,
                        ..*old(self)
                    })
                }
            }),
    {
        let held = self.meter_output_peak.raised_to(peak_bits);
        if n >= self.meter_window_len - self.meter_window_samples {
            self.meter_window_samples = 0;
            self.meter_output_peak = Magnitude::zero();
            Some(held)
        } else {
            self.meter_window_samples = self.meter_window_samples + n;
            self.meter_output_peak = held;
            None
        }
    }

    /// Puts everything back to rest: the engine and both arms, so that the
    /// inactive one does not resume with a stale tail, the scratch buffers,
    /// the boundary and the meter window.
    pub fn reset<ResetEngine, ResetCab, ResetIo>(
        &mut self,
        zero: F,
        reset_engine: ResetEngine,
        reset_cab: ResetCab,
        reset_io: ResetIo,
    ) where ResetEngine: FnOnce(&mut E), ResetCab: Fn(&mut B), ResetIo: FnOnce(&mut I)
        requires
            old(self).wf(),
            runs(reset_engine),
            runs(reset_cab),
            runs(reset_io),
        ensures
            final(self).wf(),
            exists|e: &mut E|
                *e == old(self).engine && *final(e) == final(self).engine
                    && #[trigger] call_ensures(reset_engine, (e,), ()),
            exists|b: &mut B|
                *b == old(self).cab_ir && *final(b) == final(self).cab_ir
                    && #[trigger] call_ensures(reset_cab, (b,), ()),
            exists|b: &mut B|
                *b == old(self).cab_dynamic && *final(b) == final(self).cab_dynamic
                    && #[trigger] call_ensures(reset_cab, (b,), ()),
            exists|io: &mut I|
                *io == old(self).amp_io && *final(io) == final(self).amp_io
                    && #[trigger] call_ensures(reset_io, (io,), ()),
            final(self).pre_cab_buffer@ == Seq::new(old(self).ir_block_size as nat, |i: int| zero),
            final(self).post_cab_left@ == Seq::new(old(self).ir_block_size as nat, |i: int| zero),
            final(self).post_cab_right@ == Seq::new(old(self).ir_block_size as nat, |i: int| zero),
            *final(self) == (AudioState {
                engine: final(self).engine,
                cab_ir: final(self).cab_ir,
                cab_dynamic: final(self).cab_dynamic,
                amp_io: final(self).amp_io,
                pre_cab_buffer: final(self).pre_cab_buffer,
                post_cab_left: final(self).post_cab_left,
                post_cab_right: final(self).post_cab_right,
                meter_window_samples: 0,
                meter_output_peak: Magnitude { bits: 0 },
                ..*old(self)
            }),
    {
        reset_engine(&mut self.engine);
        reset_cab(&mut self.cab_ir);
        reset_cab(&mut self.cab_dynamic);
        let len: usize = self.ir_block_size;
        silence(self.pre_cab_buffer.as_mut_slice(), 0, len, zero);
        silence(self.post_cab_left.as_mut_slice(), 0, len, zero);
        silence(self.post_cab_right.as_mut_slice(), 0, len, zero);
        reset_io(&mut self.amp_io);
        self.meter_window_samples = 0;
        self.meter_output_peak = Magnitude::zero();
    }

    /// Installs a rebuilt dynamic arm.
    pub fn install_cab(&mut self, pending: Option<B>)
        ensures
            *final(self) == (match pending {
                Some(arm) => AudioState { cab_dynamic: arm, ..*old(self) },
                None => *old(self),
            }),
    {
        if let Some(arm) = pending {
            self.cab_dynamic = arm;
        }
    }
}

/// A buffer of `n` samples of silence.
fn silent_buffer<F: Copy>(n: usize, zero: F) -> (buf: Vec<F>)
    ensures
        buf@ == Seq::new(n as nat, |i: int| zero),
{
    let mut buf: Vec<F> = Vec::with_capacity(n);
    let mut i: usize = 0;
    while i < n
        invariant
            i <= n,
            buf@ == Seq::new(i as nat, |j: int| zero),
        decreases n - i,
    {
        buf.push(zero);
        i += 1;
        assert(buf@ =~= Seq::new(i as nat, |j: int| zero));
    }
    assert(buf@ =~= Seq::new(n as nat, |j: int| zero));
    buf
}

/// Silence is put where it was asked for, and nowhere else.
pub proof fn law_silence_goes_where_asked<F: Copy>(from: usize, to: usize, n: usize, zero: F)
    ensures
        forall|buf: &mut [F]| #[trigger]
            call_ensures(silence::<F>, (buf, from, to, zero), ()) ==> {
                &&& final(buf)@.len() == buf@.len()
                &&& forall|i: int|
                    0 <= i < buf@.len() ==> #[trigger] final(buf)@[i] == if from <= i && i < to {
                        zero
                    } else {
                        buf@[i]
                    }
            },
        forall|channels: &mut [&mut [F]]| #[trigger]
            call_ensures(silence_channels::<F>, (channels, n, zero), ()) ==> {
                &&& final(channels)@.len() == channels@.len()
                &&& forall|k: int, i: int|
                    0 <= k < channels@.len() && 0 <= i < (*channels@[k])@.len() ==> #[trigger] (
                    *final(channels)@[k])@[i] == if i < n {
                        zero
                    } else {
                        (*channels@[k])@[i]
                    }
            },
{
    assert forall|channels: &mut [&mut [F]]| #[trigger]
        call_ensures(silence_channels::<F>, (channels, n, zero), ()) implies final(channels)@.len()
        == channels@.len() && forall|k: int, i: int|
        0 <= k < channels@.len() && 0 <= i < (*channels@[k])@.len() ==> #[trigger] (*final(channels)@[k])@[i] == if i < n {
            zero
        } else {
            (*channels@[k])@[i]
        } by {
        assert forall|k: int, i: int|
            0 <= k < channels@.len() && 0 <= i < (*channels@[k])@.len() implies #[trigger] (*final(channels)@[k])@[i] == if i < n {
            zero
        } else {
            (*channels@[k])@[i]
        } by {
            assert(held(final(channels)@, k) == zeroed(held(channels@, k), 0, n as int, zero));
        }
    }
}

/// A copied block is the source's from the start up to its length, and what is
/// behind it stays.
pub proof fn law_copied_block_is_the_sources<F: Copy>(src: &[F], n: usize)
    ensures
        forall|dst: &mut [F]| #[trigger]
            call_ensures(copy_block::<F>, (dst, src, n), ()) ==> {
                &&& final(dst)@.len() == dst@.len()
                &&& forall|i: int|
                    0 <= i < dst@.len() ==> #[trigger] final(dst)@[i] == if i < n {
                        src@[i]
                    } else {
                        dst@[i]
                    }
            },
{
}

/// Where numbers are whole and count from zero, the samples in so many
/// milliseconds are as many as fit: a thousand times them does not exceed the
/// product of milliseconds and rate, and that of one more does.
pub proof fn law_samples_fill_the_milliseconds<F: Copy + From<u16>, Times, Over, Whole>(
    ms: u16,
    sample_rate: F,
    ops: RateOps<Times, Over, Whole>,
    samples: usize,
    amount: spec_fn(F) -> int,
) where Times: Fn(F, F) -> F, Over: Fn(F, F) -> F, Whole: Fn(F) -> usize
    requires
        call_ensures(samples_in::<F, Times, Over, Whole>, (ms, sample_rate, &ops), samples),
        amount(sample_rate) >= 0,
        forall|k: u16, x: F| #[trigger] call_ensures(F::from, (k,), x) ==> amount(x) == k,
        forall|x: F, y: F, z: F| #[trigger]
            call_ensures(ops.times, (x, y), z) ==> amount(z) == amount(x) * amount(y),
        forall|x: F, y: F, z: F| #[trigger]
            call_ensures(ops.over, (x, y), z) && amount(x) >= 0 && amount(y) > 0 ==> amount(z)
                == amount(x) / amount(y),
        forall|x: F, n: usize| #[trigger] call_ensures(ops.whole, (x,), n) ==> n == amount(x),
    ensures
        1000 * samples <= ms * amount(sample_rate),
        ms * amount(sample_rate) < 1000 * (samples + 1),
{
    assert(ms * amount(sample_rate) >= 0) by (nonlinear_arith)
        requires
            amount(sample_rate) >= 0,
            ms >= 0,
    ;
}

/// The sound goes nowhere when the power is off, and otherwise to as many sides
/// as the host has channels for.
pub proof fn law_route_goes_by_power_and_channels(
    power_on: bool,
    channels: usize,
    route: OutputRoute,
)
    requires
        call_ensures(OutputRoute::of, (power_on, channels), route),
    ensures
        route == OutputRoute::Silence <==> !power_on,
        route == OutputRoute::Stereo <==> power_on && channels > 1,
        route == OutputRoute::LeftOnly <==> power_on && channels < 2,
{
}

/// The block that the cabinet runs over holds every sample of the host's buffer
/// and fits the scratch buffers: the dynamic arm's is the buffer itself, the
/// convolver's is always the largest.
pub proof fn law_cab_block_covers_the_buffer<F: Copy, E, I, B>(
    audio: AudioState<F, E, I, B>,
    mode: CabModellingMode,
    n: int,
)
    requires
        0 <= n <= audio.ir_block_size,
    ensures
        n <= audio.cab_block(mode, n) <= audio.ir_block_size,
        mode == CabModellingMode::Dynamic ==> audio.cab_block(mode, n) == n,
        mode == CabModellingMode::Ir ==> audio.cab_block(mode, n) == audio.ir_block_size,
        mode == CabModellingMode::Dynamic ==> audio.active_cab(mode) == audio.cab_dynamic,
        mode == CabModellingMode::Ir ==> audio.active_cab(mode) == audio.cab_ir,
        mode == CabModellingMode::Dynamic ==> audio.resident_cab(mode) == audio.cab_ir,
        mode == CabModellingMode::Ir ==> audio.resident_cab(mode) == audio.cab_dynamic,
{
}

/// The first pass fills the scratch buffer with every sample of the input, each
/// sent through the boundary, the amplifier and the transduction in this order,
/// or with silence when the power is off. What is behind stays, and so does the
/// arm that is not selected.
pub proof fn law_first_pass_renders_every_sample<F: Copy, E, I, B, Enter, Run, Route>(
    power_on: bool,
    mode: CabModellingMode,
    input: &[F],
    n: usize,
    zero: F,
    enter: Enter,
    run: Run,
    route: Route,
    entered: spec_fn(F) -> F,
    amplified: spec_fn(F) -> F,
    routed: spec_fn(F) -> F,
) where Enter: Fn(&mut I, F) -> F, Run: Fn(&mut E, F) -> F, Route: Fn(&mut B, F) -> F
    requires
        forall|io: &mut I, x: F, y: F| #[trigger]
            call_ensures(enter, (io, x), y) ==> y == entered(x),
        forall|e: &mut E, x: F, y: F| #[trigger]
            call_ensures(run, (e, x), y) ==> y == amplified(x),
        forall|b: &mut B, x: F, y: F| #[trigger]
            call_ensures(route, (b, x), y) ==> y == routed(x),
    ensures
        forall|a: &mut AudioState<F, E, I, B>| #[trigger]
            call_ensures(
                AudioState::<F, E, I, B>::render_amp::<Enter, Run, Route>,
                (a, power_on, mode, input, n, zero, enter, run, route),
                (),
            ) && a.wf() && n <= a.ir_block_size ==> {
                &&& forall|i: int|
                    0 <= i < n ==> #[trigger] final(a).pre_cab_buffer@[i] == if power_on {
                        routed(amplified(entered(input@[i])))
                    } else {
                        zero
                    }
                &&& forall|i: int|
                    n <= i < a.ir_block_size ==> #[trigger] final(a).pre_cab_buffer@[i]
                        == a.pre_cab_buffer@[i]
                &&& mode == CabModellingMode::Ir ==> final(a).cab_dynamic == a.cab_dynamic
                &&& mode == CabModellingMode::Dynamic ==> final(a).cab_ir == a.cab_ir
                &&& !power_on ==> final(a).engine == a.engine && final(a).amp_io == a.amp_io
                    && final(a).cab_ir == a.cab_ir && final(a).cab_dynamic == a.cab_dynamic
                &&& *final(a) == (AudioState {
                    amp_io: final(a).amp_io,
                    engine: final(a).engine,
                    cab_ir: final(a).cab_ir,
                    cab_dynamic: final(a).cab_dynamic,
                    pre_cab_buffer: final(a).pre_cab_buffer,
                    ..*a
                })
            },
{
    assert forall|a: &mut AudioState<F, E, I, B>| #[trigger]
        call_ensures(
            AudioState::<F, E, I, B>::render_amp::<Enter, Run, Route>,
            (a, power_on, mode, input, n, zero, enter, run, route),
            (),
        ) && a.wf() && n <= a.ir_block_size implies forall|i: int|
        0 <= i < n ==> #[trigger] final(a).pre_cab_buffer@[i] == if power_on {
            routed(amplified(entered(input@[i])))
        } else {
            zero
        } by {
        assert forall|i: int| 0 <= i < n implies #[trigger] final(a).pre_cab_buffer@[i]
            == if power_on {
            routed(amplified(entered(input@[i])))
        } else {
            zero
        } by {
            assert(within(i, n as int));
        }
    }
}

proof fn lemma_counts_up<S>(states: Seq<S>, n: int, count: spec_fn(S) -> int)
    requires
        0 <= n < states.len(),
        forall|i: int|
            #[trigger] within(i, n) ==> count(states[i + 1]) == count(states[i]) + 1,
    ensures
        count(states[n]) == count(states[0]) + n,
    decreases n,
{
    if n > 0 {
        assert forall|i: int| #[trigger] within(i, n - 1) implies count(states[i + 1]) == count(
            states[i],
        ) + 1 by {
            assert(within(i, n));
        }
        lemma_counts_up(states, n - 1, count);
        assert(within(n - 1, n));
        assert(states[n - 1 + 1] == states[n]);
    }
}

/// Where each stage counts its runs, a buffer of `n` samples runs the boundary,
/// the engine and the selected arm `n` times each when the power is on, and not
/// at all when it is off.
pub proof fn law_first_pass_runs_each_stage_per_sample<F: Copy, E, I, B, Enter, Run, Route>(
    power_on: bool,
    mode: CabModellingMode,
    input: &[F],
    n: usize,
    zero: F,
    enter: Enter,
    run: Run,
    route: Route,
    io_runs: spec_fn(I) -> int,
    engine_runs: spec_fn(E) -> int,
    arm_runs: spec_fn(B) -> int,
) where Enter: Fn(&mut I, F) -> F, Run: Fn(&mut E, F) -> F, Route: Fn(&mut B, F) -> F
    requires
        forall|io: &mut I, x: F, y: F| #[trigger]
            call_ensures(enter, (io, x), y) ==> io_runs(*final(io)) == io_runs(*io) + 1,
        forall|e: &mut E, x: F, y: F| #[trigger]
            call_ensures(run, (e, x), y) ==> engine_runs(*final(e)) == engine_runs(*e) + 1,
        forall|b: &mut B, x: F, y: F| #[trigger]
            call_ensures(route, (b, x), y) ==> arm_runs(*final(b)) == arm_runs(*b) + 1,
    ensures
        forall|a: &mut AudioState<F, E, I, B>| #[trigger]
            call_ensures(
                AudioState::<F, E, I, B>::render_amp::<Enter, Run, Route>,
                (a, power_on, mode, input, n, zero, enter, run, route),
                (),
            ) ==> {
                let count = if power_on {
                    n as int
                } else {
                    0
                };
                &&& io_runs(final(a).amp_io) == io_runs(a.amp_io) + count
                &&& engine_runs(final(a).engine) == engine_runs(a.engine) + count
                &&& mode == CabModellingMode::Ir ==> arm_runs(final(a).cab_ir) == arm_runs(a.cab_ir)
                    + count
                &&& mode == CabModellingMode::Dynamic ==> arm_runs(final(a).cab_dynamic)
                    == arm_runs(a.cab_dynamic) + count
            },
{
    assert forall|states: Seq<I>|
        #![trigger states.len()]
        states.len() == n + 1 && (forall|i: int|
            #[trigger] within(i, n as int) ==> io_runs(states[i + 1]) == io_runs(states[i])
                + 1) implies io_runs(states[n as int]) == io_runs(states[0]) + n by {
        lemma_counts_up(states, n as int, io_runs);
    }
    assert forall|states: Seq<E>|
        #![trigger states.len()]
        states.len() == n + 1 && (forall|i: int|
            #[trigger] within(i, n as int) ==> engine_runs(states[i + 1]) == engine_runs(states[i])
                + 1) implies engine_runs(states[n as int]) == engine_runs(states[0]) + n by {
        lemma_counts_up(states, n as int, engine_runs);
    }
    assert forall|states: Seq<B>|
        #![trigger states.len()]
        states.len() == n + 1 && (forall|i: int|
            #[trigger] within(i, n as int) ==> arm_runs(states[i + 1]) == arm_runs(states[i])
                + 1) implies arm_runs(states[n as int]) == arm_runs(states[0]) + n by {
        lemma_counts_up(states, n as int, arm_runs);
    }
}

/// The second pass hands the selected arm one block: every sample of the
/// buffer, and behind them silence, up to the convolver's block in its mode and
/// none for the dynamic arm. Every sample of the buffer comes out anew on the
/// left and on the right, where the arm answers to each sample; the other arm
/// and everything else stay.
pub proof fn law_second_pass_covers_the_buffer<F: Copy, E, I, B, Block>(
    mode: CabModellingMode,
    n: usize,
    zero: F,
    block: Block,
    to_left: spec_fn(F) -> F,
    to_right: spec_fn(F) -> F,
    length_heard: spec_fn(B) -> int,
) where Block: FnOnce(&mut B, &[F], &mut [F], &mut [F])
    requires
        forall|b: &mut B, pre: &[F], l: &mut [F], r: &mut [F]| #[trigger]
            call_ensures(block, (b, pre, l, r), ()) && l@.len() == pre@.len() && r@.len()
                == pre@.len() ==> {
                &&& final(l)@ == pre@.map_values(to_left)
                &&& final(r)@ == pre@.map_values(to_right)
            },
        forall|b: &mut B, pre: &[F], l: &mut [F], r: &mut [F]| #[trigger]
            call_ensures(block, (b, pre, l, r), ()) ==> length_heard(*final(b)) == pre@.len(),
    ensures
        forall|a: &mut AudioState<F, E, I, B>| #[trigger]
            call_ensures(
                AudioState::<F, E, I, B>::run_cab::<Block>,
                (a, mode, n, zero, block),
                (),
            ) && a.wf() && n
                <= a.ir_block_size ==> {
                &&& forall|i: int|
                    0 <= i < n ==> #[trigger] final(a).post_cab_left@[i] == to_left(
                        a.pre_cab_buffer@[i],
                    )
                &&& forall|i: int|
                    0 <= i < n ==> #[trigger] final(a).post_cab_right@[i] == to_right(
                        a.pre_cab_buffer@[i],
                    )
                &&& forall|i: int|
                    0 <= i < n ==> #[trigger] final(a).pre_cab_buffer@[i] == a.pre_cab_buffer@[i]
                &&& mode == CabModellingMode::Ir ==> {
                    &&& forall|i: int|
                        n <= i < a.ir_block_size ==> #[trigger] final(a).pre_cab_buffer@[i] == zero
                    &&& length_heard(final(a).cab_ir) == a.ir_block_size
                    &&& final(a).cab_dynamic == a.cab_dynamic
                }
                &&& mode == CabModellingMode::Dynamic ==> {
                    &&& forall|i: int|
                        n <= i < a.ir_block_size ==> #[trigger] final(a).pre_cab_buffer@[i]
                            == a.pre_cab_buffer@[i]
                    &&& length_heard(final(a).cab_dynamic) == n
                    &&& final(a).cab_ir == a.cab_ir
                }
                &&& *final(a) == (AudioState {
                    cab_ir: final(a).cab_ir,
                    cab_dynamic: final(a).cab_dynamic,
                    pre_cab_buffer: final(a).pre_cab_buffer,
                    post_cab_left: final(a).post_cab_left,
                    post_cab_right: final(a).post_cab_right,
                    ..*a
                })
            },
{
}

/// The third pass sends every sample of the buffer through the exit boundary,
/// left to the first channel and right to the second, once, and leaves what is
/// behind in the channels. The peak is the one that the boundary reports of
/// them.
pub proof fn law_third_pass_sends_both_sides_out<F: Copy, E, I, B, Exit>(
    n: usize,
    exit: Exit,
    trimmed: spec_fn(F) -> F,
    peak_of: spec_fn(Seq<F>, Seq<F>) -> u32,
    exits: spec_fn(I) -> int,
) where Exit: FnOnce(&mut I, &mut [F], &mut [F]) -> u32
    requires
        forall|io: &mut I, l: &mut [F], r: &mut [F], peak: u32| #[trigger]
            call_ensures(exit, (io, l, r), peak) ==> {
                &&& final(l)@ == l@.map_values(trimmed)
                &&& final(r)@ == r@.map_values(trimmed)
                &&& peak == peak_of(l@, r@)
                &&& exits(*final(io)) == exits(*io) + 1
            },
    ensures
        forall|a: &mut AudioState<F, E, I, B>, left: &mut [F], right: &mut [F], peak: u32| #[trigger]
            call_ensures(
                AudioState::<F, E, I, B>::exit_stereo::<Exit>,
                (a, left, right, n, exit),
                peak,
            ) && a.wf() && n
                <= a.ir_block_size && n <= left@.len() && n <= right@.len() ==> {
                &&& final(left)@.len() == left@.len() && final(right)@.len() == right@.len()
                &&& forall|i: int|
                    0 <= i < left@.len() ==> #[trigger] final(left)@[i] == if i < n {
                        trimmed(a.post_cab_left@[i])
                    } else {
                        left@[i]
                    }
                &&& forall|i: int|
                    0 <= i < right@.len() ==> #[trigger] final(right)@[i] == if i < n {
                        trimmed(a.post_cab_right@[i])
                    } else {
                        right@[i]
                    }
                &&& peak == peak_of(
                    a.post_cab_left@.take(n as int),
                    a.post_cab_right@.take(n as int),
                )
                &&& exits(final(a).amp_io) == exits(a.amp_io) + 1
                &&& *final(a) == (AudioState { amp_io: final(a).amp_io, ..*a })
            },
        forall|a: &mut AudioState<F, E, I, B>, left: &mut [F], peak: u32| #[trigger]
            call_ensures(
                AudioState::<F, E, I, B>::exit_left_only::<Exit>,
                (a, left, n, exit),
                peak,
            ) && a.wf() && n
                <= a.ir_block_size && n <= left@.len() ==> {
                &&& final(left)@.len() == left@.len()
                &&& forall|i: int|
                    0 <= i < left@.len() ==> #[trigger] final(left)@[i] == if i < n {
                        trimmed(a.post_cab_left@[i])
                    } else {
                        left@[i]
                    }
                &&& forall|i: int|
                    0 <= i < a.ir_block_size ==> #[trigger] final(a).post_cab_right@[i] == if i
                        < n {
                        trimmed(a.post_cab_right@[i])
                    } else {
                        a.post_cab_right@[i]
                    }
                &&& peak == peak_of(
                    a.post_cab_left@.take(n as int),
                    a.post_cab_right@.take(n as int),
                )
                &&& exits(final(a).amp_io) == exits(a.amp_io) + 1
                &&& *final(a) == (AudioState {
                    amp_io: final(a).amp_io,
                    post_cab_right: final(a).post_cab_right,
                    ..*a
                })
            },
{
}

proof fn lemma_peak_of_halves<F>(
    left: Seq<F>,
    right: Seq<F>,
    n: int,
    peak_of: spec_fn(Seq<F>, Seq<F>) -> u32,
)
    requires
        0 <= n <= left.len(),
        n <= right.len(),
    ensures
        forall|l: Seq<F>, r: Seq<F>|
            l.len() == n && r.len() == n && (forall|i: int| 0 <= i < n ==> #[trigger] l[i] == left[i])
                && (forall|i: int| 0 <= i < n ==> #[trigger] r[i] == right[i])
                ==> #[trigger] peak_of(l, r) == peak_of(left.take(n), right.take(n)),
{
    assert forall|l: Seq<F>, r: Seq<F>|
        l.len() == n && r.len() == n && (forall|i: int| 0 <= i < n ==> #[trigger] l[i] == left[i])
            && (forall|i: int|
            0 <= i < n ==> #[trigger] r[i] == right[i]) implies #[trigger] peak_of(l, r) == peak_of(
        left.take(n),
        right.take(n),
    ) by {
        assert(l =~= left.take(n));
        assert(r =~= right.take(n));
    }
}

/// What the host gets of a buffer, where every stage answers to each sample:
/// with the power on, every sample of the first channel comes out on the left,
/// and on the right where there is a second channel, after the boundary, the
/// amplifier, the selected arm and the exit boundary in this order; with the
/// power off, silence on every channel. What is behind the buffer stays, and so
/// does the arm that is not selected.
pub proof fn law_every_sample_goes_out<F: Copy, E, I, B, Enter, Run, Route, End, Block, Exit>(
    power_on: bool,
    mode: CabModellingMode,
    channels: usize,
    n: usize,
    zero: F,
    ops: BufferOps<Enter, Run, Route, End, Block, Exit>,
    entered: spec_fn(F) -> F,
    amplified: spec_fn(F) -> F,
    routed: spec_fn(F) -> F,
    to_left: spec_fn(F) -> F,
    to_right: spec_fn(F) -> F,
    trimmed: spec_fn(F) -> F,
    peak_of: spec_fn(Seq<F>, Seq<F>) -> u32,
    ended: spec_fn(E) -> bool,
) where
    Enter: Fn(&mut I, F) -> F,
    Run: Fn(&mut E, F) -> F,
    Route: Fn(&mut B, F) -> F,
    End: FnOnce(&mut E),
    Block: FnOnce(&mut B, &[F], &mut [F], &mut [F]),
    Exit: FnOnce(&mut I, &mut [F], &mut [F]) -> u32,

    requires
        power_on ==> channels >= 1,
        forall|io: &mut I, x: F, y: F| #[trigger]
            call_ensures(ops.enter, (io, x), y) ==> y == entered(x),
        forall|e: &mut E, x: F, y: F| #[trigger]
            call_ensures(ops.run, (e, x), y) ==> y == amplified(x),
        forall|b: &mut B, x: F, y: F| #[trigger]
            call_ensures(ops.route, (b, x), y) ==> y == routed(x),
        forall|e: &mut E| #[trigger] call_ensures(ops.end, (e,), ()) ==> ended(*final(e)),
        forall|b: &mut B, pre: &[F], l: &mut [F], r: &mut [F]| #[trigger]
            call_ensures(ops.block, (b, pre, l, r), ()) && l@.len() == pre@.len() && r@.len()
                == pre@.len() ==> {
                &&& final(l)@ == pre@.map_values(to_left)
                &&& final(r)@ == pre@.map_values(to_right)
            },
        forall|io: &mut I, l: &mut [F], r: &mut [F], peak: u32| #[trigger]
            call_ensures(ops.exit, (io, l, r), peak) ==> {
                &&& final(l)@ == l@.map_values(trimmed)
                &&& final(r)@ == r@.map_values(trimmed)
                &&& peak == peak_of(l@, r@)
            },
    ensures
        forall|
            a: &mut AudioState<F, E, I, B>,
            left: &mut [F],
            right: &mut [F],
            others: &mut [&mut [F]],
            peak: u32,
        | #[trigger]
            call_ensures(
                AudioState::<F, E, I, B>::process_buffer::<Enter, Run, Route, End, Block, Exit>,
                (a, power_on, mode, channels, left, right, others, n, zero, ops),
                peak,
            ) && a.wf() && n <= a.ir_block_size && (channels >= 1 ==> n <= left@.len()) && (channels
                >= 2 ==> n <= right@.len()) ==> {
                &&& forall|i: int|
                    0 <= i < left@.len() ==> #[trigger] final(left)@[i] == if channels == 0 || i
                        >= n {
                        left@[i]
                    } else if power_on {
                        trimmed(to_left(routed(amplified(entered(left@[i])))))
                    } else {
                        zero
                    }
                &&& forall|i: int|
                    0 <= i < right@.len() ==> #[trigger] final(right)@[i] == if channels < 2 || i
                        >= n {
                        right@[i]
                    } else if power_on {
                        trimmed(to_right(routed(amplified(entered(left@[i])))))
                    } else {
                        zero
                    }
                &&& final(left)@.len() == left@.len() && final(right)@.len() == right@.len()
                &&& final(others)@.len() == others@.len()
                &&& forall|k: int, i: int|
                    0 <= k < others@.len() && 0 <= i < (*others@[k])@.len() ==> #[trigger] (*final(
                        others)@[k])@[i] == if power_on || i >= n {
                        (*others@[k])@[i]
                    } else {
                        zero
                    }
                &&& !power_on ==> peak == 0
                &&& power_on ==> forall|l: Seq<F>, r: Seq<F>|
                    l.len() == n && r.len() == n && (forall|i: int|
                        0 <= i < n ==> #[trigger] l[i] == to_left(
                            routed(amplified(entered(left@[i]))),
                        )) && (forall|i: int|
                        0 <= i < n ==> #[trigger] r[i] == to_right(
                            routed(amplified(entered(left@[i]))),
                        )) ==> peak == #[trigger] peak_of(l, r)
                &&& ended(final(a).engine)
                &&& mode == CabModellingMode::Ir ==> final(a).cab_dynamic == a.cab_dynamic
                &&& mode == CabModellingMode::Dynamic ==> final(a).cab_ir == a.cab_ir
                &&& final(a).wf()
                &&& final(a).ir_block_size == a.ir_block_size
                &&& final(a).ir_crossfade_samples == a.ir_crossfade_samples
                &&& final(a).os_factor == a.os_factor
                &&& final(a).meter_window_len == a.meter_window_len
                &&& final(a).meter_window_samples == a.meter_window_samples
                &&& final(a).meter_output_peak == a.meter_output_peak
            },
{
    assert forall|a: &mut AudioState<F, E, I, B>, input: &[F]| #[trigger]
        call_ensures(
            AudioState::<F, E, I, B>::render_amp::<Enter, Run, Route>,
            (a, power_on, mode, input, n, zero, ops.enter, ops.run, ops.route),
            (),
        ) && a.wf() && n <= a.ir_block_size implies forall|i: int|
        0 <= i < n ==> #[trigger] final(a).pre_cab_buffer@[i] == if power_on {
            routed(amplified(entered(input@[i])))
        } else {
            zero
        } by {
        law_first_pass_renders_every_sample::<F, E, I, B, Enter, Run, Route>(
            power_on,
            mode,
            input,
            n,
            zero,
            ops.enter,
            ops.run,
            ops.route,
            entered,
            amplified,
            routed,
        );
    }
    assert forall|a: &mut AudioState<F, E, I, B>| #[trigger]
        call_ensures(
            AudioState::<F, E, I, B>::run_cab::<Block>,
            (a, mode, n, zero, ops.block),
            (),
        ) && a.wf() && n
            <= a.ir_block_size implies {
        &&& forall|i: int|
            0 <= i < n ==> #[trigger] final(a).post_cab_left@[i] == to_left(a.pre_cab_buffer@[i])
        &&& forall|i: int|
            0 <= i < n ==> #[trigger] final(a).post_cab_right@[i] == to_right(a.pre_cab_buffer@[i])
    } by {}
    assert forall|a: &mut AudioState<F, E, I, B>, left: &mut [F], right: &mut [F], peak: u32|
        #[trigger] call_ensures(
            AudioState::<F, E, I, B>::exit_stereo::<Exit>,
            (a, left, right, n, ops.exit),
            peak,
        ) && a.wf() && n <= a.ir_block_size implies forall|l: Seq<F>, r: Seq<F>|
        l.len() == n && r.len() == n && (forall|i: int|
            0 <= i < n ==> #[trigger] l[i] == a.post_cab_left@[i]) && (forall|i: int|
            0 <= i < n ==> #[trigger] r[i] == a.post_cab_right@[i]) ==> peak == #[trigger] peak_of(
            l,
            r,
        ) by {
        lemma_peak_of_halves(a.post_cab_left@, a.post_cab_right@, n as int, peak_of);
    }
    assert forall|a: &mut AudioState<F, E, I, B>, left: &mut [F], peak: u32|
        #[trigger] call_ensures(
            AudioState::<F, E, I, B>::exit_left_only::<Exit>,
            (a, left, n, ops.exit),
            peak,
        ) && a.wf() && n <= a.ir_block_size implies forall|l: Seq<F>, r: Seq<F>|
        l.len() == n && r.len() == n && (forall|i: int|
            0 <= i < n ==> #[trigger] l[i] == a.post_cab_left@[i]) && (forall|i: int|
            0 <= i < n ==> #[trigger] r[i] == a.post_cab_right@[i]) ==> peak == #[trigger] peak_of(
            l,
            r,
        ) by {
        lemma_peak_of_halves(a.post_cab_left@, a.post_cab_right@, n as int, peak_of);
    }
    assert forall|
        a: &mut AudioState<F, E, I, B>,
        left: &mut [F],
        right: &mut [F],
        others: &mut [&mut [F]],
        peak: u32,
    | #[trigger]
        call_ensures(
            AudioState::<F, E, I, B>::process_buffer::<Enter, Run, Route, End, Block, Exit>,
            (a, power_on, mode, channels, left, right, others, n, zero, ops),
            peak,
        ) implies forall|k: int, i: int|
        0 <= k < others@.len() && 0 <= i < (*others@[k])@.len() ==> #[trigger] (*final(
            others)@[k])@[i] == if power_on || i >= n {
            (*others@[k])@[i]
        } else {
            zero
        } by {
        assert forall|k: int, i: int|
            0 <= k < others@.len() && 0 <= i < (*others@[k])@.len() implies #[trigger] (*final(
            others)@[k])@[i] == if power_on || i >= n {
            (*others@[k])@[i]
        } else {
            zero
        } by {
            assert(held(final(others)@, k) == if power_on {
                held(others@, k)
            } else {
                zeroed(held(others@, k), 0, n as int, zero)
            });
        }
    }
}

/// The meter window fills with every sample and closes when it is full, not
/// before. What it publishes is the largest peak since it was opened; then it
/// starts over empty.
pub proof fn law_meter_window_publishes_the_largest_peak<F: Copy, E, I, B>(
    n: usize,
    peak_bits: u32,
)
    ensures
        forall|a: &mut AudioState<F, E, I, B>, published: Option<Magnitude>| #[trigger]
            call_ensures(
                AudioState::<F, E, I, B>::close_meter_window,
                (a, n, peak_bits),
                published,
            ) && a.wf() ==> {
                let held = match published {
                    Some(peak) => peak,
                    None => final(a).meter_output_peak,
                };
                &&& published is Some <==> a.meter_window_samples + n >= a.meter_window_len
                &&& published is Some ==> final(a).meter_window_samples == 0 && final(
                    a).meter_output_peak.bits == 0
                &&& published is None ==> final(a).meter_window_samples == a.meter_window_samples
                    + n
                &&& held.bits == a.meter_output_peak.bits || held.bits == peak_bits
                &&& held.bits >= a.meter_output_peak.bits
                &&& peak_bits <= 0x7F80_0000 ==> held.bits >= peak_bits
                &&& peak_bits > 0x7F80_0000 ==> held.bits == a.meter_output_peak.bits
                &&& *final(a) == (AudioState {
                    meter_window_samples: final(a).meter_window_samples,
                    meter_output_peak: final(a).meter_output_peak,
                    ..*a
                })
            },
{
    assert forall|bits: u32, m: Magnitude| #[trigger] m.raised(bits).bits >= m.bits && (bits
        <= INFINITY_BITS ==> m.raised(bits).bits >= bits) by {
        crate::magnitude::law_patterns_order_as_readings(m.bits, bits);
    }
}

/// A reset leaves nothing of what was played: the engine, the boundary and both
/// arms are at rest, the scratch buffers silent and the meter window empty. The
/// format stays.
pub proof fn law_reset_leaves_nothing_playing<F: Copy, E, I, B, ResetEngine, ResetCab, ResetIo>(
    zero: F,
    reset_engine: ResetEngine,
    reset_cab: ResetCab,
    reset_io: ResetIo,
    engine_rests: spec_fn(E) -> bool,
    arm_rests: spec_fn(B) -> bool,
    io_rests: spec_fn(I) -> bool,
) where ResetEngine: FnOnce(&mut E), ResetCab: Fn(&mut B), ResetIo: FnOnce(&mut I)
    requires
        forall|e: &mut E| #[trigger] call_ensures(reset_engine, (e,), ()) ==> engine_rests(*final(e)),
        forall|b: &mut B| #[trigger] call_ensures(reset_cab, (b,), ()) ==> arm_rests(*final(b)),
        forall|io: &mut I| #[trigger] call_ensures(reset_io, (io,), ()) ==> io_rests(*final(io)),
    ensures
        forall|a: &mut AudioState<F, E, I, B>| #[trigger]
            call_ensures(
                AudioState::<F, E, I, B>::reset::<ResetEngine, ResetCab, ResetIo>,
                (a, zero, reset_engine, reset_cab, reset_io),
                (),
            ) ==> {
                &&& engine_rests(final(a).engine)
                &&& arm_rests(final(a).cab_ir) && arm_rests(final(a).cab_dynamic)
                &&& io_rests(final(a).amp_io)
                &&& final(a).pre_cab_buffer@.len() == a.ir_block_size
                &&& final(a).post_cab_left@.len() == a.ir_block_size
                &&& final(a).post_cab_right@.len() == a.ir_block_size
                &&& forall|i: int|
                    0 <= i < a.ir_block_size ==> #[trigger] final(a).pre_cab_buffer@[i] == zero
                &&& forall|i: int|
                    0 <= i < a.ir_block_size ==> #[trigger] final(a).post_cab_left@[i] == zero
                &&& forall|i: int|
                    0 <= i < a.ir_block_size ==> #[trigger] final(a).post_cab_right@[i] == zero
                &&& final(a).meter_window_samples == 0
                &&& final(a).meter_output_peak.bits == 0
                &&& final(a).ir_block_size == a.ir_block_size
                &&& final(a).ir_crossfade_samples == a.ir_crossfade_samples
                &&& final(a).meter_window_len == a.meter_window_len
                &&& final(a).os_factor == a.os_factor
            },
{
}

/// A loaded impulse response goes to its own arm, with the crossfade of the
/// state, and a rebuilt arm takes the dynamic one's place; where there is none,
/// nothing changes, and in no case anything else does.
pub proof fn law_arms_are_changed_apart<F: Copy, E, I, B, C, Queue>(
    loaded: Option<C>,
    queue: Queue,
    rebuilt: Option<B>,
    faded: spec_fn(B, C, usize) -> B,
) where Queue: FnOnce(&mut B, C, usize)
    requires
        forall|b: &mut B, conv: C, fade: usize| #[trigger]
            call_ensures(queue, (b, conv, fade), ()) ==> *final(b) == faded(*b, conv, fade),
    ensures
        forall|a: &mut AudioState<F, E, I, B>| #[trigger]
            call_ensures(
                AudioState::<F, E, I, B>::swap_in_ir::<C, Queue>,
                (a, loaded, queue),
                (),
            ) ==> {
                &&& final(a).cab_ir == match loaded {
                    Some(conv) => faded(a.cab_ir, conv, a.ir_crossfade_samples),
                    None => a.cab_ir,
                }
                &&& *final(a) == (AudioState { cab_ir: final(a).cab_ir, ..*a })
            },
        forall|a: &mut AudioState<F, E, I, B>| #[trigger]
            call_ensures(AudioState::<F, E, I, B>::install_cab, (a, rebuilt), ()) ==> {
                &&& rebuilt is Some ==> final(a).cab_dynamic == rebuilt->0
                &&& rebuilt is None ==> final(a).cab_dynamic == a.cab_dynamic
                &&& *final(a) == (AudioState { cab_dynamic: final(a).cab_dynamic, ..*a })
            },
{
}

/// The state is built for the host's format and the panel: scratch buffers of
/// silence for the largest buffer, 30 milliseconds of crossfade and 100 of
/// meter window, at least a sample of it, in an engine at the rate and the
/// factor. The boundary is that of the pair which the toggle puts into the
/// socket, with both trims of the panel and the jack's 68 kilohms and megohm.
pub proof fn law_state_is_built_for_host_and_panel<
    F: Copy + From<u16>,
    E,
    I,
    B,
    L,
    P,
    T,
    C,
    S,
    K,
    A,
    Pair,
    Tube,
    Cap,
    Amp,
    SourceZ,
    Grid,
    Solve,
    SetPot,
    Smoother,
    Place,
    Engine,
    Boundary,
    Dynamic,
    Ir,
    Times,
    Over,
    Whole,
>(
    sample_rate: F,
    max_buffer_size: usize,
    os_factor: OversamplingFactor,
    panel: PanelValues<F>,
    microphone: MicSelection,
    room: RoomSelection,
    zero: F,
    one: F,
    inner_ops: BuildOps<Pair, Tube, Cap, Amp, SourceZ, Grid, Solve, SetPot, Smoother>,
    ops: StateOps<Place, Engine, Boundary, Dynamic, Ir>,
    rate_ops: RateOps<Times, Over, Whole>,
    audio: AudioState<F, E, I, B>,
) where
    Pair: Fn(PairBuild) -> P,
    Tube: FnOnce(TubeBuild) -> T,
    Cap: FnOnce(u32, u32) -> K,
    Amp: FnOnce(TopologyOverrides) -> A,
    SourceZ: Fn(&'static str) -> F,
    Grid: FnOnce(&'static str, &T) -> GridTube<F>,
    Solve: Fn(GridNetlist<F>) -> C,
    SetPot: Fn(&mut C, PotHandle, F),
    Smoother: Fn(F, u32) -> S,
    Place: FnOnce(MicXPosition, F) -> L,
    Engine: FnOnce(F, OversamplingFactor, TweedInner<F, P, T, C, S, K, A>) -> E,
    Boundary: FnOnce(&P, BoundaryBuild<F>) -> I,
    Dynamic: FnOnce(CabProcessorConfig<F, L>) -> B,
    Ir: FnOnce(&[F], usize, usize) -> B,
    Times: Fn(F, F) -> F,
    Over: Fn(F, F) -> F,
    Whole: Fn(F) -> usize,

    requires
        call_ensures(
            AudioState::<F, E, I, B>::build::<
                L,
                P,
                T,
                C,
                S,
                K,
                A,
                Pair,
                Tube,
                Cap,
                Amp,
                SourceZ,
                Grid,
                Solve,
                SetPot,
                Smoother,
                Place,
                Engine,
                Boundary,
                Dynamic,
                Ir,
                Times,
                Over,
                Whole,
            >,
            (
                sample_rate,
                max_buffer_size,
                os_factor,
                panel,
                microphone,
                room,
                zero,
                one,
                inner_ops,
                ops,
                rate_ops,
            ),
            audio,
        ),
    ensures
        audio.os_factor == os_factor,
        audio.ir_block_size == max_buffer_size,
        audio.pre_cab_buffer@.len() == max_buffer_size,
        audio.post_cab_left@.len() == max_buffer_size,
        audio.post_cab_right@.len() == max_buffer_size,
        forall|i: int| 0 <= i < max_buffer_size ==> #[trigger] audio.pre_cab_buffer@[i] == zero,
        forall|i: int| 0 <= i < max_buffer_size ==> #[trigger] audio.post_cab_left@[i] == zero,
        forall|i: int| 0 <= i < max_buffer_size ==> #[trigger] audio.post_cab_right@[i] == zero,
        call_ensures(
            samples_in::<F, Times, Over, Whole>,
            (30u16, sample_rate, &rate_ops),
            audio.ir_crossfade_samples,
        ),
        audio.meter_window_len >= 1,
        exists|interval: usize|
            #[trigger] call_ensures(
                samples_in::<F, Times, Over, Whole>,
                (100u16, sample_rate, &rate_ops),
                interval,
            ) && (audio.meter_window_len == interval || interval == 0 && audio.meter_window_len
                == 1),
        audio.meter_window_samples == 0,
        audio.meter_output_peak.bits == 0,
        exists|inner: TweedInner<F, P, T, C, S, K, A>|
            {
                &&& #[trigger] call_ensures(
                    ops.engine,
                    (sample_rate, os_factor, inner),
                    audio.engine,
                )
                &&& inner.current_tube_toggle == panel.tube_toggle
                &&& inner.current_channel_mode == panel.channel
                &&& call_ensures(
                    inner_ops.smoother,
                    (panel.normal_wiper, 20u32),
                    inner.norm_smoother,
                )
                &&& call_ensures(
                    inner_ops.smoother,
                    (panel.bright_wiper, 20u32),
                    inner.bright_smoother,
                )
                &&& call_ensures(inner_ops.smoother, (panel.tone, 20u32), inner.tone_smoother)
                &&& call_ensures(
                    ops.boundary,
                    (
                        if panel.tube_toggle {
                            &inner.v1_pair_mod
                        } else {
                            &inner.v1_pair_stock
                        },
                        (BoundaryBuild {
                            input_trim_db: panel.input_trim_db,
                            output_trim_db: panel.output_trim_db,
                            jack_series_ohms: 68_000,
                            jack_grid_leak_ohms: 1_000_000,
                            dc_block_hz: 10,
                        }),
                    ),
                    audio.amp_io,
                )
            },
        exists|ir: &[F]|
            ir@.len() == 1 && ir@[0] == one && #[trigger] call_ensures(
                ops.ir,
                (ir, max_buffer_size, 1usize),
                audio.cab_ir,
            ),
        exists|placement: L, config: CabProcessorConfig<F, L>|
            {
                &&& #[trigger] call_ensures(
                    ops.place,
                    (panel.mic_x, panel.mic_distance_inches),
                    placement,
                )
                &&& #[trigger] call_ensures(ops.dynamic, (config,), audio.cab_dynamic)
                &&& config.placement == placement
                &&& config.sample_rate == sample_rate
                &&& config.max_buffer_size == max_buffer_size
                &&& config.speaker_id@ == "p12r"@
                &&& config.cabinet_id@ == "tweed_5e3_open_back_1x12"@
                &&& forall|id: &'static str| #[trigger]
                    call_ensures(MicSelection::registry_id, (microphone,), id)
                        ==> config.microphone_id@ == id@
                &&& config.room_enabled == (room != RoomSelection::NoRoom)
                &&& config.room_text() == room.registry_text()
                &&& config.preamp_gain_db == 35
                &&& !config.polarity_inverted && config.pan_percent == 0 && !config.secondary_mic
                &&& config.speaker_enabled && config.cabinet_enabled
                &&& config.mic_enabled && config.response_enabled
            },
{
    crate::magnitude::law_patterns_order_as_readings(audio.meter_output_peak.bits, 0);
}

proof fn lemma_stays_kept<S>(states: Seq<S>, n: int, kept: spec_fn(S) -> bool)
    requires
        0 <= n < states.len(),
        kept(states[0]),
        forall|i: int| #[trigger] within(i, n) && kept(states[i]) ==> kept(states[i + 1]),
    ensures
        kept(states[n]),
    decreases n,
{
    if n > 0 {
        assert forall|i: int| #[trigger] within(i, n - 1) && kept(states[i]) implies kept(
            states[i + 1],
        ) by {
            assert(within(i, n));
        }
        lemma_stays_kept(states, n - 1, kept);
        assert(within(n - 1, n));
        assert(states[n - 1 + 1] == states[n]);
    }
}

/// What the operations on a stage keep, a buffer keeps, however long it is: a
/// property of the engine, of the boundary or of an arm that no operation on it
/// breaks is there after the buffer if it was there before.
pub proof fn law_buffer_keeps_what_its_stages_keep<
    F: Copy,
    E,
    I,
    B,
    Enter,
    Run,
    Route,
    End,
    Block,
    Exit,
>(
    power_on: bool,
    mode: CabModellingMode,
    channels: usize,
    n: usize,
    zero: F,
    ops: BufferOps<Enter, Run, Route, End, Block, Exit>,
    io_kept: spec_fn(I) -> bool,
    engine_kept: spec_fn(E) -> bool,
    arm_kept: spec_fn(B) -> bool,
) where
    Enter: Fn(&mut I, F) -> F,
    Run: Fn(&mut E, F) -> F,
    Route: Fn(&mut B, F) -> F,
    End: FnOnce(&mut E),
    Block: FnOnce(&mut B, &[F], &mut [F], &mut [F]),
    Exit: FnOnce(&mut I, &mut [F], &mut [F]) -> u32,

    requires
        forall|io: &mut I, x: F, y: F| #[trigger]
            call_ensures(ops.enter, (io, x), y) && io_kept(*io) ==> io_kept(*final(io)),
        forall|io: &mut I, l: &mut [F], r: &mut [F], y: u32| #[trigger]
            call_ensures(ops.exit, (io, l, r), y) && io_kept(*io) ==> io_kept(*final(io)),
        forall|e: &mut E, x: F, y: F| #[trigger]
            call_ensures(ops.run, (e, x), y) && engine_kept(*e) ==> engine_kept(*final(e)),
        forall|e: &mut E| #[trigger]
            call_ensures(ops.end, (e,), ()) && engine_kept(*e) ==> engine_kept(*final(e)),
        forall|b: &mut B, x: F, y: F| #[trigger]
            call_ensures(ops.route, (b, x), y) && arm_kept(*b) ==> arm_kept(*final(b)),
        forall|b: &mut B, pre: &[F], l: &mut [F], r: &mut [F]| #[trigger]
            call_ensures(ops.block, (b, pre, l, r), ()) && arm_kept(*b) ==> arm_kept(*final(b)),
    ensures
        forall|
            a: &mut AudioState<F, E, I, B>,
            left: &mut [F],
            right: &mut [F],
            others: &mut [&mut [F]],
            peak: u32,
        | #[trigger]
            call_ensures(
                AudioState::<F, E, I, B>::process_buffer::<Enter, Run, Route, End, Block, Exit>,
                (a, power_on, mode, channels, left, right, others, n, zero, ops),
                peak,
            ) ==> {
                &&& io_kept(a.amp_io) ==> io_kept(final(a).amp_io)
                &&& engine_kept(a.engine) ==> engine_kept(final(a).engine)
                &&& arm_kept(a.cab_ir) ==> arm_kept(final(a).cab_ir)
                &&& arm_kept(a.cab_dynamic) ==> arm_kept(final(a).cab_dynamic)
            },
{
    assert forall|states: Seq<I>|
        #![trigger states.len()]
        states.len() == n + 1 && io_kept(states[0]) && (forall|i: int|
            #[trigger] within(i, n as int) && io_kept(states[i]) ==> io_kept(
                states[i + 1],
            )) implies io_kept(states[n as int]) by {
        lemma_stays_kept(states, n as int, io_kept);
    }
    assert forall|states: Seq<E>|
        #![trigger states.len()]
        states.len() == n + 1 && engine_kept(states[0]) && (forall|i: int|
            #[trigger] within(i, n as int) && engine_kept(states[i]) ==> engine_kept(
                states[i + 1],
            )) implies engine_kept(states[n as int]) by {
        lemma_stays_kept(states, n as int, engine_kept);
    }
    assert forall|states: Seq<B>|
        #![trigger states.len()]
        states.len() == n + 1 && arm_kept(states[0]) && (forall|i: int|
            #[trigger] within(i, n as int) && arm_kept(states[i]) ==> arm_kept(
                states[i + 1],
            )) implies arm_kept(states[n as int]) by {
        lemma_stays_kept(states, n as int, arm_kept);
    }
    assert forall|a: &mut AudioState<F, E, I, B>, input: &[F]| #[trigger]
        call_ensures(
            AudioState::<F, E, I, B>::render_amp::<Enter, Run, Route>,
            (a, power_on, mode, input, n, zero, ops.enter, ops.run, ops.route),
            (),
        ) implies {
        &&& io_kept(a.amp_io) ==> io_kept(final(a).amp_io)
        &&& engine_kept(a.engine) ==> engine_kept(final(a).engine)
        &&& arm_kept(a.cab_ir) ==> arm_kept(final(a).cab_ir)
        &&& arm_kept(a.cab_dynamic) ==> arm_kept(final(a).cab_dynamic)
    } by {}
}

} // verus!
