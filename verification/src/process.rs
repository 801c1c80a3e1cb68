//! What the plug-in does with a buffer of the host: it takes over the controls,
//! runs the three passes, and looks at the health and the meters of the result.

use crate::audio_state::{AudioState, BufferOps};
use crate::grid_network::PotHandle;
use crate::inner::{PlateVolts, TweedInner};
use crate::plugin::{output_reading, TheTweed};
use crate::selection::{CabModellingMode, ChannelMode, MicXPosition};
use vstd::prelude::*;

#[allow(unused_imports)]
use crate::audio_state::{held, zeroed};
#[allow(unused_imports)]
use crate::magnitude::Magnitude;
#[allow(unused_imports)]
use crate::plugin::LATCHED_SAMPLES;
#[allow(unused_imports)]
use crate::stage::{runs, runs_on, runs_on_two, takes_two};

verus! {

/// The parameters as they stand when a buffer comes in; the volumes are wiper
/// positions.
#[derive(Debug, Clone, Copy)]
pub struct PanelValues<F> {
    pub power_on: bool,
    pub channel: ChannelMode,
    pub tube_toggle: bool,
    pub normal_wiper: F,
    pub bright_wiper: F,
    pub tone: F,
    pub input_trim_db: F,
    pub output_trim_db: F,
    pub cab_mode: CabModellingMode,
    pub mic_x: MicXPosition,
    pub mic_distance_inches: F,
}

/// The operations that put controls in place.
pub struct ControlOps<
    Queue,
    TrimMoved,
    Trim,
    Far,
    Place,
    InnerMut,
    InnerRef,
    Reset,
    SetTarget,
    SetPot,
    Ceiling,
    Begin,
    Output,
> {
    /// Hands an impulse response to the convolver of an arm, to fade over to
    /// in so many samples.
    pub queue: Queue,
    /// Whether two input trims are apart.
    pub trim_moved: TrimMoved,
    /// Sets the input trim of the entry boundary and of its meter.
    pub trim: Trim,
    /// Whether two microphone distances are apart.
    pub far: Far,
    /// Places the microphone of an arm.
    pub place: Place,
    /// The amplifier inside the engine, to change.
    pub inner_mut: InnerMut,
    /// The amplifier inside the engine, to look at.
    pub inner: InnerRef,
    /// Puts a circuit back to rest.
    pub reset: Reset,
    /// Gives a smoother the position it has to glide to.
    pub set_target: SetTarget,
    /// Sets the wiper of a pot of a circuit.
    pub set_pot: SetPot,
    /// Sets the ceiling of the input meter to that of a pair.
    pub ceiling: Ceiling,
    /// Starts a buffer of so many samples.
    pub begin: Begin,
    /// Sets the output trim of the exit boundary.
    pub output: Output,
}

/// The operations that look at a finished buffer.
pub struct MeterOps<Run, Clear, Peak, InnerMut, InnerRef, Rail, Mean, Decibels> {
    /// How long the latest run of samples that are no numbers is.
    pub run: Run,
    /// Clears that count.
    pub clear: Clear,
    /// Reads the input peak, in volts.
    pub peak: Peak,
    /// The amplifier inside the engine, to change.
    pub inner_mut: InnerMut,
    /// The amplifier inside the engine, to look at.
    pub inner: InnerRef,
    /// Reads the mean rail of the power tubes.
    pub rail: Rail,
    /// The mean of a sum of so many.
    pub mean: Mean,
    /// The decibels of a peak that is given as a bit pattern.
    pub decibels: Decibels,
}

/// What the meters of a powered amplifier read.
#[derive(Debug, Clone, Copy)]
pub struct PowerReadings<F> {
    pub bplus_volts: F,
    pub plates: Option<PlateVolts<F>>,
}

/// What is published when a meter window closes; a plug-in that is off has no
/// readings of its power section.
#[derive(Debug, Clone, Copy)]
pub struct MeterReadings<F> {
    pub peak_volts: F,
    pub power: Option<PowerReadings<F>>,
    pub output_db: F,
}

impl<F: Copy, E, I, B> TheTweed<F, AudioState<F, E, I, B>> {
    /// The audio state, which is there once the plug-in is initialised.
    pub open spec fn audio(self) -> AudioState<F, E, I, B> {
        self.audio_state->0
    }

    /// The plug-in is initialised, and its audio state is well-formed.
    pub open spec fn ready(self) -> bool {
        self.audio_state is Some && self.audio().wf()
    }

    /// Takes over what has changed since the buffer before: a loaded impulse
    /// response, a rebuilt cabinet, the trims, the placement of the
    /// microphone, the tube, the channel and the knobs. The input trim and the
    /// placement are put in place only where they have moved.
    pub fn take_over_controls<
        V,
        P,
        T,
        C,
        S,
        K,
        A,
        Queue,
        TrimMoved,
        Trim,
        Far,
        Place,
        InnerMut,
        InnerRef,
        Reset,
        SetTarget,
        SetPot,
        Ceiling,
        Begin,
        Output,
    >(
        &mut self,
        panel: PanelValues<F>,
        loaded_ir: Option<V>,
        rebuilt_cab: Option<B>,
        n: usize,
        ops: ControlOps<
            Queue,
            TrimMoved,
            Trim,
            Far,
            Place,
            InnerMut,
            InnerRef,
            Reset,
            SetTarget,
            SetPot,
            Ceiling,
            Begin,
            Output,
        >,
    ) where
        Queue: FnOnce(&mut B, V, usize),
        TrimMoved: FnOnce(F, F) -> bool,
        Trim: FnOnce(&mut I, F),
        Far: FnOnce(F, F) -> bool,
        Place: FnOnce(&mut B, MicXPosition, F),
        InnerMut: Fn(&mut E) -> &mut TweedInner<F, P, T, C, S, K, A>,
        InnerRef: Fn(&E) -> &TweedInner<F, P, T, C, S, K, A>,
        Reset: FnOnce(&mut C),
        SetTarget: Fn(&mut S, F) + Copy,
        SetPot: Fn(&mut C, PotHandle, F),
        Ceiling: FnOnce(&mut I, &P),
        Begin: FnOnce(&mut E, usize),
        Output: FnOnce(&mut I, F),

        requires
            old(self).ready(),
            runs_on_two(ops.queue),
            takes_two(ops.trim_moved),
            runs_on(ops.trim),
            takes_two(ops.far),
            runs_on_two(ops.place),
            forall|e: &mut E| #[trigger] call_requires(ops.inner_mut, (e,)),
            forall|e: &E| #[trigger] call_requires(ops.inner, (e,)),
            runs(ops.reset),
            runs_on(ops.set_target),
            runs_on_two(ops.set_pot),
            forall|io: &mut I, pair: &P| #[trigger] call_requires(ops.ceiling, (io, pair)),
            runs_on(ops.begin),
            runs_on(ops.output),
        ensures
            final(self).ready(),
            exists|
                p0: &mut Self,
                p1: &mut Self,
                moved: Option<F>,
                placed: Option<(MicXPosition, F)>,
                e0: &mut E,
                n0: &mut TweedInner<F, P, T, C, S, K, A>,
                m0: &mut TweedInner<F, P, T, C, S, K, A>,
                flipped: bool,
                e1: &mut E,
                n1: &mut TweedInner<F, P, T, C, S, K, A>,
                m1: &mut TweedInner<F, P, T, C, S, K, A>,
                e2: &mut E,
                io: &mut I,
            |
                {
                    &&& #[trigger] call_ensures(
                        TheTweed::<F, AudioState<F, E, I, B>>::follow_input_trim::<TrimMoved>,
                        (p0, panel.input_trim_db, ops.trim_moved),
                        moved,
                    )
                    &&& #[trigger] call_ensures(
                        TheTweed::<F, AudioState<F, E, I, B>>::follow_placement::<Far>,
                        (p1, panel.mic_x, panel.mic_distance_inches, ops.far),
                        placed,
                    )
                    &&& *p0 == *old(self) && *p1 == *final(p0)
                    &&& *final(self) == (TheTweed {
                        audio_state: final(self).audio_state,
                        ..*final(p1)
                    })
                    // The amplifier follows the toggle, then the panel, and
                    // then starts the buffer.
                    &&& #[trigger] call_ensures(ops.inner_mut, (e0,), n0)
                    &&& #[trigger] call_ensures(
                        TweedInner::<F, P, T, C, S, K, A>::follow_tube_toggle::<Reset, SetTarget, SetPot>,
                        (
                            m0,
                            panel.tube_toggle,
                            panel.normal_wiper,
                            panel.bright_wiper,
                            panel.tone,
                            ops.reset,
                            ops.set_target,
                            ops.set_pot,
                        ),
                        flipped,
                    )
                    &&& *m0 == *n0 && *final(m0) == *final(n0)
                    &&& #[trigger] call_ensures(ops.inner_mut, (e1,), n1)
                    &&& #[trigger] call_ensures(
                        TweedInner::<F, P, T, C, S, K, A>::follow_panel::<SetTarget>,
                        (
                            m1,
                            panel.channel,
                            panel.normal_wiper,
                            panel.bright_wiper,
                            panel.tone,
                            ops.set_target,
                        ),
                        (),
                    )
                    &&& *m1 == *n1 && *final(m1) == *final(n1)
                    &&& #[trigger] call_ensures(ops.begin, (e2, n), ())
                    &&& *e0 == old(self).audio().engine && *e1 == *final(e0) && *e2 == *final(e1)
                    &&& *final(e2) == final(self).audio().engine
                    // The boundary gets a trim that moved, the ceiling of a
                    // tube that was exchanged, and the output trim.
                    &&& #[trigger] call_ensures(ops.output, (io, panel.output_trim_db), ())
                    &&& *final(io) == final(self).audio().amp_io
                    &&& if flipped {
                        exists|ceiled: &mut I, socket: &TweedInner<F, P, T, C, S, K, A>|
                            {
                                &&& #[trigger] call_ensures(ops.inner, (&*final(e0),), socket)
                                &&& #[trigger] call_ensures(
                                    ops.ceiling,
                                    (ceiled, &socket.active()),
                                    (),
                                )
                                &&& *final(ceiled) == *io
                                &&& match moved {
                                    None => *ceiled == old(self).audio().amp_io,
                                    Some(db) => exists|trimmed: &mut I|
                                        *trimmed == old(self).audio().amp_io && *final(trimmed) == *ceiled
                                            && #[trigger] call_ensures(ops.trim, (trimmed, db), ()),
                                }
                            }
                    } else {
                        match moved {
                            None => *io == old(self).audio().amp_io,
                            Some(db) => exists|trimmed: &mut I|
                                *trimmed == old(self).audio().amp_io && *final(trimmed) == *io
                                    && #[trigger] call_ensures(ops.trim, (trimmed, db), ()),
                        }
                    }
                    // A rebuilt arm comes in before the microphone is placed.
                    &&& ({
                        let arm = match rebuilt_cab {
                            Some(rebuilt) => rebuilt,
                            None => old(self).audio().cab_dynamic,
                        };
                        match placed {
                            None => final(self).audio().cab_dynamic == arm,
                            Some((x, distance)) => exists|b: &mut B|
                                *b == arm && *final(b) == final(self).audio().cab_dynamic
                                    && #[trigger] call_ensures(ops.place, (b, x, distance), ()),
                        }
                    })
                },
            loaded_ir is None ==> final(self).audio().cab_ir == old(self).audio().cab_ir,
            loaded_ir matches Some(conv) ==> exists|b: &mut B|
                *b == old(self).audio().cab_ir && *final(b) == final(self).audio().cab_ir
                    && #[trigger] call_ensures(
                    ops.queue,
                    (b, conv, old(self).audio().ir_crossfade_samples),
                    (),
                ),
            final(self).audio() == (AudioState {
                engine: final(self).audio().engine,
                amp_io: final(self).audio().amp_io,
                cab_ir: final(self).audio().cab_ir,
                cab_dynamic: final(self).audio().cab_dynamic,
                ..old(self).audio()
            }),
    {
        let ControlOps {
            queue,
            trim_moved,
            trim,
            far,
            place,
            inner_mut,
            inner,
            reset,
            set_target,
            set_pot,
            ceiling,
            begin,
            output,
        } = ops;
        let moved = self.follow_input_trim(panel.input_trim_db, trim_moved);
        let placed = self.follow_placement(panel.mic_x, panel.mic_distance_inches, far);
        if let Some(audio) = &mut self.audio_state {
            audio.swap_in_ir(loaded_ir, queue);
            audio.install_cab(rebuilt_cab);
            if let Some(db) = moved {
                trim(&mut audio.amp_io, db);
            }
            if let Some((x, distance)) = placed {
                place(&mut audio.cab_dynamic, x, distance);
            }
            let flipped = inner_mut(&mut audio.engine).follow_tube_toggle(
                panel.tube_toggle,
                panel.normal_wiper,
                panel.bright_wiper,
                panel.tone,
                reset,
                set_target,
                set_pot,
            );
            if flipped {
                ceiling(&mut audio.amp_io, inner(&audio.engine).active_pair());
            }
            inner_mut(&mut audio.engine).follow_panel(
                panel.channel,
                panel.normal_wiper,
                panel.bright_wiper,
                panel.tone,
                set_target,
            );
            begin(&mut audio.engine, n);
            output(&mut audio.amp_io, panel.output_trim_db);
        }
    }

    /// Looks at a buffer that went out: a run of samples that are no numbers
    /// which has become too long is shown and its count cleared, and the
    /// buffer is counted into the meter window. When the window closes, the
    /// meters are read, and the plate meters emptied for the next one.
    pub fn finish_buffer<
        P,
        T,
        C,
        S,
        K,
        A,
        Run,
        Clear,
        Peak,
        InnerMut,
        InnerRef,
        Rail,
        Mean,
        Decibels,
    >(
        &mut self,
        power_on: bool,
        n: usize,
        peak_bits: u32,
        zero: F,
        ops: MeterOps<Run, Clear, Peak, InnerMut, InnerRef, Rail, Mean, Decibels>,
    ) -> (readings: Option<MeterReadings<F>>) where
        F: From<i8>,
        Run: FnOnce(&I) -> u32,
        Clear: FnOnce(&mut I),
        Peak: FnOnce(&mut I) -> F,
        InnerMut: Fn(&mut E) -> &mut TweedInner<F, P, T, C, S, K, A>,
        InnerRef: Fn(&E) -> &TweedInner<F, P, T, C, S, K, A>,
        Rail: FnOnce(&A) -> F,
        Mean: Fn(F, u32) -> F,
        Decibels: FnOnce(u32) -> F,

        requires
            old(self).ready(),
            forall|io: &I| #[trigger] call_requires(ops.run, (io,)),
            runs(ops.clear),
            runs(ops.peak),
            forall|e: &mut E| #[trigger] call_requires(ops.inner_mut, (e,)),
            forall|e: &E| #[trigger] call_requires(ops.inner, (e,)),
            forall|amp: &A| #[trigger] call_requires(ops.rail, (amp,)),
            takes_two(ops.mean),
            forall|bits: u32| #[trigger] call_requires(ops.decibels, (bits,)),
        ensures
            final(self).ready(),
            exists|run_length: u32, a: &mut AudioState<F, E, I, B>, closed: Option<Magnitude>|
                {
                    &&& #[trigger] call_ensures(
                        ops.run,
                        (&old(self).audio().amp_io,),
                        run_length,
                    )
                    &&& *final(self) == (TheTweed {
                        audio_state: final(self).audio_state,
                        output_latched: old(self).output_latched || run_length > LATCHED_SAMPLES,
                        ..*old(self)
                    })
                    &&& #[trigger] call_ensures(
                        AudioState::<F, E, I, B>::close_meter_window,
                        (a, n, peak_bits),
                        closed,
                    )
                    &&& *a == (AudioState { amp_io: a.amp_io, ..old(self).audio() })
                    &&& if run_length > LATCHED_SAMPLES {
                        exists|io: &mut I|
                            *io == old(self).audio().amp_io && *final(io) == a.amp_io
                                && #[trigger] call_ensures(ops.clear, (io,), ())
                    } else {
                        a.amp_io == old(self).audio().amp_io
                    }
                    &&& match closed {
                        None => readings is None && final(self).audio() == *final(a),
                        Some(held) => readings is Some && exists|
                            io: &mut I,
                            volts: F,
                            e: &mut E,
                            inner: &mut TweedInner<F, P, T, C, S, K, A>,
                            emptied: &mut TweedInner<F, P, T, C, S, K, A>,
                        |
                            {
                                &&& #[trigger] call_ensures(ops.peak, (io,), volts)
                                &&& readings->0.peak_volts == volts
                                &&& *io == a.amp_io && *final(io) == final(self).audio().amp_io
                                &&& #[trigger] call_ensures(ops.inner_mut, (e,), inner)
                                &&& #[trigger] call_ensures(
                                    TweedInner::<F, P, T, C, S, K, A>::reset_plate_meters,
                                    (emptied, zero),
                                    (),
                                )
                                &&& *emptied == *inner && *final(emptied) == *final(inner)
                                &&& *e == old(self).audio().engine && *final(e) == final(
                                    self).audio().engine
                                &&& final(self).audio() == (AudioState {
                                    amp_io: *final(io),
                                    engine: *final(e),
                                    ..*final(a)
                                })
                                // A plug-in that is off has no readings of its
                                // power section, and the others are taken
                                // before the meters are emptied.
                                &&& readings->0.power is Some == power_on
                                &&& power_on ==> exists|
                                    seen: &TweedInner<F, P, T, C, S, K, A>,
                                    bplus_volts: F,
                                    plates: Option<PlateVolts<F>>,
                                |
                                    {
                                        &&& #[trigger] call_ensures(ops.inner, (&*e,), seen)
                                        &&& readings->0.power == Some(
                                            (PowerReadings { bplus_volts, plates }),
                                        )
                                        &&& #[trigger] call_ensures(
                                            ops.rail,
                                            (&seen.amp,),
                                            bplus_volts,
                                        )
                                        &&& #[trigger] call_ensures(
                                            TweedInner::<F, P, T, C, S, K, A>::plate_means::<Mean>,
                                            (seen, ops.mean),
                                            plates,
                                        )
                                    }
                                &&& call_ensures(
                                    output_reading::<F, Decibels>,
                                    (held, ops.decibels),
                                    readings->0.output_db,
                                )
                            },
                    }
                },
    {
        let MeterOps { run, clear, peak, inner_mut, inner, rail, mean, decibels } = ops;
        let run_length: u32 = match &self.audio_state {
            Some(audio) => run(&audio.amp_io),
            None => 0,
        };
        let latched = self.check_health(run_length);
        let mut readings: Option<MeterReadings<F>> = None;
        if let Some(audio) = &mut self.audio_state {
            if latched {
                clear(&mut audio.amp_io);
            }
            if let Some(held) = audio.close_meter_window(n, peak_bits) {
                let peak_volts = peak(&mut audio.amp_io);
                let power = if power_on {
                    let seen = inner(&audio.engine);
                    let power = PowerReadings {
                        bplus_volts: rail(&seen.amp),
                        plates: seen.plate_means(mean),
                    };
                    Some(power)
                } else {
                    None
                };
                let output_db = output_reading(held, decibels);
                inner_mut(&mut audio.engine).reset_plate_meters(zero);
                readings = Some(MeterReadings { peak_volts, power, output_db });
            }
        }
        readings
    }

    /// Runs a buffer of the host through the plug-in and says what the meters
    /// read, if their window closed with it.
    pub fn process<
        V,
        P,
        T,
        C,
        S,
        K,
        A,
        Queue,
        TrimMoved,
        Trim,
        Far,
        Place,
        InnerMut,
        InnerRef,
        Reset,
        SetTarget,
        SetPot,
        Ceiling,
        Begin,
        Output,
        Enter,
        Run,
        Route,
        End,
        Block,
        Exit,
        RunLength,
        Clear,
        Peak,
        SeenMut,
        SeenRef,
        Rail,
        Mean,
        Decibels,
    >(
        &mut self,
        panel: PanelValues<F>,
        loaded_ir: Option<V>,
        rebuilt_cab: Option<B>,
        channels: usize,
        left: &mut [F],
        right: &mut [F],
        others: &mut [&mut [F]],
        n: usize,
        zero: F,
        control_ops: ControlOps<
            Queue,
            TrimMoved,
            Trim,
            Far,
            Place,
            InnerMut,
            InnerRef,
            Reset,
            SetTarget,
            SetPot,
            Ceiling,
            Begin,
            Output,
        >,
        buffer_ops: BufferOps<Enter, Run, Route, End, Block, Exit>,
        meter_ops: MeterOps<RunLength, Clear, Peak, SeenMut, SeenRef, Rail, Mean, Decibels>,
    ) -> (readings: Option<MeterReadings<F>>) where
        F: From<i8>,
        Queue: FnOnce(&mut B, V, usize),
        TrimMoved: FnOnce(F, F) -> bool,
        Trim: FnOnce(&mut I, F),
        Far: FnOnce(F, F) -> bool,
        Place: FnOnce(&mut B, MicXPosition, F),
        InnerMut: Fn(&mut E) -> &mut TweedInner<F, P, T, C, S, K, A>,
        InnerRef: Fn(&E) -> &TweedInner<F, P, T, C, S, K, A>,
        Reset: FnOnce(&mut C),
        SetTarget: Fn(&mut S, F) + Copy,
        SetPot: Fn(&mut C, PotHandle, F),
        Ceiling: FnOnce(&mut I, &P),
        Begin: FnOnce(&mut E, usize),
        Output: FnOnce(&mut I, F),
        Enter: Fn(&mut I, F) -> F,
        Run: Fn(&mut E, F) -> F,
        Route: Fn(&mut B, F) -> F,
        End: FnOnce(&mut E),
        Block: FnOnce(&mut B, &[F], &mut [F], &mut [F]),
        Exit: FnOnce(&mut I, &mut [F], &mut [F]) -> u32,
        RunLength: FnOnce(&I) -> u32,
        Clear: FnOnce(&mut I),
        Peak: FnOnce(&mut I) -> F,
        SeenMut: Fn(&mut E) -> &mut TweedInner<F, P, T, C, S, K, A>,
        SeenRef: Fn(&E) -> &TweedInner<F, P, T, C, S, K, A>,
        Rail: FnOnce(&A) -> F,
        Mean: Fn(F, u32) -> F,
        Decibels: FnOnce(u32) -> F,

        requires
            old(self).ready(),
            n <= old(self).audio().ir_block_size,
            panel.power_on ==> channels >= 1,
            channels >= 1 ==> n <= old(left)@.len(),
            channels >= 2 ==> n <= old(right)@.len(),
            !panel.power_on ==> forall|i: int|
                0 <= i < old(others)@.len() ==> n <= (#[trigger] held(old(others)@, i)).len(),
            runs_on_two(control_ops.queue),
            takes_two(control_ops.trim_moved),
            runs_on(control_ops.trim),
            takes_two(control_ops.far),
            runs_on_two(control_ops.place),
            forall|e: &mut E| #[trigger] call_requires(control_ops.inner_mut, (e,)),
            forall|e: &E| #[trigger] call_requires(control_ops.inner, (e,)),
            runs(control_ops.reset),
            runs_on(control_ops.set_target),
            runs_on_two(control_ops.set_pot),
            forall|io: &mut I, pair: &P| #[trigger] call_requires(control_ops.ceiling, (io, pair)),
            runs_on(control_ops.begin),
            runs_on(control_ops.output),
            runs_on(buffer_ops.enter),
            runs_on(buffer_ops.run),
            runs_on(buffer_ops.route),
            runs(buffer_ops.end),
            forall|b: &mut B, pre: &[F], l: &mut [F], r: &mut [F]| #[trigger]
                call_requires(buffer_ops.block, (b, pre, l, r)),
            forall|b: &mut B, pre: &[F], l: &mut [F], r: &mut [F]| #[trigger]
                call_ensures(buffer_ops.block, (b, pre, l, r), ()) ==> final(l)@.len() == l@.len()
                    && final(r)@.len() == r@.len(),
            forall|io: &mut I, l: &mut [F], r: &mut [F]| #[trigger]
                call_requires(buffer_ops.exit, (io, l, r)),
            forall|io: &mut I, l: &mut [F], r: &mut [F], y: u32| #[trigger]
                call_ensures(buffer_ops.exit, (io, l, r), y) ==> final(r)@.len() == r@.len(),
            forall|io: &I| #[trigger] call_requires(meter_ops.run, (io,)),
            runs(meter_ops.clear),
            runs(meter_ops.peak),
            forall|e: &mut E| #[trigger] call_requires(meter_ops.inner_mut, (e,)),
            forall|e: &E| #[trigger] call_requires(meter_ops.inner, (e,)),
            forall|amp: &A| #[trigger] call_requires(meter_ops.rail, (amp,)),
            takes_two(meter_ops.mean),
            forall|bits: u32| #[trigger] call_requires(meter_ops.decibels, (bits,)),
        ensures
            final(self).ready(),
            // A plug-in that is off lets nothing through.
            !panel.power_on && channels >= 1 ==> final(left)@ == zeroed(
                old(left)@,
                0,
                n as int,
                zero,
            ),
            !panel.power_on && channels >= 2 ==> final(right)@ == zeroed(
                old(right)@,
                0,
                n as int,
                zero,
            ),
            // The channels beyond the second carry nothing of their own.
            final(others)@.len() == old(others)@.len(),
            forall|i: int|
                0 <= i < old(others)@.len() ==> #[trigger] held(final(others)@, i) == (
                if panel.power_on {
                    held(old(others)@, i)
                } else {
                    zeroed(held(old(others)@, i), 0, n as int, zero)
                }) && final(final(others)@[i])@ == final(old(others)@[i])@,
            // An amplifier that was seen to latch up stays shown as such.
            old(self).output_latched ==> final(self).output_latched,
            exists|
                p0: &mut Self,
                a: &mut AudioState<F, E, I, B>,
                l: &mut [F],
                r: &mut [F],
                o: &mut [&mut [F]],
                peak_bits: u32,
                p1: &mut Self,
            |
                {
                    &&& #[trigger] call_ensures(
                        TheTweed::<F, AudioState<F, E, I, B>>::take_over_controls::<
                            V,
                            P,
                            T,
                            C,
                            S,
                            K,
                            A,
                            Queue,
                            TrimMoved,
                            Trim,
                            Far,
                            Place,
                            InnerMut,
                            InnerRef,
                            Reset,
                            SetTarget,
                            SetPot,
                            Ceiling,
                            Begin,
                            Output,
                        >,
                        (p0, panel, loaded_ir, rebuilt_cab, n, control_ops),
                        (),
                    )
                    &&& *p0 == *old(self)
                    &&& #[trigger] call_ensures(
                        AudioState::<F, E, I, B>::process_buffer::<
                            Enter,
                            Run,
                            Route,
                            End,
                            Block,
                            Exit,
                        >,
                        (
                            a,
                            panel.power_on,
                            panel.cab_mode,
                            channels,
                            l,
                            r,
                            o,
                            n,
                            zero,
                            buffer_ops,
                        ),
                        peak_bits,
                    )
                    &&& *a == final(p0).audio()
                    &&& l@ == old(left)@ && final(l)@ == final(left)@
                    &&& r@ == old(right)@ && final(r)@ == final(right)@
                    &&& o@ == old(others)@ && final(o)@ == final(others)@
                    &&& #[trigger] call_ensures(
                        TheTweed::<F, AudioState<F, E, I, B>>::finish_buffer::<
                            P,
                            T,
                            C,
                            S,
                            K,
                            A,
                            RunLength,
                            Clear,
                            Peak,
                            SeenMut,
                            SeenRef,
                            Rail,
                            Mean,
                            Decibels,
                        >,
                        (p1, panel.power_on, n, peak_bits, zero, meter_ops),
                        readings,
                    )
                    &&& *p1 == (TheTweed { audio_state: Some(*final(a)), ..*final(p0) })
                    &&& *final(p1) == *final(self)
                },
    {
        self.take_over_controls(panel, loaded_ir, rebuilt_cab, n, control_ops);
        let peak_bits: u32 = match &mut self.audio_state {
            Some(audio) => audio.process_buffer(
                panel.power_on,
                panel.cab_mode,
                channels,
                left,
                right,
                others,
                n,
                zero,
                buffer_ops,
            ),
            None => 0,
        };
        self.finish_buffer(panel.power_on, n, peak_bits, zero, meter_ops)
    }

    /// Puts the audio state back to rest, if there is one.
    pub fn reset<ResetEngine, ResetCab, ResetIo>(
        &mut self,
        zero: F,
        reset_engine: ResetEngine,
        reset_cab: ResetCab,
        reset_io: ResetIo,
    ) where ResetEngine: FnOnce(&mut E), ResetCab: Fn(&mut B), ResetIo: FnOnce(&mut I)
        requires
            old(self).audio_state is Some ==> old(self).ready(),
            runs(reset_engine),
            runs(reset_cab),
            runs(reset_io),
        ensures
            old(self).audio_state is None ==> *final(self) == *old(self),
            old(self).audio_state is Some ==> final(self).ready() && exists|
                a: &mut AudioState<F, E, I, B>,
            |
                {
                    &&& #[trigger] call_ensures(
                        AudioState::<F, E, I, B>::reset::<ResetEngine, ResetCab, ResetIo>,
                        (a, zero, reset_engine, reset_cab, reset_io),
                        (),
                    )
                    &&& *a == old(self).audio()
                    &&& *final(self) == (TheTweed {
                        audio_state: Some(*final(a)),
                        ..*old(self)
                    })
                },
    {
        if let Some(audio) = &mut self.audio_state {
            audio.reset(zero, reset_engine, reset_cab, reset_io);
        }
    }
}

/// After the controls are taken over, everything stands as the panel has it:
/// the tube and the channel of the amplifier, the targets of its knobs, the
/// output trim, and the input trim and the microphone where they had moved. A
/// tube that was exchanged brings the ceiling of its own pair. The buffer is
/// started with its length, a loaded impulse response fades in on its arm, and
/// a rebuilt arm is in place before the microphone.
pub proof fn law_controls_stand_as_the_panel_has_them<
    F: Copy,
    E,
    I,
    B,
    V,
    P,
    T,
    C,
    S,
    K,
    A,
    Queue,
    TrimMoved,
    Trim,
    Far,
    Place,
    InnerMut,
    InnerRef,
    Reset,
    SetTarget,
    SetPot,
    Ceiling,
    Begin,
    Output,
>(
    panel: PanelValues<F>,
    loaded_ir: Option<V>,
    rebuilt_cab: Option<B>,
    n: usize,
    ops: ControlOps<
        Queue,
        TrimMoved,
        Trim,
        Far,
        Place,
        InnerMut,
        InnerRef,
        Reset,
        SetTarget,
        SetPot,
        Ceiling,
        Begin,
        Output,
    >,
    amplifier: spec_fn(E) -> TweedInner<F, P, T, C, S, K, A>,
    started: spec_fn(E) -> int,
    target: spec_fn(S) -> F,
    input_trim: spec_fn(I) -> F,
    output_trim: spec_fn(I) -> F,
    ceiling: spec_fn(I) -> P,
    placed: spec_fn(B, MicXPosition, F) -> B,
    faded: spec_fn(B, V, usize) -> B,
    trims_apart: spec_fn(F, F) -> bool,
    distances_apart: spec_fn(F, F) -> bool,
) where
    Queue: FnOnce(&mut B, V, usize),
    TrimMoved: FnOnce(F, F) -> bool,
    Trim: FnOnce(&mut I, F),
    Far: FnOnce(F, F) -> bool,
    Place: FnOnce(&mut B, MicXPosition, F),
    InnerMut: Fn(&mut E) -> &mut TweedInner<F, P, T, C, S, K, A>,
    InnerRef: Fn(&E) -> &TweedInner<F, P, T, C, S, K, A>,
    Reset: FnOnce(&mut C),
    SetTarget: Fn(&mut S, F) + Copy,
    SetPot: Fn(&mut C, PotHandle, F),
    Ceiling: FnOnce(&mut I, &P),
    Begin: FnOnce(&mut E, usize),
    Output: FnOnce(&mut I, F),

    requires
        forall|e: &mut E, i: &mut TweedInner<F, P, T, C, S, K, A>| #[trigger]
            call_ensures(ops.inner_mut, (e,), i) ==> *i == amplifier(*e) && amplifier(*final(e))
                == *final(i),
        forall|e: &E, i: &TweedInner<F, P, T, C, S, K, A>| #[trigger]
            call_ensures(ops.inner, (e,), i) ==> *i == amplifier(*e),
        forall|e: &mut E, k: usize| #[trigger]
            call_ensures(ops.begin, (e, k), ()) ==> amplifier(*final(e)) == amplifier(*e) && started(
                *final(e)) == k,
        forall|s: &mut S, x: F| #[trigger]
            call_ensures(ops.set_target, (s, x), ()) ==> target(*final(s)) == x,
        forall|io: &mut I, db: F| #[trigger]
            call_ensures(ops.trim, (io, db), ()) ==> input_trim(*final(io)) == db && ceiling(
                *final(io)) == ceiling(*io),
        forall|io: &mut I, pair: &P| #[trigger]
            call_ensures(ops.ceiling, (io, pair), ()) ==> ceiling(*final(io)) == *pair
                && input_trim(*final(io)) == input_trim(*io),
        forall|io: &mut I, db: F| #[trigger]
            call_ensures(ops.output, (io, db), ()) ==> output_trim(*final(io)) == db && input_trim(
                *final(io)) == input_trim(*io) && ceiling(*final(io)) == ceiling(*io),
        forall|b: &mut B, x: MicXPosition, inches: F| #[trigger]
            call_ensures(ops.place, (b, x, inches), ()) ==> *final(b) == placed(*b, x, inches),
        forall|b: &mut B, conv: V, fade: usize| #[trigger]
            call_ensures(ops.queue, (b, conv, fade), ()) ==> *final(b) == faded(*b, conv, fade),
        forall|x: F, y: F, r: bool| #[trigger]
            call_ensures(ops.trim_moved, (x, y), r) ==> r == trims_apart(x, y),
        forall|x: F, y: F, r: bool| #[trigger]
            call_ensures(ops.far, (x, y), r) ==> r == distances_apart(x, y),
    ensures
        forall|plugin: &mut TheTweed<F, AudioState<F, E, I, B>>| #[trigger]
            call_ensures(
                TheTweed::<F, AudioState<F, E, I, B>>::take_over_controls::<
                    V,
                    P,
                    T,
                    C,
                    S,
                    K,
                    A,
                    Queue,
                    TrimMoved,
                    Trim,
                    Far,
                    Place,
                    InnerMut,
                    InnerRef,
                    Reset,
                    SetTarget,
                    SetPot,
                    Ceiling,
                    Begin,
                    Output,
                >,
                (plugin, panel, loaded_ir, rebuilt_cab, n, ops),
                (),
            ) && plugin.audio_state is Some ==> {
                let before = amplifier(plugin.audio_state->0.engine);
                let after = amplifier(final(plugin).audio_state->0.engine);
                let io = plugin.audio_state->0.amp_io;
                let new_io = final(plugin).audio_state->0.amp_io;
                let trim_moved = trims_apart(panel.input_trim_db, plugin.cached_input_trim_db);
                let mic_moved = panel.mic_x != plugin.cached_mic_x_position || distances_apart(
                    panel.mic_distance_inches,
                    plugin.cached_mic_distance_inches,
                );
                let arm = match rebuilt_cab {
                    Some(rebuilt) => rebuilt,
                    None => plugin.audio_state->0.cab_dynamic,
                };
                &&& final(plugin).audio_state is Some
                &&& after.current_tube_toggle == panel.tube_toggle
                &&& after.current_channel_mode == panel.channel
                &&& target(after.norm_smoother) == panel.normal_wiper
                &&& target(after.bright_smoother) == panel.bright_wiper
                &&& target(after.tone_smoother) == panel.tone
                &&& after.v1_pair_stock == before.v1_pair_stock && after.v1_pair_mod
                    == before.v1_pair_mod
                &&& after.v2a_tube == before.v2a_tube && after.amp == before.amp
                    && after.coupling_v2a == before.coupling_v2a
                &&& before.current_tube_toggle == panel.tube_toggle ==> after.grid_circuit
                    == before.grid_circuit && after.grid_spare == before.grid_spare
                &&& before.current_tube_toggle != panel.tube_toggle ==> after.grid_spare.circuit
                    == before.grid_circuit && after.grid_norm_handle
                    == before.grid_spare.norm_volume && after.grid_bright_handle
                    == before.grid_spare.bright_volume && after.grid_tone_handle
                    == before.grid_spare.tone
                &&& started(final(plugin).audio_state->0.engine) == n
                &&& output_trim(new_io) == panel.output_trim_db
                &&& input_trim(new_io) == if trim_moved {
                    panel.input_trim_db
                } else {
                    input_trim(io)
                }
                &&& ceiling(new_io) == if before.current_tube_toggle == panel.tube_toggle {
                    ceiling(io)
                } else if panel.tube_toggle {
                    before.v1_pair_mod
                } else {
                    before.v1_pair_stock
                }
                &&& final(plugin).cached_input_trim_db == if trim_moved {
                    panel.input_trim_db
                } else {
                    plugin.cached_input_trim_db
                }
                &&& final(plugin).cached_mic_x_position == panel.mic_x
                &&& final(plugin).cached_mic_distance_inches == if mic_moved {
                    panel.mic_distance_inches
                } else {
                    plugin.cached_mic_distance_inches
                }
                &&& final(plugin).audio_state->0.cab_dynamic == if mic_moved {
                    placed(arm, panel.mic_x, panel.mic_distance_inches)
                } else {
                    arm
                }
                &&& final(plugin).audio_state->0.cab_ir == match loaded_ir {
                    Some(conv) => faded(
                        plugin.audio_state->0.cab_ir,
                        conv,
                        plugin.audio_state->0.ir_crossfade_samples,
                    ),
                    None => plugin.audio_state->0.cab_ir,
                }
                &&& final(plugin).output_latched == plugin.output_latched
                &&& final(plugin).os_ratio == plugin.os_ratio
            },
{
}

/// When the meter window closes, and only then, the meters are read, the power
/// section's exactly when the power is on, and the plate meters are emptied
/// after they were read. A run of more than 512 samples that are no numbers is
/// shown for good, and its count cleared.
pub proof fn law_meters_are_read_when_their_window_closes<
    F: Copy + From<i8>,
    E,
    I,
    B,
    P,
    T,
    C,
    S,
    K,
    A,
    Run,
    Clear,
    Peak,
    InnerMut,
    InnerRef,
    Rail,
    Mean,
    Decibels,
>(
    power_on: bool,
    n: usize,
    peak_bits: u32,
    zero: F,
    ops: MeterOps<Run, Clear, Peak, InnerMut, InnerRef, Rail, Mean, Decibels>,
    amplifier: spec_fn(E) -> TweedInner<F, P, T, C, S, K, A>,
    run_of: spec_fn(I) -> u32,
    cleared: spec_fn(I) -> bool,
    peak_of: F,
    rail_of: spec_fn(A) -> F,
    mean_of: spec_fn(F, u32) -> F,
    decibels_of: spec_fn(u32) -> F,
) where
    Run: FnOnce(&I) -> u32,
    Clear: FnOnce(&mut I),
    Peak: FnOnce(&mut I) -> F,
    InnerMut: Fn(&mut E) -> &mut TweedInner<F, P, T, C, S, K, A>,
    InnerRef: Fn(&E) -> &TweedInner<F, P, T, C, S, K, A>,
    Rail: FnOnce(&A) -> F,
    Mean: Fn(F, u32) -> F,
    Decibels: FnOnce(u32) -> F,

    requires
        forall|e: &mut E, i: &mut TweedInner<F, P, T, C, S, K, A>| #[trigger]
            call_ensures(ops.inner_mut, (e,), i) ==> *i == amplifier(*e) && amplifier(*final(e))
                == *final(i),
        forall|e: &E, i: &TweedInner<F, P, T, C, S, K, A>| #[trigger]
            call_ensures(ops.inner, (e,), i) ==> *i == amplifier(*e),
        forall|io: &I, k: u32| #[trigger] call_ensures(ops.run, (io,), k) ==> k == run_of(*io),
        forall|io: &mut I| #[trigger] call_ensures(ops.clear, (io,), ()) ==> cleared(*final(io)),
        forall|io: &mut I, y: F| #[trigger]
            call_ensures(ops.peak, (io,), y) ==> y == peak_of && cleared(*final(io)) == cleared(*io),
        forall|amp: &A, y: F| #[trigger] call_ensures(ops.rail, (amp,), y) ==> y == rail_of(*amp),
        forall|sum: F, k: u32, y: F| #[trigger]
            call_ensures(ops.mean, (sum, k), y) ==> y == mean_of(sum, k),
        forall|bits: u32, y: F| #[trigger]
            call_ensures(ops.decibels, (bits,), y) ==> y == decibels_of(bits),
    ensures
        forall|plugin: &mut TheTweed<F, AudioState<F, E, I, B>>, readings: Option<MeterReadings<F>>| #[trigger]
            call_ensures(
                TheTweed::<F, AudioState<F, E, I, B>>::finish_buffer::<
                    P,
                    T,
                    C,
                    S,
                    K,
                    A,
                    Run,
                    Clear,
                    Peak,
                    InnerMut,
                    InnerRef,
                    Rail,
                    Mean,
                    Decibels,
                >,
                (plugin, power_on, n, peak_bits, zero, ops),
                readings,
            ) && plugin.audio_state is Some && plugin.audio_state->0.wf() ==> {
                let audio = plugin.audio_state->0;
                let new = final(plugin).audio_state->0;
                let before = amplifier(audio.engine);
                let after = amplifier(new.engine);
                let latched = run_of(audio.amp_io) > 512;
                let held = if peak_bits <= 0x7F80_0000 && peak_bits > audio.meter_output_peak.bits {
                    peak_bits
                } else {
                    audio.meter_output_peak.bits
                };
                &&& final(plugin).audio_state is Some
                &&& final(plugin).output_latched == (plugin.output_latched || latched)
                &&& latched ==> cleared(new.amp_io)
                &&& readings is Some <==> audio.meter_window_samples + n >= audio.meter_window_len
                &&& readings is None ==> {
                    &&& new.engine == audio.engine
                    &&& new.meter_window_samples == audio.meter_window_samples + n
                    &&& new.meter_output_peak.bits == held
                }
                &&& readings matches Some(read) ==> {
                    &&& new.meter_window_samples == 0
                    &&& new.meter_output_peak.bits == 0
                    &&& after.plate_samples_counted == 0
                    &&& after.v1_plate_sum == zero && after.v2_plate_sum == zero
                        && after.v3v4_plate_sum == zero
                    &&& after.current_tube_toggle == before.current_tube_toggle
                    &&& after.grid_circuit == before.grid_circuit && after.amp == before.amp
                    &&& read.peak_volts == peak_of
                    &&& read.power is Some <==> power_on
                    &&& read.power matches Some(power) ==> {
                        &&& power.bplus_volts == rail_of(before.amp)
                        &&& power.plates is Some <==> before.plate_samples_counted > 0
                        &&& power.plates matches Some(volts) ==> {
                            let count = before.plate_samples_counted;
                            &&& volts.v1 == mean_of(before.v1_plate_sum, count)
                            &&& volts.v2 == mean_of(before.v2_plate_sum, count)
                            &&& volts.v3v4 == mean_of(before.v3v4_plate_sum, count)
                        }
                    }
                    &&& held > 0x2EDB_E6FF ==> read.output_db == decibels_of(held)
                    &&& held <= 0x2EDB_E6FF ==> exists|lowest: i8|
                        lowest == -120 && #[trigger] call_ensures(
                            F::from,
                            (lowest,),
                            read.output_db,
                        )
                }
                &&& new.cab_ir == audio.cab_ir && new.cab_dynamic == audio.cab_dynamic
                &&& new.ir_block_size == audio.ir_block_size
                &&& new.ir_crossfade_samples == audio.ir_crossfade_samples
                &&& new.meter_window_len == audio.meter_window_len
                &&& final(plugin).cached_input_trim_db == plugin.cached_input_trim_db
                &&& final(plugin).cached_mic_x_position == plugin.cached_mic_x_position
                &&& final(plugin).cached_mic_distance_inches == plugin.cached_mic_distance_inches
                &&& final(plugin).os_ratio == plugin.os_ratio
            },
{
    assert forall|m: Magnitude, bits: u32| (#[trigger] m.raised(bits)).bits == if bits
        <= 0x7F80_0000 && bits > m.bits {
        bits
    } else {
        m.bits
    } by {
        crate::magnitude::law_patterns_order_as_readings(m.bits, bits);
    }
    assert forall|m: Magnitude|
        #![trigger m.reading()]
        m.reading() > crate::magnitude::reading_of(0x2EDB_E6FF) <==> m.bits > 0x2EDB_E6FF by {
        crate::magnitude::law_patterns_order_as_readings(0x2EDB_E6FF, m.bits);
    }
}

/// What the host hears of a plug-in, where every stage answers to each sample:
/// with the power on every sample of the first channel, run through the
/// boundary, the amplifier, the selected arm and the exit boundary, on the left
/// and, where there is a second channel, on the right; with the power off
/// silence on every channel. The output meter holds the largest peak of it over
/// its window, and is read in decibels when the window closes.
pub proof fn law_host_hears_every_sample<
    F: Copy + From<i8>,
    E,
    I,
    B,
    V,
    P,
    T,
    C,
    S,
    K,
    A,
    Queue,
    TrimMoved,
    Trim,
    Far,
    Place,
    InnerMut,
    InnerRef,
    Reset,
    SetTarget,
    SetPot,
    Ceiling,
    Begin,
    Output,
    Enter,
    Run,
    Route,
    End,
    Block,
    Exit,
    RunLength,
    Clear,
    Peak,
    SeenMut,
    SeenRef,
    Rail,
    Mean,
    Decibels,
>(
    panel: PanelValues<F>,
    loaded_ir: Option<V>,
    rebuilt_cab: Option<B>,
    channels: usize,
    n: usize,
    zero: F,
    control_ops: ControlOps<
        Queue,
        TrimMoved,
        Trim,
        Far,
        Place,
        InnerMut,
        InnerRef,
        Reset,
        SetTarget,
        SetPot,
        Ceiling,
        Begin,
        Output,
    >,
    ops: BufferOps<Enter, Run, Route, End, Block, Exit>,
    meter_ops: MeterOps<RunLength, Clear, Peak, SeenMut, SeenRef, Rail, Mean, Decibels>,
    entered: spec_fn(F) -> F,
    amplified: spec_fn(F) -> F,
    routed: spec_fn(F) -> F,
    to_left: spec_fn(F) -> F,
    to_right: spec_fn(F) -> F,
    trimmed: spec_fn(F) -> F,
    peak_of: spec_fn(Seq<F>, Seq<F>) -> u32,
    decibels_of: spec_fn(u32) -> F,
) where
    Queue: FnOnce(&mut B, V, usize),
    TrimMoved: FnOnce(F, F) -> bool,
    Trim: FnOnce(&mut I, F),
    Far: FnOnce(F, F) -> bool,
    Place: FnOnce(&mut B, MicXPosition, F),
    InnerMut: Fn(&mut E) -> &mut TweedInner<F, P, T, C, S, K, A>,
    InnerRef: Fn(&E) -> &TweedInner<F, P, T, C, S, K, A>,
    Reset: FnOnce(&mut C),
    SetTarget: Fn(&mut S, F) + Copy,
    SetPot: Fn(&mut C, PotHandle, F),
    Ceiling: FnOnce(&mut I, &P),
    Begin: FnOnce(&mut E, usize),
    Output: FnOnce(&mut I, F),
    Enter: Fn(&mut I, F) -> F,
    Run: Fn(&mut E, F) -> F,
    Route: Fn(&mut B, F) -> F,
    End: FnOnce(&mut E),
    Block: FnOnce(&mut B, &[F], &mut [F], &mut [F]),
    Exit: FnOnce(&mut I, &mut [F], &mut [F]) -> u32,
    RunLength: FnOnce(&I) -> u32,
    Clear: FnOnce(&mut I),
    Peak: FnOnce(&mut I) -> F,
    SeenMut: Fn(&mut E) -> &mut TweedInner<F, P, T, C, S, K, A>,
    SeenRef: Fn(&E) -> &TweedInner<F, P, T, C, S, K, A>,
    Rail: FnOnce(&A) -> F,
    Mean: Fn(F, u32) -> F,
    Decibels: FnOnce(u32) -> F,

    requires
        panel.power_on ==> channels >= 1,
        forall|bits: u32, y: F| #[trigger]
            call_ensures(meter_ops.decibels, (bits,), y) ==> y == decibels_of(bits),
        forall|io: &mut I, x: F, y: F| #[trigger]
            call_ensures(ops.enter, (io, x), y) ==> y == entered(x),
        forall|e: &mut E, x: F, y: F| #[trigger]
            call_ensures(ops.run, (e, x), y) ==> y == amplified(x),
        forall|b: &mut B, x: F, y: F| #[trigger]
            call_ensures(ops.route, (b, x), y) ==> y == routed(x),
        forall|b: &mut B, pre: &[F], l: &mut [F], r: &mut [F]| #[trigger]
            call_ensures(ops.block, (b, pre, l, r), ()) && l@.len() == pre@.len() && r@.len()
                == pre@.len() ==> {
                &&& final(l)@ == pre@.map_values(to_left)
                &&& final(r)@ == pre@.map_values(to_right)
            },
        forall|io: &mut I, l: &mut [F], r: &mut [F], peak: u32| #[trigger]
            call_ensures(ops.exit, (io, l, r), peak) ==> {
                &&& final(l)@ == l@.map_values(trimmed)
                &&& final(r)@ == r@.map_values(trimmed)
                &&& peak == peak_of(l@, r@)
            },
    ensures
        forall|
            plugin: &mut TheTweed<F, AudioState<F, E, I, B>>,
            left: &mut [F],
            right: &mut [F],
            others: &mut [&mut [F]],
            readings: Option<MeterReadings<F>>,
        | #[trigger]
            call_ensures(
                TheTweed::<F, AudioState<F, E, I, B>>::process::<
                    V,
                    P,
                    T,
                    C,
                    S,
                    K,
                    A,
                    Queue,
                    TrimMoved,
                    Trim,
                    Far,
                    Place,
                    InnerMut,
                    InnerRef,
                    Reset,
                    SetTarget,
                    SetPot,
                    Ceiling,
                    Begin,
                    Output,
                    Enter,
                    Run,
                    Route,
                    End,
                    Block,
                    Exit,
                    RunLength,
                    Clear,
                    Peak,
                    SeenMut,
                    SeenRef,
                    Rail,
                    Mean,
                    Decibels,
                >,
                (
                    plugin,
                    panel,
                    loaded_ir,
                    rebuilt_cab,
                    channels,
                    left,
                    right,
                    others,
                    n,
                    zero,
                    control_ops,
                    ops,
                    meter_ops,
                ),
                readings,
            ) && plugin.audio_state is Some && n <= plugin.audio_state->0.ir_block_size && (channels
                >= 1 ==> n <= left@.len()) && (channels >= 2 ==> n <= right@.len()) ==> {
                &&& forall|i: int|
                    0 <= i < left@.len() ==> #[trigger] final(left)@[i] == if channels == 0 || i
                        >= n {
                        left@[i]
                    } else if panel.power_on {
                        trimmed(to_left(routed(amplified(entered(left@[i])))))
                    } else {
                        zero
                    }
                &&& forall|i: int|
                    0 <= i < right@.len() ==> #[trigger] final(right)@[i] == if channels < 2 || i
                        >= n {
                        right@[i]
                    } else if panel.power_on {
                        trimmed(to_right(routed(amplified(entered(left@[i])))))
                    } else {
                        zero
                    }
                &&& forall|k: int, i: int|
                    0 <= k < others@.len() && 0 <= i < (*others@[k])@.len() ==> #[trigger] (*final(
                        others)@[k])@[i] == if panel.power_on || i >= n {
                        (*others@[k])@[i]
                    } else {
                        zero
                    }
                &&& plugin.output_latched ==> final(plugin).output_latched
                &&& final(plugin).cached_mic_x_position == panel.mic_x
                &&& final(plugin).os_ratio == plugin.os_ratio
                &&& readings is Some <==> plugin.audio_state->0.meter_window_samples + n
                    >= plugin.audio_state->0.meter_window_len
                &&& readings matches Some(read) ==> (read.power is Some <==> panel.power_on)
                &&& readings is None ==> final(plugin).audio_state->0.meter_window_samples
                    == plugin.audio_state->0.meter_window_samples + n
                &&& readings is Some ==> final(plugin).audio_state->0.meter_window_samples == 0
                &&& forall|l: Seq<F>, r: Seq<F>|
                    l.len() == n && r.len() == n && (forall|i: int|
                        0 <= i < n ==> #[trigger] l[i] == to_left(
                            routed(amplified(entered(left@[i]))),
                        )) && (forall|i: int|
                        0 <= i < n ==> #[trigger] r[i] == to_right(
                            routed(amplified(entered(left@[i]))),
                        )) ==> {
                        let peak = if panel.power_on {
                            #[trigger] peak_of(l, r)
                        } else {
                            0
                        };
                        let before = plugin.audio_state->0.meter_output_peak.bits;
                        let held = if peak <= 0x7F80_0000 && peak > before {
                            peak
                        } else {
                            before
                        };
                        &&& readings is None ==> final(plugin).audio_state->0.meter_output_peak.bits
                            == held
                        &&& readings is Some && held > 0x2EDB_E6FF ==> readings->0.output_db
                            == decibels_of(held)
                        &&& readings is Some && held <= 0x2EDB_E6FF ==> exists|lowest: i8|
                            lowest == -120 && #[trigger] call_ensures(
                                F::from,
                                (lowest,),
                                readings->0.output_db,
                            )
                    }
            },
{
    crate::audio_state::law_every_sample_goes_out::<
        F,
        E,
        I,
        B,
        Enter,
        Run,
        Route,
        End,
        Block,
        Exit,
    >(
        panel.power_on,
        panel.cab_mode,
        channels,
        n,
        zero,
        ops,
        entered,
        amplified,
        routed,
        to_left,
        to_right,
        trimmed,
        peak_of,
        |e: E| true,
    );
    assert forall|m: Magnitude, bits: u32| (#[trigger] m.raised(bits)).bits == if bits
        <= 0x7F80_0000 && bits > m.bits {
        bits
    } else {
        m.bits
    } by {
        crate::magnitude::law_patterns_order_as_readings(m.bits, bits);
    }
    assert forall|m: Magnitude|
        #![trigger m.reading()]
        m.reading() > crate::magnitude::reading_of(0x2EDB_E6FF) <==> m.bits > 0x2EDB_E6FF by {
        crate::magnitude::law_patterns_order_as_readings(0x2EDB_E6FF, m.bits);
    }
}

/// A reset of the plug-in rests all that plays and keeps what it remembers; one
/// that was never initialised stays as it is.
pub proof fn law_reset_keeps_what_is_remembered<F: Copy, E, I, B, ResetEngine, ResetCab, ResetIo>(
    zero: F,
    reset_engine: ResetEngine,
    reset_cab: ResetCab,
    reset_io: ResetIo,
    engine_rests: spec_fn(E) -> bool,
    arm_rests: spec_fn(B) -> bool,
    io_rests: spec_fn(I) -> bool,
) where ResetEngine: FnOnce(&mut E), ResetCab: Fn(&mut B), ResetIo: FnOnce(&mut I)
    requires
        forall|e: &mut E| #[trigger] call_ensures(reset_engine, (e,), ()) ==> engine_rests(*final(e)),
        forall|b: &mut B| #[trigger] call_ensures(reset_cab, (b,), ()) ==> arm_rests(*final(b)),
        forall|io: &mut I| #[trigger] call_ensures(reset_io, (io,), ()) ==> io_rests(*final(io)),
    ensures
        forall|plugin: &mut TheTweed<F, AudioState<F, E, I, B>>| #[trigger]
            call_ensures(
                TheTweed::<F, AudioState<F, E, I, B>>::reset::<ResetEngine, ResetCab, ResetIo>,
                (plugin, zero, reset_engine, reset_cab, reset_io),
                (),
            ) ==> {
                &&& plugin.audio_state is Some <==> final(plugin).audio_state is Some
                &&& final(plugin).audio_state matches Some(a) ==> {
                    &&& engine_rests(a.engine) && io_rests(a.amp_io)
                    &&& arm_rests(a.cab_ir) && arm_rests(a.cab_dynamic)
                    &&& a.meter_window_samples == 0 && a.meter_output_peak.bits == 0
                    &&& forall|i: int|
                        0 <= i < a.ir_block_size ==> #[trigger] a.pre_cab_buffer@[i] == zero
                    &&& forall|i: int|
                        0 <= i < a.ir_block_size ==> #[trigger] a.post_cab_left@[i] == zero
                    &&& forall|i: int|
                        0 <= i < a.ir_block_size ==> #[trigger] a.post_cab_right@[i] == zero
                    &&& a.ir_block_size == plugin.audio_state->0.ir_block_size
                }
                &&& final(plugin).cached_input_trim_db == plugin.cached_input_trim_db
                &&& final(plugin).cached_mic_x_position == plugin.cached_mic_x_position
                &&& final(plugin).cached_mic_distance_inches == plugin.cached_mic_distance_inches
                &&& final(plugin).output_latched == plugin.output_latched
                &&& final(plugin).os_ratio == plugin.os_ratio
            },
{
}

/// Two amplifiers have the same tube in the socket, the same channel selected,
/// and knobs that glide to the same positions.
pub open spec fn same_settings<F, P, T, C, S, K, A>(
    a: TweedInner<F, P, T, C, S, K, A>,
    b: TweedInner<F, P, T, C, S, K, A>,
    target: spec_fn(S) -> F,
) -> bool {
    &&& a.current_tube_toggle == b.current_tube_toggle
    &&& a.current_channel_mode == b.current_channel_mode
    &&& target(a.norm_smoother) == target(b.norm_smoother)
    &&& target(a.bright_smoother) == target(b.bright_smoother)
    &&& target(a.tone_smoother) == target(b.tone_smoother)
}

/// After a buffer everything still stands as the panel had it when the buffer
/// came in, where running a stage keeps its settings: the tube, the channel and
/// the knobs' targets of the amplifier, the trims, the microphone where it had
/// moved, the impulse response that was loaded, with its crossfade, and the arm
/// that was rebuilt.
pub proof fn law_buffer_is_played_as_the_panel_stands<
    F: Copy + From<i8>,
    E,
    I,
    B,
    V,
    P,
    T,
    C,
    S,
    K,
    A,
    Queue,
    TrimMoved,
    Trim,
    Far,
    Place,
    InnerMut,
    InnerRef,
    Reset,
    SetTarget,
    SetPot,
    Ceiling,
    Begin,
    Output,
    Enter,
    Run,
    Route,
    End,
    Block,
    Exit,
    RunLength,
    Clear,
    Peak,
    SeenMut,
    SeenRef,
    Rail,
    Mean,
    Decibels,
>(
    panel: PanelValues<F>,
    loaded_ir: Option<V>,
    rebuilt_cab: Option<B>,
    channels: usize,
    n: usize,
    zero: F,
    ops: ControlOps<
        Queue,
        TrimMoved,
        Trim,
        Far,
        Place,
        InnerMut,
        InnerRef,
        Reset,
        SetTarget,
        SetPot,
        Ceiling,
        Begin,
        Output,
    >,
    buffer_ops: BufferOps<Enter, Run, Route, End, Block, Exit>,
    meter_ops: MeterOps<RunLength, Clear, Peak, SeenMut, SeenRef, Rail, Mean, Decibels>,
    amplifier: spec_fn(E) -> TweedInner<F, P, T, C, S, K, A>,
    target: spec_fn(S) -> F,
    input_trim: spec_fn(I) -> F,
    output_trim: spec_fn(I) -> F,
    ceiling: spec_fn(I) -> P,
    mic_at: spec_fn(B) -> (MicXPosition, F),
    response: spec_fn(B) -> (V, usize),
    rig: spec_fn(B) -> int,
    trims_apart: spec_fn(F, F) -> bool,
    distances_apart: spec_fn(F, F) -> bool,
) where
    Queue: FnOnce(&mut B, V, usize),
    TrimMoved: FnOnce(F, F) -> bool,
    Trim: FnOnce(&mut I, F),
    Far: FnOnce(F, F) -> bool,
    Place: FnOnce(&mut B, MicXPosition, F),
    InnerMut: Fn(&mut E) -> &mut TweedInner<F, P, T, C, S, K, A>,
    InnerRef: Fn(&E) -> &TweedInner<F, P, T, C, S, K, A>,
    Reset: FnOnce(&mut C),
    SetTarget: Fn(&mut S, F) + Copy,
    SetPot: Fn(&mut C, PotHandle, F),
    Ceiling: FnOnce(&mut I, &P),
    Begin: FnOnce(&mut E, usize),
    Output: FnOnce(&mut I, F),
    Enter: Fn(&mut I, F) -> F,
    Run: Fn(&mut E, F) -> F,
    Route: Fn(&mut B, F) -> F,
    End: FnOnce(&mut E),
    Block: FnOnce(&mut B, &[F], &mut [F], &mut [F]),
    Exit: FnOnce(&mut I, &mut [F], &mut [F]) -> u32,
    RunLength: FnOnce(&I) -> u32,
    Clear: FnOnce(&mut I),
    Peak: FnOnce(&mut I) -> F,
    SeenMut: Fn(&mut E) -> &mut TweedInner<F, P, T, C, S, K, A>,
    SeenRef: Fn(&E) -> &TweedInner<F, P, T, C, S, K, A>,
    Rail: FnOnce(&A) -> F,
    Mean: Fn(F, u32) -> F,
    Decibels: FnOnce(u32) -> F,

    requires
        forall|e: &mut E, i: &mut TweedInner<F, P, T, C, S, K, A>| #[trigger]
            call_ensures(ops.inner_mut, (e,), i) ==> *i == amplifier(*e) && amplifier(*final(e))
                == *final(i),
        forall|e: &E, i: &TweedInner<F, P, T, C, S, K, A>| #[trigger]
            call_ensures(ops.inner, (e,), i) ==> *i == amplifier(*e),
        forall|e: &mut E, i: &mut TweedInner<F, P, T, C, S, K, A>| #[trigger]
            call_ensures(meter_ops.inner_mut, (e,), i) ==> *i == amplifier(*e) && amplifier(*final(e))
                == *final(i),
        forall|e: &E, i: &TweedInner<F, P, T, C, S, K, A>| #[trigger]
            call_ensures(meter_ops.inner, (e,), i) ==> *i == amplifier(*e),
        forall|e: &mut E, k: usize| #[trigger]
            call_ensures(ops.begin, (e, k), ()) ==> amplifier(*final(e)) == amplifier(*e),
        forall|s: &mut S, x: F| #[trigger]
            call_ensures(ops.set_target, (s, x), ()) ==> target(*final(s)) == x,
        forall|io: &mut I, db: F| #[trigger]
            call_ensures(ops.trim, (io, db), ()) ==> input_trim(*final(io)) == db && ceiling(
                *final(io)) == ceiling(*io),
        forall|io: &mut I, pair: &P| #[trigger]
            call_ensures(ops.ceiling, (io, pair), ()) ==> ceiling(*final(io)) == *pair
                && input_trim(*final(io)) == input_trim(*io),
        forall|io: &mut I, db: F| #[trigger]
            call_ensures(ops.output, (io, db), ()) ==> output_trim(*final(io)) == db && input_trim(
                *final(io)) == input_trim(*io) && ceiling(*final(io)) == ceiling(*io),
        forall|b: &mut B, x: MicXPosition, inches: F| #[trigger]
            call_ensures(ops.place, (b, x, inches), ()) ==> mic_at(*final(b)) == (x, inches) && rig(
                *final(b)) == rig(*b),
        forall|b: &mut B, conv: V, fade: usize| #[trigger]
            call_ensures(ops.queue, (b, conv, fade), ()) ==> response(*final(b)) == (conv, fade),
        forall|x: F, y: F, r: bool| #[trigger]
            call_ensures(ops.trim_moved, (x, y), r) ==> r == trims_apart(x, y),
        forall|x: F, y: F, r: bool| #[trigger]
            call_ensures(ops.far, (x, y), r) ==> r == distances_apart(x, y),
        forall|e: &mut E, x: F, y: F| #[trigger]
            call_ensures(buffer_ops.run, (e, x), y) ==> same_settings(
                amplifier(*final(e)),
                amplifier(*e),
                target,
            ),
        forall|e: &mut E| #[trigger]
            call_ensures(buffer_ops.end, (e,), ()) ==> same_settings(
                amplifier(*final(e)),
                amplifier(*e),
                target,
            ),
        forall|io: &mut I, x: F, y: F| #[trigger]
            call_ensures(buffer_ops.enter, (io, x), y) ==> input_trim(*final(io)) == input_trim(*io)
                && output_trim(*final(io)) == output_trim(*io) && ceiling(*final(io)) == ceiling(
                *io),
        forall|io: &mut I, l: &mut [F], r: &mut [F], y: u32| #[trigger]
            call_ensures(buffer_ops.exit, (io, l, r), y) ==> input_trim(*final(io)) == input_trim(
                *io) && output_trim(*final(io)) == output_trim(*io) && ceiling(*final(io))
                == ceiling(*io),
        forall|io: &mut I| #[trigger]
            call_ensures(meter_ops.clear, (io,), ()) ==> input_trim(*final(io)) == input_trim(*io)
                && output_trim(*final(io)) == output_trim(*io) && ceiling(*final(io)) == ceiling(
                *io),
        forall|io: &mut I, y: F| #[trigger]
            call_ensures(meter_ops.peak, (io,), y) ==> input_trim(*final(io)) == input_trim(*io)
                && output_trim(*final(io)) == output_trim(*io) && ceiling(*final(io)) == ceiling(
                *io),
        forall|b: &mut B, x: F, y: F| #[trigger]
            call_ensures(buffer_ops.route, (b, x), y) ==> mic_at(*final(b)) == mic_at(*b)
                && response(*final(b)) == response(*b) && rig(*final(b)) == rig(*b),
        forall|b: &mut B, pre: &[F], l: &mut [F], r: &mut [F]| #[trigger]
            call_ensures(buffer_ops.block, (b, pre, l, r), ()) ==> mic_at(*final(b)) == mic_at(*b)
                && response(*final(b)) == response(*b) && rig(*final(b)) == rig(*b),
    ensures
        forall|
            plugin: &mut TheTweed<F, AudioState<F, E, I, B>>,
            left: &mut [F],
            right: &mut [F],
            others: &mut [&mut [F]],
            readings: Option<MeterReadings<F>>,
        | #[trigger]
            call_ensures(
                TheTweed::<F, AudioState<F, E, I, B>>::process::<
                    V,
                    P,
                    T,
                    C,
                    S,
                    K,
                    A,
                    Queue,
                    TrimMoved,
                    Trim,
                    Far,
                    Place,
                    InnerMut,
                    InnerRef,
                    Reset,
                    SetTarget,
                    SetPot,
                    Ceiling,
                    Begin,
                    Output,
                    Enter,
                    Run,
                    Route,
                    End,
                    Block,
                    Exit,
                    RunLength,
                    Clear,
                    Peak,
                    SeenMut,
                    SeenRef,
                    Rail,
                    Mean,
                    Decibels,
                >,
                (
                    plugin,
                    panel,
                    loaded_ir,
                    rebuilt_cab,
                    channels,
                    left,
                    right,
                    others,
                    n,
                    zero,
                    ops,
                    buffer_ops,
                    meter_ops,
                ),
                readings,
            ) && plugin.audio_state is Some ==> {
                let audio = plugin.audio_state->0;
                let new = final(plugin).audio_state->0;
                let before = amplifier(audio.engine);
                let after = amplifier(new.engine);
                let trim_moved = trims_apart(panel.input_trim_db, plugin.cached_input_trim_db);
                let mic_moved = panel.mic_x != plugin.cached_mic_x_position || distances_apart(
                    panel.mic_distance_inches,
                    plugin.cached_mic_distance_inches,
                );
                let arm = match rebuilt_cab {
                    Some(rebuilt) => rebuilt,
                    None => audio.cab_dynamic,
                };
                &&& final(plugin).audio_state is Some
                &&& after.current_tube_toggle == panel.tube_toggle
                &&& after.current_channel_mode == panel.channel
                &&& target(after.norm_smoother) == panel.normal_wiper
                &&& target(after.bright_smoother) == panel.bright_wiper
                &&& target(after.tone_smoother) == panel.tone
                &&& output_trim(new.amp_io) == panel.output_trim_db
                &&& input_trim(new.amp_io) == if trim_moved {
                    panel.input_trim_db
                } else {
                    input_trim(audio.amp_io)
                }
                &&& ceiling(new.amp_io) == if before.current_tube_toggle == panel.tube_toggle {
                    ceiling(audio.amp_io)
                } else if panel.tube_toggle {
                    before.v1_pair_mod
                } else {
                    before.v1_pair_stock
                }
                &&& final(plugin).cached_input_trim_db == if trim_moved {
                    panel.input_trim_db
                } else {
                    plugin.cached_input_trim_db
                }
                &&& final(plugin).cached_mic_x_position == panel.mic_x
                &&& final(plugin).cached_mic_distance_inches == if mic_moved {
                    panel.mic_distance_inches
                } else {
                    plugin.cached_mic_distance_inches
                }
                &&& rig(new.cab_dynamic) == rig(arm)
                &&& mic_at(new.cab_dynamic) == if mic_moved {
                    (panel.mic_x, panel.mic_distance_inches)
                } else {
                    mic_at(arm)
                }
                &&& response(new.cab_ir) == match loaded_ir {
                    Some(conv) => (conv, audio.ir_crossfade_samples),
                    None => response(audio.cab_ir),
                }
            },
{
    assert forall|
        a: &mut AudioState<F, E, I, B>,
        left: &mut [F],
        right: &mut [F],
        others: &mut [&mut [F]],
        peak: u32,
    | #[trigger]
        call_ensures(
            AudioState::<F, E, I, B>::process_buffer::<Enter, Run, Route, End, Block, Exit>,
            (
                a,
                panel.power_on,
                panel.cab_mode,
                channels,
                left,
                right,
                others,
                n,
                zero,
                buffer_ops,
            ),
            peak,
        ) implies {
        &&& same_settings(amplifier(final(a).engine), amplifier(a.engine), target)
        &&& input_trim(final(a).amp_io) == input_trim(a.amp_io)
        &&& output_trim(final(a).amp_io) == output_trim(a.amp_io)
        &&& ceiling(final(a).amp_io) == ceiling(a.amp_io)
        &&& response(final(a).cab_ir) == response(a.cab_ir)
        &&& mic_at(final(a).cab_dynamic) == mic_at(a.cab_dynamic)
        &&& rig(final(a).cab_dynamic) == rig(a.cab_dynamic)
    } by {
        let (e0, io0, ir0, dynamic0) = (a.engine, a.amp_io, a.cab_ir, a.cab_dynamic);
        crate::audio_state::law_buffer_keeps_what_its_stages_keep::<
            F,
            E,
            I,
            B,
            Enter,
            Run,
            Route,
            End,
            Block,
            Exit,
        >(
            panel.power_on,
            panel.cab_mode,
            channels,
            n,
            zero,
            buffer_ops,
            |io: I|
                input_trim(io) == input_trim(io0) && output_trim(io) == output_trim(io0)
                    && ceiling(io) == ceiling(io0),
            |e: E| same_settings(amplifier(e), amplifier(e0), target),
            |b: B| response(b) == response(ir0),
        );
        crate::audio_state::law_buffer_keeps_what_its_stages_keep::<
            F,
            E,
            I,
            B,
            Enter,
            Run,
            Route,
            End,
            Block,
            Exit,
        >(
            panel.power_on,
            panel.cab_mode,
            channels,
            n,
            zero,
            buffer_ops,
            |io: I| true,
            |e: E| true,
            |b: B| mic_at(b) == mic_at(dynamic0) && rig(b) == rig(dynamic0),
        );
    }
}

} // verus!
