//! The amplifier at the inner rate, one sample at a time.

use crate::grid_network::{GridNetlist, GridTube, PotHandle, V2aGridNetwork};
use crate::preamp::{
    build_5e3_amp_topology_config, build_v1_pair, build_v2a_tube, v1_specimen, PairBuild,
    TopologyOverrides, TubeBuild, POT_SMOOTH_MS, V1_MOD_BIAS_MV, V1_MOD_SPECIMEN,
    V1_STOCK_BIAS_MV, V1_STOCK_SPECIMEN, V2A_SPECIMEN, V2A_TO_V2B_COUPLING_CAP_PF,
    V2B_GRID_LEAK_OHMS,
};
use crate::selection::ChannelMode;
use vstd::prelude::*;

#[allow(unused_imports)]
use crate::grid_network::{GridElement, GridNode};
#[allow(unused_imports)]
use crate::preamp::v1_specimen_text;
#[allow(unused_imports)]
use crate::stage::{runs, runs_on, runs_on_three, runs_on_two, takes_two};

verus! {

/// What V1 hands on for one sample.
#[derive(Debug, Clone, Copy)]
pub struct PairOutput<F> {
    pub plate_a_ac_volts: F,
    pub plate_b_ac_volts: F,
    pub plate_a_current_amps: F,
    pub plate_b_current_amps: F,
}

/// The plate voltages that the meters pick up.
#[derive(Debug, Clone, Copy)]
pub struct PlateVolts<F> {
    pub v1: F,
    pub v2: F,
    pub v3v4: F,
}

/// The operations of the engine that one inner sample runs through.
pub struct InnerOps<Rail, Pair, Grid, Tube, Couple, Power, Plates, Current, Draw, Plus> {
    /// Reads the preamp rail off the supply.
    pub rail: Rail,
    /// Runs a triode pair on the two grid voltages and the rail.
    pub pair: Pair,
    /// Solves the grid network for the two plate voltages, in driver order.
    pub grid: Grid,
    /// Runs V2A on its grid voltage and the rail.
    pub tube: Tube,
    /// Runs the coupling capacitor between V2A and the phase inverter.
    pub couple: Couple,
    /// Runs the power section, up to the output transformer.
    pub power: Power,
    /// Reads the plate voltages of the active pair, V2A and the power tubes.
    pub plates: Plates,
    /// Reads V2A's plate current.
    pub current: Current,
    /// Draws a current from the preamp rail.
    pub draw: Draw,
    /// Adds two numbers.
    pub plus: Plus,
}

/// The operations of the engine that the amplifier is built with.
pub struct BuildOps<Pair, Tube, Cap, Amp, SourceZ, Grid, Solve, SetPot, Smoother> {
    /// Builds a triode pair.
    pub pair: Pair,
    /// Builds a tube stage.
    pub tube: Tube,
    /// Builds a coupling capacitor, in picofarads, into a grid leak, in ohms.
    pub cap: Cap,
    /// Builds the power section and its supply.
    pub amp: Amp,
    /// The source impedance of the plates of a tube.
    pub source_z: SourceZ,
    /// What a grid network needs to know of the tube it leads to.
    pub grid: Grid,
    /// Solves a netlist into a circuit.
    pub solve: Solve,
    /// Sets the wiper of a pot of a circuit.
    pub set_pot: SetPot,
    /// Makes a smoother that rests at a position and takes so many
    /// milliseconds.
    pub smoother: Smoother,
}

/// The stages of the amplifier and what the inner loop remembers of its
/// settings and meters. `F` is the type of a number, `P` of a triode pair,
/// `T` of a tube stage, `C` of a circuit, `S` of a pot smoother, `K` of a
/// coupling capacitor and `A` of the power section with its supply.
pub struct TweedInner<F, P, T, C, S, K, A> {
    pub v1_pair_stock: P,
    pub v1_pair_mod: P,
    pub current_tube_toggle: bool,
    pub v2a_tube: T,
    pub grid_circuit: C,
    pub grid_norm_handle: PotHandle,
    pub grid_bright_handle: PotHandle,
    pub grid_tone_handle: PotHandle,
    pub grid_spare: V2aGridNetwork<C>,
    pub norm_smoother: S,
    pub bright_smoother: S,
    pub tone_smoother: S,
    pub coupling_v2a: K,
    pub amp: A,
    pub current_channel_mode: ChannelMode,
    pub meter_this_host_sample: bool,
    pub v1_plate_sum: F,
    pub v2_plate_sum: F,
    pub v3v4_plate_sum: F,
    pub plate_samples_counted: u32,
}

impl<F: Copy, P, T, C, S, K, A> TweedInner<F, P, T, C, S, K, A> {
    /// The triode pair in the socket of V1.
    pub open spec fn active(self) -> P {
        if self.current_tube_toggle {
            self.v1_pair_mod
        } else {
            self.v1_pair_stock
        }
    }

    /// The triode pair that is kept ready.
    pub open spec fn idle(self) -> P {
        if self.current_tube_toggle {
            self.v1_pair_stock
        } else {
            self.v1_pair_mod
        }
    }

    /// The amplifier with the live and the spare network exchanged, and
    /// `incoming` as the circuit of the one that is now live.
    pub open spec fn with_swapped_network(self, incoming: C) -> Self {
        TweedInner {
            grid_circuit: incoming,
            grid_norm_handle: self.grid_spare.norm_volume,
            grid_bright_handle: self.grid_spare.bright_volume,
            grid_tone_handle: self.grid_spare.tone,
            grid_spare: V2aGridNetwork {
                circuit: self.grid_circuit,
                norm_volume: self.grid_norm_handle,
                bright_volume: self.grid_bright_handle,
                tone: self.grid_tone_handle,
            },
            ..self
        }
    }

    /// The pair that the tube toggle selects.
    pub fn active_pair(&self) -> (pair: &P)
        ensures
            *pair == self.active(),
    {
        if self.current_tube_toggle {
            &self.v1_pair_mod
        } else {
            &self.v1_pair_stock
        }
    }

    /// The 5E3 with the tube that the toggle selects in the socket of V1. The
    /// pairs and the grid networks of both tubes are built, so that a flip of
    /// the toggle later only exchanges them. The wipers of the live network and
    /// the smoothers start at the positions given.
    pub fn build<Pair, Tube, Cap, Amp, SourceZ, Grid, Solve, SetPot, Smoother>(
        tube_toggle: bool,
        channel: ChannelMode,
        normal: F,
        bright: F,
        tone: F,
        zero: F,
        ops: BuildOps<Pair, Tube, Cap, Amp, SourceZ, Grid, Solve, SetPot, Smoother>,
    ) -> (inner: Self) where
        Pair: Fn(PairBuild) -> P,
        Tube: FnOnce(TubeBuild) -> T,
        Cap: FnOnce(u32, u32) -> K,
        Amp: FnOnce(TopologyOverrides) -> A,
        SourceZ: Fn(&'static str) -> F,
        Grid: FnOnce(&'static str, &T) -> GridTube<F>,
        Solve: Fn(GridNetlist<F>) -> C,
        SetPot: Fn(&mut C, PotHandle, F),
        Smoother: Fn(F, u32) -> S,

        requires
            forall|b: PairBuild| #[trigger] call_requires(ops.pair, (b,)),
            forall|b: TubeBuild| #[trigger] call_requires(ops.tube, (b,)),
            takes_two(ops.cap),
            forall|o: TopologyOverrides| #[trigger] call_requires(ops.amp, (o,)),
            forall|id: &'static str| #[trigger] call_requires(ops.source_z, (id,)),
            forall|id: &'static str, t: &T| #[trigger] call_requires(ops.grid, (id, t)),
            forall|n: GridNetlist<F>| #[trigger] call_requires(ops.solve, (n,)),
            runs_on_two(ops.set_pot),
            takes_two(ops.smoother),
        ensures
            // Each stage is made of the parts of its own.
            exists|b: PairBuild|
                b.is_v1_pair(V1_STOCK_SPECIMEN@, V1_STOCK_BIAS_MV) && #[trigger] call_ensures(
                    ops.pair,
                    (b,),
                    inner.v1_pair_stock,
                ),
            exists|b: PairBuild|
                b.is_v1_pair(V1_MOD_SPECIMEN@, V1_MOD_BIAS_MV) && #[trigger] call_ensures(
                    ops.pair,
                    (b,),
                    inner.v1_pair_mod,
                ),
            exists|b: TubeBuild|
                b.is_v2a() && #[trigger] call_ensures(ops.tube, (b,), inner.v2a_tube),
            call_ensures(
                ops.cap,
                (V2A_TO_V2B_COUPLING_CAP_PF, V2B_GRID_LEAK_OHMS),
                inner.coupling_v2a,
            ),
            exists|o: TopologyOverrides|
                o.is_5e3() && #[trigger] call_ensures(ops.amp, (o,), inner.amp),
            // Both networks lead to V2A, the live one from the tube in the
            // socket and the spare one from the other.
            exists|
                v2a_id: &'static str,
                live_id: &'static str,
                spare_id: &'static str,
                grid: GridTube<F>,
                live_z: F,
                spare_z: F,
                live: V2aGridNetwork<GridNetlist<F>>,
                spare: V2aGridNetwork<GridNetlist<F>>,
                live_circuit: C,
                c1: &mut C,
                c2: &mut C,
                c3: &mut C,
            |
                {
                    &&& #[trigger] call_ensures(ops.grid, (v2a_id, &inner.v2a_tube), grid)
                    &&& v2a_id@ == V2A_SPECIMEN@
                    &&& #[trigger] call_ensures(ops.source_z, (live_id,), live_z)
                    &&& live_id@ == v1_specimen_text(tube_toggle)
                    &&& #[trigger] call_ensures(ops.source_z, (spare_id,), spare_z)
                    &&& spare_id@ == v1_specimen_text(!tube_toggle)
                    &&& live.is_grid_network(live_z, grid)
                    &&& spare.is_grid_network(spare_z, grid)
                    &&& #[trigger] call_ensures(ops.solve, (live.circuit,), live_circuit)
                    &&& #[trigger] call_ensures(
                        ops.solve,
                        (spare.circuit,),
                        inner.grid_spare.circuit,
                    )
                    &&& #[trigger] call_ensures(ops.set_pot, (c1, live.norm_volume, normal), ())
                    &&& #[trigger] call_ensures(ops.set_pot, (c2, live.bright_volume, bright), ())
                    &&& #[trigger] call_ensures(ops.set_pot, (c3, live.tone, tone), ())
                    &&& *c1 == live_circuit && *c2 == *final(c1) && *c3 == *final(c2)
                    &&& *final(c3) == inner.grid_circuit
                    &&& inner.grid_norm_handle == live.norm_volume
                    &&& inner.grid_bright_handle == live.bright_volume
                    &&& inner.grid_tone_handle == live.tone
                    &&& inner.grid_spare.norm_volume == spare.norm_volume
                    &&& inner.grid_spare.bright_volume == spare.bright_volume
                    &&& inner.grid_spare.tone == spare.tone
                },
            call_ensures(ops.smoother, (normal, POT_SMOOTH_MS), inner.norm_smoother),
            call_ensures(ops.smoother, (bright, POT_SMOOTH_MS), inner.bright_smoother),
            call_ensures(ops.smoother, (tone, POT_SMOOTH_MS), inner.tone_smoother),
            inner.current_tube_toggle == tube_toggle,
            inner.current_channel_mode == channel,
            !inner.meter_this_host_sample,
            inner.v1_plate_sum == zero,
            inner.v2_plate_sum == zero,
            inner.v3v4_plate_sum == zero,
            inner.plate_samples_counted == 0,
    {
        let BuildOps { pair, tube, cap, amp, source_z, grid, solve, set_pot, smoother } = ops;
        let v1_pair_stock = pair(build_v1_pair(V1_STOCK_SPECIMEN, V1_STOCK_BIAS_MV));
        let v1_pair_mod = pair(build_v1_pair(V1_MOD_SPECIMEN, V1_MOD_BIAS_MV));
        let power = amp(build_5e3_amp_topology_config());
        let v2a_tube = tube(build_v2a_tube());

        let grid_tube = grid(V2A_SPECIMEN, &v2a_tube);
        let live = V2aGridNetwork::<GridNetlist<F>>::new(
            source_z(v1_specimen(tube_toggle)),
            grid_tube,
        );
        let spare = V2aGridNetwork::<GridNetlist<F>>::new(
            source_z(v1_specimen(!tube_toggle)),
            grid_tube,
        );
        let grid_spare = V2aGridNetwork {
            circuit: solve(spare.circuit),
            norm_volume: spare.norm_volume,
            bright_volume: spare.bright_volume,
            tone: spare.tone,
        };

        let mut inner = TweedInner {
            v1_pair_stock,
            v1_pair_mod,
            current_tube_toggle: tube_toggle,
            v2a_tube,
            grid_circuit: solve(live.circuit),
            grid_norm_handle: live.norm_volume,
            grid_bright_handle: live.bright_volume,
            grid_tone_handle: live.tone,
            grid_spare,
            norm_smoother: smoother(normal, POT_SMOOTH_MS),
            bright_smoother: smoother(bright, POT_SMOOTH_MS),
            tone_smoother: smoother(tone, POT_SMOOTH_MS),
            coupling_v2a: cap(V2A_TO_V2B_COUPLING_CAP_PF, V2B_GRID_LEAK_OHMS),
            amp: power,
            current_channel_mode: channel,
            meter_this_host_sample: false,
            v1_plate_sum: zero,
            v2_plate_sum: zero,
            v3v4_plate_sum: zero,
            plate_samples_counted: 0,
        };
        inner.set_wipers(normal, bright, tone, &set_pot);
        assert(inner.v1_pair_stock == v1_pair_stock && inner.v1_pair_mod == v1_pair_mod);
        assert(inner.v2a_tube == v2a_tube && inner.amp == power);
        assert(inner.grid_spare.circuit == grid_spare.circuit);
        inner
    }

    /// Exchanges the live network for the other tube's and resets the one that
    /// comes in, so that it starts from rest.
    pub fn swap_grid_network<R: FnOnce(&mut C)>(&mut self, reset: R)
        requires
            runs(reset),
        ensures
            exists|c: &mut C|
                *c == old(self).grid_spare.circuit && *final(c) == final(self).grid_circuit
                    && #[trigger] call_ensures(reset, (c,), ()),
            *final(self) == old(self).with_swapped_network(final(self).grid_circuit),
    {
        std::mem::swap(&mut self.grid_circuit, &mut self.grid_spare.circuit);
        std::mem::swap(&mut self.grid_norm_handle, &mut self.grid_spare.norm_volume);
        std::mem::swap(&mut self.grid_bright_handle, &mut self.grid_spare.bright_volume);
        std::mem::swap(&mut self.grid_tone_handle, &mut self.grid_spare.tone);
        reset(&mut self.grid_circuit);
    }

    /// Runs one inner sample through the amplifier: the input splits over the
    /// grids of the active pair, its plates drive the grid network, whose
    /// output drives V2A, whose plate drives the power section through the
    /// coupling capacitor. Once per host sample the plate voltages are added
    /// to the meters. The currents of the three preamp triodes, which hang off
    /// one supply node, are drawn from it as one sum.
    pub fn process_inner<Rail, Pair, Grid, Tube, Couple, Power, Plates, Current, Draw, Plus>(
        &mut self,
        input: F,
        zero: F,
        ops: InnerOps<Rail, Pair, Grid, Tube, Couple, Power, Plates, Current, Draw, Plus>,
    ) -> (ot_volts: F) where
        Rail: FnOnce(&mut A) -> F,
        Pair: FnOnce(&mut P, F, F, F) -> PairOutput<F>,
        Grid: FnOnce(&mut C, F, F) -> F,
        Tube: FnOnce(&mut T, F, F) -> F,
        Couple: FnOnce(&mut K, F) -> F,
        Power: FnOnce(&mut A, F) -> F,
        Plates: FnOnce(&P, &T, &A) -> PlateVolts<F>,
        Current: FnOnce(&T) -> F,
        Draw: FnOnce(&mut A, F),
        Plus: Fn(F, F) -> F,

        requires
            old(self).meter_this_host_sample ==> old(self).plate_samples_counted < u32::MAX,
            runs(ops.rail),
            runs_on_three(ops.pair),
            runs_on_two(ops.grid),
            runs_on_two(ops.tube),
            runs_on(ops.couple),
            runs_on(ops.power),
            forall|p: &P, t: &T, a: &A| #[trigger] call_requires(ops.plates, (p, t, a)),
            forall|t: &T| #[trigger] call_requires(ops.current, (t,)),
            runs_on(ops.draw),
            takes_two(ops.plus),
        ensures
            exists|
                amp0: &mut A,
                amp1: &mut A,
                amp2: &mut A,
                pair: &mut P,
                circuit: &mut C,
                tube: &mut T,
                cap: &mut K,
                rail: F,
                v1: PairOutput<F>,
                grid_volts: F,
                plate_volts: F,
                pi_volts: F,
                current: F,
                v1_current: F,
                preamp_current: F,
            |
                {
                    &&& #[trigger] call_ensures(ops.rail, (amp0,), rail)
                    &&& #[trigger] call_ensures(
                        ops.pair,
                        (
                            pair,
                            old(self).current_channel_mode.normal_feed(input, zero),
                            old(self).current_channel_mode.bright_feed(input, zero),
                            rail,
                        ),
                        v1,
                    )
                    &&& #[trigger] call_ensures(
                        ops.grid,
                        (circuit, v1.plate_a_ac_volts, v1.plate_b_ac_volts),
                        grid_volts,
                    )
                    &&& #[trigger] call_ensures(ops.tube, (tube, grid_volts, rail), plate_volts)
                    &&& #[trigger] call_ensures(ops.couple, (cap, plate_volts), pi_volts)
                    &&& #[trigger] call_ensures(ops.power, (amp1, pi_volts), ot_volts)
                    &&& #[trigger] call_ensures(ops.current, (&final(self).v2a_tube,), current)
                    &&& #[trigger] call_ensures(
                        ops.plus,
                        (v1.plate_a_current_amps, v1.plate_b_current_amps),
                        v1_current,
                    )
                    &&& #[trigger] call_ensures(
                        ops.plus,
                        (v1_current, current),
                        preamp_current,
                    )
                    &&& #[trigger] call_ensures(ops.draw, (amp2, preamp_current), ())
                    // Each stage starts from the state the sample before
                    // left it in, and the power section and its supply are
                    // one stage.
                    &&& *amp0 == old(self).amp && *amp1 == *final(amp0) && *amp2 == *final(amp1)
                    &&& *final(amp2) == final(self).amp
                    &&& *pair == old(self).active() && *final(pair) == final(self).active()
                    &&& *circuit == old(self).grid_circuit && *final(circuit) == final(self).grid_circuit
                    &&& *tube == old(self).v2a_tube && *final(tube) == final(self).v2a_tube
                    &&& *cap == old(self).coupling_v2a && *final(cap) == final(self).coupling_v2a
                    // The meters pick the plates up after the power
                    // section has run.
                    &&& old(self).meter_this_host_sample ==> exists|volts: PlateVolts<F>|
                        {
                            &&& #[trigger] call_ensures(
                                ops.plates,
                                (&final(self).active(), &final(self).v2a_tube, &*amp2),
                                volts,
                            )
                            &&& call_ensures(
                                ops.plus,
                                (old(self).v1_plate_sum, volts.v1),
                                final(self).v1_plate_sum,
                            )
                            &&& call_ensures(
                                ops.plus,
                                (old(self).v2_plate_sum, volts.v2),
                                final(self).v2_plate_sum,
                            )
                            &&& call_ensures(
                                ops.plus,
                                (old(self).v3v4_plate_sum, volts.v3v4),
                                final(self).v3v4_plate_sum,
                            )
                        }
                },
            old(self).meter_this_host_sample ==> final(self).plate_samples_counted == old(self).plate_samples_counted + 1,
            !old(self).meter_this_host_sample ==> {
                &&& final(self).v1_plate_sum == old(self).v1_plate_sum
                &&& final(self).v2_plate_sum == old(self).v2_plate_sum
                &&& final(self).v3v4_plate_sum == old(self).v3v4_plate_sum
                &&& final(self).plate_samples_counted == old(self).plate_samples_counted
            },
            !final(self).meter_this_host_sample,
            // The idle pair, the spare network and the settings stay as they
            // are.
            final(self).idle() == old(self).idle(),
            final(self).current_tube_toggle == old(self).current_tube_toggle,
            final(self).current_channel_mode == old(self).current_channel_mode,
            final(self).grid_spare == old(self).grid_spare,
            final(self).grid_norm_handle == old(self).grid_norm_handle,
            final(self).grid_bright_handle == old(self).grid_bright_handle,
            final(self).grid_tone_handle == old(self).grid_tone_handle,
            final(self).norm_smoother == old(self).norm_smoother,
            final(self).bright_smoother == old(self).bright_smoother,
            final(self).tone_smoother == old(self).tone_smoother,
    {
        let InnerOps { rail, pair, grid, tube, couple, power, plates, current, draw, plus } = ops;

        let b_plus = rail(&mut self.amp);
        let (v1a_input, v1b_input) = self.current_channel_mode.split_input(input, zero);
        let v1_out = if self.current_tube_toggle {
            pair(&mut self.v1_pair_mod, v1a_input, v1b_input, b_plus)
        } else {
            pair(&mut self.v1_pair_stock, v1a_input, v1b_input, b_plus)
        };
        let v2a_grid = grid(
            &mut self.grid_circuit,
            v1_out.plate_a_ac_volts,
            v1_out.plate_b_ac_volts,
        );
        let v2a_out = tube(&mut self.v2a_tube, v2a_grid, b_plus);
        let pi_input = couple(&mut self.coupling_v2a, v2a_out);
        let ot_volts = power(&mut self.amp, pi_input);

        if self.meter_this_host_sample {
            self.meter_this_host_sample = false;
            let volts = plates(self.active_pair(), &self.v2a_tube, &self.amp);
            self.v1_plate_sum = plus(self.v1_plate_sum, volts.v1);
            self.v2_plate_sum = plus(self.v2_plate_sum, volts.v2);
            self.v3v4_plate_sum = plus(self.v3v4_plate_sum, volts.v3v4);
            self.plate_samples_counted = self.plate_samples_counted + 1;
        }

        let v2a_current = current(&self.v2a_tube);
        let v1_current = plus(v1_out.plate_a_current_amps, v1_out.plate_b_current_amps);
        let preamp_current = plus(v1_current, v2a_current);
        draw(&mut self.amp, preamp_current);
        assert(call_ensures(ops.current, (&self.v2a_tube,), v2a_current));

        ot_volts
    }

    /// Sets the three wipers of the live network: normal volume, bright volume
    /// and tone, in this order.
    pub fn set_wipers<SetPot: Fn(&mut C, PotHandle, F)>(
        &mut self,
        normal: F,
        bright: F,
        tone: F,
        set_pot: &SetPot,
    )
        requires
            runs_on_two(*set_pot),
        ensures
            exists|c1: &mut C, c2: &mut C, c3: &mut C|
                {
                    &&& #[trigger] call_ensures(
                        *set_pot,
                        (c1, old(self).grid_norm_handle, normal),
                        (),
                    )
                    &&& #[trigger] call_ensures(
                        *set_pot,
                        (c2, old(self).grid_bright_handle, bright),
                        (),
                    )
                    &&& #[trigger] call_ensures(*set_pot, (c3, old(self).grid_tone_handle, tone), ())
                    &&& *c1 == old(self).grid_circuit && *c2 == *final(c1) && *c3 == *final(c2)
                    &&& *final(c3) == final(self).grid_circuit
                },
            *final(self) == (TweedInner { grid_circuit: final(self).grid_circuit, ..*old(self) }),
    {
        set_pot(&mut self.grid_circuit, self.grid_norm_handle, normal);
        set_pot(&mut self.grid_circuit, self.grid_bright_handle, bright);
        set_pot(&mut self.grid_circuit, self.grid_tone_handle, tone);
    }

    /// Gives the three smoothers the positions they have to glide to.
    pub fn set_targets<SetTarget: Fn(&mut S, F)>(
        &mut self,
        normal: F,
        bright: F,
        tone: F,
        set_target: &SetTarget,
    )
        requires
            runs_on(*set_target),
        ensures
            exists|s: &mut S|
                *s == old(self).norm_smoother && *final(s) == final(self).norm_smoother
                    && #[trigger] call_ensures(*set_target, (s, normal), ()),
            exists|s: &mut S|
                *s == old(self).bright_smoother && *final(s) == final(self).bright_smoother
                    && #[trigger] call_ensures(*set_target, (s, bright), ()),
            exists|s: &mut S|
                *s == old(self).tone_smoother && *final(s) == final(self).tone_smoother
                    && #[trigger] call_ensures(*set_target, (s, tone), ()),
            *final(self) == (TweedInner {
                norm_smoother: final(self).norm_smoother,
                bright_smoother: final(self).bright_smoother,
                tone_smoother: final(self).tone_smoother,
                ..*old(self)
            }),
    {
        set_target(&mut self.norm_smoother, normal);
        set_target(&mut self.bright_smoother, bright);
        set_target(&mut self.tone_smoother, tone);
    }

    /// Starts a host sample: the supply starts one, the meters may pick up the
    /// plates once more, and the wipers follow their smoothers by one tick and
    /// then hold over the inner samples.
    pub fn begin_host_sample<Begin, Tick, SetPot>(
        &mut self,
        begin: Begin,
        tick: Tick,
        set_pot: SetPot,
    ) where Begin: FnOnce(&mut A), Tick: Fn(&mut S) -> F, SetPot: Fn(&mut C, PotHandle, F)
        requires
            runs(begin),
            runs(tick),
            runs_on_two(set_pot),
        ensures
            exists|a: &mut A|
                *a == old(self).amp && *final(a) == final(self).amp && #[trigger] call_ensures(
                    begin,
                    (a,),
                    (),
                ),
            exists|
                s1: &mut S,
                s2: &mut S,
                s3: &mut S,
                c1: &mut C,
                c2: &mut C,
                c3: &mut C,
                normal: F,
                bright: F,
                tone: F,
            |
                {
                    &&& #[trigger] call_ensures(tick, (s1,), normal)
                    &&& #[trigger] call_ensures(tick, (s2,), bright)
                    &&& #[trigger] call_ensures(tick, (s3,), tone)
                    &&& *s1 == old(self).norm_smoother && *final(s1) == final(self).norm_smoother
                    &&& *s2 == old(self).bright_smoother && *final(s2) == final(
                        self).bright_smoother
                    &&& *s3 == old(self).tone_smoother && *final(s3) == final(self).tone_smoother
                    &&& #[trigger] call_ensures(
                        set_pot,
                        (c1, old(self).grid_norm_handle, normal),
                        (),
                    )
                    &&& #[trigger] call_ensures(
                        set_pot,
                        (c2, old(self).grid_bright_handle, bright),
                        (),
                    )
                    &&& #[trigger] call_ensures(set_pot, (c3, old(self).grid_tone_handle, tone), ())
                    &&& *c1 == old(self).grid_circuit && *c2 == *final(c1) && *c3 == *final(c2)
                    &&& *final(c3) == final(self).grid_circuit
                },
            *final(self) == (TweedInner {
                amp: final(self).amp,
                norm_smoother: final(self).norm_smoother,
                bright_smoother: final(self).bright_smoother,
                tone_smoother: final(self).tone_smoother,
                grid_circuit: final(self).grid_circuit,
                meter_this_host_sample: true,
                ..*old(self)
            }),
    {
        begin(&mut self.amp);
        self.meter_this_host_sample = true;
        let normal = tick(&mut self.norm_smoother);
        let bright = tick(&mut self.bright_smoother);
        let tone = tick(&mut self.tone_smoother);
        self.set_wipers(normal, bright, tone, &set_pot);
    }

    /// Empties the plate meters.
    pub fn reset_plate_meters(&mut self, zero: F)
        ensures
            *final(self) == (TweedInner {
                v1_plate_sum: zero,
                v2_plate_sum: zero,
                v3v4_plate_sum: zero,
                plate_samples_counted: 0,
                ..*old(self)
            }),
    {
        self.v1_plate_sum = zero;
        self.v2_plate_sum = zero;
        self.v3v4_plate_sum = zero;
        self.plate_samples_counted = 0;
    }

    /// The means of the plate voltages picked up since the meters were emptied,
    /// if any were; `mean` divides a sum by how many it holds.
    pub fn plate_means<Mean: Fn(F, u32) -> F>(&self, mean: Mean) -> (means: Option<PlateVolts<F>>)
        requires
            takes_two(mean),
        ensures
            self.plate_samples_counted == 0 <==> means is None,
            means matches Some(volts) ==> {
                &&& call_ensures(mean, (self.v1_plate_sum, self.plate_samples_counted), volts.v1)
                &&& call_ensures(mean, (self.v2_plate_sum, self.plate_samples_counted), volts.v2)
                &&& call_ensures(
                    mean,
                    (self.v3v4_plate_sum, self.plate_samples_counted),
                    volts.v3v4,
                )
            },
    {
        if self.plate_samples_counted > 0 {
            let n: u32 = self.plate_samples_counted;
            Some(
                PlateVolts {
                    v1: mean(self.v1_plate_sum, n),
                    v2: mean(self.v2_plate_sum, n),
                    v3v4: mean(self.v3v4_plate_sum, n),
                },
            )
        } else {
            None
        }
    }

    /// Follows the tube toggle. Where it differs from the tube in the socket,
    /// the other tube's network becomes the live one, its wipers jump to the
    /// current positions rather than glide there from the netlist's, and the
    /// smoothers are given the same positions; says whether it did.
    pub fn follow_tube_toggle<Reset, SetTarget, SetPot>(
        &mut self,
        toggle: bool,
        normal: F,
        bright: F,
        tone: F,
        reset: Reset,
        set_target: SetTarget,
        set_pot: SetPot,
    ) -> (swapped: bool) where
        Reset: FnOnce(&mut C),
        SetTarget: Fn(&mut S, F),
        SetPot: Fn(&mut C, PotHandle, F),

        requires
            runs(reset),
            runs_on(set_target),
            runs_on_two(set_pot),
        ensures
            swapped == (toggle != old(self).current_tube_toggle),
            final(self).current_tube_toggle == toggle,
            !swapped ==> *final(self) == *old(self),
            swapped ==> {
                &&& exists|c0: &mut C, c1: &mut C, c2: &mut C, c3: &mut C|
                    {
                        &&& #[trigger] call_ensures(reset, (c0,), ())
                        &&& #[trigger] call_ensures(
                            set_pot,
                            (c1, old(self).grid_spare.norm_volume, normal),
                            (),
                        )
                        &&& #[trigger] call_ensures(
                            set_pot,
                            (c2, old(self).grid_spare.bright_volume, bright),
                            (),
                        )
                        &&& #[trigger] call_ensures(
                            set_pot,
                            (c3, old(self).grid_spare.tone, tone),
                            (),
                        )
                        &&& *c0 == old(self).grid_spare.circuit && *c1 == *final(c0)
                        &&& *c2 == *final(c1) && *c3 == *final(c2)
                        &&& *final(c3) == final(self).grid_circuit
                    }
                &&& exists|s: &mut S|
                    *s == old(self).norm_smoother && *final(s) == final(self).norm_smoother
                        && #[trigger] call_ensures(set_target, (s, normal), ())
                &&& exists|s: &mut S|
                    *s == old(self).bright_smoother && *final(s) == final(self).bright_smoother
                        && #[trigger] call_ensures(set_target, (s, bright), ())
                &&& exists|s: &mut S|
                    *s == old(self).tone_smoother && *final(s) == final(self).tone_smoother
                        && #[trigger] call_ensures(set_target, (s, tone), ())
                &&& *final(self) == (TweedInner {
                    current_tube_toggle: toggle,
                    norm_smoother: final(self).norm_smoother,
                    bright_smoother: final(self).bright_smoother,
                    tone_smoother: final(self).tone_smoother,
                    ..old(self).with_swapped_network(final(self).grid_circuit)
                })
            },
    {
        if toggle == self.current_tube_toggle {
            return false;
        }
        self.swap_grid_network(reset);
        self.current_tube_toggle = toggle;
        self.set_targets(normal, bright, tone, &set_target);
        self.set_wipers(normal, bright, tone, &set_pot);
        true
    }

    /// Takes the knobs and the channel of a new buffer over.
    pub fn follow_panel<SetTarget: Fn(&mut S, F)>(
        &mut self,
        channel: ChannelMode,
        normal: F,
        bright: F,
        tone: F,
        set_target: SetTarget,
    )
        requires
            runs_on(set_target),
        ensures
            exists|s: &mut S|
                *s == old(self).norm_smoother && *final(s) == final(self).norm_smoother
                    && #[trigger] call_ensures(set_target, (s, normal), ()),
            exists|s: &mut S|
                *s == old(self).bright_smoother && *final(s) == final(self).bright_smoother
                    && #[trigger] call_ensures(set_target, (s, bright), ()),
            exists|s: &mut S|
                *s == old(self).tone_smoother && *final(s) == final(self).tone_smoother
                    && #[trigger] call_ensures(set_target, (s, tone), ()),
            *final(self) == (TweedInner {
                current_channel_mode: channel,
                norm_smoother: final(self).norm_smoother,
                bright_smoother: final(self).bright_smoother,
                tone_smoother: final(self).tone_smoother,
                ..*old(self)
            }),
    {
        self.current_channel_mode = channel;
        self.set_targets(normal, bright, tone, &set_target);
    }

    /// Puts the stages of the signal path back to rest and empties the meters.
    /// The spare network, which is reset when it comes in, and the settings
    /// stay as they are.
    pub fn reset<ResetPair, ResetGrid, ResetTube, ResetCap, ResetAmp>(
        &mut self,
        zero: F,
        reset_pair: ResetPair,
        reset_grid: ResetGrid,
        reset_tube: ResetTube,
        reset_cap: ResetCap,
        reset_amp: ResetAmp,
    ) where
        ResetPair: Fn(&mut P),
        ResetGrid: FnOnce(&mut C),
        ResetTube: FnOnce(&mut T),
        ResetCap: FnOnce(&mut K),
        ResetAmp: FnOnce(&mut A),

        requires
            runs(reset_pair),
            runs(reset_grid),
            runs(reset_tube),
            runs(reset_cap),
            runs(reset_amp),
        ensures
            exists|p: &mut P|
                *p == old(self).v1_pair_stock && *final(p) == final(self).v1_pair_stock
                    && #[trigger] call_ensures(reset_pair, (p,), ()),
            exists|p: &mut P|
                *p == old(self).v1_pair_mod && *final(p) == final(self).v1_pair_mod
                    && #[trigger] call_ensures(reset_pair, (p,), ()),
            exists|c: &mut C|
                *c == old(self).grid_circuit && *final(c) == final(self).grid_circuit
                    && #[trigger] call_ensures(reset_grid, (c,), ()),
            exists|t: &mut T|
                *t == old(self).v2a_tube && *final(t) == final(self).v2a_tube
                    && #[trigger] call_ensures(reset_tube, (t,), ()),
            exists|k: &mut K|
                *k == old(self).coupling_v2a && *final(k) == final(self).coupling_v2a
                    && #[trigger] call_ensures(reset_cap, (k,), ()),
            exists|a: &mut A|
                *a == old(self).amp && *final(a) == final(self).amp && #[trigger] call_ensures(
                    reset_amp,
                    (a,),
                    (),
                ),
            *final(self) == (TweedInner {
                v1_pair_stock: final(self).v1_pair_stock,
                v1_pair_mod: final(self).v1_pair_mod,
                grid_circuit: final(self).grid_circuit,
                v2a_tube: final(self).v2a_tube,
                coupling_v2a: final(self).coupling_v2a,
                amp: final(self).amp,
                meter_this_host_sample: false,
                v1_plate_sum: zero,
                v2_plate_sum: zero,
                v3v4_plate_sum: zero,
                plate_samples_counted: 0,
                ..*old(self)
            }),
    {
        reset_pair(&mut self.v1_pair_stock);
        reset_pair(&mut self.v1_pair_mod);
        reset_grid(&mut self.grid_circuit);
        reset_tube(&mut self.v2a_tube);
        reset_cap(&mut self.coupling_v2a);
        reset_amp(&mut self.amp);
        self.meter_this_host_sample = false;
        self.reset_plate_meters(zero);
    }
}

/// The live network is the one that was built for the tube in the socket, and
/// the spare one that of the other tube; `built_for_mod` tells the circuits of
/// the two apart.
pub open spec fn networks_match_tube<F: Copy, P, T, C, S, K, A>(
    inner: TweedInner<F, P, T, C, S, K, A>,
    built_for_mod: spec_fn(C) -> bool,
) -> bool {
    &&& built_for_mod(inner.grid_circuit) == inner.current_tube_toggle
    &&& built_for_mod(inner.grid_spare.circuit) == !inner.current_tube_toggle
}

/// The live network belongs to the tube in the socket, and goes on doing so
/// over every flip of the toggle: exchanging the networks and the tube
/// together keeps the match, whatever state the incoming circuit was put in.
pub proof fn law_toggle_keeps_networks_matched<F: Copy, P, T, C, S, K, A>(
    inner: TweedInner<F, P, T, C, S, K, A>,
    incoming: C,
    built_for_mod: spec_fn(C) -> bool,
)
    requires
        networks_match_tube(inner, built_for_mod),
        built_for_mod(incoming) == built_for_mod(inner.grid_spare.circuit),
    ensures
        networks_match_tube(
            TweedInner {
                current_tube_toggle: !inner.current_tube_toggle,
                ..inner.with_swapped_network(incoming)
            },
            built_for_mod,
        ),
{
}

/// Exchanging the networks twice gives each of them its place back: the
/// handles are those of before, and the circuits are the two that came in.
pub proof fn law_swapping_twice_restores<F: Copy, P, T, C, S, K, A>(
    inner: TweedInner<F, P, T, C, S, K, A>,
    first: C,
    second: C,
)
    ensures
        inner.with_swapped_network(first).with_swapped_network(second) == (TweedInner {
            grid_circuit: second,
            grid_spare: V2aGridNetwork { circuit: first, ..inner.grid_spare },
            ..inner
        }),
{
}

/// The pair in the socket is the one that the toggle stands for: the 12AX7's
/// when it is on, the stock one's when it is off.
pub proof fn law_socket_holds_what_the_toggle_says<F: Copy, P, T, C, S, K, A>(
    inner: TweedInner<F, P, T, C, S, K, A>,
    pair: &P,
)
    requires
        call_ensures(TweedInner::<F, P, T, C, S, K, A>::active_pair, (&inner,), pair),
    ensures
        inner.current_tube_toggle ==> *pair == inner.v1_pair_mod,
        !inner.current_tube_toggle ==> *pair == inner.v1_pair_stock,
{
}

/// The way of a sample, where each stage answers to what it is given: the feeds
/// of the selected channels through the pair, the plates through the network
/// in the order of the triodes, then V2A, the coupling capacitor and the power
/// section, the tubes all on the rail that the supply gave.
pub proof fn law_sample_runs_from_jack_to_transformer<
    F: Copy,
    P,
    T,
    C,
    S,
    K,
    A,
    Rail,
    Pair,
    Grid,
    Tube,
    Couple,
    Power,
    Plates,
    Current,
    Draw,
    Plus,
>(
    input: F,
    zero: F,
    ops: InnerOps<Rail, Pair, Grid, Tube, Couple, Power, Plates, Current, Draw, Plus>,
    rail: F,
    v1: spec_fn(F, F, F) -> PairOutput<F>,
    grid: spec_fn(F, F) -> F,
    v2a: spec_fn(F, F) -> F,
    coupled: spec_fn(F) -> F,
    powered: spec_fn(F) -> F,
) where
    Rail: FnOnce(&mut A) -> F,
    Pair: FnOnce(&mut P, F, F, F) -> PairOutput<F>,
    Grid: FnOnce(&mut C, F, F) -> F,
    Tube: FnOnce(&mut T, F, F) -> F,
    Couple: FnOnce(&mut K, F) -> F,
    Power: FnOnce(&mut A, F) -> F,
    Plates: FnOnce(&P, &T, &A) -> PlateVolts<F>,
    Current: FnOnce(&T) -> F,
    Draw: FnOnce(&mut A, F),
    Plus: Fn(F, F) -> F,

    requires
        forall|a: &mut A, y: F| #[trigger] call_ensures(ops.rail, (a,), y) ==> y == rail,
        forall|p: &mut P, a: F, b: F, r: F, y: PairOutput<F>| #[trigger]
            call_ensures(ops.pair, (p, a, b, r), y) ==> y == v1(a, b, r),
        forall|c: &mut C, a: F, b: F, y: F| #[trigger]
            call_ensures(ops.grid, (c, a, b), y) ==> y == grid(a, b),
        forall|t: &mut T, g: F, r: F, y: F| #[trigger]
            call_ensures(ops.tube, (t, g, r), y) ==> y == v2a(g, r),
        forall|k: &mut K, x: F, y: F| #[trigger]
            call_ensures(ops.couple, (k, x), y) ==> y == coupled(x),
        forall|a: &mut A, x: F, y: F| #[trigger]
            call_ensures(ops.power, (a, x), y) ==> y == powered(x),
    ensures
        forall|inner: &mut TweedInner<F, P, T, C, S, K, A>, ot_volts: F| #[trigger]
            call_ensures(
                TweedInner::<F, P, T, C, S, K, A>::process_inner::<
                    Rail,
                    Pair,
                    Grid,
                    Tube,
                    Couple,
                    Power,
                    Plates,
                    Current,
                    Draw,
                    Plus,
                >,
                (inner, input, zero, ops),
                ot_volts,
            ) ==> {
                let plates = match inner.current_channel_mode {
                    ChannelMode::Normal => v1(input, zero, rail),
                    ChannelMode::Both => v1(input, input, rail),
                    ChannelMode::Bright => v1(zero, input, rail),
                };
                ot_volts == powered(
                    coupled(v2a(grid(plates.plate_a_ac_volts, plates.plate_b_ac_volts), rail)),
                )
            },
{
}

/// What a sample leaves behind, where numbers add up: the supply is drawn from
/// by the sum of the three triodes' currents, and once per host sample each
/// meter gains its own plate's voltage. The pair that is not in the socket, the
/// spare network and the settings stay, and every other stage is run once.
pub proof fn law_sample_draws_and_meters<
    F: Copy,
    P,
    T,
    C,
    S,
    K,
    A,
    Rail,
    Pair,
    Grid,
    Tube,
    Couple,
    Power,
    Plates,
    Current,
    Draw,
    Plus,
>(
    input: F,
    zero: F,
    ops: InnerOps<Rail, Pair, Grid, Tube, Couple, Power, Plates, Current, Draw, Plus>,
    amount: spec_fn(F) -> int,
    drawn: spec_fn(A) -> int,
    plate_a: F,
    plate_b: F,
    v2a: spec_fn(T) -> F,
    pair_volts: spec_fn(P) -> F,
    tube_volts: spec_fn(T) -> F,
    power_volts: spec_fn(A) -> F,
) where
    Rail: FnOnce(&mut A) -> F,
    Pair: FnOnce(&mut P, F, F, F) -> PairOutput<F>,
    Grid: FnOnce(&mut C, F, F) -> F,
    Tube: FnOnce(&mut T, F, F) -> F,
    Couple: FnOnce(&mut K, F) -> F,
    Power: FnOnce(&mut A, F) -> F,
    Plates: FnOnce(&P, &T, &A) -> PlateVolts<F>,
    Current: FnOnce(&T) -> F,
    Draw: FnOnce(&mut A, F),
    Plus: Fn(F, F) -> F,

    requires
        forall|x: F, y: F, z: F| #[trigger]
            call_ensures(ops.plus, (x, y), z) ==> amount(z) == amount(x) + amount(y),
        forall|a: &mut A, y: F| #[trigger]
            call_ensures(ops.rail, (a,), y) ==> drawn(*final(a)) == drawn(*a),
        forall|a: &mut A, x: F, y: F| #[trigger]
            call_ensures(ops.power, (a, x), y) ==> drawn(*final(a)) == drawn(*a),
        forall|a: &mut A, x: F| #[trigger]
            call_ensures(ops.draw, (a, x), ()) ==> drawn(*final(a)) == drawn(*a) + amount(x)
                && power_volts(*final(a)) == power_volts(*a),
        forall|p: &mut P, a: F, b: F, r: F, y: PairOutput<F>| #[trigger]
            call_ensures(ops.pair, (p, a, b, r), y) ==> y.plate_a_current_amps == plate_a
                && y.plate_b_current_amps == plate_b,
        forall|t: &T, y: F| #[trigger] call_ensures(ops.current, (t,), y) ==> y == v2a(*t),
        forall|p: &P, t: &T, a: &A, y: PlateVolts<F>| #[trigger]
            call_ensures(ops.plates, (p, t, a), y) ==> y.v1 == pair_volts(*p) && y.v2 == tube_volts(
                *t,
            ) && y.v3v4 == power_volts(*a),
    ensures
        forall|inner: &mut TweedInner<F, P, T, C, S, K, A>, ot_volts: F| #[trigger]
            call_ensures(
                TweedInner::<F, P, T, C, S, K, A>::process_inner::<
                    Rail,
                    Pair,
                    Grid,
                    Tube,
                    Couple,
                    Power,
                    Plates,
                    Current,
                    Draw,
                    Plus,
                >,
                (inner, input, zero, ops),
                ot_volts,
            ) ==> {
                &&& drawn(final(inner).amp) == drawn(inner.amp) + amount(plate_a) + amount(plate_b)
                    + amount(v2a(final(inner).v2a_tube))
                &&& !final(inner).meter_this_host_sample
                &&& inner.meter_this_host_sample ==> {
                    &&& final(inner).plate_samples_counted == inner.plate_samples_counted + 1
                    &&& amount(final(inner).v1_plate_sum) == amount(inner.v1_plate_sum) + amount(
                        pair_volts(
                            if inner.current_tube_toggle {
                                final(inner).v1_pair_mod
                            } else {
                                final(inner).v1_pair_stock
                            },
                        ),
                    )
                    &&& amount(final(inner).v2_plate_sum) == amount(inner.v2_plate_sum) + amount(
                        tube_volts(final(inner).v2a_tube),
                    )
                    &&& amount(final(inner).v3v4_plate_sum) == amount(inner.v3v4_plate_sum)
                        + amount(power_volts(final(inner).amp))
                }
                &&& !inner.meter_this_host_sample ==> {
                    &&& final(inner).plate_samples_counted == inner.plate_samples_counted
                    &&& final(inner).v1_plate_sum == inner.v1_plate_sum
                    &&& final(inner).v2_plate_sum == inner.v2_plate_sum
                    &&& final(inner).v3v4_plate_sum == inner.v3v4_plate_sum
                }
                &&& inner.current_tube_toggle ==> final(inner).v1_pair_stock == inner.v1_pair_stock
                &&& !inner.current_tube_toggle ==> final(inner).v1_pair_mod == inner.v1_pair_mod
                &&& final(inner).grid_spare == inner.grid_spare
                &&& final(inner).grid_norm_handle == inner.grid_norm_handle
                &&& final(inner).grid_bright_handle == inner.grid_bright_handle
                &&& final(inner).grid_tone_handle == inner.grid_tone_handle
                &&& final(inner).norm_smoother == inner.norm_smoother
                &&& final(inner).bright_smoother == inner.bright_smoother
                &&& final(inner).tone_smoother == inner.tone_smoother
                &&& final(inner).current_tube_toggle == inner.current_tube_toggle
                &&& final(inner).current_channel_mode == inner.current_channel_mode
            },
{
}

/// Where each stage counts its runs, a sample runs every stage of the signal
/// path once, the pair in the socket among them.
pub proof fn law_sample_runs_each_stage_once<
    F: Copy,
    P,
    T,
    C,
    S,
    K,
    A,
    Rail,
    Pair,
    Grid,
    Tube,
    Couple,
    Power,
    Plates,
    Current,
    Draw,
    Plus,
>(
    input: F,
    zero: F,
    ops: InnerOps<Rail, Pair, Grid, Tube, Couple, Power, Plates, Current, Draw, Plus>,
    pair_runs: spec_fn(P) -> int,
    circuit_runs: spec_fn(C) -> int,
    tube_runs: spec_fn(T) -> int,
    cap_runs: spec_fn(K) -> int,
    amp_runs: spec_fn(A) -> int,
) where
    Rail: FnOnce(&mut A) -> F,
    Pair: FnOnce(&mut P, F, F, F) -> PairOutput<F>,
    Grid: FnOnce(&mut C, F, F) -> F,
    Tube: FnOnce(&mut T, F, F) -> F,
    Couple: FnOnce(&mut K, F) -> F,
    Power: FnOnce(&mut A, F) -> F,
    Plates: FnOnce(&P, &T, &A) -> PlateVolts<F>,
    Current: FnOnce(&T) -> F,
    Draw: FnOnce(&mut A, F),
    Plus: Fn(F, F) -> F,

    requires
        forall|p: &mut P, a: F, b: F, r: F, y: PairOutput<F>| #[trigger]
            call_ensures(ops.pair, (p, a, b, r), y) ==> pair_runs(*final(p)) == pair_runs(*p) + 1,
        forall|c: &mut C, a: F, b: F, y: F| #[trigger]
            call_ensures(ops.grid, (c, a, b), y) ==> circuit_runs(*final(c)) == circuit_runs(*c) + 1,
        forall|t: &mut T, g: F, r: F, y: F| #[trigger]
            call_ensures(ops.tube, (t, g, r), y) ==> tube_runs(*final(t)) == tube_runs(*t) + 1,
        forall|k: &mut K, x: F, y: F| #[trigger]
            call_ensures(ops.couple, (k, x), y) ==> cap_runs(*final(k)) == cap_runs(*k) + 1,
        forall|a: &mut A, x: F, y: F| #[trigger]
            call_ensures(ops.power, (a, x), y) ==> amp_runs(*final(a)) == amp_runs(*a) + 1,
        forall|a: &mut A, y: F| #[trigger]
            call_ensures(ops.rail, (a,), y) ==> amp_runs(*final(a)) == amp_runs(*a),
        forall|a: &mut A, x: F| #[trigger]
            call_ensures(ops.draw, (a, x), ()) ==> amp_runs(*final(a)) == amp_runs(*a),
    ensures
        forall|inner: &mut TweedInner<F, P, T, C, S, K, A>, ot_volts: F| #[trigger]
            call_ensures(
                TweedInner::<F, P, T, C, S, K, A>::process_inner::<
                    Rail,
                    Pair,
                    Grid,
                    Tube,
                    Couple,
                    Power,
                    Plates,
                    Current,
                    Draw,
                    Plus,
                >,
                (inner, input, zero, ops),
                ot_volts,
            ) ==> {
                &&& pair_runs(final(inner).v1_pair_mod) == pair_runs(inner.v1_pair_mod) + (
                if inner.current_tube_toggle {
                    1int
                } else {
                    0
                })
                &&& pair_runs(final(inner).v1_pair_stock) == pair_runs(inner.v1_pair_stock) + (
                if inner.current_tube_toggle {
                    0int
                } else {
                    1
                })
                &&& circuit_runs(final(inner).grid_circuit) == circuit_runs(inner.grid_circuit) + 1
                &&& tube_runs(final(inner).v2a_tube) == tube_runs(inner.v2a_tube) + 1
                &&& cap_runs(final(inner).coupling_v2a) == cap_runs(inner.coupling_v2a) + 1
                &&& amp_runs(final(inner).amp) == amp_runs(inner.amp) + 1
            },
{
}

/// Setting the wipers puts each pot of the live network where it was told to
/// be, and moves nothing else.
pub proof fn law_wipers_stand_where_they_are_set<
    F: Copy, P, T, C, S, K, A,
    SetPot: Fn(&mut C, PotHandle, F),
>(
    normal: F,
    bright: F,
    tone: F,
    set_pot: SetPot,
    position: spec_fn(C, PotHandle) -> F,
)
    requires
        forall|c: &mut C, pot: PotHandle, x: F| #[trigger]
            call_ensures(set_pot, (c, pot, x), ()) ==> position(*final(c), pot) == x && (forall|
                other: PotHandle,
            |
                other != pot ==> #[trigger] position(*final(c), other) == position(*c, other)),
    ensures
        forall|inner: &mut TweedInner<F, P, T, C, S, K, A>| #[trigger]
            call_ensures(
                TweedInner::<F, P, T, C, S, K, A>::set_wipers::<SetPot>,
                (inner, normal, bright, tone, &set_pot),
                (),
            )
                && inner.grid_norm_handle != inner.grid_bright_handle && inner.grid_norm_handle
                != inner.grid_tone_handle && inner.grid_bright_handle != inner.grid_tone_handle
                ==> {
                &&& position(final(inner).grid_circuit, inner.grid_norm_handle) == normal
                &&& position(final(inner).grid_circuit, inner.grid_bright_handle) == bright
                &&& position(final(inner).grid_circuit, inner.grid_tone_handle) == tone
                &&& *final(inner) == (TweedInner {
                    grid_circuit: final(inner).grid_circuit,
                    ..*inner
                })
            },
{
}

/// The knobs of the panel become the targets of their own smoothers, and the
/// channel that of the amplifier; the network waits for the smoothers.
pub proof fn law_panel_sets_the_targets<F: Copy, P, T, C, S, K, A, SetTarget: Fn(&mut S, F)>(
    channel: ChannelMode,
    normal: F,
    bright: F,
    tone: F,
    set_target: SetTarget,
    target: spec_fn(S) -> F,
)
    requires
        forall|s: &mut S, x: F| #[trigger]
            call_ensures(set_target, (s, x), ()) ==> target(*final(s)) == x,
    ensures
        forall|inner: &mut TweedInner<F, P, T, C, S, K, A>| #[trigger]
            call_ensures(
                TweedInner::<F, P, T, C, S, K, A>::set_targets::<SetTarget>,
                (inner, normal, bright, tone, &set_target),
                (),
            )
                ==> {
                &&& target(final(inner).norm_smoother) == normal
                &&& target(final(inner).bright_smoother) == bright
                &&& target(final(inner).tone_smoother) == tone
                &&& *final(inner) == (TweedInner {
                    norm_smoother: final(inner).norm_smoother,
                    bright_smoother: final(inner).bright_smoother,
                    tone_smoother: final(inner).tone_smoother,
                    ..*inner
                })
            },
        forall|inner: &mut TweedInner<F, P, T, C, S, K, A>| #[trigger]
            call_ensures(
                TweedInner::<F, P, T, C, S, K, A>::follow_panel::<SetTarget>,
                (inner, channel, normal, bright, tone, set_target),
                (),
            ) ==> {
                &&& target(final(inner).norm_smoother) == normal
                &&& target(final(inner).bright_smoother) == bright
                &&& target(final(inner).tone_smoother) == tone
                &&& final(inner).current_channel_mode == channel
                &&& *final(inner) == (TweedInner {
                    current_channel_mode: channel,
                    norm_smoother: final(inner).norm_smoother,
                    bright_smoother: final(inner).bright_smoother,
                    tone_smoother: final(inner).tone_smoother,
                    ..*inner
                })
            },
{
}

/// At the start of a host sample each wiper goes to where its own smoother has
/// got by one tick, the supply starts a sample, and the plates may be metered
/// once; the meters and everything else stay.
pub proof fn law_wipers_follow_their_smoothers<
    F: Copy, P, T, C, S, K, A,
    Begin: FnOnce(&mut A),
    Tick: Fn(&mut S) -> F,
    SetPot: Fn(&mut C, PotHandle, F),
>(
    begin: Begin,
    tick: Tick,
    set_pot: SetPot,
    begun: spec_fn(A) -> A,
    ticked: spec_fn(S) -> S,
    reached: spec_fn(S) -> F,
    position: spec_fn(C, PotHandle) -> F,
)
    requires
        forall|a: &mut A| #[trigger] call_ensures(begin, (a,), ()) ==> *final(a) == begun(*a),
        forall|s: &mut S, y: F| #[trigger]
            call_ensures(tick, (s,), y) ==> *final(s) == ticked(*s) && y == reached(*s),
        forall|c: &mut C, pot: PotHandle, x: F| #[trigger]
            call_ensures(set_pot, (c, pot, x), ()) ==> position(*final(c), pot) == x && (forall|
                other: PotHandle,
            |
                other != pot ==> #[trigger] position(*final(c), other) == position(*c, other)),
    ensures
        forall|inner: &mut TweedInner<F, P, T, C, S, K, A>| #[trigger]
            call_ensures(
                TweedInner::<F, P, T, C, S, K, A>::begin_host_sample::<Begin, Tick, SetPot>,
                (inner, begin, tick, set_pot),
                (),
            ) && inner.grid_norm_handle != inner.grid_bright_handle && inner.grid_norm_handle
                != inner.grid_tone_handle && inner.grid_bright_handle != inner.grid_tone_handle
                ==> {
                &&& final(inner).amp == begun(inner.amp)
                &&& final(inner).norm_smoother == ticked(inner.norm_smoother)
                &&& final(inner).bright_smoother == ticked(inner.bright_smoother)
                &&& final(inner).tone_smoother == ticked(inner.tone_smoother)
                &&& position(final(inner).grid_circuit, inner.grid_norm_handle) == reached(
                    inner.norm_smoother,
                )
                &&& position(final(inner).grid_circuit, inner.grid_bright_handle) == reached(
                    inner.bright_smoother,
                )
                &&& position(final(inner).grid_circuit, inner.grid_tone_handle) == reached(
                    inner.tone_smoother,
                )
                &&& final(inner).meter_this_host_sample
                &&& *final(inner) == (TweedInner {
                    amp: final(inner).amp,
                    norm_smoother: final(inner).norm_smoother,
                    bright_smoother: final(inner).bright_smoother,
                    tone_smoother: final(inner).tone_smoother,
                    grid_circuit: final(inner).grid_circuit,
                    meter_this_host_sample: true,
                    ..*inner
                })
            },
{
}

/// Exchanging the networks makes the spare one live, from rest, and keeps the
/// live one as it was; the handles go with their networks.
pub proof fn law_swap_brings_the_spare_in_from_rest<
    F: Copy,
    P,
    T,
    C,
    S,
    K,
    A,
    Reset: FnOnce(&mut C),
>(
    reset: Reset,
    rested: spec_fn(C) -> C,
)
    requires
        forall|c: &mut C| #[trigger] call_ensures(reset, (c,), ()) ==> *final(c) == rested(*c),
    ensures
        forall|inner: &mut TweedInner<F, P, T, C, S, K, A>| #[trigger]
            call_ensures(
                TweedInner::<F, P, T, C, S, K, A>::swap_grid_network::<Reset>,
                (inner, reset),
                (),
            ) ==> {
                &&& final(inner).grid_circuit == rested(inner.grid_spare.circuit)
                &&& final(inner).grid_spare.circuit == inner.grid_circuit
                &&& final(inner).grid_norm_handle == inner.grid_spare.norm_volume
                &&& final(inner).grid_bright_handle == inner.grid_spare.bright_volume
                &&& final(inner).grid_tone_handle == inner.grid_spare.tone
                &&& final(inner).grid_spare.norm_volume == inner.grid_norm_handle
                &&& final(inner).grid_spare.bright_volume == inner.grid_bright_handle
                &&& final(inner).grid_spare.tone == inner.grid_tone_handle
                &&& *final(inner) == (TweedInner {
                    grid_circuit: final(inner).grid_circuit,
                    grid_norm_handle: final(inner).grid_norm_handle,
                    grid_bright_handle: final(inner).grid_bright_handle,
                    grid_tone_handle: final(inner).grid_tone_handle,
                    grid_spare: final(inner).grid_spare,
                    ..*inner
                })
            },
{
}

/// A toggle that has not moved changes nothing. One that has puts its tube into
/// the socket and the network of that tube in front of V2A, with the wipers and
/// the targets of the smoothers at the knobs, and keeps the network of the
/// other tube as it was; the pairs and the other stages stay.
pub proof fn law_toggle_brings_its_tube_and_network<
    F: Copy,
    P,
    T,
    C,
    S,
    K,
    A,
    Reset,
    SetTarget,
    SetPot,
>(
    toggle: bool,
    normal: F,
    bright: F,
    tone: F,
    reset: Reset,
    set_target: SetTarget,
    set_pot: SetPot,
    target: spec_fn(S) -> F,
    position: spec_fn(C, PotHandle) -> F,
    tube_of: spec_fn(C) -> bool,
    at_rest: spec_fn(C) -> bool,
) where
    Reset: FnOnce(&mut C),
    SetTarget: Fn(&mut S, F),
    SetPot: Fn(&mut C, PotHandle, F),

    requires
        forall|c: &mut C| #[trigger]
            call_ensures(reset, (c,), ()) ==> at_rest(*final(c)) && tube_of(*final(c)) == tube_of(
                *c,
            ),
        forall|c: &mut C, pot: PotHandle, x: F| #[trigger]
            call_ensures(set_pot, (c, pot, x), ()) ==> at_rest(*final(c)) == at_rest(*c) && tube_of(
                *final(c),
            ) == tube_of(*c),
        forall|s: &mut S, x: F| #[trigger]
            call_ensures(set_target, (s, x), ()) ==> target(*final(s)) == x,
        forall|c: &mut C, pot: PotHandle, x: F| #[trigger]
            call_ensures(set_pot, (c, pot, x), ()) ==> position(*final(c), pot) == x && (forall|
                other: PotHandle,
            |
                other != pot ==> #[trigger] position(*final(c), other) == position(*c, other)),
    ensures
        forall|inner: &mut TweedInner<F, P, T, C, S, K, A>, swapped: bool| #[trigger]
            call_ensures(
                TweedInner::<F, P, T, C, S, K, A>::follow_tube_toggle::<Reset, SetTarget, SetPot>,
                (inner, toggle, normal, bright, tone, reset, set_target, set_pot),
                swapped,
            ) && inner.grid_spare.norm_volume != inner.grid_spare.bright_volume
                && inner.grid_spare.norm_volume != inner.grid_spare.tone
                && inner.grid_spare.bright_volume != inner.grid_spare.tone ==> {
                &&& swapped <==> inner.current_tube_toggle != toggle
                &&& final(inner).current_tube_toggle == toggle
                &&& !swapped ==> *final(inner) == *inner
                &&& swapped ==> {
                    &&& final(inner).grid_norm_handle == inner.grid_spare.norm_volume
                    &&& final(inner).grid_bright_handle == inner.grid_spare.bright_volume
                    &&& final(inner).grid_tone_handle == inner.grid_spare.tone
                    &&& tube_of(final(inner).grid_circuit) == tube_of(inner.grid_spare.circuit)
                    &&& at_rest(final(inner).grid_circuit)
                    &&& position(final(inner).grid_circuit, final(inner).grid_norm_handle) == normal
                    &&& position(final(inner).grid_circuit, final(inner).grid_bright_handle)
                        == bright
                    &&& position(final(inner).grid_circuit, final(inner).grid_tone_handle) == tone
                    &&& target(final(inner).norm_smoother) == normal
                    &&& target(final(inner).bright_smoother) == bright
                    &&& target(final(inner).tone_smoother) == tone
                    &&& final(inner).grid_spare.circuit == inner.grid_circuit
                    &&& final(inner).grid_spare.norm_volume == inner.grid_norm_handle
                    &&& final(inner).grid_spare.bright_volume == inner.grid_bright_handle
                    &&& final(inner).grid_spare.tone == inner.grid_tone_handle
                    &&& *final(inner) == (TweedInner {
                        current_tube_toggle: toggle,
                        grid_circuit: final(inner).grid_circuit,
                        grid_norm_handle: final(inner).grid_norm_handle,
                        grid_bright_handle: final(inner).grid_bright_handle,
                        grid_tone_handle: final(inner).grid_tone_handle,
                        grid_spare: final(inner).grid_spare,
                        norm_smoother: final(inner).norm_smoother,
                        bright_smoother: final(inner).bright_smoother,
                        tone_smoother: final(inner).tone_smoother,
                        ..*inner
                    })
                }
            },
{
}

/// The means are those of the sums over all the samples that were counted, each
/// plate's of its own sum; before a sample was counted there are none, and
/// emptying the meters leaves none.
pub proof fn law_means_are_over_what_was_counted<F: Copy, P, T, C, S, K, A, Mean: Fn(F, u32) -> F>(
    mean: Mean,
    zero: F,
    mean_of: spec_fn(F, u32) -> F,
)
    requires
        forall|sum: F, n: u32, y: F| #[trigger]
            call_ensures(mean, (sum, n), y) ==> y == mean_of(sum, n),
    ensures
        forall|inner: TweedInner<F, P, T, C, S, K, A>, means: Option<PlateVolts<F>>| #[trigger]
            call_ensures(
                TweedInner::<F, P, T, C, S, K, A>::plate_means::<Mean>,
                (&inner, mean),
                means,
            ) ==> {
                &&& means is Some <==> inner.plate_samples_counted > 0
                &&& means matches Some(volts) ==> {
                    &&& volts.v1 == mean_of(inner.v1_plate_sum, inner.plate_samples_counted)
                    &&& volts.v2 == mean_of(inner.v2_plate_sum, inner.plate_samples_counted)
                    &&& volts.v3v4 == mean_of(inner.v3v4_plate_sum, inner.plate_samples_counted)
                }
            },
        forall|inner: &mut TweedInner<F, P, T, C, S, K, A>| #[trigger]
            call_ensures(
                TweedInner::<F, P, T, C, S, K, A>::reset_plate_meters,
                (inner, zero),
                (),
            ) ==> {
                &&& final(inner).plate_samples_counted == 0
                &&& final(inner).v1_plate_sum == zero
                &&& final(inner).v2_plate_sum == zero
                &&& final(inner).v3v4_plate_sum == zero
                &&& *final(inner) == (TweedInner {
                    plate_samples_counted: 0,
                    v1_plate_sum: zero,
                    v2_plate_sum: zero,
                    v3v4_plate_sum: zero,
                    ..*inner
                })
            },
{
}

/// A reset puts every stage of the signal path to rest, both pairs among them,
/// and empties the meters. The spare network, the knobs and the settings stay.
pub proof fn law_reset_rests_the_signal_path<
    F: Copy, P, T, C, S, K, A,
    ResetPair: Fn(&mut P),
    ResetGrid: FnOnce(&mut C),
    ResetTube: FnOnce(&mut T),
    ResetCap: FnOnce(&mut K),
    ResetAmp: FnOnce(&mut A),
>(
    zero: F,
    reset_pair: ResetPair,
    reset_grid: ResetGrid,
    reset_tube: ResetTube,
    reset_cap: ResetCap,
    reset_amp: ResetAmp,
    pair_rests: spec_fn(P) -> bool,
    circuit_rests: spec_fn(C) -> bool,
    tube_rests: spec_fn(T) -> bool,
    cap_rests: spec_fn(K) -> bool,
    amp_rests: spec_fn(A) -> bool,
)
    requires
        forall|p: &mut P| #[trigger] call_ensures(reset_pair, (p,), ()) ==> pair_rests(*final(p)),
        forall|c: &mut C| #[trigger] call_ensures(reset_grid, (c,), ()) ==> circuit_rests(*final(c)),
        forall|t: &mut T| #[trigger] call_ensures(reset_tube, (t,), ()) ==> tube_rests(*final(t)),
        forall|k: &mut K| #[trigger] call_ensures(reset_cap, (k,), ()) ==> cap_rests(*final(k)),
        forall|a: &mut A| #[trigger] call_ensures(reset_amp, (a,), ()) ==> amp_rests(*final(a)),
    ensures
        forall|inner: &mut TweedInner<F, P, T, C, S, K, A>| #[trigger]
            call_ensures(
                TweedInner::<F, P, T, C, S, K, A>::reset::<ResetPair, ResetGrid, ResetTube, ResetCap, ResetAmp>,
                (inner, zero, reset_pair, reset_grid, reset_tube, reset_cap, reset_amp),
                (),
            ) ==> {
                &&& pair_rests(final(inner).v1_pair_stock) && pair_rests(final(inner).v1_pair_mod)
                &&& circuit_rests(final(inner).grid_circuit)
                &&& tube_rests(final(inner).v2a_tube)
                &&& cap_rests(final(inner).coupling_v2a)
                &&& amp_rests(final(inner).amp)
                &&& !final(inner).meter_this_host_sample
                &&& final(inner).plate_samples_counted == 0
                &&& final(inner).v1_plate_sum == zero
                &&& final(inner).v2_plate_sum == zero
                &&& final(inner).v3v4_plate_sum == zero
                &&& final(inner).grid_spare == inner.grid_spare
                &&& final(inner).grid_norm_handle == inner.grid_norm_handle
                &&& final(inner).grid_bright_handle == inner.grid_bright_handle
                &&& final(inner).grid_tone_handle == inner.grid_tone_handle
                &&& final(inner).norm_smoother == inner.norm_smoother
                &&& final(inner).bright_smoother == inner.bright_smoother
                &&& final(inner).tone_smoother == inner.tone_smoother
                &&& final(inner).current_tube_toggle == inner.current_tube_toggle
                &&& final(inner).current_channel_mode == inner.current_channel_mode
            },
{
}

/// The amplifier is the 5E3, whatever the toggle says: a 12AY7 biased at -1.5
/// volts and a 12AX7 at -1.2 for V1, each on the shared cathode alone, a 12AX7
/// for V2A, 20 nanofarads into a megohm behind it, and its own transformer and
/// rectifier. The knobs start where they were given, with 20 milliseconds to
/// follow, and the meters empty.
pub proof fn law_amplifier_is_the_5e3<
    F: Copy,
    P,
    T,
    C,
    S,
    K,
    A,
    Pair,
    Tube,
    Cap,
    Amp,
    SourceZ,
    Grid,
    Solve,
    SetPot,
    Smoother,
>(
    tube_toggle: bool,
    channel: ChannelMode,
    normal: F,
    bright: F,
    tone: F,
    zero: F,
    ops: BuildOps<Pair, Tube, Cap, Amp, SourceZ, Grid, Solve, SetPot, Smoother>,
    inner: TweedInner<F, P, T, C, S, K, A>,
) where
    Pair: Fn(PairBuild) -> P,
    Tube: FnOnce(TubeBuild) -> T,
    Cap: FnOnce(u32, u32) -> K,
    Amp: FnOnce(TopologyOverrides) -> A,
    SourceZ: Fn(&'static str) -> F,
    Grid: FnOnce(&'static str, &T) -> GridTube<F>,
    Solve: Fn(GridNetlist<F>) -> C,
    SetPot: Fn(&mut C, PotHandle, F),
    Smoother: Fn(F, u32) -> S,

    requires
        call_ensures(
            TweedInner::<F, P, T, C, S, K, A>::build::<
                Pair,
                Tube,
                Cap,
                Amp,
                SourceZ,
                Grid,
                Solve,
                SetPot,
                Smoother,
            >,
            (tube_toggle, channel, normal, bright, tone, zero, ops),
            inner,
        ),
    ensures
        exists|b: PairBuild|
            {
                &&& #[trigger] call_ensures(ops.pair, (b,), inner.v1_pair_stock)
                &&& b.specimen_id@ == "ge_12ay7"@
                &&& b.load_line.reference_bias_mv == -1_500
                &&& b.load_line.cathode_resistor_ohms == 0
                &&& b.shared_cathode_resistor_ohms == 820
            },
        exists|b: PairBuild|
            {
                &&& #[trigger] call_ensures(ops.pair, (b,), inner.v1_pair_mod)
                &&& b.specimen_id@ == "ge_12ax7"@
                &&& b.load_line.reference_bias_mv == -1_200
                &&& b.load_line.cathode_resistor_ohms == 0
                &&& b.shared_cathode_resistor_ohms == 820
            },
        exists|b: TubeBuild|
            {
                &&& #[trigger] call_ensures(ops.tube, (b,), inner.v2a_tube)
                &&& b.specimen_id@ == "ge_12ax7"@
                &&& b.load_line.reference_bias_mv == -1_200
                &&& b.load_line.cathode_resistor_ohms == 0
                &&& b.cathode_resistor_ohms == 1_500
            },
        call_ensures(ops.cap, (20_000u32, 1_000_000u32), inner.coupling_v2a),
        exists|o: TopologyOverrides|
            {
                &&& #[trigger] call_ensures(ops.amp, (o,), inner.amp)
                &&& o.transformer_spec@ == "sst_108"@
                &&& o.rectifier_spec@ == "ge_5y3"@
            },
        call_ensures(ops.smoother, (normal, 20u32), inner.norm_smoother),
        call_ensures(ops.smoother, (bright, 20u32), inner.bright_smoother),
        call_ensures(ops.smoother, (tone, 20u32), inner.tone_smoother),
        inner.current_tube_toggle == tube_toggle,
        inner.current_channel_mode == channel,
        !inner.meter_this_host_sample,
        inner.plate_samples_counted == 0,
        inner.v1_plate_sum == zero,
        inner.v2_plate_sum == zero,
        inner.v3v4_plate_sum == zero,
{
}

/// The network in front of V2A is driven from the tube in the socket and the
/// spare one from the other tube, both lead to V2A's own grid, and the wipers
/// of the live one stand at the knobs. Here a circuit is what its netlist and
/// the wipers make of it.
pub proof fn law_live_network_is_that_of_the_tube<
    F: Copy,
    P,
    T,
    C,
    S,
    K,
    A,
    Pair,
    Tube,
    Cap,
    Amp,
    SourceZ,
    Grid,
    Solve,
    SetPot,
    Smoother,
>(
    tube_toggle: bool,
    channel: ChannelMode,
    normal: F,
    bright: F,
    tone: F,
    zero: F,
    ops: BuildOps<Pair, Tube, Cap, Amp, SourceZ, Grid, Solve, SetPot, Smoother>,
    inner: TweedInner<F, P, T, C, S, K, A>,
    source_z: spec_fn(Seq<char>) -> F,
    grid_of: spec_fn(Seq<char>, T) -> GridTube<F>,
    source: spec_fn(C) -> F,
    diode: spec_fn(C) -> (F, F, F),
    position: spec_fn(C, PotHandle) -> F,
) where
    Pair: Fn(PairBuild) -> P,
    Tube: FnOnce(TubeBuild) -> T,
    Cap: FnOnce(u32, u32) -> K,
    Amp: FnOnce(TopologyOverrides) -> A,
    SourceZ: Fn(&'static str) -> F,
    Grid: FnOnce(&'static str, &T) -> GridTube<F>,
    Solve: Fn(GridNetlist<F>) -> C,
    SetPot: Fn(&mut C, PotHandle, F),
    Smoother: Fn(F, u32) -> S,

    requires
        call_ensures(
            TweedInner::<F, P, T, C, S, K, A>::build::<
                Pair,
                Tube,
                Cap,
                Amp,
                SourceZ,
                Grid,
                Solve,
                SetPot,
                Smoother,
            >,
            (tube_toggle, channel, normal, bright, tone, zero, ops),
            inner,
        ),
        forall|id: &'static str, z: F| #[trigger]
            call_ensures(ops.source_z, (id,), z) ==> z == source_z(id@),
        forall|id: &'static str, t: &T, y: GridTube<F>| #[trigger]
            call_ensures(ops.grid, (id, t), y) ==> y == grid_of(id@, *t),
        forall|n: GridNetlist<F>, c: C, i: int|
            #![trigger call_ensures(ops.solve, (n,), c), n.elements@[i]]
            call_ensures(ops.solve, (n,), c) && 0 <= i < n.elements@.len() ==> {
                &&& n.elements@[i] matches GridElement::Resistor { ohms, .. } ==> source(c) == ohms
                &&& n.elements@[i] matches GridElement::Conduction {
                    perveance,
                    contact_potential,
                    cathode_voltage,
                    ..
                } ==> diode(c) == (perveance, contact_potential, cathode_voltage)
            },
        forall|c: &mut C, pot: PotHandle, x: F| #[trigger]
            call_ensures(ops.set_pot, (c, pot, x), ()) ==> source(*final(c)) == source(*c) && diode(
                *final(c),
            ) == diode(*c),
        forall|c: &mut C, pot: PotHandle, x: F| #[trigger]
            call_ensures(ops.set_pot, (c, pot, x), ()) ==> position(*final(c), pot) == x && (forall|
                other: PotHandle,
            |
                other != pot ==> #[trigger] position(*final(c), other) == position(*c, other)),
    ensures
        tube_toggle ==> source(inner.grid_circuit) == source_z("ge_12ax7"@),
        !tube_toggle ==> source(inner.grid_circuit) == source_z("ge_12ay7"@),
        tube_toggle ==> source(inner.grid_spare.circuit) == source_z("ge_12ay7"@),
        !tube_toggle ==> source(inner.grid_spare.circuit) == source_z("ge_12ax7"@),
        ({
            let grid = grid_of("ge_12ax7"@, inner.v2a_tube);
            &&& diode(inner.grid_circuit) == (
                grid.grid_perveance,
                grid.contact_potential,
                grid.cathode_voltage,
            )
            &&& diode(inner.grid_spare.circuit) == diode(inner.grid_circuit)
        }),
        position(inner.grid_circuit, inner.grid_norm_handle) == normal,
        position(inner.grid_circuit, inner.grid_bright_handle) == bright,
        position(inner.grid_circuit, inner.grid_tone_handle) == tone,
        inner.grid_norm_handle != inner.grid_bright_handle,
        inner.grid_norm_handle != inner.grid_tone_handle,
        inner.grid_bright_handle != inner.grid_tone_handle,
        inner.grid_spare.norm_volume == inner.grid_norm_handle,
        inner.grid_spare.bright_volume == inner.grid_bright_handle,
        inner.grid_spare.tone == inner.grid_tone_handle,
{
    assert forall|net: V2aGridNetwork<GridNetlist<F>>, z: F, t: GridTube<F>| #[trigger]
        net.is_grid_network(z, t) implies net.circuit.elements@.len() == 11
        && net.circuit.elements@[0] == (GridElement::Resistor {
        a: GridNode::V1aPlate,
        b: GridNode::V1aAfterSource,
        ohms: z,
    }) && net.circuit.elements@[10] == (GridElement::Conduction {
        grid: GridNode::V2aGrid,
        perveance: t.grid_perveance,
        contact_potential: t.contact_potential,
        cathode_voltage: t.cathode_voltage,
    }) by {}
}

} // verus!
