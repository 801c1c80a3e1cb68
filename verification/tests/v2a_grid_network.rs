//! How the volume and tone network in front of V2A behaves, solved sample by
//! sample from its netlist.
//!
//! - The volume pots are wired backwards, signal into the wiper: turning one
//!   down puts up to 1 MΩ in series with the grid, so low volume is darker.
//! - There are no mixing resistors: the pot of the channel that is not played
//!   loads the one that is.
//! - The 500 pF bypass feeds the tone pot, so that the Bright channel keeps
//!   its treble at low volume while the tone is up.
//! - The 5 nF cap cuts treble with the tone down and hides behind the track
//!   with the tone up.
//! - The caps block DC.

use the_tweed::{
    Capacitance, GridElement, GridNetlist, GridNode, GridTube, PotHandle, V2aGridNetwork,
};

const SAMPLE_RATE: f32 = 48_000.0;
const V1_SOURCE_Z_OHMS: f32 = 21_000.0;
const NODES: usize = 7;
const SHORT_OHMS: f64 = 1.0;

/// A 12AX7 on a 100 kΩ plate load.
const V2A: GridTube<f32> = GridTube {
    miller_capacitance: 100e-12,
    grid_perveance: 1e-4,
    contact_potential: 0.5,
    cathode_voltage: 1.2,
};

/// The row of a node whose voltage is solved for.
fn row(node: GridNode) -> Option<usize> {
    match node {
        GridNode::V2aGrid => Some(0),
        GridNode::V1aAfterSource => Some(1),
        GridNode::NormIn => Some(2),
        GridNode::V1bAfterSource => Some(3),
        GridNode::BrightIn => Some(4),
        GridNode::ToneTop => Some(5),
        GridNode::ToneBottom => Some(6),
        GridNode::Ground | GridNode::V1aPlate | GridNode::V1bPlate => None,
    }
}

fn inverse(mut a: [[f64; NODES]; NODES]) -> [[f64; NODES]; NODES] {
    let mut b = [[0.0; NODES]; NODES];
    for i in 0..NODES {
        b[i][i] = 1.0;
    }
    for i in 0..NODES {
        let mut p = i;
        for r in i..NODES {
            if a[r][i].abs() > a[p][i].abs() {
                p = r;
            }
        }
        a.swap(i, p);
        b.swap(i, p);
        let d = a[i][i];
        for c in 0..NODES {
            a[i][c] /= d;
            b[i][c] /= d;
        }
        for r in 0..NODES {
            if r != i {
                let f = a[r][i];
                for c in 0..NODES {
                    a[r][c] -= f * a[i][c];
                    b[r][c] -= f * b[i][c];
                }
            }
        }
    }
    b
}

struct Reactance {
    a: GridNode,
    b: GridNode,
    conductance: f64,
    current: f64,
    history: f64,
}

/// Solves a netlist with the trapezoidal rule, and its one diode with Newton's.
struct Solver {
    netlist: GridNetlist<f32>,
    positions: Vec<f64>,
    inverse: [[f64; NODES]; NODES],
    drive: [[f64; 2]; NODES],
    caps: Vec<Reactance>,
    volts: [f64; NODES],
    diode: (f64, f64, f64),
    output: usize,
}

impl Solver {
    fn new(netlist: GridNetlist<f32>) -> Self {
        assert_eq!(netlist.drivers, vec![GridNode::V1aPlate, GridNode::V1bPlate]);
        let output = row(netlist.output).unwrap();
        let mut positions = Vec::new();
        let mut caps = Vec::new();
        let mut diode = (0.0, 0.0, 0.0);
        for e in &netlist.elements {
            let mut position = 0.0;
            match *e {
                GridElement::Resistor { .. } => {}
                GridElement::Capacitor { a, b, value } => {
                    let farads = match value {
                        Capacitance::Picofarads(pf) => pf as f64 * 1e-12,
                        Capacitance::Solved(f) => f as f64,
                    };
                    let conductance = 2.0 * farads * SAMPLE_RATE as f64;
                    caps.push(Reactance { a, b, conductance, current: 0.0, history: 0.0 });
                }
                GridElement::Pot { position_percent, .. } => {
                    position = position_percent as f64 / 100.0;
                }
                GridElement::Conduction { grid, perveance, contact_potential, cathode_voltage } => {
                    assert_eq!(grid, GridNode::V2aGrid);
                    diode = (perveance as f64, contact_potential as f64, cathode_voltage as f64);
                }
            }
            positions.push(position);
        }
        let mut solver = Solver {
            netlist,
            positions,
            inverse: [[0.0; NODES]; NODES],
            drive: [[0.0; 2]; NODES],
            caps,
            volts: [0.0; NODES],
            diode,
            output,
        };
        solver.stamp();
        solver
    }

    fn stamp(&mut self) {
        let mut g = [[0.0; NODES]; NODES];
        let mut drive = [[0.0; 2]; NODES];
        let mut branches: Vec<(GridNode, GridNode, f64)> = Vec::new();
        for (e, p) in self.netlist.elements.iter().zip(&self.positions) {
            match *e {
                GridElement::Resistor { a, b, ohms } => branches.push((a, b, ohms as f64)),
                GridElement::Pot { top, wiper, bottom, track_ohms, .. } => {
                    let track = track_ohms as f64;
                    branches.push((top, wiper, ((1.0 - p) * track).max(SHORT_OHMS)));
                    branches.push((wiper, bottom, (p * track).max(SHORT_OHMS)));
                }
                GridElement::Capacitor { .. } | GridElement::Conduction { .. } => {}
            }
        }
        for c in &self.caps {
            branches.push((c.a, c.b, 1.0 / c.conductance));
        }
        for (a, b, ohms) in branches {
            for (from, to) in [(a, b), (b, a)] {
                if let Some(i) = row(from) {
                    g[i][i] += 1.0 / ohms;
                    match (row(to), to) {
                        (Some(j), _) => g[i][j] -= 1.0 / ohms,
                        (None, GridNode::V1aPlate) => drive[i][0] += 1.0 / ohms,
                        (None, GridNode::V1bPlate) => drive[i][1] += 1.0 / ohms,
                        (None, _) => {}
                    }
                }
            }
        }
        self.inverse = inverse(g);
        self.drive = drive;
    }

    fn set_pot_position(&mut self, pot: PotHandle, position: f32) {
        assert!(matches!(self.netlist.elements[pot.element], GridElement::Pot { .. }));
        self.positions[pot.element] = position as f64;
        self.stamp();
    }

    fn volts(&self, node: GridNode) -> f64 {
        row(node).map_or(0.0, |i| self.volts[i])
    }

    fn process(&mut self, plates: &[f32; 2]) -> f32 {
        let mut rhs = [0.0; NODES];
        for i in 0..NODES {
            rhs[i] = self.drive[i][0] * plates[0] as f64 + self.drive[i][1] * plates[1] as f64;
        }
        for k in 0..self.caps.len() {
            let across = self.volts(self.caps[k].a) - self.volts(self.caps[k].b);
            let cap = &mut self.caps[k];
            cap.history = cap.conductance * across + cap.current;
            if let Some(i) = row(cap.a) {
                rhs[i] += cap.history;
            }
            if let Some(i) = row(cap.b) {
                rhs[i] -= cap.history;
            }
        }
        let mut open = [0.0; NODES];
        for i in 0..NODES {
            for j in 0..NODES {
                open[i] += self.inverse[i][j] * rhs[j];
            }
        }
        let (perveance, contact, cathode) = self.diode;
        let source = self.inverse[0][0];
        let mut grid = open[0];
        let mut current = 0.0;
        for _ in 0..30 {
            let over = (grid - cathode + contact).max(0.0);
            current = perveance * over.powf(1.5);
            let slope = 1.5 * perveance * over.sqrt();
            let step = (grid - open[0] + source * current) / (1.0 + source * slope);
            grid -= step;
            if step.abs() < 1e-9 {
                break;
            }
        }
        for i in 0..NODES {
            self.volts[i] = open[i] - self.inverse[i][0] * current;
        }
        for k in 0..self.caps.len() {
            let across = self.volts(self.caps[k].a) - self.volts(self.caps[k].b);
            let cap = &mut self.caps[k];
            cap.current = cap.conductance * across - cap.history;
        }
        self.volts[self.output] as f32
    }
}

struct Network {
    circuit: Solver,
    norm_volume: PotHandle,
    bright_volume: PotHandle,
    tone: PotHandle,
}

fn build_network_behind(v1_source_z_ohms: f32) -> Network {
    let V2aGridNetwork { circuit, norm_volume, bright_volume, tone } =
        V2aGridNetwork::<GridNetlist<f32>>::new(v1_source_z_ohms, V2A);
    Network { circuit: Solver::new(circuit), norm_volume, bright_volume, tone }
}

fn build_network() -> Network {
    build_network_behind(V1_SOURCE_Z_OHMS)
}

/// Sets the pots and runs silence through the network.
fn settle_pots(net: &mut Network, norm: f32, bright: f32, tone: f32) {
    net.circuit.set_pot_position(net.norm_volume, norm);
    net.circuit.set_pot_position(net.bright_volume, bright);
    net.circuit.set_pot_position(net.tone, tone);
    for _ in 0..4_800 {
        let _ = net.circuit.process(&[0.0, 0.0]);
    }
}

/// Drives one plate of V1 with a sinusoid (0 is Normal, 1 is Bright), settles,
/// and measures the RMS at V2A's grid.
fn measure_rms(
    circuit: &mut Solver,
    driver: usize,
    freq_hz: f32,
    amp_volts: f32,
    settle: usize,
    measure: usize,
) -> f32 {
    let mut drives = [0.0_f32; 2];
    for i in 0..settle {
        let phase = 2.0 * std::f32::consts::PI * freq_hz * (i as f32 / SAMPLE_RATE);
        drives[driver] = amp_volts * phase.sin();
        let _ = circuit.process(&drives);
    }
    let mut sum_sq = 0.0_f32;
    for i in 0..measure {
        let phase = 2.0 * std::f32::consts::PI * freq_hz * ((settle + i) as f32 / SAMPLE_RATE);
        drives[driver] = amp_volts * phase.sin();
        let out = circuit.process(&drives);
        sum_sq += out * out;
    }
    (sum_sq / measure as f32).sqrt()
}

/// The response at 5 kHz over that at 100 Hz.
fn hf_lf_ratio(norm: f32, bright: f32, tone: f32, driver: usize) -> f32 {
    let mut net = build_network();
    settle_pots(&mut net, norm, bright, tone);
    let lo = measure_rms(&mut net.circuit, driver, 100.0, 1.0, 4_800, 9_600);
    let hi = measure_rms(&mut net.circuit, driver, 5_000.0, 1.0, 4_800, 9_600);
    hi / lo.max(1e-9)
}

#[test]
fn v2a_grid_network_tone_max_passes_treble() {
    let ratio = hf_lf_ratio(1.0, 0.0, 1.0, 0);
    assert!(
        ratio > 0.5,
        "tone=1.0 should pass HF without deep cut; HF/LF ratio = {}",
        ratio
    );
}

#[test]
fn v2a_grid_network_tone_min_cuts_treble() {
    let ratio = hf_lf_ratio(1.0, 0.0, 0.0, 0);
    let cut_db = 20.0 * ratio.log10();
    assert!(
        cut_db < -8.0,
        "tone=0.0 must deeply cut HF; measured HF/LF = {} dB",
        cut_db
    );
}

#[test]
fn v2a_grid_network_tone_position_modulates_hf_response() {
    let hi = hf_lf_ratio(1.0, 0.0, 1.0, 0);
    let lo = hf_lf_ratio(1.0, 0.0, 0.0, 0);
    assert!(
        hi > lo * 2.0,
        "tone=1.0 HF/LF ({}) must exceed tone=0.0 HF/LF ({}) by ≥6 dB",
        hi,
        lo
    );
}

#[test]
fn unused_volume_full_down_gives_most_gain() {
    let mut net_down = build_network();
    settle_pots(&mut net_down, 0.5, 0.0, 0.5);
    let rms_down = measure_rms(&mut net_down.circuit, 0, 1_000.0, 1.0, 4_800, 9_600);

    let mut net_up = build_network();
    settle_pots(&mut net_up, 0.5, 1.0, 0.5);
    let rms_up = measure_rms(&mut net_up.circuit, 0, 1_000.0, 1.0, 4_800, 9_600);

    assert!(
        rms_down > rms_up * 2.0,
        "unused bright vol at 0 ({}) must pass much more signal than at max ({})",
        rms_down,
        rms_up
    );
}

#[test]
fn volume_down_darkens_normal_channel() {
    let full = hf_lf_ratio(1.0, 0.0, 1.0, 0);
    let low = hf_lf_ratio(0.25, 0.0, 1.0, 0);
    assert!(
        full > low * 2.0,
        "norm vol=1.0 HF/LF ({}) must exceed vol=0.25 HF/LF ({}) by ≥6 dB",
        full,
        low
    );
}

#[test]
fn bright_channel_keeps_treble_at_low_volume() {
    let bright_ratio = hf_lf_ratio(0.0, 0.15, 1.0, 1);
    let norm_ratio = hf_lf_ratio(0.15, 0.0, 1.0, 0);
    assert!(
        bright_ratio > norm_ratio * 3.0,
        "bright HF/LF at low vol ({}) must far exceed normal HF/LF ({})",
        bright_ratio,
        norm_ratio
    );
}

#[test]
fn bright_bypass_is_tone_gated() {
    let tone_up = hf_lf_ratio(0.0, 0.15, 1.0, 1);
    let tone_down = hf_lf_ratio(0.0, 0.15, 0.0, 1);
    assert!(
        tone_up > tone_down * 2.0,
        "bright bypass with tone up ({}) must exceed tone down ({}) by ≥6 dB",
        tone_up,
        tone_down
    );
}

#[test]
fn tone_up_boosts_bright_channel_level() {
    let mut net_up = build_network();
    settle_pots(&mut net_up, 0.0, 0.5, 1.0);
    let rms_up = measure_rms(&mut net_up.circuit, 1, 2_000.0, 1.0, 4_800, 9_600);

    let mut net_down = build_network();
    settle_pots(&mut net_down, 0.0, 0.5, 0.3);
    let rms_down = measure_rms(&mut net_down.circuit, 1, 2_000.0, 1.0, 4_800, 9_600);

    assert!(
        rms_up > rms_down * 1.3,
        "tone=1.0 level at 2 kHz ({}) must exceed tone=0.3 ({}) by ≥30%",
        rms_up,
        rms_down
    );
}

#[test]
fn network_blocks_dc_at_v2a_grid() {
    let mut net = build_network();
    settle_pots(&mut net, 0.5, 0.5, 0.5);

    for _ in 0..((1.5 * SAMPLE_RATE) as usize) {
        let _ = net.circuit.process(&[10.0, 0.0]);
    }

    let mut sum = 0.0_f32;
    let n = 480usize;
    for _ in 0..n {
        sum += net.circuit.process(&[10.0, 0.0]);
    }
    let mean = sum / n as f32;

    assert!(
        mean.abs() < 0.05,
        "V2A grid DC steady-state = {} V (expected ≈ 0 with caps blocking DC)",
        mean
    );
}

/// Behind the two tubes of V1 the Bright channel differs at 8 kHz.
#[test]
fn v1_source_z_affects_hf_bright_response() {
    let mut nets = [build_network_behind(21_000.0), build_network_behind(38_500.0)];
    let settle = SAMPLE_RATE as usize;
    let measure = (SAMPLE_RATE / 100.0) as usize;
    let mut rms = [0.0_f32; 2];
    for (net, rms) in nets.iter_mut().zip(rms.iter_mut()) {
        net.circuit.set_pot_position(net.norm_volume, 0.0);
        net.circuit.set_pot_position(net.bright_volume, 0.5);
        net.circuit.set_pot_position(net.tone, 1.0);
        *rms = measure_rms(&mut net.circuit, 1, 8_000.0, 1.0, settle, measure);
    }
    assert!(
        rms[0] > rms[1] * 1.01,
        "12AY7 HF ({}) should exceed 12AX7 HF ({}) by ≥1%",
        rms[0],
        rms[1]
    );
}

/// The two tubes differ in the source impedance of their plates alone.
#[test]
fn tubes_of_v1_differ_in_source_impedance_alone() {
    let ay7 = V2aGridNetwork::<GridNetlist<f32>>::new(21_000.0, V2A);
    let ax7 = V2aGridNetwork::<GridNetlist<f32>>::new(38_500.0, V2A);
    let differing: Vec<usize> = (0..ay7.circuit.elements.len())
        .filter(|&i| {
            format!("{:?}", ay7.circuit.elements[i]) != format!("{:?}", ax7.circuit.elements[i])
        })
        .collect();
    assert_eq!(differing, vec![0, 3]);
    assert_eq!(ay7.circuit.elements.len(), 11);
    assert_eq!(ay7.circuit.output, GridNode::V2aGrid);
    assert_eq!(
        (ay7.norm_volume.element, ay7.bright_volume.element, ay7.tone.element),
        (2, 5, 7)
    );
}

/// Whatever the wipers do, the two volume tracks leak the grid to ground.
#[test]
fn volume_tracks_span_grid_and_ground() {
    let net = V2aGridNetwork::<GridNetlist<f32>>::new(21_000.0, V2A);
    let mut tracks = 0;
    for e in &net.circuit.elements {
        if let GridElement::Pot { top, bottom: GridNode::Ground, track_ohms, .. } = *e {
            assert_eq!((top, track_ohms), (GridNode::V2aGrid, 1_000_000));
            tracks += 1;
        }
    }
    assert_eq!(tracks, 2);
}

#[test]
fn nodes_have_the_names_of_the_print() {
    let names: Vec<&str> = [
        GridNode::V1aPlate,
        GridNode::V1bPlate,
        GridNode::V2aGrid,
        GridNode::V1aAfterSource,
        GridNode::NormIn,
        GridNode::V1bAfterSource,
        GridNode::BrightIn,
        GridNode::ToneTop,
        GridNode::ToneBottom,
    ]
    .iter()
    .map(|n| n.name())
    .collect();
    assert_eq!(
        names,
        vec![
            "v1a_plate",
            "v1b_plate",
            "v2a_grid",
            "v1a_after_src",
            "norm_in",
            "v1b_after_src",
            "bright_in",
            "tone_top",
            "tone_bottom",
        ]
    );
}
