//! What the preamp tubes and the power section of the 5E3 are built from.

use vstd::prelude::*;

verus! {

/// The preamp rail, in volts.
pub const PREAMP_BPLUS_VOLTS: u32 = 250;

/// The 12AY7 that V1 shipped with.
pub const V1_STOCK_SPECIMEN: &'static str = "ge_12ay7";

/// The 12AX7 that the tube toggle puts into V1.
pub const V1_MOD_SPECIMEN: &'static str = "ge_12ax7";

/// The tube in V2A.
pub const V2A_SPECIMEN: &'static str = "ge_12ax7";

/// The rectifier tube.
pub const RECTIFIER_SPEC: &'static str = "ge_5y3";

/// The output transformer.
pub const OT_SPEC: &'static str = "sst_108";

/// The cathode resistor that both triodes of V1 share, in ohms.
pub const V1_CATHODE_OHMS: u32 = 820;

/// The capacitor across it, in microfarads.
pub const V1_CATHODE_CAP_UF: u32 = 25;

/// The dielectric of that capacitor.
pub const V1_CATHODE_DIELECTRIC: &'static str = "electrolytic_vintage";

/// How far the triodes of V1 are apart, in thousandths.
pub const V1_MISMATCH_PERMILLE: u32 = 50;

/// The cathode resistor of V2A, in ohms.
pub const V2A_CATHODE_OHMS: u32 = 1_500;

/// The capacitor across it, in microfarads.
pub const V2A_CATHODE_CAP_UF: u32 = 25;

/// The capacitor between V2A's plate and the grid of V2B, in picofarads.
pub const V2A_TO_V2B_COUPLING_CAP_PF: u32 = 20_000;

/// The grid leak of V2B, in ohms.
pub const V2B_GRID_LEAK_OHMS: u32 = 1_000_000;

/// The plate load of V1 and V2A, in ohms.
pub const PREAMP_PLATE_OHMS: u32 = 100_000;

/// The rail at which the load lines are drawn, in volts.
pub const REFERENCE_BPLUS_VOLTS: u32 = 330;

/// The quiescent grid voltage of the 12AY7, in millivolts.
pub const V1_STOCK_BIAS_MV: i32 = -1_500;

/// The quiescent grid voltage of the 12AX7 in V1, in millivolts.
pub const V1_MOD_BIAS_MV: i32 = -1_200;

/// The quiescent grid voltage of V2A, in millivolts.
pub const V2A_BIAS_MV: i32 = -1_200;

/// How long a pot takes to follow its knob, in milliseconds.
pub const POT_SMOOTH_MS: u32 = 20;

/// The grid stopper of an input jack, in ohms.
pub const JACK_SERIES_OHMS: u32 = 68_000;

/// The grid leak of an input jack, in ohms.
pub const JACK_GRID_LEAK_OHMS: u32 = 1_000_000;

/// The load line of a preamp triode.
#[derive(Debug)]
pub struct LoadLineConfig {
    /// The plate voltages for which the line is solved, in percent.
    pub plate_operating_points: Vec<u8>,
    pub plate_resistor_ohms: u32,
    pub cathode_resistor_ohms: u32,
    pub reference_bplus_volts: u32,
    pub reference_bias_mv: i32,
}

/// A tube stage: the tube, its load line, its cathode circuit and its rail.
#[derive(Debug)]
pub struct TubeBuild {
    pub specimen_id: String,
    pub load_line: LoadLineConfig,
    pub cathode_resistor_ohms: u32,
    pub cathode_bypass_cap_uf: Option<u32>,
    pub plate_bplus_volts: u32,
}

/// A pair of triodes on one cathode circuit.
#[derive(Debug)]
pub struct PairBuild {
    pub specimen_id: String,
    pub load_line: LoadLineConfig,
    pub shared_cathode_resistor_ohms: u32,
    pub shared_cathode_bypass_cap_uf: Option<u32>,
    pub shared_cathode_bypass_dielectric: Option<String>,
    pub plate_resistor_a_ohms: u32,
    pub plate_resistor_b_ohms: u32,
    pub tube_mismatch_permille: Option<u32>,
    pub linear_blend_threshold: Option<u32>,
    pub plate_voltage_percent: u32,
    pub plate_bplus_volts: u32,
}

/// What of the power section differs from the engine's own 5E3.
#[derive(Debug)]
pub struct TopologyOverrides {
    pub transformer_spec: String,
    pub rectifier_spec: String,
}

/// The plate voltages that every load line is solved for, in percent.
pub open spec fn operating_points() -> Seq<u8> {
    seq![
        100u8, 95u8, 90u8, 85u8, 80u8, 75u8, 71u8, 67u8,
        63u8, 59u8, 55u8, 51u8, 47u8, 43u8, 39u8, 35u8,
    ]
}

impl LoadLineConfig {
    /// The load line of a 5E3 preamp triode with a quiescent grid voltage.
    pub open spec fn is_preamp_line(self, reference_bias_mv: i32) -> bool {
        &&& self.plate_operating_points@ == operating_points()
        &&& self.plate_resistor_ohms == PREAMP_PLATE_OHMS
        &&& self.cathode_resistor_ohms == 0
        &&& self.reference_bplus_volts == REFERENCE_BPLUS_VOLTS
        &&& self.reference_bias_mv == reference_bias_mv
    }
}

impl PairBuild {
    /// A tube in the socket of V1 with its quiescent grid voltage.
    pub open spec fn is_v1_pair(self, specimen_id: Seq<char>, reference_bias_mv: i32) -> bool {
        &&& self.specimen_id@ == specimen_id
        &&& self.load_line.is_preamp_line(reference_bias_mv)
        &&& self.shared_cathode_resistor_ohms == V1_CATHODE_OHMS
        &&& self.shared_cathode_bypass_cap_uf == Some(V1_CATHODE_CAP_UF)
        &&& self.shared_cathode_bypass_dielectric is Some
        &&& self.shared_cathode_bypass_dielectric->0@ == V1_CATHODE_DIELECTRIC@
        &&& self.plate_resistor_a_ohms == PREAMP_PLATE_OHMS
        &&& self.plate_resistor_b_ohms == PREAMP_PLATE_OHMS
        &&& self.tube_mismatch_permille == Some(V1_MISMATCH_PERMILLE)
        &&& self.linear_blend_threshold is None
        &&& self.plate_voltage_percent == 100
        &&& self.plate_bplus_volts == PREAMP_BPLUS_VOLTS
    }
}

impl TubeBuild {
    /// V2A, on its own bypassed cathode resistor.
    pub open spec fn is_v2a(self) -> bool {
        &&& self.specimen_id@ == V2A_SPECIMEN@
        &&& self.load_line.is_preamp_line(V2A_BIAS_MV)
        &&& self.cathode_resistor_ohms == V2A_CATHODE_OHMS
        &&& self.cathode_bypass_cap_uf == Some(V2A_CATHODE_CAP_UF)
        &&& self.plate_bplus_volts == PREAMP_BPLUS_VOLTS
    }
}

impl TopologyOverrides {
    /// The output transformer and the rectifier of the 5E3.
    pub open spec fn is_5e3(self) -> bool {
        &&& self.transformer_spec@ == OT_SPEC@
        &&& self.rectifier_spec@ == RECTIFIER_SPEC@
    }
}

/// The tube in the socket of V1.
pub open spec fn v1_specimen_text(tube_toggle: bool) -> Seq<char> {
    if tube_toggle {
        V1_MOD_SPECIMEN@
    } else {
        V1_STOCK_SPECIMEN@
    }
}

/// The tube that the toggle selects for V1.
pub fn v1_specimen(tube_toggle: bool) -> (id: &'static str)
    ensures
        id@ == v1_specimen_text(tube_toggle),
{
    if tube_toggle {
        V1_MOD_SPECIMEN
    } else {
        V1_STOCK_SPECIMEN
    }
}

/// The power section of the 5E3, with its output transformer and rectifier.
pub fn build_5e3_amp_topology_config() -> (overrides: TopologyOverrides)
    ensures
        overrides.is_5e3(),
{
    TopologyOverrides {
        transformer_spec: OT_SPEC.to_owned(),
        rectifier_spec: RECTIFIER_SPEC.to_owned(),
    }
}

/// The load line of a preamp triode. Its cathode resistor stays at zero: the
/// cathode circuit of the stage degenerates at run time, and a resistor in the
/// line would count it twice.
pub fn preamp_load_line(reference_bias_mv: i32) -> (line: LoadLineConfig)
    ensures
        line.is_preamp_line(reference_bias_mv),
{
    let plate_operating_points: Vec<u8> = vec![
        100, 95, 90, 85, 80, 75, 71, 67, 63, 59, 55, 51, 47, 43, 39, 35,
    ];
    assert(plate_operating_points@ =~= operating_points());
    LoadLineConfig {
        plate_operating_points,
        plate_resistor_ohms: PREAMP_PLATE_OHMS,
        cathode_resistor_ohms: 0,
        reference_bplus_volts: REFERENCE_BPLUS_VOLTS,
        reference_bias_mv,
    }
}

/// A preamp stage on the preamp rail.
pub fn build_preamp_tube(
    specimen_id: &str,
    load_line: LoadLineConfig,
    cathode_resistor_ohms: u32,
    cathode_bypass_cap_uf: Option<u32>,
) -> (stage: TubeBuild)
    ensures
        stage.specimen_id@ == specimen_id@,
        stage.load_line == load_line,
        stage.cathode_resistor_ohms == cathode_resistor_ohms,
        stage.cathode_bypass_cap_uf == cathode_bypass_cap_uf,
        stage.plate_bplus_volts == PREAMP_BPLUS_VOLTS,
{
    TubeBuild {
        specimen_id: specimen_id.to_owned(),
        load_line,
        cathode_resistor_ohms,
        cathode_bypass_cap_uf,
        plate_bplus_volts: PREAMP_BPLUS_VOLTS,
    }
}

/// V1: triode A on the Normal grid and triode B on the Bright grid, on one
/// cathode circuit, through which a hard drive into one grid ducks the other.
pub fn build_v1_pair(specimen_id: &str, reference_bias_mv: i32) -> (pair: PairBuild)
    ensures
        pair.is_v1_pair(specimen_id@, reference_bias_mv),
{
    PairBuild {
        specimen_id: specimen_id.to_owned(),
        load_line: preamp_load_line(reference_bias_mv),
        shared_cathode_resistor_ohms: V1_CATHODE_OHMS,
        shared_cathode_bypass_cap_uf: Some(V1_CATHODE_CAP_UF),
        shared_cathode_bypass_dielectric: Some(V1_CATHODE_DIELECTRIC.to_owned()),
        plate_resistor_a_ohms: PREAMP_PLATE_OHMS,
        plate_resistor_b_ohms: PREAMP_PLATE_OHMS,
        tube_mismatch_permille: Some(V1_MISMATCH_PERMILLE),
        linear_blend_threshold: None,
        plate_voltage_percent: 100,
        plate_bplus_volts: PREAMP_BPLUS_VOLTS,
    }
}

/// V2A, on its own bypassed cathode resistor.
pub fn build_v2a_tube() -> (stage: TubeBuild)
    ensures
        stage.is_v2a(),
{
    build_preamp_tube(
        V2A_SPECIMEN,
        preamp_load_line(V2A_BIAS_MV),
        V2A_CATHODE_OHMS,
        Some(V2A_CATHODE_CAP_UF),
    )
}

/// A load line never carries the cathode's degeneration, whatever the bias,
/// and its points run down from the whole rail without a repeat.
pub proof fn law_load_line_leaves_cathode_to_stage(line: LoadLineConfig, bias_mv: i32)
    requires
        line.is_preamp_line(bias_mv),
    ensures
        line.cathode_resistor_ohms == 0,
        line.plate_operating_points@[0] == 100,
        forall|i: int, j: int|
            0 <= i < j < line.plate_operating_points@.len() ==> line.plate_operating_points@[i]
                > line.plate_operating_points@[j],
{
    let points = operating_points();
    assert forall|i: int, j: int| 0 <= i < j < points.len() implies points[i] > points[j] by {
        lemma_points_descend(i, j);
    }
}

proof fn lemma_points_descend(i: int, j: int)
    requires
        0 <= i < j < operating_points().len(),
    ensures
        operating_points()[i] > operating_points()[j],
    decreases j - i,
{
    if i + 1 < j {
        lemma_points_descend(i, j - 1);
        lemma_points_descend(j - 1, j);
    }
}

/// The toggle exchanges the tube in the socket for the other one.
pub proof fn law_toggle_exchanges_tubes(tube_toggle: bool)
    ensures
        v1_specimen_text(tube_toggle) != v1_specimen_text(!tube_toggle),
{
    reveal_strlit("ge_12ay7");
    reveal_strlit("ge_12ax7");
    assert("ge_12ay7"@[6] != "ge_12ax7"@[6]);
}

/// The plate voltages of a load line run down from the whole rail to 35 percent
/// of it, in steps of five down to 75 and of four from 71 on.
pub open spec fn runs_down_the_rail(points: Seq<u8>) -> bool {
    &&& points.len() == 16
    &&& points[0] == 100
    &&& points[15] == 35
    &&& forall|i: int| 0 <= i < 5 ==> #[trigger] points[i] - points[i + 1] == 5
    &&& forall|i: int| 5 <= i < 15 ==> #[trigger] points[i] - points[i + 1] == 4
}

/// Whatever its bias, a load line is drawn for 100 kilohms at 330 volts, has no
/// cathode resistor, and is solved down the rail.
pub proof fn law_load_line_differs_in_bias_alone(
    bias_mv: i32,
    line: LoadLineConfig,
)
    requires
        call_ensures(preamp_load_line, (bias_mv,), line),
    ensures
        line.reference_bias_mv == bias_mv,
        line.cathode_resistor_ohms == 0,
        line.plate_resistor_ohms == 100_000,
        line.reference_bplus_volts == 330,
        runs_down_the_rail(line.plate_operating_points@),
{
}

/// The cathode of V1 is counted once, whatever the tube and its bias: the 820
/// ohms are those of the circuit that both triodes share, and the load line
/// has none. The two triodes have the same plate load, which is also that of
/// the load line, and are otherwise set up the same for every tube.
pub proof fn law_v1_counts_its_cathode_once(specimen: &str, bias_mv: i32, pair: PairBuild)
    requires
        call_ensures(build_v1_pair, (specimen, bias_mv), pair),
    ensures
        pair.load_line.cathode_resistor_ohms == 0,
        pair.shared_cathode_resistor_ohms == 820,
        pair.shared_cathode_bypass_cap_uf == Some(25u32),
        pair.shared_cathode_bypass_dielectric matches Some(text) && text@
            == "electrolytic_vintage"@,
        pair.plate_resistor_a_ohms == pair.plate_resistor_b_ohms,
        pair.plate_resistor_a_ohms == pair.load_line.plate_resistor_ohms,
        pair.load_line.plate_resistor_ohms == 100_000,
        pair.load_line.reference_bias_mv == bias_mv,
        pair.load_line.reference_bplus_volts == 330,
        runs_down_the_rail(pair.load_line.plate_operating_points@),
        pair.specimen_id@ == specimen@,
        pair.tube_mismatch_permille == Some(50u32),
        pair.linear_blend_threshold is None,
        pair.plate_voltage_percent == 100,
        pair.plate_bplus_volts == 250,
{
}

/// The cathode of V2A is counted once too: its 1500 ohms are those of the
/// stage, and the load line has none.
pub proof fn law_v2a_counts_its_cathode_once(stage: TubeBuild)
    requires
        call_ensures(build_v2a_tube, (), stage),
    ensures
        stage.load_line.cathode_resistor_ohms == 0,
        stage.cathode_resistor_ohms == 1_500,
        stage.cathode_bypass_cap_uf == Some(25u32),
        stage.load_line.plate_resistor_ohms == 100_000,
        stage.load_line.reference_bias_mv == -1_200,
        stage.load_line.reference_bplus_volts == 330,
        runs_down_the_rail(stage.load_line.plate_operating_points@),
        stage.specimen_id@ == "ge_12ax7"@,
        stage.plate_bplus_volts == 250,
{
}

/// A preamp stage is made of what it is given, on the rail that V1 and V2A
/// share.
pub proof fn law_stage_is_made_of_its_parts(
    specimen: &str,
    line: LoadLineConfig,
    cathode_ohms: u32,
    cap_uf: Option<u32>,
    stage: TubeBuild,
)
    requires
        call_ensures(build_preamp_tube, (specimen, line, cathode_ohms, cap_uf), stage),
    ensures
        stage.specimen_id@ == specimen@,
        stage.load_line == line,
        stage.cathode_resistor_ohms == cathode_ohms,
        stage.cathode_bypass_cap_uf == cap_uf,
        forall|id: &str, bias_mv: i32, pair: PairBuild| #[trigger]
            call_ensures(build_v1_pair, (id, bias_mv), pair) ==> stage.plate_bplus_volts
                == pair.plate_bplus_volts,
{
}

/// The toggle puts the 12AX7 into V1, and without it the 12AY7 is there.
pub proof fn law_toggle_selects_the_tube(tube_toggle: bool, id: &'static str)
    requires
        call_ensures(v1_specimen, (tube_toggle,), id),
    ensures
        tube_toggle <==> id@ == "ge_12ax7"@,
        !tube_toggle <==> id@ == "ge_12ay7"@,
{
    law_toggle_exchanges_tubes(tube_toggle);
}

/// The power section has the 5E3's output transformer and its rectifier.
pub proof fn law_power_section_is_the_5e3s(overrides: TopologyOverrides)
    requires
        call_ensures(build_5e3_amp_topology_config, (), overrides),
    ensures
        overrides.transformer_spec@ == "sst_108"@,
        overrides.rectifier_spec@ == "ge_5y3"@,
{
}

} // verus!
