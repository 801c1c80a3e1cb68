//! The parameters of the plug-in, as the host sees them.

use crate::oversampling::{os_factor_str, OversamplingFactor};
use crate::selection::{CabModellingMode, ChannelMode, MicSelection, MicXPosition, RoomSelection};
use vstd::prelude::*;

verus! {

/// How a parameter glides to a new value, over how many milliseconds.
#[derive(Debug, Clone, Copy, PartialEq, Eq, Structural)]
pub enum Smoothing {
    Logarithmic(u32),
    Linear(u32),
}

/// How the value of a parameter is written.
#[derive(Debug, Clone, Copy, PartialEq, Eq, Structural)]
pub enum ValueText {
    /// As the position of a dial from 1 to 12.
    Dial,
    /// With one decimal.
    OneDecimal,
}

/// A continuous parameter; its numbers are in thousandths.
#[derive(Debug)]
pub struct FloatParamSpec {
    pub id: &'static str,
    pub name: &'static str,
    pub default_milli: i32,
    pub min_milli: i32,
    pub max_milli: i32,
    pub unit: &'static str,
    pub step_milli: Option<u32>,
    pub smoothing: Smoothing,
    pub text: ValueText,
}

/// A parameter that selects one of a few values.
#[derive(Debug)]
pub struct ChoiceParamSpec<T> {
    pub id: &'static str,
    pub name: &'static str,
    pub default: T,
}

/// The parameters with their defaults, and what is persisted beside them.
#[derive(Debug)]
pub struct TheTweedParams {
    pub bright_volume: FloatParamSpec,
    pub normal_volume: FloatParamSpec,
    pub channel_select: ChoiceParamSpec<ChannelMode>,
    pub tone: FloatParamSpec,
    pub power: ChoiceParamSpec<bool>,
    pub tube_toggle: ChoiceParamSpec<bool>,
    pub input_trim_db: FloatParamSpec,
    pub output_trim_db: FloatParamSpec,
    pub cab_modelling_mode: ChoiceParamSpec<CabModellingMode>,
    pub mic_x_position: ChoiceParamSpec<MicXPosition>,
    pub mic_distance_inches: FloatParamSpec,
    pub microphone: ChoiceParamSpec<MicSelection>,
    pub room_selection: ChoiceParamSpec<RoomSelection>,
    pub ir_file_path: String,
    pub oversampling_factor: String,
}

impl FloatParamSpec {
    /// A knob of the front panel: from 0.01 to 1, written as a dial.
    pub open spec fn is_knob(
        self,
        id: Seq<char>,
        name: Seq<char>,
        default_milli: i32,
        smoothing_ms: u32,
    ) -> bool {
        &&& self.id@ == id
        &&& self.name@ == name
        &&& self.default_milli == default_milli
        &&& self.min_milli == 10
        &&& self.max_milli == 1_000
        &&& self.unit@ == ""@
        &&& self.step_milli is None
        &&& self.smoothing == Smoothing::Logarithmic(smoothing_ms)
        &&& self.text == ValueText::Dial
    }

    /// A slider of the bottom panel: in steps of a tenth, with a unit.
    pub open spec fn is_slider(
        self,
        id: Seq<char>,
        name: Seq<char>,
        default_milli: int,
        min_milli: int,
        max_milli: int,
        unit: Seq<char>,
        smoothing_ms: u32,
    ) -> bool {
        &&& self.id@ == id
        &&& self.name@ == name
        &&& self.default_milli == default_milli
        &&& self.min_milli == min_milli
        &&& self.max_milli == max_milli
        &&& self.unit@ == unit
        &&& self.step_milli == Some(100u32)
        &&& self.smoothing == Smoothing::Linear(smoothing_ms)
        &&& self.text == ValueText::OneDecimal
    }

    /// The default is a value of the parameter.
    pub open spec fn default_in_range(self) -> bool {
        self.min_milli <= self.default_milli <= self.max_milli
    }
}

impl<T> ChoiceParamSpec<T> {
    pub open spec fn is_choice(self, id: Seq<char>, name: Seq<char>, default: T) -> bool {
        &&& self.id@ == id
        &&& self.name@ == name
        &&& self.default == default
    }
}

impl TheTweedParams {
    /// The parameters as the plug-in comes up.
    pub open spec fn is_default(self) -> bool {
        &&& self.bright_volume.is_knob("bright_volume"@, "Bright"@, 960, 10)
        &&& self.normal_volume.is_knob("normal_volume"@, "Normal"@, 250, 10)
        &&& self.channel_select.is_choice("channel_select"@, "Channel"@, ChannelMode::Normal)
        &&& self.tone.is_knob("tone"@, "Tone"@, 450, 5)
        &&& self.power.is_choice("power"@, "Power"@, true)
        &&& self.tube_toggle.is_choice("tube_toggle"@, "Tube Toggle"@, false)
        &&& self.input_trim_db.is_slider(
            "input_trim"@,
            "Input Trim"@,
            0,
            -18_000,
            12_000,
            " dB"@,
            5,
        )
        &&& self.output_trim_db.is_slider(
            "output_trim"@,
            "Output Trim"@,
            -6_000,
            -24_000,
            0,
            " dB"@,
            5,
        )
        &&& self.cab_modelling_mode.is_choice(
            "cab_modelling_mode"@,
            "Cab Modelling"@,
            CabModellingMode::Dynamic,
        )
        &&& self.mic_x_position.is_choice("mic_x_position"@, "Mic X"@, MicXPosition::CapEdge)
        &&& self.mic_distance_inches.is_slider(
            "mic_distance_inches"@,
            "Mic Distance"@,
            3_000,
            100,
            24_000,
            " in"@,
            20,
        )
        &&& self.microphone.is_choice("microphone"@, "Mic"@, MicSelection::Ribbon77)
        &&& self.room_selection.is_choice("room_selection"@, "Room"@, RoomSelection::SmallStudio)
        &&& self.ir_file_path@ == ""@
        &&& self.oversampling_factor@ == OversamplingFactor::X4.persisted_text()
    }

    /// The ids under which the host and the presets know the parameters.
    pub open spec fn ids(self) -> Seq<Seq<char>> {
        seq![
            self.bright_volume.id@,
            self.normal_volume.id@,
            self.channel_select.id@,
            self.tone.id@,
            self.power.id@,
            self.tube_toggle.id@,
            self.input_trim_db.id@,
            self.output_trim_db.id@,
            self.cab_modelling_mode.id@,
            self.mic_x_position.id@,
            self.mic_distance_inches.id@,
            self.microphone.id@,
            self.room_selection.id@,
        ]
    }
}

fn knob(
    id: &'static str,
    name: &'static str,
    default_milli: i32,
    smoothing_ms: u32,
) -> (spec: FloatParamSpec)
    ensures
        spec.is_knob(id@, name@, default_milli, smoothing_ms),
{
    FloatParamSpec {
        id,
        name,
        default_milli,
        min_milli: 10,
        max_milli: 1_000,
        unit: "",
        step_milli: None,
        smoothing: Smoothing::Logarithmic(smoothing_ms),
        text: ValueText::Dial,
    }
}

fn slider(
    id: &'static str,
    name: &'static str,
    default_milli: i32,
    min_milli: i32,
    max_milli: i32,
    unit: &'static str,
    smoothing_ms: u32,
) -> (spec: FloatParamSpec)
    ensures
        spec.is_slider(
            id@,
            name@,
            default_milli as int,
            min_milli as int,
            max_milli as int,
            unit@,
            smoothing_ms,
        ),
{
    FloatParamSpec {
        id,
        name,
        default_milli,
        min_milli,
        max_milli,
        unit,
        step_milli: Some(100),
        smoothing: Smoothing::Linear(smoothing_ms),
        text: ValueText::OneDecimal,
    }
}

impl Default for TheTweedParams {
    fn default() -> (params: Self)
        ensures
            params.is_default(),
    {
        proof {
            reveal_strlit("");
        }
        let ir_file_path = String::new();
        assert(ir_file_path@ =~= ""@);
        TheTweedParams {
            bright_volume: knob("bright_volume", "Bright", 960, 10),
            normal_volume: knob("normal_volume", "Normal", 250, 10),
            channel_select: ChoiceParamSpec {
                id: "channel_select",
                name: "Channel",
                default: ChannelMode::Normal,
            },
            tone: knob("tone", "Tone", 450, 5),
            power: ChoiceParamSpec { id: "power", name: "Power", default: true },
            tube_toggle: ChoiceParamSpec {
                id: "tube_toggle",
                name: "Tube Toggle",
                default: false,
            },
            input_trim_db: slider("input_trim", "Input Trim", 0, -18_000, 12_000, " dB", 5),
            output_trim_db: slider("output_trim", "Output Trim", -6_000, -24_000, 0, " dB", 5),
            cab_modelling_mode: ChoiceParamSpec {
                id: "cab_modelling_mode",
                name: "Cab Modelling",
                default: CabModellingMode::Dynamic,
            },
            mic_x_position: ChoiceParamSpec {
                id: "mic_x_position",
                name: "Mic X",
                default: MicXPosition::CapEdge,
            },
            mic_distance_inches: slider(
                "mic_distance_inches",
                "Mic Distance",
                3_000,
                100,
                24_000,
                " in",
                20,
            ),
            microphone: ChoiceParamSpec {
                id: "microphone",
                name: "Mic",
                default: MicSelection::Ribbon77,
            },
            room_selection: ChoiceParamSpec {
                id: "room_selection",
                name: "Room",
                default: RoomSelection::SmallStudio,
            },
            ir_file_path,
            oversampling_factor: os_factor_str(OversamplingFactor::X4).to_owned(),
        }
    }
}

/// Every default is a value that its parameter can take.
pub proof fn law_defaults_are_in_range(params: TheTweedParams)
    requires
        params.is_default(),
    ensures
        params.bright_volume.default_in_range(),
        params.normal_volume.default_in_range(),
        params.tone.default_in_range(),
        params.input_trim_db.default_in_range(),
        params.output_trim_db.default_in_range(),
        params.mic_distance_inches.default_in_range(),
{
}

/// No two parameters share an id.
pub proof fn law_parameter_ids_are_distinct(params: TheTweedParams)
    requires
        params.is_default(),
    ensures
        params.ids().no_duplicates(),
{
    reveal_strlit("bright_volume");
    reveal_strlit("normal_volume");
    reveal_strlit("channel_select");
    reveal_strlit("tone");
    reveal_strlit("power");
    reveal_strlit("tube_toggle");
    reveal_strlit("input_trim");
    reveal_strlit("output_trim");
    reveal_strlit("cab_modelling_mode");
    reveal_strlit("mic_x_position");
    reveal_strlit("mic_distance_inches");
    reveal_strlit("microphone");
    reveal_strlit("room_selection");
    let ids = params.ids();
    assert(ids[0].len() == 13 && ids[1].len() == 13 && ids[0][0] != ids[1][0]);
    assert(ids[2].len() == 14 && ids[9].len() == 14 && ids[12].len() == 14);
    assert(ids[2][0] != ids[9][0] && ids[2][0] != ids[12][0] && ids[9][0] != ids[12][0]);
    assert(ids[3].len() == 4 && ids[4].len() == 5);
    assert(ids[5].len() == 11 && ids[7].len() == 11 && ids[5][0] != ids[7][0]);
    assert(ids[6].len() == 10 && ids[11].len() == 10 && ids[6][0] != ids[11][0]);
    assert(ids[8].len() == 18 && ids[10].len() == 19);
}

} // verus!
