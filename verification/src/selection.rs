//! What the front panel and the cabinet row of the editor select.

use vstd::prelude::*;

verus! {

/// Which grid of V1 the input jack feeds.
#[derive(Debug, Clone, Copy, PartialEq, Eq, Structural)]
pub enum ChannelMode {
    Normal,
    Both,
    Bright,
}

impl ChannelMode {
    /// The position the channel switch takes after one click.
    pub open spec fn after_click(self) -> ChannelMode {
        match self {
            ChannelMode::Normal => ChannelMode::Both,
            ChannelMode::Both => ChannelMode::Bright,
            ChannelMode::Bright => ChannelMode::Normal,
        }
    }

    /// The mode that one click of the channel switch selects.
    pub fn next(self) -> (mode: ChannelMode)
        ensures
            mode == self.after_click(),
    {
        match self {
            ChannelMode::Normal => ChannelMode::Both,
            ChannelMode::Both => ChannelMode::Bright,
            ChannelMode::Bright => ChannelMode::Normal,
        }
    }

    /// The text the tooltip of the channel switch gives the position.
    pub open spec fn state_text(self) -> Seq<char> {
        match self {
            ChannelMode::Normal => "NORMAL"@,
            ChannelMode::Both => "BOTH (Jumpered)"@,
            ChannelMode::Bright => "BRIGHT"@,
        }
    }

    pub fn state_label(self) -> (text: &'static str)
        ensures
            text@ == self.state_text(),
    {
        match self {
            ChannelMode::Normal => "NORMAL",
            ChannelMode::Both => "BOTH (Jumpered)",
            ChannelMode::Bright => "BRIGHT",
        }
    }

    /// What the Normal grid, triode A of V1, is fed.
    pub open spec fn normal_feed<F>(self, input: F, zero: F) -> F {
        if self == ChannelMode::Bright {
            zero
        } else {
            input
        }
    }

    /// What the Bright grid, triode B of V1, is fed.
    pub open spec fn bright_feed<F>(self, input: F, zero: F) -> F {
        if self == ChannelMode::Normal {
            zero
        } else {
            input
        }
    }

    /// Splits one input into the feeds of the two triodes of V1; the grid of a
    /// channel that is not selected is held at `zero`.
    pub fn split_input<F: Copy>(self, input: F, zero: F) -> (feeds: (F, F))
        ensures
            feeds.0 == self.normal_feed(input, zero),
            feeds.1 == self.bright_feed(input, zero),
    {
        let normal = if self != ChannelMode::Bright { input } else { zero };
        let bright = if self != ChannelMode::Normal { input } else { zero };
        (normal, bright)
    }
}

/// Which cabinet the power section is heard through.
#[derive(Debug, Clone, Copy, PartialEq, Eq, Structural)]
pub enum CabModellingMode {
    Ir,
    Dynamic,
}

impl CabModellingMode {
    pub open spec fn label_text(self) -> Seq<char> {
        match self {
            CabModellingMode::Ir => "IR"@,
            CabModellingMode::Dynamic => "Dynamic"@,
        }
    }

    /// The label of the mode's button in the settings.
    pub fn label(self) -> (text: &'static str)
        ensures
            text@ == self.label_text(),
    {
        match self {
            CabModellingMode::Ir => "IR",
            CabModellingMode::Dynamic => "Dynamic",
        }
    }
}

/// Where the microphone points across the cone.
#[derive(Debug, Clone, Copy, PartialEq, Eq, Structural)]
pub enum MicXPosition {
    Cap,
    CapEdge,
    Cone,
    ConeEdge,
}

impl MicXPosition {
    pub open spec fn offset_cm(self) -> nat {
        match self {
            MicXPosition::Cap => 0,
            MicXPosition::CapEdge => 3,
            MicXPosition::Cone => 8,
            MicXPosition::ConeEdge => 14,
        }
    }

    pub open spec fn label_text(self) -> Seq<char> {
        match self {
            MicXPosition::Cap => "Cap"@,
            MicXPosition::CapEdge => "Cap Edge"@,
            MicXPosition::Cone => "Cone"@,
            MicXPosition::ConeEdge => "Cone Edge"@,
        }
    }

    /// Radial offset from the centre of the speaker, in whole centimetres,
    /// calibrated for a 12" driver.
    pub fn radial_offset_cm(self) -> (cm: u8)
        ensures
            cm == self.offset_cm(),
    {
        match self {
            MicXPosition::Cap => 0,
            MicXPosition::CapEdge => 3,
            MicXPosition::Cone => 8,
            MicXPosition::ConeEdge => 14,
        }
    }
}

/// The text of a microphone position in the editor.
pub fn mic_x_label(pos: MicXPosition) -> (text: &'static str)
    ensures
        text@ == pos.label_text(),
{
    match pos {
        MicXPosition::Cap => "Cap",
        MicXPosition::CapEdge => "Cap Edge",
        MicXPosition::Cone => "Cone",
        MicXPosition::ConeEdge => "Cone Edge",
    }
}

/// The microphones of the engine's registry.
#[derive(Debug, Clone, Copy, PartialEq, Eq, Structural)]
pub enum MicSelection {
    Dynamic57,
    Dynamic421,
    Ribbon121,
    Condenser87,
    Ribbon44,
    Ribbon77,
}

impl MicSelection {
    pub open spec fn registry_text(self) -> Seq<char> {
        match self {
            MicSelection::Dynamic57 => "dynamic_57"@,
            MicSelection::Dynamic421 => "dynamic_421"@,
            MicSelection::Ribbon121 => "ribbon_121"@,
            MicSelection::Condenser87 => "condenser_87"@,
            MicSelection::Ribbon44 => "ribbon_44"@,
            MicSelection::Ribbon77 => "ribbon_77"@,
        }
    }

    pub open spec fn label_text(self) -> Seq<char> {
        match self {
            MicSelection::Dynamic57 => "Shure SM57"@,
            MicSelection::Dynamic421 => "Sennheiser MD 421-II"@,
            MicSelection::Ribbon121 => "Royer R-121 Ribbon"@,
            MicSelection::Condenser87 => "Neumann U 87 Ai (Cardioid)"@,
            MicSelection::Ribbon44 => "RCA 44-BX"@,
            MicSelection::Ribbon77 => "RCA 77-DX"@,
        }
    }

    /// The engine's registry id of the microphone.
    pub fn registry_id(self) -> (id: &'static str)
        ensures
            id@ == self.registry_text(),
    {
        match self {
            MicSelection::Dynamic57 => "dynamic_57",
            MicSelection::Dynamic421 => "dynamic_421",
            MicSelection::Ribbon121 => "ribbon_121",
            MicSelection::Condenser87 => "condenser_87",
            MicSelection::Ribbon44 => "ribbon_44",
            MicSelection::Ribbon77 => "ribbon_77",
        }
    }
}

/// The text of a microphone in the editor.
pub fn mic_label(mic: MicSelection) -> (text: &'static str)
    ensures
        text@ == mic.label_text(),
{
    match mic {
        MicSelection::Dynamic57 => "Shure SM57",
        MicSelection::Dynamic421 => "Sennheiser MD 421-II",
        MicSelection::Ribbon121 => "Royer R-121 Ribbon",
        MicSelection::Condenser87 => "Neumann U 87 Ai (Cardioid)",
        MicSelection::Ribbon44 => "RCA 44-BX",
        MicSelection::Ribbon77 => "RCA 77-DX",
    }
}

/// The rooms of the engine's registry, and no room at all.
#[derive(Debug, Clone, Copy, PartialEq, Eq, Structural)]
pub enum RoomSelection {
    NoRoom,
    SmallStudio,
    LargeStudio,
    LiveRoom,
    SmallBedroom,
    WoodenBarn,
    IsoBox,
}

impl RoomSelection {
    pub open spec fn registry_text(self) -> Option<Seq<char>> {
        match self {
            RoomSelection::NoRoom => None,
            RoomSelection::SmallStudio => Some("small_studio"@),
            RoomSelection::LargeStudio => Some("large_studio"@),
            RoomSelection::LiveRoom => Some("live_room"@),
            RoomSelection::SmallBedroom => Some("small_bedroom"@),
            RoomSelection::WoodenBarn => Some("wooden_barn"@),
            RoomSelection::IsoBox => Some("iso_box"@),
        }
    }

    pub open spec fn label_text(self) -> Seq<char> {
        match self {
            RoomSelection::NoRoom => "None"@,
            RoomSelection::SmallStudio => "Small Studio"@,
            RoomSelection::LargeStudio => "Large Studio"@,
            RoomSelection::LiveRoom => "Live Room"@,
            RoomSelection::SmallBedroom => "Small Bedroom"@,
            RoomSelection::WoodenBarn => "Wooden Barn"@,
            RoomSelection::IsoBox => "Iso Box"@,
        }
    }

    /// The engine's room id, or `None` for no room at all: the engine then
    /// builds no room, rather than building one and bypassing it.
    pub fn registry_id(self) -> (id: Option<&'static str>)
        ensures
            match (id, self.registry_text()) {
                (Some(text), Some(expected)) => text@ == expected,
                (None, None) => true,
                _ => false,
            },
    {
        match self {
            RoomSelection::NoRoom => None,
            RoomSelection::SmallStudio => Some("small_studio"),
            RoomSelection::LargeStudio => Some("large_studio"),
            RoomSelection::LiveRoom => Some("live_room"),
            RoomSelection::SmallBedroom => Some("small_bedroom"),
            RoomSelection::WoodenBarn => Some("wooden_barn"),
            RoomSelection::IsoBox => Some("iso_box"),
        }
    }
}

/// The text of a room in the editor.
pub fn room_selection_label(room: RoomSelection) -> (text: &'static str)
    ensures
        text@ == room.label_text(),
{
    match room {
        RoomSelection::NoRoom => "None",
        RoomSelection::SmallStudio => "Small Studio",
        RoomSelection::LargeStudio => "Large Studio",
        RoomSelection::LiveRoom => "Live Room",
        RoomSelection::SmallBedroom => "Small Bedroom",
        RoomSelection::WoodenBarn => "Wooden Barn",
        RoomSelection::IsoBox => "Iso Box",
    }
}

/// The microphones, as the editor lists them.
pub open spec fn mic_choices_list() -> Seq<MicSelection> {
    seq![
        MicSelection::Dynamic57,
        MicSelection::Dynamic421,
        MicSelection::Ribbon121,
        MicSelection::Condenser87,
        MicSelection::Ribbon44,
        MicSelection::Ribbon77,
    ]
}

pub fn mic_choices() -> (choices: Vec<MicSelection>)
    ensures
        choices@ == mic_choices_list(),
{
    let choices = vec![
        MicSelection::Dynamic57,
        MicSelection::Dynamic421,
        MicSelection::Ribbon121,
        MicSelection::Condenser87,
        MicSelection::Ribbon44,
        MicSelection::Ribbon77,
    ];
    assert(choices@ =~= mic_choices_list());
    choices
}

/// The positions of the microphone, as the editor lists them.
pub open spec fn mic_x_choices_list() -> Seq<MicXPosition> {
    seq![
        MicXPosition::Cap,
        MicXPosition::CapEdge,
        MicXPosition::Cone,
        MicXPosition::ConeEdge,
    ]
}

pub fn mic_x_choices() -> (choices: Vec<MicXPosition>)
    ensures
        choices@ == mic_x_choices_list(),
{
    let choices = vec![
        MicXPosition::Cap,
        MicXPosition::CapEdge,
        MicXPosition::Cone,
        MicXPosition::ConeEdge,
    ];
    assert(choices@ =~= mic_x_choices_list());
    choices
}

/// The rooms, as the editor lists them.
pub open spec fn room_choices_list() -> Seq<RoomSelection> {
    seq![
        RoomSelection::NoRoom,
        RoomSelection::SmallStudio,
        RoomSelection::LargeStudio,
        RoomSelection::LiveRoom,
        RoomSelection::SmallBedroom,
        RoomSelection::WoodenBarn,
        RoomSelection::IsoBox,
    ]
}

pub fn room_choices() -> (choices: Vec<RoomSelection>)
    ensures
        choices@ == room_choices_list(),
{
    let choices = vec![
        RoomSelection::NoRoom,
        RoomSelection::SmallStudio,
        RoomSelection::LargeStudio,
        RoomSelection::LiveRoom,
        RoomSelection::SmallBedroom,
        RoomSelection::WoodenBarn,
        RoomSelection::IsoBox,
    ];
    assert(choices@ =~= room_choices_list());
    choices
}

/// The modes of the cabinet, as the editor lists them.
pub open spec fn cab_mode_choices_list() -> Seq<CabModellingMode> {
    seq![
        CabModellingMode::Ir,
        CabModellingMode::Dynamic,
    ]
}

pub fn cab_mode_choices() -> (choices: Vec<CabModellingMode>)
    ensures
        choices@ == cab_mode_choices_list(),
{
    let choices = vec![
        CabModellingMode::Ir,
        CabModellingMode::Dynamic,
    ];
    assert(choices@ =~= cab_mode_choices_list());
    choices
}

/// Every microphone can be chosen, and none is listed twice.
pub proof fn law_every_microphone_is_offered_once(choice: MicSelection)
    ensures
        mic_choices_list().contains(choice),
        mic_choices_list().no_duplicates(),
{
    assert(mic_choices_list()[0] == MicSelection::Dynamic57);
    assert(mic_choices_list()[1] == MicSelection::Dynamic421);
    assert(mic_choices_list()[2] == MicSelection::Ribbon121);
    assert(mic_choices_list()[3] == MicSelection::Condenser87);
    assert(mic_choices_list()[4] == MicSelection::Ribbon44);
    assert(mic_choices_list()[5] == MicSelection::Ribbon77);
}

/// Every position can be chosen, and none is listed twice.
pub proof fn law_every_position_is_offered_once(choice: MicXPosition)
    ensures
        mic_x_choices_list().contains(choice),
        mic_x_choices_list().no_duplicates(),
{
    assert(mic_x_choices_list()[0] == MicXPosition::Cap);
    assert(mic_x_choices_list()[1] == MicXPosition::CapEdge);
    assert(mic_x_choices_list()[2] == MicXPosition::Cone);
    assert(mic_x_choices_list()[3] == MicXPosition::ConeEdge);
}

/// Every room can be chosen, and none is listed twice.
pub proof fn law_every_room_is_offered_once(choice: RoomSelection)
    ensures
        room_choices_list().contains(choice),
        room_choices_list().no_duplicates(),
{
    assert(room_choices_list()[0] == RoomSelection::NoRoom);
    assert(room_choices_list()[1] == RoomSelection::SmallStudio);
    assert(room_choices_list()[2] == RoomSelection::LargeStudio);
    assert(room_choices_list()[3] == RoomSelection::LiveRoom);
    assert(room_choices_list()[4] == RoomSelection::SmallBedroom);
    assert(room_choices_list()[5] == RoomSelection::WoodenBarn);
    assert(room_choices_list()[6] == RoomSelection::IsoBox);
}

/// Every mode can be chosen, and none is listed twice.
pub proof fn law_every_mode_is_offered_once(choice: CabModellingMode)
    ensures
        cab_mode_choices_list().contains(choice),
        cab_mode_choices_list().no_duplicates(),
{
    assert(cab_mode_choices_list()[0] == CabModellingMode::Ir);
    assert(cab_mode_choices_list()[1] == CabModellingMode::Dynamic);
}

/// Clicking the channel switch walks through every mode and comes back to the
/// first after three clicks, not before.
pub proof fn law_channel_switch_cycles(mode: ChannelMode)
    ensures
        mode.after_click() != mode,
        mode.after_click().after_click() != mode,
        mode.after_click().after_click().after_click() == mode,
{
}

/// A microphone's registry id names that microphone and no other.
pub proof fn law_mic_registry_ids_distinct(a: MicSelection, b: MicSelection)
    ensures
        a.registry_text() == b.registry_text() <==> a == b,
{
    reveal_strlit("dynamic_57");
    reveal_strlit("dynamic_421");
    reveal_strlit("ribbon_121");
    reveal_strlit("condenser_87");
    reveal_strlit("ribbon_44");
    reveal_strlit("ribbon_77");
    assert("dynamic_57"@.len() == 10 && "ribbon_121"@.len() == 10);
    assert("dynamic_421"@.len() == 11 && "condenser_87"@.len() == 12);
    assert("ribbon_44"@.len() == 9 && "ribbon_77"@.len() == 9);
    assert("ribbon_44"@[7] != "ribbon_77"@[7]);
    assert("ribbon_121"@[0] != "dynamic_57"@[0]);
}

/// A room's registry id names that room and no other, and only the selection
/// of no room has none.
pub proof fn law_room_registry_ids_distinct(a: RoomSelection, b: RoomSelection)
    ensures
        a.registry_text() == b.registry_text() <==> a == b,
        a.registry_text() is None <==> a == RoomSelection::NoRoom,
{
    reveal_strlit("small_studio");
    reveal_strlit("large_studio");
    reveal_strlit("live_room");
    reveal_strlit("small_bedroom");
    reveal_strlit("wooden_barn");
    reveal_strlit("iso_box");
    assert("small_studio"@.len() == 12 && "large_studio"@.len() == 12);
    assert("live_room"@.len() == 9 && "small_bedroom"@.len() == 13);
    assert("wooden_barn"@.len() == 11 && "iso_box"@.len() == 7);
    assert("small_studio"@[0] != "large_studio"@[0]);
}

/// A click moves the channel switch up by one position, from Normal over Both
/// to Bright, and from the top back to the bottom.
pub proof fn law_click_moves_channel_up(mode: ChannelMode, next: ChannelMode)
    requires
        call_ensures(ChannelMode::next, (mode,), next),
    ensures
        mode == ChannelMode::Normal <==> next == ChannelMode::Both,
        mode == ChannelMode::Both <==> next == ChannelMode::Bright,
        mode == ChannelMode::Bright <==> next == ChannelMode::Normal,
{
}

/// The input reaches at least one grid, the Normal grid unless Bright alone is
/// selected, the Bright grid unless Normal alone is, and a grid that it does
/// not reach is held at zero.
pub proof fn law_input_reaches_selected_grids<F: Copy>(
    mode: ChannelMode,
    input: F,
    zero: F,
    feeds: (F, F),
)
    requires
        call_ensures(ChannelMode::split_input::<F>, (mode, input, zero), feeds),
    ensures
        feeds.0 == input || feeds.1 == input,
        mode == ChannelMode::Normal ==> feeds == (input, zero),
        mode == ChannelMode::Bright ==> feeds == (zero, input),
        mode == ChannelMode::Both ==> feeds == (input, input),
{
}

/// The microphone moves outwards from the centre of the cone over the positions
/// as the editor lists them, and stays within a 12" driver.
pub proof fn law_positions_go_outwards(
    choices: Vec<MicXPosition>,
    i: int,
    j: int,
    inner_cm: u8,
    outer_cm: u8,
)
    requires
        call_ensures(mic_x_choices, (), choices),
        0 <= i < j < choices@.len(),
        call_ensures(MicXPosition::radial_offset_cm, (choices@[i],), inner_cm),
        call_ensures(MicXPosition::radial_offset_cm, (choices@[j],), outer_cm),
    ensures
        inner_cm < outer_cm <= 15,
        i == 0 ==> inner_cm == 0,
        choices@[i] != choices@[j],
{
}

} // verus!
