//! The editor: which pictures and texts it shows, and what a click does.

use crate::cab::{DEFAULT_CABINET_ID, DEFAULT_SPEAKER_ID};
use crate::ir_load::{status_strip, StripColor};
use crate::magnitude::Magnitude;
use crate::oversampling::{
    active_os_factor, os_factor_label, os_factor_str, selected_os_factor, OversamplingFactor,
};
use crate::selection::{CabModellingMode, ChannelMode, MicSelection, MicXPosition, RoomSelection};
use vstd::prelude::*;
use vstd::string::StringExecFns;

#[allow(unused_imports)]
use crate::ir_load::{strip_color, strip_text};
#[allow(unused_imports)]
use crate::magnitude::{lemma_reading_of_whole, one, reading_of, INFINITY_BITS};
#[allow(unused_imports)]
use crate::oversampling::{running_factor, stored_factor};
#[allow(unused_imports)]
use vstd::arithmetic::power2::lemma2_to64;

verus! {

/// How many pictures a turning knob has.
pub const KNOB_FRAMES: usize = 100;

/// The bit pattern of negative zero: those from here on have their sign set.
pub const SIGN_BITS: u32 = 0x8000_0000;

/// The bit pattern of one volt.
pub const ONE_VOLT_BITS: u32 = 0x3F80_0000;

/// The bit pattern of 10 mV, below which the input counts as silent.
pub const SILENT_MV_BITS: u32 = 0x4120_0000;

/// The bit pattern of 800 mV, up to which a guitar is expected.
pub const TYPICAL_MV_BITS: u32 = 0x4448_0000;

/// The bit pattern of 1500 mV, up to which an active pickup is expected.
pub const HOT_MV_BITS: u32 = 0x44BB_8000;

/// A picture of the editor.
#[derive(Debug, Clone, Copy, PartialEq, Eq, Structural)]
pub enum EditorPicture {
    AmpOn,
    AmpOff,
    Amp,
    SwitchOn,
    SwitchCenter,
    SwitchOff,
    /// A knob at one of its frames, counted from zero.
    Knob(usize),
}

/// The decimal digit of a number below ten.
pub open spec fn digit(d: int) -> char {
    (48 + d) as char
}

/// Three decimal digits of a number below a thousand.
pub open spec fn three_digits(n: int) -> Seq<char> {
    seq![digit(n / 100), digit(n / 10 % 10), digit(n % 10)]
}

fn digit_text(d: usize) -> (text: &'static str)
    requires
        d < 10,
    ensures
        text@ == seq![digit(d as int)],
{
    proof {
        reveal_strlit("0");
        reveal_strlit("1");
        reveal_strlit("2");
        reveal_strlit("3");
        reveal_strlit("4");
        reveal_strlit("5");
        reveal_strlit("6");
        reveal_strlit("7");
        reveal_strlit("8");
        reveal_strlit("9");
    }
    let text = match d {
        0 => "0",
        1 => "1",
        2 => "2",
        3 => "3",
        4 => "4",
        5 => "5",
        6 => "6",
        7 => "7",
        8 => "8",
        _ => "9",
    };
    assert(text@ =~= seq![digit(d as int)]);
    text
}

impl EditorPicture {
    /// A knob shows one of its frames.
    pub open spec fn wf(self) -> bool {
        self matches EditorPicture::Knob(frame) ==> frame < KNOB_FRAMES
    }

    /// The name that the texture goes by; the frames of a knob count from one.
    pub open spec fn key_text(self) -> Seq<char> {
        match self {
            EditorPicture::AmpOn => "amp_on"@,
            EditorPicture::AmpOff => "amp_off"@,
            EditorPicture::Amp => "amp_view"@,
            EditorPicture::SwitchOn => "switch_on"@,
            EditorPicture::SwitchCenter => "switch_center"@,
            EditorPicture::SwitchOff => "switch_off"@,
            EditorPicture::Knob(frame) => "knob_"@ + three_digits(frame + 1),
        }
    }

    pub fn key(self) -> (key: String)
        requires
            self.wf(),
        ensures
            key@ == self.key_text(),
    {
        match self {
            EditorPicture::AmpOn => "amp_on".to_owned(),
            EditorPicture::AmpOff => "amp_off".to_owned(),
            EditorPicture::Amp => "amp_view".to_owned(),
            EditorPicture::SwitchOn => "switch_on".to_owned(),
            EditorPicture::SwitchCenter => "switch_center".to_owned(),
            EditorPicture::SwitchOff => "switch_off".to_owned(),
            EditorPicture::Knob(frame) => {
                let n: usize = frame + 1;
                let mut key = "knob_".to_owned();
                key.append(digit_text(n / 100));
                key.append(digit_text(n / 10 % 10));
                key.append(digit_text(n % 10));
                assert(key@ =~= "knob_"@ + three_digits(n as int));
                key
            },
        }
    }

    /// The image file that the picture is in; the files of a knob are numbered
    /// like its frames, from zero.
    pub open spec fn file_text(self) -> Seq<char> {
        match self {
            EditorPicture::AmpOn => "amp_on.png"@,
            EditorPicture::AmpOff => "amp_off.png"@,
            EditorPicture::Amp => "amp.png"@,
            EditorPicture::SwitchOn => "toggle_on.png"@,
            EditorPicture::SwitchCenter => "toggle_centered.png"@,
            EditorPicture::SwitchOff => "toggle_off.png"@,
            EditorPicture::Knob(frame) => "0"@ + three_digits(frame as int) + ".png"@,
        }
    }

    pub fn file_name(self) -> (name: String)
        requires
            self.wf(),
        ensures
            name@ == self.file_text(),
    {
        match self {
            EditorPicture::AmpOn => "amp_on.png".to_owned(),
            EditorPicture::AmpOff => "amp_off.png".to_owned(),
            EditorPicture::Amp => "amp.png".to_owned(),
            EditorPicture::SwitchOn => "toggle_on.png".to_owned(),
            EditorPicture::SwitchCenter => "toggle_centered.png".to_owned(),
            EditorPicture::SwitchOff => "toggle_off.png".to_owned(),
            EditorPicture::Knob(frame) => {
                let mut name = "0".to_owned();
                name.append(digit_text(frame / 100));
                name.append(digit_text(frame / 10 % 10));
                name.append(digit_text(frame % 10));
                assert(name@ =~= "0"@ + three_digits(frame as int));
                name.append(".png");
                name
            },
        }
    }
}

/// The picture behind the controls, by the power switch.
pub fn background(power_on: bool) -> (picture: EditorPicture)
    ensures
        picture == if power_on {
            EditorPicture::AmpOn
        } else {
            EditorPicture::AmpOff
        },
        picture.wf(),
{
    if power_on {
        EditorPicture::AmpOn
    } else {
        EditorPicture::AmpOff
    }
}

/// The picture of a two-way switch.
pub open spec fn two_way(is_on: bool) -> EditorPicture {
    if is_on {
        EditorPicture::SwitchOn
    } else {
        EditorPicture::SwitchOff
    }
}

/// The picture of the channel switch.
pub open spec fn three_way(mode: ChannelMode) -> EditorPicture {
    match mode {
        ChannelMode::Normal => EditorPicture::SwitchOff,
        ChannelMode::Both => EditorPicture::SwitchCenter,
        ChannelMode::Bright => EditorPicture::SwitchOn,
    }
}

/// What a control of the front panel looks like, and what it is known by.
#[derive(Debug)]
pub struct ControlView {
    pub picture: EditorPicture,
    pub id: String,
    pub tooltip_id: String,
    pub tooltip: String,
}

/// The text over a switch: its name, its state, and a remark on a second line.
pub open spec fn switch_text(name: Seq<char>, state: Seq<char>, remark: Seq<char>) -> Seq<char> {
    name + ": "@ + state + "\n"@ + remark
}

fn joined(a: &str, b: &str) -> (text: String)
    ensures
        text@ == a@ + b@,
{
    let mut text = a.to_owned();
    text.append(b);
    text
}

fn switch_tooltip(name: &str, state: &str, remark: &str) -> (text: String)
    ensures
        text@ == switch_text(name@, state@, remark@),
{
    let mut text = joined(name, ": ");
    text.append(state);
    text.append("\n");
    text.append(remark);
    text
}

/// A two-way switch.
pub fn switch_view(is_on: bool, name: &str, remark: &str) -> (view: ControlView)
    ensures
        view.picture == two_way(is_on),
        view.id@ == "switch_"@ + name@,
        view.tooltip_id@ == "tooltip_"@ + name@,
        view.tooltip@ == switch_text(
            name@,
            if is_on {
                "ON"@
            } else {
                "OFF"@
            },
            remark@,
        ),
{
    let (picture, state) = if is_on {
        (EditorPicture::SwitchOn, "ON")
    } else {
        (EditorPicture::SwitchOff, "OFF")
    };
    ControlView {
        picture,
        id: joined("switch_", name),
        tooltip_id: joined("tooltip_", name),
        tooltip: switch_tooltip(name, state, remark),
    }
}

/// The channel switch.
pub fn three_way_switch_view(current: ChannelMode, name: &str, remark: &str) -> (view: ControlView)
    ensures
        view.picture == three_way(current),
        view.id@ == "switch_"@ + name@,
        view.tooltip_id@ == "tooltip_"@ + name@,
        view.tooltip@ == switch_text(name@, current.state_text(), remark@),
{
    let picture = match current {
        ChannelMode::Normal => EditorPicture::SwitchOff,
        ChannelMode::Both => EditorPicture::SwitchCenter,
        ChannelMode::Bright => EditorPicture::SwitchOn,
    };
    ControlView {
        picture,
        id: joined("switch_", name),
        tooltip_id: joined("tooltip_", name),
        tooltip: switch_tooltip(name, current.state_label(), remark),
    }
}

/// A knob, given its position in frames, rounded; one that is turned past its
/// last frame shows the last.
pub fn knob_view(position: usize, name: &str, remark: &str) -> (view: ControlView)
    ensures
        view.picture == EditorPicture::Knob(
            if position < KNOB_FRAMES {
                position
            } else {
                99
            },
        ),
        view.picture.wf(),
        view.id@ == "knob_"@ + name@,
        view.tooltip_id@ == "tooltip_"@ + name@,
        view.tooltip@ == remark@,
{
    let frame: usize = if position < KNOB_FRAMES {
        position
    } else {
        KNOB_FRAMES - 1
    };
    ControlView {
        picture: EditorPicture::Knob(frame),
        id: joined("knob_", name),
        tooltip_id: joined("tooltip_", name),
        tooltip: remark.to_owned(),
    }
}

/// Gives out a cached texture, or loads it under a name on first use and
/// caches a clone.
pub fn get_or_load<T: Clone, Load: FnOnce(&str) -> T>(
    slot: &mut Option<T>,
    name: &str,
    load: Load,
) -> (texture: T)
    requires
        call_requires(load, (name,)),
    ensures
        match *old(slot) {
            Some(cached) => *final(slot) == *old(slot) && call_ensures(
                T::clone,
                (&cached,),
                texture,
            ),
            None => {
                &&& call_ensures(load, (name,), texture)
                &&& *final(slot) matches Some(cached) && call_ensures(
                    T::clone,
                    (&texture,),
                    cached,
                )
            },
        },
{
    if let Some(cached) = slot {
        return cached.clone();
    }
    let texture = load(name);
    *slot = Some(texture.clone());
    texture
}

/// The textures that were loaded so far.
pub struct TextureCache<T> {
    pub amp_on: Option<T>,
    pub amp_off: Option<T>,
    pub amp: Option<T>,
    pub switch_on: Option<T>,
    pub switch_center: Option<T>,
    pub switch_off: Option<T>,
    pub knob_frames: Vec<Option<T>>,
}

impl<T> TextureCache<T> {
    /// There is a place for every frame of a knob.
    pub open spec fn wf(self) -> bool {
        self.knob_frames@.len() == KNOB_FRAMES
    }

    /// The place of a picture.
    pub open spec fn slot(self, picture: EditorPicture) -> Option<T> {
        match picture {
            EditorPicture::AmpOn => self.amp_on,
            EditorPicture::AmpOff => self.amp_off,
            EditorPicture::Amp => self.amp,
            EditorPicture::SwitchOn => self.switch_on,
            EditorPicture::SwitchCenter => self.switch_center,
            EditorPicture::SwitchOff => self.switch_off,
            EditorPicture::Knob(frame) => self.knob_frames@[frame as int],
        }
    }

    pub fn new() -> (cache: Self)
        ensures
            cache.wf(),
            forall|picture: EditorPicture|
                picture.wf() ==> #[trigger] cache.slot(picture) is None,
    {
        let mut knob_frames: Vec<Option<T>> = Vec::with_capacity(KNOB_FRAMES);
        let mut i: usize = 0;
        while i < KNOB_FRAMES
            invariant
                i <= KNOB_FRAMES,
                knob_frames@.len() == i,
                forall|j: int| 0 <= j < i ==> knob_frames@[j] is None,
            decreases KNOB_FRAMES - i,
        {
            knob_frames.push(None);
            i += 1;
        }
        TextureCache {
            amp_on: None,
            amp_off: None,
            amp: None,
            switch_on: None,
            switch_center: None,
            switch_off: None,
            knob_frames,
        }
    }

    /// The texture of a picture, loaded under its name on first use. No other
    /// place is touched.
    pub fn texture<Load: FnOnce(&str) -> T>(&mut self, picture: EditorPicture, load: Load) -> (
        texture: T
    ) where T: Clone
        requires
            old(self).wf(),
            picture.wf(),
            forall|name: &str| #[trigger] call_requires(load, (name,)),
        ensures
            final(self).wf(),
            forall|other: EditorPicture|
                other.wf() && other != picture ==> #[trigger] final(self).slot(other) == old(
                    self).slot(other),
            match old(self).slot(picture) {
                Some(cached) => final(self).slot(picture) == Some(cached) && call_ensures(
                    T::clone,
                    (&cached,),
                    texture,
                ),
                None => {
                    &&& exists|name: &str|
                        name@ == picture.key_text() && #[trigger] call_ensures(
                            load,
                            (name,),
                            texture,
                        )
                    &&& final(self).slot(picture) matches Some(cached) && call_ensures(
                        T::clone,
                        (&texture,),
                        cached,
                    )
                },
            },
    {
        let key = picture.key();
        let name = key.as_str();
        match picture {
            EditorPicture::AmpOn => get_or_load(&mut self.amp_on, name, load),
            EditorPicture::AmpOff => get_or_load(&mut self.amp_off, name, load),
            EditorPicture::Amp => get_or_load(&mut self.amp, name, load),
            EditorPicture::SwitchOn => get_or_load(&mut self.switch_on, name, load),
            EditorPicture::SwitchCenter => get_or_load(&mut self.switch_center, name, load),
            EditorPicture::SwitchOff => get_or_load(&mut self.switch_off, name, load),
            EditorPicture::Knob(frame) => get_or_load(&mut self.knob_frames[frame], name, load),
        }
    }
}

/// What the editor holds. `L` is the type of the impulse response's slot, `C`
/// of the cabinet's, `P` of the persisted path, `M` of a meter, `R` of the
/// running ratio and `T` of a texture.
pub struct GuiState<L, C, P, M, R, T> {
    pub ir_load_state: L,
    pub cab_load_state: C,
    pub ir_path: P,
    pub meter_peak_volts: M,
    pub meter_bplus_volts: M,
    pub meter_v1_volts: M,
    pub meter_v2_volts: M,
    pub meter_v3v4_volts: M,
    pub meter_output_db: M,
    pub active_os_ratio: R,
    pub show_amp_view: bool,
    pub show_circuit_stats: bool,
    pub show_settings: bool,
    pub textures: TextureCache<T>,
}

/// The parameters that a click goes by.
#[derive(Debug, Clone, Copy)]
pub struct EditorPanel {
    pub channel: ChannelMode,
    pub power_on: bool,
    pub tube_toggle: bool,
    pub microphone: MicSelection,
    pub room: RoomSelection,
}

/// What the player did in the editor.
#[derive(Debug, Clone, Copy)]
pub enum EditorEvent {
    ViewButton,
    StatsButton,
    SettingsButton,
    /// A click while the circuit stats are shown, on them or beside them.
    StatsOverlay { inside: bool },
    /// A click while the settings are shown, on them or beside them.
    SettingsOverlay { inside: bool },
    ChannelSwitch,
    PowerSwitch,
    TubeSwitch,
    Microphone(MicSelection),
    Room(RoomSelection),
    MicX(MicXPosition),
    Oversampling(OversamplingFactor),
    CabMode(CabModellingMode),
}

/// What has to be done about it.
#[derive(Debug, Clone, Copy)]
pub enum EditorAction {
    /// Nothing beyond the editor.
    Stay,
    SetChannel(ChannelMode),
    SetPower(bool),
    SetTubeToggle(bool),
    /// Set the microphone, and rebuild the cabinet with it in a room.
    SetMicrophone { microphone: MicSelection, room: RoomSelection },
    /// Set the room, and rebuild the cabinet in it with a microphone.
    SetRoom { microphone: MicSelection, room: RoomSelection },
    SetMicX(MicXPosition),
    /// Persist a factor, which the next start of the plug-in goes by.
    PersistFactor(&'static str),
    SetCabMode(CabModellingMode),
}

/// What an event calls for. A rebuild goes by the choice that was just made:
/// the parameter itself may still hold the one before.
pub open spec fn calls_for(event: EditorEvent, panel: EditorPanel, action: EditorAction) -> bool {
    match event {
        EditorEvent::ViewButton => action is Stay,
        EditorEvent::StatsButton => action is Stay,
        EditorEvent::SettingsButton => action is Stay,
        EditorEvent::StatsOverlay { inside } => action is Stay,
        EditorEvent::SettingsOverlay { inside } => action is Stay,
        EditorEvent::ChannelSwitch => action == EditorAction::SetChannel(
            panel.channel.after_click(),
        ),
        EditorEvent::PowerSwitch => action == EditorAction::SetPower(!panel.power_on),
        EditorEvent::TubeSwitch => action == EditorAction::SetTubeToggle(!panel.tube_toggle),
        EditorEvent::Microphone(microphone) => action == (EditorAction::SetMicrophone {
            microphone,
            room: panel.room,
        }),
        EditorEvent::Room(room) => action == (EditorAction::SetRoom {
            microphone: panel.microphone,
            room,
        }),
        EditorEvent::MicX(x) => action == EditorAction::SetMicX(x),
        EditorEvent::Oversampling(factor) => action matches EditorAction::PersistFactor(text)
            && text@ == factor.persisted_text(),
        EditorEvent::CabMode(mode) => action == EditorAction::SetCabMode(mode),
    }
}

impl<L, C, P, M, R, T> GuiState<L, C, P, M, R, T> {
    /// The editor as it opens: the control panel, with no overlay.
    pub fn new(
        ir_load_state: L,
        cab_load_state: C,
        ir_path: P,
        meter_peak_volts: M,
        meter_bplus_volts: M,
        meter_v1_volts: M,
        meter_v2_volts: M,
        meter_v3v4_volts: M,
        meter_output_db: M,
        active_os_ratio: R,
    ) -> (state: Self)
        ensures
            state.ir_load_state == ir_load_state,
            state.cab_load_state == cab_load_state,
            state.ir_path == ir_path,
            state.meter_peak_volts == meter_peak_volts,
            state.meter_bplus_volts == meter_bplus_volts,
            state.meter_v1_volts == meter_v1_volts,
            state.meter_v2_volts == meter_v2_volts,
            state.meter_v3v4_volts == meter_v3v4_volts,
            state.meter_output_db == meter_output_db,
            state.active_os_ratio == active_os_ratio,
            !state.show_amp_view,
            !state.show_circuit_stats,
            !state.show_settings,
            state.textures.wf(),
            forall|picture: EditorPicture|
                picture.wf() ==> #[trigger] state.textures.slot(picture) is None,
    {
        GuiState {
            ir_load_state,
            cab_load_state,
            ir_path,
            meter_peak_volts,
            meter_bplus_volts,
            meter_v1_volts,
            meter_v2_volts,
            meter_v3v4_volts,
            meter_output_db,
            active_os_ratio,
            show_amp_view: false,
            show_circuit_stats: false,
            show_settings: false,
            textures: TextureCache::new(),
        }
    }

    /// The editor after an event: a button flips what it stands for, and a
    /// click beside an overlay closes it.
    pub open spec fn after(self, event: EditorEvent) -> Self {
        match event {
            EditorEvent::ViewButton => GuiState { show_amp_view: !self.show_amp_view, ..self },
            EditorEvent::StatsButton => GuiState {
                show_circuit_stats: !self.show_circuit_stats,
                ..self
            },
            EditorEvent::SettingsButton => GuiState {
                show_settings: !self.show_settings,
                ..self
            },
            EditorEvent::StatsOverlay { inside } => GuiState {
                show_circuit_stats: self.show_circuit_stats && inside,
                ..self
            },
            EditorEvent::SettingsOverlay { inside } => GuiState {
                show_settings: self.show_settings && inside,
                ..self
            },
            _ => self,
        }
    }

    /// Takes an event in, and says what has to be done about it.
    pub fn handle(&mut self, event: EditorEvent, panel: EditorPanel) -> (action: EditorAction)
        ensures
            *final(self) == old(self).after(event),
            calls_for(event, panel, action),
    {
        match event {
            EditorEvent::ViewButton => {
                self.show_amp_view = !self.show_amp_view;
                EditorAction::Stay
            },
            EditorEvent::StatsButton => {
                self.show_circuit_stats = !self.show_circuit_stats;
                EditorAction::Stay
            },
            EditorEvent::SettingsButton => {
                self.show_settings = !self.show_settings;
                EditorAction::Stay
            },
            EditorEvent::StatsOverlay { inside } => {
                if !inside {
                    self.show_circuit_stats = false;
                }
                EditorAction::Stay
            },
            EditorEvent::SettingsOverlay { inside } => {
                if !inside {
                    self.show_settings = false;
                }
                EditorAction::Stay
            },
            EditorEvent::ChannelSwitch => EditorAction::SetChannel(panel.channel.next()),
            EditorEvent::PowerSwitch => EditorAction::SetPower(!panel.power_on),
            EditorEvent::TubeSwitch => EditorAction::SetTubeToggle(!panel.tube_toggle),
            EditorEvent::Microphone(microphone) => EditorAction::SetMicrophone {
                microphone,
                room: panel.room,
            },
            EditorEvent::Room(room) => EditorAction::SetRoom {
                microphone: panel.microphone,
                room,
            },
            EditorEvent::MicX(x) => EditorAction::SetMicX(x),
            EditorEvent::Oversampling(factor) => EditorAction::PersistFactor(
                os_factor_str(factor),
            ),
            EditorEvent::CabMode(mode) => EditorAction::SetCabMode(mode),
        }
    }
}

/// The controls of the front panel.
#[derive(Debug)]
pub struct FrontPanel {
    pub background: EditorPicture,
    pub channel: ControlView,
    pub power: ControlView,
    pub tone: ControlView,
    pub bright_volume: ControlView,
    pub normal_volume: ControlView,
    pub tube: ControlView,
}

/// What fills the middle of the editor.
#[derive(Debug)]
pub enum CentralView {
    /// The front of the amplifier, with no controls.
    Amp(EditorPicture),
    /// The control panel.
    Panel(FrontPanel),
}

/// What fills the middle of the editor; the knobs are given by their positions
/// in frames, rounded.
pub fn central_view(
    show_amp_view: bool,
    panel: EditorPanel,
    tone: usize,
    bright_volume: usize,
    normal_volume: usize,
) -> (view: CentralView)
    ensures
        show_amp_view ==> view == CentralView::Amp(EditorPicture::Amp),
        !show_amp_view ==> {
            &&& view matches CentralView::Panel(front)
            &&& front.background == if panel.power_on {
                EditorPicture::AmpOn
            } else {
                EditorPicture::AmpOff
            }
            &&& call_ensures(
                three_way_switch_view,
                (
                    panel.channel,
                    "Channel Select",
                    "[DOWN = Normal, MID = Both (jumpered), UP = Bright]",
                ),
                front.channel,
            )
            &&& call_ensures(
                switch_view,
                (panel.power_on, "Power Toggle", "[This plugin has no pass-thru]"),
                front.power,
            )
            &&& call_ensures(knob_view, (tone, "Tone Control", "Tone Control"), front.tone)
            &&& call_ensures(
                knob_view,
                (bright_volume, "Bright Volume", "Bright Volume"),
                front.bright_volume,
            )
            &&& call_ensures(
                knob_view,
                (normal_volume, "Normal Volume", "Normal Volume"),
                front.normal_volume,
            )
            &&& call_ensures(
                switch_view,
                (
                    panel.tube_toggle,
                    "Change V1A/V1B to 12ax7",
                    "[A 12ax7 tube has more gain (60-70mu)]",
                ),
                front.tube,
            )
        },
{
    if show_amp_view {
        return CentralView::Amp(EditorPicture::Amp);
    }
    CentralView::Panel(
        FrontPanel {
            background: background(panel.power_on),
            channel: three_way_switch_view(
                panel.channel,
                "Channel Select",
                "[DOWN = Normal, MID = Both (jumpered), UP = Bright]",
            ),
            power: switch_view(panel.power_on, "Power Toggle", "[This plugin has no pass-thru]"),
            tone: knob_view(tone, "Tone Control", "Tone Control"),
            bright_volume: knob_view(bright_volume, "Bright Volume", "Bright Volume"),
            normal_volume: knob_view(normal_volume, "Normal Volume", "Normal Volume"),
            tube: switch_view(
                panel.tube_toggle,
                "Change V1A/V1B to 12ax7",
                "[A 12ax7 tube has more gain (60-70mu)]",
            ),
        },
    )
}

/// The first row of the bottom panel, by the mode of the cabinet.
#[derive(Debug)]
pub enum CabRow {
    /// The state of the impulse response, and the name of its file.
    Ir { color: StripColor, status: &'static str, file: Option<String> },
    /// The cabinet and the speaker that are modelled.
    Dynamic { cabinet: String, speaker: String },
}

/// A label with a name, or with an id where there is no name.
pub open spec fn named_text(label: Seq<char>, name: Option<&str>, id: Seq<char>) -> Seq<char> {
    label + match name {
        Some(name) => name@,
        None => id,
    }
}

fn named(label: &str, name: Option<&str>, id: &str) -> (text: String)
    ensures
        text@ == named_text(label@, name, id@),
{
    match name {
        Some(name) => joined(label, name),
        None => joined(label, id),
    }
}

/// The first row of the bottom panel. `path` is the persisted path, if it can
/// be read, and `file_name` the file name in it, if it has one; the names are
/// those of the registries, if they know them.
pub fn cab_row(
    mode: CabModellingMode,
    status: u8,
    path: Option<&str>,
    file_name: Option<&str>,
    cabinet_name: Option<&str>,
    speaker_name: Option<&str>,
) -> (row: CabRow)
    ensures
        match mode {
            CabModellingMode::Ir => {
                &&& row matches CabRow::Ir { color, status: text, file }
                &&& color == strip_color(status)
                &&& text@ == strip_text(status)
                &&& match path {
                    Some(path) => if path@.len() == 0 {
                        file is None
                    } else {
                        file matches Some(label) && label@ == "("@ + (match file_name {
                            Some(name) => name@,
                            None => "unknown"@,
                        }) + ")"@
                    },
                    None => file is None,
                }
            },
            CabModellingMode::Dynamic => {
                &&& row matches CabRow::Dynamic { cabinet, speaker }
                &&& cabinet@ == named_text("Cabinet: "@, cabinet_name, DEFAULT_CABINET_ID@)
                &&& speaker@ == named_text("Speaker: "@, speaker_name, DEFAULT_SPEAKER_ID@)
            },
        },
{
    match mode {
        CabModellingMode::Ir => {
            let (color, text) = status_strip(status);
            let file = match path {
                Some(path) => {
                    if path.is_empty() {
                        None
                    } else {
                        let mut label = named("(", file_name, "unknown");
                        label.append(")");
                        Some(label)
                    }
                },
                None => None,
            };
            CabRow::Ir { color, status: text, file }
        },
        CabModellingMode::Dynamic => CabRow::Dynamic {
            cabinet: named("Cabinet: ", cabinet_name, DEFAULT_CABINET_ID),
            speaker: named("Speaker: ", speaker_name, DEFAULT_SPEAKER_ID),
        },
    }
}

/// Whether the rows of the microphone and of the room are shown.
pub fn shows_microphone(mode: CabModellingMode) -> (shown: bool)
    ensures
        shown == (mode == CabModellingMode::Dynamic),
{
    matches!(mode, CabModellingMode::Dynamic)
}

/// How hot the input is.
#[derive(Debug, Clone, Copy, PartialEq, Eq, Structural)]
pub enum SignalZone {
    /// Gray.
    Silent,
    /// Green: what a guitar puts out.
    Typical,
    /// Yellow: what an active pickup puts out.
    Hot,
    /// Red.
    TooHot,
}

/// A bit pattern stands for no number.
pub open spec fn is_no_number(bits: u32) -> bool {
    INFINITY_BITS < bits < SIGN_BITS || bits > SIGN_BITS + INFINITY_BITS
}

/// The zone of an input peak in millivolts, given as a bit pattern. What is no
/// number is in none of the zones that end somewhere.
pub fn signal_zone(peak_mv_bits: u32) -> (zone: SignalZone)
    ensures
        is_no_number(peak_mv_bits) ==> zone == SignalZone::TooHot,
        !is_no_number(peak_mv_bits) && peak_mv_bits >= SIGN_BITS ==> zone == SignalZone::Silent,
        peak_mv_bits <= INFINITY_BITS ==> zone == {
            let mv = reading_of(peak_mv_bits);
            if mv < reading_of(SILENT_MV_BITS) {
                SignalZone::Silent
            } else if mv <= reading_of(TYPICAL_MV_BITS) {
                SignalZone::Typical
            } else if mv <= reading_of(HOT_MV_BITS) {
                SignalZone::Hot
            } else {
                SignalZone::TooHot
            }
        },
{
    match Magnitude::from_bits(peak_mv_bits) {
        Some(peak) => {
            let silent = Magnitude { bits: SILENT_MV_BITS };
            let typical = Magnitude { bits: TYPICAL_MV_BITS };
            let hot = Magnitude { bits: HOT_MV_BITS };
            if peak.below(silent) {
                SignalZone::Silent
            } else if !typical.below(peak) {
                SignalZone::Typical
            } else if !hot.below(peak) {
                SignalZone::Hot
            } else {
                SignalZone::TooHot
            }
        },
        None => {
            if peak_mv_bits >= SIGN_BITS && peak_mv_bits <= SIGN_BITS + INFINITY_BITS {
                SignalZone::Silent
            } else {
                SignalZone::TooHot
            }
        },
    }
}

/// Whether an input peak, given in volts as a bit pattern, is written in volts
/// rather than in millivolts.
pub fn written_in_volts(peak_bits: u32) -> (volts: bool)
    ensures
        volts == (peak_bits <= INFINITY_BITS && reading_of(peak_bits) >= reading_of(ONE_VOLT_BITS)),
{
    match Magnitude::from_bits(peak_bits) {
        Some(peak) => !peak.below(Magnitude { bits: ONE_VOLT_BITS }),
        None => false,
    }
}

/// The oversampling lines of the settings.
#[derive(Debug)]
pub struct SettingsView {
    /// The factor whose button is lit.
    pub selected: OversamplingFactor,
    /// The factor that runs.
    pub current_line: String,
    /// The selected factor, where it is not the one that runs.
    pub selected_line: Option<String>,
}

/// The oversampling lines of the settings, from the persisted factor, if it can
/// be read, and the ratio that runs.
pub fn settings_view(persisted: Option<&str>, running_ratio: u8) -> (view: SettingsView)
    ensures
        view.selected == stored_factor(match persisted {
            Some(s) => Some(s@),
            None => None,
        }),
        view.current_line@ == "Current: "@ + running_factor(running_ratio).label_text(),
        view.selected_line is None <==> view.selected == running_factor(running_ratio),
        view.selected_line matches Some(line) ==> line@ == "Selected: "@
            + view.selected.label_text(),
{
    let selected = selected_os_factor(persisted);
    let active = active_os_factor(running_ratio);
    let selected_line = if selected != active {
        Some(joined("Selected: ", os_factor_label(selected)))
    } else {
        None
    };
    SettingsView {
        selected,
        current_line: joined("Current: ", os_factor_label(active)),
        selected_line,
    }
}

/// The patterns at which the input changes its zone and its unit stand for
/// 10, 800 and 1500 millivolts and for one volt.
pub proof fn law_thresholds_stand_for_their_numbers()
    ensures
        reading_of(SILENT_MV_BITS) == 10 * one(),
        reading_of(TYPICAL_MV_BITS) == 800 * one(),
        reading_of(HOT_MV_BITS) == 1500 * one(),
        reading_of(ONE_VOLT_BITS) == one(),
{
    lemma2_to64();
    lemma_reading_of_whole(SILENT_MV_BITS, 10, 20);
    lemma_reading_of_whole(TYPICAL_MV_BITS, 800, 14);
    lemma_reading_of_whole(HOT_MV_BITS, 1500, 13);
    lemma_reading_of_whole(ONE_VOLT_BITS, 1, 23);
}

/// A button that is pressed twice leaves the editor as it was.
pub proof fn law_buttons_toggle<L, C, P, M, R, T>(state: GuiState<L, C, P, M, R, T>)
    ensures
        state.after(EditorEvent::ViewButton).after(EditorEvent::ViewButton) == state,
        state.after(EditorEvent::StatsButton).after(EditorEvent::StatsButton) == state,
        state.after(EditorEvent::SettingsButton).after(EditorEvent::SettingsButton) == state,
{
}

/// A click beside an overlay closes it, one on it leaves it open, and neither
/// touches the other overlay or the view.
pub proof fn law_clicks_beside_close<L, C, P, M, R, T>(
    state: GuiState<L, C, P, M, R, T>,
    inside: bool,
)
    ensures
        ({
            let stats = state.after(EditorEvent::StatsOverlay { inside });
            &&& stats.show_circuit_stats == (state.show_circuit_stats && inside)
            &&& stats.show_settings == state.show_settings
            &&& stats.show_amp_view == state.show_amp_view
        }),
        ({
            let settings = state.after(EditorEvent::SettingsOverlay { inside });
            &&& settings.show_settings == (state.show_settings && inside)
            &&& settings.show_circuit_stats == state.show_circuit_stats
            &&& settings.show_amp_view == state.show_amp_view
        }),
{
}

/// Whatever the parameters still hold, a rebuild that follows a choice goes by
/// the choice.
pub proof fn law_rebuild_goes_by_choice(
    panel: EditorPanel,
    microphone: MicSelection,
    room: RoomSelection,
    mic_action: EditorAction,
    room_action: EditorAction,
)
    requires
        calls_for(EditorEvent::Microphone(microphone), panel, mic_action),
        calls_for(EditorEvent::Room(room), panel, room_action),
    ensures
        mic_action matches EditorAction::SetMicrophone { microphone: chosen, room: kept }
            && chosen == microphone && kept == panel.room,
        room_action matches EditorAction::SetRoom { microphone: kept, room: chosen } && chosen
            == room && kept == panel.microphone,
{
}

/// A factor that is chosen in the editor is the one that the next start reads.
pub proof fn law_chosen_factor_comes_back(
    panel: EditorPanel,
    factor: OversamplingFactor,
    action: EditorAction,
)
    requires
        calls_for(EditorEvent::Oversampling(factor), panel, action),
    ensures
        action matches EditorAction::PersistFactor(text) && stored_factor(Some(text@)) == factor,
{
    crate::oversampling::law_factor_round_trips_through_string(factor);
}

/// No two pictures of the editor go by the same name.
pub proof fn law_picture_keys_are_distinct(a: EditorPicture, b: EditorPicture)
    requires
        a.wf(),
        b.wf(),
        a != b,
    ensures
        a.key_text() != b.key_text(),
{
    reveal_strlit("amp_on");
    reveal_strlit("amp_off");
    reveal_strlit("amp_view");
    reveal_strlit("switch_on");
    reveal_strlit("switch_center");
    reveal_strlit("switch_off");
    reveal_strlit("knob_");
    lemma_key_shape(a);
    lemma_key_shape(b);
    if let (EditorPicture::Knob(i), EditorPicture::Knob(j)) = (a, b) {
        let (m, n) = (i + 1, j + 1);
        assert(a.key_text().subrange(5, 8) =~= three_digits(m));
        assert(b.key_text().subrange(5, 8) =~= three_digits(n));
        if three_digits(m) == three_digits(n) {
            assert(three_digits(m)[0] == digit(m / 100) && three_digits(n)[0] == digit(n / 100));
            assert(three_digits(m)[1] == digit(m / 10 % 10));
            assert(three_digits(n)[1] == digit(n / 10 % 10));
            assert(three_digits(m)[2] == digit(m % 10) && three_digits(n)[2] == digit(n % 10));
            assert(m == n);
        }
    }
}

/// How long a name is, and where it differs from the others of its length.
proof fn lemma_key_shape(picture: EditorPicture)
    requires
        picture.wf(),
    ensures
        ({
            let key = picture.key_text();
            match picture {
                EditorPicture::AmpOn => key.len() == 6,
                EditorPicture::AmpOff => key.len() == 7,
                EditorPicture::Amp => key.len() == 8 && key[0] == 'a',
                EditorPicture::SwitchOn => key.len() == 9,
                EditorPicture::SwitchCenter => key.len() == 13,
                EditorPicture::SwitchOff => key.len() == 10,
                EditorPicture::Knob(_) => key.len() == 8 && key[0] == 'k',
            }
        }),
{
    reveal_strlit("amp_on");
    reveal_strlit("amp_off");
    reveal_strlit("amp_view");
    reveal_strlit("switch_on");
    reveal_strlit("switch_center");
    reveal_strlit("switch_off");
    reveal_strlit("knob_");
}

/// A click always moves a two-way switch, and a second one moves it back: what
/// is set is never what the panel has. The editor itself stays as it is.
pub proof fn law_two_way_switches_always_move<L, C, P, M, R, T>(panel: EditorPanel)
    ensures
        forall|s: &mut GuiState<L, C, P, M, R, T>, action: EditorAction| #[trigger]
            call_ensures(
                GuiState::<L, C, P, M, R, T>::handle,
                (s, EditorEvent::PowerSwitch, panel),
                action,
            ) ==> *final(s) == *s && (
            action matches EditorAction::SetPower(power_on) && power_on != panel.power_on),
        forall|s: &mut GuiState<L, C, P, M, R, T>, action: EditorAction| #[trigger]
            call_ensures(
                GuiState::<L, C, P, M, R, T>::handle,
                (s, EditorEvent::TubeSwitch, panel),
                action,
            ) ==> *final(s) == *s && (
            action matches EditorAction::SetTubeToggle(tube_toggle) && tube_toggle
                != panel.tube_toggle),
{
}

/// A click of the channel switch sets the position above the panel's, and the
/// lowest above the highest.
pub proof fn law_channel_switch_moves_up<L, C, P, M, R, T>(panel: EditorPanel)
    ensures
        forall|s: &mut GuiState<L, C, P, M, R, T>, action: EditorAction| #[trigger]
            call_ensures(
                GuiState::<L, C, P, M, R, T>::handle,
                (s, EditorEvent::ChannelSwitch, panel),
                action,
            ) ==> *final(s) == *s
                && (action matches EditorAction::SetChannel(channel) && match panel.channel {
                ChannelMode::Normal => channel == ChannelMode::Both,
                ChannelMode::Both => channel == ChannelMode::Bright,
                ChannelMode::Bright => channel == ChannelMode::Normal,
            }),
{
}

/// A button flips what it stands for and touches nothing else, in the editor or
/// beyond it.
pub proof fn law_button_flips_its_own<L, C, P, M, R, T>(panel: EditorPanel)
    ensures
        forall|s: &mut GuiState<L, C, P, M, R, T>, action: EditorAction| #[trigger]
            call_ensures(
                GuiState::<L, C, P, M, R, T>::handle,
                (s, EditorEvent::ViewButton, panel),
                action,
            ) ==> action is Stay
                && final(s).show_amp_view != s.show_amp_view && *final(s) == (GuiState {
                show_amp_view: final(s).show_amp_view,
                ..*s
            }),
        forall|s: &mut GuiState<L, C, P, M, R, T>, action: EditorAction| #[trigger]
            call_ensures(
                GuiState::<L, C, P, M, R, T>::handle,
                (s, EditorEvent::StatsButton, panel),
                action,
            ) ==> action is Stay
                && final(s).show_circuit_stats != s.show_circuit_stats && *final(s) == (GuiState {
                show_circuit_stats: final(s).show_circuit_stats,
                ..*s
            }),
        forall|s: &mut GuiState<L, C, P, M, R, T>, action: EditorAction| #[trigger]
            call_ensures(
                GuiState::<L, C, P, M, R, T>::handle,
                (s, EditorEvent::SettingsButton, panel),
                action,
            ) ==> action is Stay
                && final(s).show_settings != s.show_settings && *final(s) == (GuiState {
                show_settings: final(s).show_settings,
                ..*s
            }),
{
}

/// A click on an overlay leaves the editor as it is; one beside it leaves the
/// overlay closed and everything else as it is.
pub proof fn law_click_beside_closes_the_overlay_alone<L, C, P, M, R, T>(panel: EditorPanel)
    ensures
        forall|s: &mut GuiState<L, C, P, M, R, T>, inside: bool, action: EditorAction| #[trigger]
            call_ensures(
                GuiState::<L, C, P, M, R, T>::handle,
                (s, EditorEvent::StatsOverlay { inside }, panel),
                action,
            ) ==> action
                is Stay && (inside ==> *final(s) == *s) && (!inside ==> !final(s).show_circuit_stats)
                && *final(s) == (GuiState {
                show_circuit_stats: final(s).show_circuit_stats,
                ..*s
            }),
        forall|s: &mut GuiState<L, C, P, M, R, T>, inside: bool, action: EditorAction| #[trigger]
            call_ensures(
                GuiState::<L, C, P, M, R, T>::handle,
                (s, EditorEvent::SettingsOverlay { inside }, panel),
                action,
            )
                ==> action is Stay && (inside ==> *final(s) == *s) && (!inside ==> !final(
                s).show_settings) && *final(s) == (GuiState {
                show_settings: final(s).show_settings,
                ..*s
            }),
{
}

/// A choice is set as it was made. One of the microphone or of the room comes
/// with the other as the panel has it, and one of the factor with the string
/// that reads back as it.
pub proof fn law_choice_is_set_as_made<L, C, P, M, R, T>(panel: EditorPanel)
    ensures
        forall|s: &mut GuiState<L, C, P, M, R, T>, microphone: MicSelection, action: EditorAction| #[trigger]
            call_ensures(
                GuiState::<L, C, P, M, R, T>::handle,
                (s, EditorEvent::Microphone(microphone), panel),
                action,
            ) ==> *final(s)
                == *s && (action matches EditorAction::SetMicrophone { microphone: m, room } && m
                == microphone && room == panel.room),
        forall|s: &mut GuiState<L, C, P, M, R, T>, room: RoomSelection, action: EditorAction| #[trigger]
            call_ensures(
                GuiState::<L, C, P, M, R, T>::handle,
                (s, EditorEvent::Room(room), panel),
                action,
            ) ==> *final(s) == *s && (
            action matches EditorAction::SetRoom { microphone, room: r } && r == room && microphone
                == panel.microphone),
        forall|s: &mut GuiState<L, C, P, M, R, T>, x: MicXPosition, action: EditorAction| #[trigger]
            call_ensures(
                GuiState::<L, C, P, M, R, T>::handle,
                (s, EditorEvent::MicX(x), panel),
                action,
            ) ==> *final(s) == *s && (
            action matches EditorAction::SetMicX(y) && y == x),
        forall|s: &mut GuiState<L, C, P, M, R, T>, mode: CabModellingMode, action: EditorAction| #[trigger]
            call_ensures(
                GuiState::<L, C, P, M, R, T>::handle,
                (s, EditorEvent::CabMode(mode), panel),
                action,
            ) ==> *final(s) == *s
                && (action matches EditorAction::SetCabMode(m) && m == mode),
        forall|
            s: &mut GuiState<L, C, P, M, R, T>,
            factor: OversamplingFactor,
            text: &'static str,
            read: OversamplingFactor,
        |
            #[trigger] call_ensures(
                GuiState::<L, C, P, M, R, T>::handle,
                (s, EditorEvent::Oversampling(factor), panel),
                EditorAction::PersistFactor(text),
            ) && #[trigger] call_ensures(selected_os_factor, (Some(text),), read) ==> read == factor,
        forall|s: &mut GuiState<L, C, P, M, R, T>, factor: OversamplingFactor, action: EditorAction| #[trigger]
            call_ensures(
                GuiState::<L, C, P, M, R, T>::handle,
                (s, EditorEvent::Oversampling(factor), panel),
                action,
            ) ==> *final(s)
                == *s && action is PersistFactor,
{
    assert forall|factor: OversamplingFactor| #[trigger]
        stored_factor(Some(factor.persisted_text())) == factor by {
        crate::oversampling::law_factor_round_trips_through_string(factor);
    }
}

/// The value of a decimal digit.
pub open spec fn digit_value(c: char) -> int {
    c as u32 - 48
}

/// The frames of a knob are named and filed by their number in three digits:
/// the names count from one, the files from zero.
pub proof fn law_knob_frames_go_by_their_number(frame: usize, key: String, file: String)
    requires
        frame < 100,
        call_ensures(EditorPicture::key, (EditorPicture::Knob(frame),), key),
        call_ensures(EditorPicture::file_name, (EditorPicture::Knob(frame),), file),
    ensures
        key@.len() == 8,
        key@.take(5) == "knob_"@,
        100 * digit_value(key@[5]) + 10 * digit_value(key@[6]) + digit_value(key@[7]) == frame + 1,
        file@.len() == 8,
        file@[0] == '0',
        100 * digit_value(file@[1]) + 10 * digit_value(file@[2]) + digit_value(file@[3]) == frame,
        file@.skip(4) == ".png"@,
        forall|i: int| 5 <= i < 8 ==> 0 <= #[trigger] digit_value(key@[i]) <= 9,
        forall|i: int| 1 <= i < 4 ==> 0 <= #[trigger] digit_value(file@[i]) <= 9,
{
    reveal_strlit("knob_");
    reveal_strlit("0");
    reveal_strlit(".png");
    let n = frame + 1;
    assert(key@ =~= "knob_"@ + three_digits(n));
    assert(key@.take(5) =~= "knob_"@);
    assert(key@[5] == digit(n / 100) && key@[6] == digit(n / 10 % 10) && key@[7] == digit(n % 10));
    assert(file@ =~= "0"@ + three_digits(frame as int) + ".png"@);
    assert(file@.skip(4) =~= ".png"@);
    assert(file@[1] == digit(frame as int / 100));
    assert(file@[2] == digit(frame as int / 10 % 10));
    assert(file@[3] == digit(frame as int % 10));
}

/// No two pictures are in the same file.
pub proof fn law_picture_files_are_distinct(
    a: EditorPicture,
    b: EditorPicture,
    file_a: String,
    file_b: String,
)
    requires
        a.wf(),
        b.wf(),
        call_ensures(EditorPicture::file_name, (a,), file_a),
        call_ensures(EditorPicture::file_name, (b,), file_b),
    ensures
        file_a@ == file_b@ <==> a == b,
{
    lemma_file_shape(a);
    lemma_file_shape(b);
    if let (EditorPicture::Knob(i), EditorPicture::Knob(j)) = (a, b) {
        let (m, n) = (i as int, j as int);
        if file_a@ == file_b@ {
            assert(digit(m / 100) == digit(n / 100));
            assert(digit(m / 10 % 10) == digit(n / 10 % 10));
            assert(digit(m % 10) == digit(n % 10));
            assert(m == n);
        }
    }
}

/// How long a file name is, and where it differs from the others of its length.
proof fn lemma_file_shape(picture: EditorPicture)
    requires
        picture.wf(),
    ensures
        ({
            let file = picture.file_text();
            match picture {
                EditorPicture::AmpOn => file.len() == 10,
                EditorPicture::AmpOff => file.len() == 11,
                EditorPicture::Amp => file.len() == 7,
                EditorPicture::SwitchOn => file.len() == 13,
                EditorPicture::SwitchCenter => file.len() == 19,
                EditorPicture::SwitchOff => file.len() == 14,
                EditorPicture::Knob(frame) => {
                    &&& file.len() == 8
                    &&& file[1] == digit(frame as int / 100)
                    &&& file[2] == digit(frame as int / 10 % 10)
                    &&& file[3] == digit(frame as int % 10)
                },
            }
        }),
{
    reveal_strlit("amp_on.png");
    reveal_strlit("amp_off.png");
    reveal_strlit("amp.png");
    reveal_strlit("toggle_on.png");
    reveal_strlit("toggle_centered.png");
    reveal_strlit("toggle_off.png");
    reveal_strlit("0");
    reveal_strlit(".png");
}

/// A switch that is on looks so and says so, and one that is off looks and says
/// otherwise; it is known by its name, which its tooltip starts with.
pub proof fn law_switch_shows_its_state(is_on: bool, name: &str, remark: &str, view: ControlView)
    requires
        call_ensures(switch_view, (is_on, name, remark), view),
    ensures
        view.picture == EditorPicture::SwitchOn <==> is_on,
        view.picture == EditorPicture::SwitchOff <==> !is_on,
        is_on ==> view.tooltip@ == name@ + ": "@ + "ON"@ + "\n"@ + remark@,
        !is_on ==> view.tooltip@ == name@ + ": "@ + "OFF"@ + "\n"@ + remark@,
        view.id@ == "switch_"@ + name@,
        view.tooltip_id@ == "tooltip_"@ + name@,
{
}

/// The channel switch stands down for Normal, in the middle for Both and up for
/// Bright, and names its position.
pub proof fn law_channel_switch_shows_its_position(
    mode: ChannelMode,
    name: &str,
    remark: &str,
    view: ControlView,
    label: &'static str,
)
    requires
        call_ensures(three_way_switch_view, (mode, name, remark), view),
        call_ensures(ChannelMode::state_label, (mode,), label),
    ensures
        view.picture == EditorPicture::SwitchOff <==> mode == ChannelMode::Normal,
        view.picture == EditorPicture::SwitchCenter <==> mode == ChannelMode::Both,
        view.picture == EditorPicture::SwitchOn <==> mode == ChannelMode::Bright,
        view.tooltip@ == name@ + ": "@ + label@ + "\n"@ + remark@,
        view.id@ == "switch_"@ + name@,
        view.tooltip_id@ == "tooltip_"@ + name@,
{
}

/// A knob shows the frame of its position, up to the last of a hundred.
pub proof fn law_knob_shows_its_position(
    position: usize,
    name: &str,
    remark: &str,
    view: ControlView,
)
    requires
        call_ensures(knob_view, (position, name, remark), view),
    ensures
        view.picture matches EditorPicture::Knob(frame) && frame <= 99 && frame <= position && (
        frame == position || frame == 99),
        view.id@ == "knob_"@ + name@,
        view.tooltip_id@ == "tooltip_"@ + name@,
        view.tooltip@ == remark@,
{
}

/// The lamp is lit in the picture behind the controls exactly when the power is
/// on.
pub proof fn law_background_follows_the_power(power_on: bool, picture: EditorPicture)
    requires
        call_ensures(background, (power_on,), picture),
    ensures
        power_on <==> picture == EditorPicture::AmpOn,
        !power_on <==> picture == EditorPicture::AmpOff,
{
}

/// The middle of the editor is the amplifier's front or the control panel. On
/// the panel every control shows the parameter it stands for: each switch and
/// each knob its own, the lamp the power.
pub proof fn law_controls_show_their_parameters(
    show_amp_view: bool,
    panel: EditorPanel,
    tone: usize,
    bright_volume: usize,
    normal_volume: usize,
    view: CentralView,
)
    requires
        call_ensures(
            central_view,
            (show_amp_view, panel, tone, bright_volume, normal_volume),
            view,
        ),
    ensures
        show_amp_view <==> view is Amp,
        view matches CentralView::Amp(picture) ==> picture == EditorPicture::Amp,
        view matches CentralView::Panel(front) ==> {
            &&& front.background == EditorPicture::AmpOn <==> panel.power_on
            &&& front.background == EditorPicture::AmpOff <==> !panel.power_on
            &&& front.power.picture == EditorPicture::SwitchOn <==> panel.power_on
            &&& front.power.picture == EditorPicture::SwitchOff <==> !panel.power_on
            &&& front.tube.picture == EditorPicture::SwitchOn <==> panel.tube_toggle
            &&& front.tube.picture == EditorPicture::SwitchOff <==> !panel.tube_toggle
            &&& front.channel.picture == EditorPicture::SwitchOff <==> panel.channel
                == ChannelMode::Normal
            &&& front.channel.picture == EditorPicture::SwitchCenter <==> panel.channel
                == ChannelMode::Both
            &&& front.channel.picture == EditorPicture::SwitchOn <==> panel.channel
                == ChannelMode::Bright
            &&& front.tone.picture == EditorPicture::Knob(
                if tone <= 99 {
                    tone
                } else {
                    99
                },
            )
            &&& front.bright_volume.picture == EditorPicture::Knob(
                if bright_volume <= 99 {
                    bright_volume
                } else {
                    99
                },
            )
            &&& front.normal_volume.picture == EditorPicture::Knob(
                if normal_volume <= 99 {
                    normal_volume
                } else {
                    99
                },
            )
            &&& front.power.id@ == "switch_"@ + "Power Toggle"@
            &&& front.tube.id@ == "switch_"@ + "Change V1A/V1B to 12ax7"@
            &&& front.channel.id@ == "switch_"@ + "Channel Select"@
            &&& front.tone.id@ == "knob_"@ + "Tone Control"@
            &&& front.bright_volume.id@ == "knob_"@ + "Bright Volume"@
            &&& front.normal_volume.id@ == "knob_"@ + "Normal Volume"@
            &&& front.tone.tooltip@ == "Tone Control"@
            &&& front.bright_volume.tooltip@ == "Bright Volume"@
            &&& front.normal_volume.tooltip@ == "Normal Volume"@
            &&& front.power.tooltip@ == "Power Toggle"@ + ": "@ + (if panel.power_on {
                "ON"@
            } else {
                "OFF"@
            }) + "\n"@ + "[This plugin has no pass-thru]"@
            &&& front.tube.tooltip@ == "Change V1A/V1B to 12ax7"@ + ": "@ + (
            if panel.tube_toggle {
                "ON"@
            } else {
                "OFF"@
            }) + "\n"@ + "[A 12ax7 tube has more gain (60-70mu)]"@
            &&& front.channel.tooltip@ == "Channel Select"@ + ": "@ + (match panel.channel {
                ChannelMode::Normal => "NORMAL"@,
                ChannelMode::Both => "BOTH (Jumpered)"@,
                ChannelMode::Bright => "BRIGHT"@,
            }) + "\n"@ + "[DOWN = Normal, MID = Both (jumpered), UP = Bright]"@
        },
{
}

/// The first row of the bottom panel is that of the mode. For an impulse
/// response it shows the status, and a file in brackets exactly when a path is
/// persisted; for the dynamic arm it names the cabinet and the speaker, by
/// their ids where they have no names.
pub proof fn law_cab_row_tells_what_is_heard(
    mode: CabModellingMode,
    status: u8,
    path: Option<&str>,
    file_name: Option<&str>,
    cabinet_name: Option<&str>,
    speaker_name: Option<&str>,
    row: CabRow,
)
    requires
        call_ensures(cab_row, (mode, status, path, file_name, cabinet_name, speaker_name), row),
    ensures
        row is Ir <==> mode == CabModellingMode::Ir,
        row matches CabRow::Ir { color, status: text, file } ==> {
            &&& color == StripColor::Green <==> status == 1
            &&& color == StripColor::Red <==> status == 2
            &&& forall|strip: (StripColor, &'static str)| #[trigger]
                call_ensures(status_strip, (status,), strip) ==> color == strip.0 && text@ == strip.1@
            &&& file is Some <==> path is Some && path->0@.len() > 0
            &&& file is Some && file_name is Some ==> file->0@ == "("@ + file_name->0@ + ")"@
            &&& file is Some && file_name is None ==> file->0@ == "("@ + "unknown"@ + ")"@
        },
        row matches CabRow::Dynamic { cabinet, speaker } ==> {
            &&& cabinet_name is Some ==> cabinet@ == "Cabinet: "@ + cabinet_name->0@
            &&& cabinet_name is None ==> cabinet@ == "Cabinet: "@ + "tweed_5e3_open_back_1x12"@
            &&& speaker_name is Some ==> speaker@ == "Speaker: "@ + speaker_name->0@
            &&& speaker_name is None ==> speaker@ == "Speaker: "@ + "p12r"@
        },
{
}

/// The microphone and the room are shown for the dynamic arm alone.
pub proof fn law_microphone_belongs_to_the_dynamic_arm(mode: CabModellingMode, shown: bool)
    requires
        call_ensures(shows_microphone, (mode,), shown),
    ensures
        shown <==> mode != CabModellingMode::Ir,
{
}

/// The zone of an input goes by its millivolts: silent below 10, typical up to
/// 800, hot up to 1500, too hot beyond. A negative input is silent, and what is
/// no number is too hot.
pub proof fn law_zone_goes_by_millivolts(bits: u32, zone: SignalZone)
    requires
        call_ensures(signal_zone, (bits,), zone),
    ensures
        bits <= 0x7F80_0000 ==> {
            &&& zone == SignalZone::Silent <==> reading_of(bits) < 10 * one()
            &&& zone == SignalZone::Typical <==> 10 * one() <= reading_of(bits) <= 800 * one()
            &&& zone == SignalZone::Hot <==> 800 * one() < reading_of(bits) <= 1500 * one()
            &&& zone == SignalZone::TooHot <==> 1500 * one() < reading_of(bits)
        },
        0x8000_0000 <= bits <= 0xFF80_0000 ==> zone == SignalZone::Silent,
        0x7F80_0000 < bits < 0x8000_0000 || bits > 0xFF80_0000 ==> zone == SignalZone::TooHot,
{
    law_thresholds_stand_for_their_numbers();
    vstd::arithmetic::power2::lemma_pow2_pos(149);
}

/// An input is written in volts from one volt on, and otherwise, what is
/// negative or no number among it, in millivolts.
pub proof fn law_volts_are_written_from_one_on(bits: u32, volts: bool)
    requires
        call_ensures(written_in_volts, (bits,), volts),
    ensures
        volts <==> bits <= 0x7F80_0000 && reading_of(bits) >= one(),
{
    law_thresholds_stand_for_their_numbers();
}

/// The settings light the factor that the next start goes by, and name the one
/// that runs; the lit one is also named exactly when it waits for a start.
pub proof fn law_settings_tell_lit_from_running(
    persisted: Option<&str>,
    ratio: u8,
    view: SettingsView,
    selected: OversamplingFactor,
    running: OversamplingFactor,
    selected_label: &'static str,
    running_label: &'static str,
)
    requires
        call_ensures(settings_view, (persisted, ratio), view),
        call_ensures(selected_os_factor, (persisted,), selected),
        call_ensures(active_os_factor, (ratio,), running),
        call_ensures(os_factor_label, (selected,), selected_label),
        call_ensures(os_factor_label, (running,), running_label),
    ensures
        view.selected == selected,
        view.current_line@ == "Current: "@ + running_label@,
        view.selected_line is Some <==> selected != running,
        view.selected_line is Some ==> view.selected_line->0@ == "Selected: "@ + selected_label@,
{
}

/// A texture is loaded under the name of its picture the first time it is asked
/// for, and is the same ever after: what is handed out is what is kept, and
/// what was kept is handed out. No other picture's is touched.
pub proof fn law_texture_is_loaded_once<T: Clone, Load: FnOnce(&str) -> T>(
    picture: EditorPicture,
    load: Load,
    key: String,
)
    requires
        picture.wf(),
        call_ensures(EditorPicture::key, (picture,), key),
        forall|a: &T, b: T| #[trigger] call_ensures(T::clone, (a,), b) ==> b == *a,
    ensures
        forall|cache: &mut TextureCache<T>, texture: T| #[trigger]
            call_ensures(TextureCache::<T>::texture::<Load>, (cache, picture, load), texture) ==> {
                &&& final(cache).slot(picture) == Some(texture)
                &&& cache.slot(picture) is Some ==> cache.slot(picture) == Some(texture)
                &&& cache.slot(picture) is None ==> exists|name: &str|
                    name@ == key@ && #[trigger] call_ensures(load, (name,), texture)
                &&& forall|other: EditorPicture|
                    other.wf() && other != picture ==> #[trigger] final(cache).slot(other)
                        == cache.slot(other)
            },
        forall|cache: &mut TextureCache<T>, texture: T| #[trigger]
            call_ensures(TextureCache::<T>::texture::<Load>, (cache, picture, load), texture)
                ==> match picture {
                EditorPicture::AmpOn => final(cache).amp_on,
                EditorPicture::AmpOff => final(cache).amp_off,
                EditorPicture::Amp => final(cache).amp,
                EditorPicture::SwitchOn => final(cache).switch_on,
                EditorPicture::SwitchCenter => final(cache).switch_center,
                EditorPicture::SwitchOff => final(cache).switch_off,
                EditorPicture::Knob(frame) => final(cache).knob_frames@[frame as int],
            } == Some(texture),
{
}

/// What a slot hands out is what it keeps: the texture that was there, or the
/// one that was loaded under the name.
pub proof fn law_slot_keeps_what_it_hands_out<T: Clone, Load: FnOnce(&str) -> T>(
    name: &str,
    load: Load,
)
    requires
        forall|a: &T, b: T| #[trigger] call_ensures(T::clone, (a,), b) ==> b == *a,
    ensures
        forall|slot: &mut Option<T>, texture: T| #[trigger]
            call_ensures(get_or_load::<T, Load>, (slot, name, load), texture) ==> {
                &&& *final(slot) == Some(texture)
                &&& *slot is Some ==> *final(slot) == *slot
                &&& *slot is None ==> call_ensures(load, (name,), texture)
            },
{
}

} // verus!
