//! The decisions of a 5E3 amplifier plug-in.
//!
//! The library holds what the plug-in decides: what the front panel selects,
//! how the volume and tone network in front of V2A is wired, in which order
//! the stages of the amplifier hand a sample on, how an impulse response and a
//! cabinet are swapped in, what each buffer of the host turns into, and what
//! the editor shows. The numbers that flow through it (volts, samples, wiper
//! positions) and the engine's stages are type parameters: the library moves
//! them and never looks inside.

pub mod audio_state;
pub mod cab;
pub mod grid_network;
pub mod gui;
pub mod inner;
pub mod ir_load;
pub mod ir_load_status;
pub mod magnitude;
pub mod oversampling;
pub mod params;
pub mod plugin;
pub mod preamp;
pub mod process;
pub mod selection;
pub mod stage;
pub mod texture;

pub use crate::audio_state::{
    AudioState, BoundaryBuild, BufferOps, OutputRoute, RateOps, StateOps,
};
pub use crate::cab::{
    build_cab_arm, build_cab_processor, request_cab_rebuild, CabProcessorConfig,
    CabProcessorLoadState, DEFAULT_CABINET_ID, DEFAULT_SPEAKER_ID,
};
pub use crate::grid_network::{
    Capacitance, GridElement, GridNetlist, GridNode, GridTube, PotHandle, V2aGridNetwork,
};
pub use crate::gui::{GuiState, TextureCache};
pub use crate::inner::{BuildOps, InnerOps, PairOutput, PlateVolts, TweedInner};
pub use crate::ir_load::{
    finish_ir_load, load_convolver, load_ir_file_into_state, IrLoadState, IrOps, IrRequest,
};
pub use crate::magnitude::Magnitude;
pub use crate::oversampling::{
    active_os_factor, os_factor_label, os_factor_str, parse_os_factor, OversamplingFactor,
};
pub use crate::params::TheTweedParams;
pub use crate::plugin::TheTweed;
pub use crate::preamp::build_v2a_tube;
pub use crate::process::{ControlOps, MeterOps, MeterReadings, PanelValues, PowerReadings};
pub use crate::selection::{
    mic_label, mic_x_label, room_selection_label, CabModellingMode, ChannelMode, MicSelection,
    MicXPosition, RoomSelection,
};
pub use crate::texture::load_texture_from_bytes;
