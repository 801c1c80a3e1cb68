//! The dynamic cabinet: what its chain is built from, and the slot through
//! which a rebuilt one reaches the audio thread.

use crate::selection::{MicSelection, RoomSelection};
use vstd::prelude::*;

verus! {

/// The speaker that loads the output transformer, a single open-backed 12".
pub const DEFAULT_SPEAKER_ID: &'static str = "p12r";

/// The cabinet of the 5E3.
pub const DEFAULT_CABINET_ID: &'static str = "tweed_5e3_open_back_1x12";

/// The gain of the microphone's channel strip, in decibels.
pub const MIC_PREAMP_GAIN_DB: u8 = 35;

/// The slot for a rebuilt arm of the cabinet. `B` is the type of an arm.
#[derive(Debug)]
pub struct CabProcessorLoadState<B> {
    pub pending: Option<B>,
}

impl<B> CabProcessorLoadState<B> {
    pub fn new() -> (state: Self)
        ensures
            state.pending is None,
    {
        CabProcessorLoadState { pending: None }
    }

    /// Puts an arm on offer, in place of one that was not taken.
    pub fn offer(&mut self, arm: B)
        ensures
            final(self).pending == Some(arm),
    {
        self.pending = Some(arm);
    }

    /// Takes the arm that is on offer.
    pub fn take_pending(&mut self) -> (pending: Option<B>)
        ensures
            pending == old(self).pending,
            final(self).pending is None,
    {
        self.pending.take()
    }

    /// Withdraws the arm that is on offer.
    pub fn clear(&mut self)
        ensures
            final(self).pending is None,
    {
        self.pending = None;
    }
}

impl<B> Default for CabProcessorLoadState<B> {
    fn default() -> (state: Self)
        ensures
            state.pending is None,
    {
        Self::new()
    }
}

/// What the chain of speaker, cabinet, microphone and room is built from. `F`
/// is the type of a sample rate and `P` of a microphone placement.
#[derive(Debug)]
pub struct CabProcessorConfig<F, P> {
    pub sample_rate: F,
    pub max_buffer_size: usize,
    pub speaker_id: String,
    pub cabinet_id: String,
    pub microphone_id: String,
    pub placement: P,
    pub preamp_gain_db: u8,
    pub polarity_inverted: bool,
    pub pan_percent: i8,
    pub secondary_mic: bool,
    pub room_id: Option<String>,
    pub speaker_enabled: bool,
    pub cabinet_enabled: bool,
    pub mic_enabled: bool,
    pub room_enabled: bool,
    pub response_enabled: bool,
}

impl<F, P> CabProcessorConfig<F, P> {
    /// The room that the chain ends in.
    pub open spec fn room_text(self) -> Option<Seq<char>> {
        match self.room_id {
            Some(id) => Some(id@),
            None => None,
        }
    }

    /// The chain of a single driver in a cabinet, heard by one microphone
    /// straight through a fixed channel strip, with every stage in use but for
    /// a room that was not selected.
    pub open spec fn is_one_mic_rig(
        self,
        sample_rate: F,
        max_buffer_size: usize,
        speaker_id: Seq<char>,
        cabinet_id: Seq<char>,
        microphone_id: Seq<char>,
        room: RoomSelection,
        placement: P,
    ) -> bool {
        &&& self.sample_rate == sample_rate
        &&& self.max_buffer_size == max_buffer_size
        &&& self.speaker_id@ == speaker_id
        &&& self.cabinet_id@ == cabinet_id
        &&& self.microphone_id@ == microphone_id
        &&& self.placement == placement
        &&& self.preamp_gain_db == MIC_PREAMP_GAIN_DB
        &&& !self.polarity_inverted
        &&& self.pan_percent == 0
        &&& !self.secondary_mic
        &&& self.room_text() == room.registry_text()
        &&& self.room_enabled == (room != RoomSelection::NoRoom)
        &&& self.speaker_enabled
        &&& self.cabinet_enabled
        &&& self.mic_enabled
        &&& self.response_enabled
    }
}

/// What to build the chain for a speaker, a cabinet, a microphone and a room
/// from.
pub fn build_cab_processor<F, P>(
    sample_rate: F,
    max_buffer_size: usize,
    speaker_id: &str,
    cabinet_id: &str,
    microphone_id: &str,
    room: RoomSelection,
    placement: P,
) -> (config: CabProcessorConfig<F, P>)
    ensures
        config.is_one_mic_rig(
            sample_rate,
            max_buffer_size,
            speaker_id@,
            cabinet_id@,
            microphone_id@,
            room,
            placement,
        ),
{
    let room_id = match room.registry_id() {
        Some(id) => Some(id.to_owned()),
        None => None,
    };
    let room_enabled = room_id.is_some();
    CabProcessorConfig {
        sample_rate,
        max_buffer_size,
        speaker_id: speaker_id.to_owned(),
        cabinet_id: cabinet_id.to_owned(),
        microphone_id: microphone_id.to_owned(),
        placement,
        preamp_gain_db: MIC_PREAMP_GAIN_DB,
        polarity_inverted: false,
        pan_percent: 0,
        secondary_mic: false,
        room_id,
        speaker_enabled: true,
        cabinet_enabled: true,
        mic_enabled: true,
        room_enabled,
        response_enabled: true,
    }
}

/// The dynamic arm for a speaker, a cabinet, a microphone and a room. `make`
/// builds the chain and assembles the arm whole, away from the audio thread,
/// which then only moves it.
pub fn build_cab_arm<F, P, B, Make: FnOnce(CabProcessorConfig<F, P>) -> B>(
    sample_rate: F,
    max_buffer_size: usize,
    speaker_id: &str,
    cabinet_id: &str,
    microphone_id: &str,
    room: RoomSelection,
    placement: P,
    make: Make,
) -> (arm: B)
    requires
        forall|config: CabProcessorConfig<F, P>| #[trigger] call_requires(make, (config,)),
    ensures
        exists|config: CabProcessorConfig<F, P>|
            #[trigger] call_ensures(make, (config,), arm) && config.is_one_mic_rig(
                sample_rate,
                max_buffer_size,
                speaker_id@,
                cabinet_id@,
                microphone_id@,
                room,
                placement,
            ),
{
    make(
        build_cab_processor(
            sample_rate,
            max_buffer_size,
            speaker_id,
            cabinet_id,
            microphone_id,
            room,
            placement,
        ),
    )
}

/// Rebuilds the chain of the 5E3's own speaker and cabinet for the microphone
/// and the room that were just selected, and puts the arm on offer. The two
/// are handed in, since the host may not have taken the new values over yet.
pub fn request_cab_rebuild<F, P, B, Make: FnOnce(CabProcessorConfig<F, P>) -> B>(
    slot: &mut CabProcessorLoadState<B>,
    sample_rate: F,
    block_size: usize,
    microphone: MicSelection,
    room: RoomSelection,
    placement: P,
    make: Make,
)
    requires
        forall|config: CabProcessorConfig<F, P>| #[trigger] call_requires(make, (config,)),
    ensures
        final(slot).pending is Some,
        exists|config: CabProcessorConfig<F, P>|
            #[trigger] call_ensures(make, (config,), final(slot).pending->0)
                && config.is_one_mic_rig(
                sample_rate,
                block_size,
                DEFAULT_SPEAKER_ID@,
                DEFAULT_CABINET_ID@,
                microphone.registry_text(),
                room,
                placement,
            ),
{
    let arm = build_cab_arm(
        sample_rate,
        block_size,
        DEFAULT_SPEAKER_ID,
        DEFAULT_CABINET_ID,
        microphone.registry_id(),
        room,
        placement,
        make,
    );
    slot.offer(arm);
    assert(slot.pending->0 == arm);
}

/// A chain has a room exactly when it names one: no room is built and then
/// bypassed, and none is switched on without a name.
pub proof fn law_room_enabled_iff_named<F, P>(
    config: CabProcessorConfig<F, P>,
    sample_rate: F,
    max_buffer_size: usize,
    speaker_id: Seq<char>,
    cabinet_id: Seq<char>,
    microphone_id: Seq<char>,
    room: RoomSelection,
    placement: P,
)
    requires
        config.is_one_mic_rig(
            sample_rate,
            max_buffer_size,
            speaker_id,
            cabinet_id,
            microphone_id,
            room,
            placement,
        ),
    ensures
        config.room_enabled <==> config.room_id is Some,
{
}

/// A chain is built for the format, the speaker, the cabinet, the microphone
/// and the placement it is given, with every stage switched on, the one
/// microphone in phase and in the middle, 35 decibels of gain, and a room
/// exactly where one was selected, under the name that the registry knows it
/// by.
pub proof fn law_chain_is_what_was_selected<F, P>(
    sample_rate: F,
    max_buffer_size: usize,
    speaker: &str,
    cabinet: &str,
    microphone: &str,
    room: RoomSelection,
    placement: P,
    config: CabProcessorConfig<F, P>,
)
    requires
        call_ensures(
            build_cab_processor::<F, P>,
            (sample_rate, max_buffer_size, speaker, cabinet, microphone, room, placement),
            config,
        ),
    ensures
        config.sample_rate == sample_rate,
        config.max_buffer_size == max_buffer_size,
        config.speaker_id@ == speaker@,
        config.cabinet_id@ == cabinet@,
        config.microphone_id@ == microphone@,
        config.placement == placement,
        config.preamp_gain_db == 35,
        !config.polarity_inverted,
        config.pan_percent == 0,
        !config.secondary_mic,
        config.speaker_enabled && config.cabinet_enabled,
        config.mic_enabled && config.response_enabled,
        config.room_enabled <==> room != RoomSelection::NoRoom,
        config.room_id is Some <==> room != RoomSelection::NoRoom,
        forall|id: Option<&'static str>| #[trigger]
            call_ensures(RoomSelection::registry_id, (room,), id) && id is Some ==> config.room_id
                is Some && config.room_id->0@ == id->0@,
{
}

/// The arm is made, once, of the chain that was selected.
pub proof fn law_arm_is_made_of_the_chain<F, P, B, Make: FnOnce(CabProcessorConfig<F, P>) -> B>(
    sample_rate: F,
    max_buffer_size: usize,
    speaker: &str,
    cabinet: &str,
    microphone: &str,
    room: RoomSelection,
    placement: P,
    make: Make,
    arm: B,
)
    requires
        call_ensures(
            build_cab_arm::<F, P, B, Make>,
            (sample_rate, max_buffer_size, speaker, cabinet, microphone, room, placement, make),
            arm,
        ),
    ensures
        exists|config: CabProcessorConfig<F, P>|
            {
                &&& #[trigger] call_ensures(make, (config,), arm)
                &&& config.sample_rate == sample_rate
                &&& config.max_buffer_size == max_buffer_size
                &&& config.speaker_id@ == speaker@
                &&& config.cabinet_id@ == cabinet@
                &&& config.microphone_id@ == microphone@
                &&& config.placement == placement
                &&& config.preamp_gain_db == 35
                &&& !config.polarity_inverted && config.pan_percent == 0 && !config.secondary_mic
                &&& config.speaker_enabled && config.cabinet_enabled
                &&& config.mic_enabled && config.response_enabled
                &&& config.room_enabled == (room != RoomSelection::NoRoom)
                &&& config.room_id is Some == (room != RoomSelection::NoRoom)
                &&& config.room_text() == room.registry_text()
            },
{
}

/// A rebuild puts an arm on offer that hears the 5E3's own speaker and cabinet
/// through the microphone and in the room that were handed in, whatever was on
/// offer before.
pub proof fn law_rebuild_hears_what_was_chosen<
    F,
    P,
    B,
    Make: FnOnce(CabProcessorConfig<F, P>) -> B,
>(
    sample_rate: F,
    block_size: usize,
    microphone: MicSelection,
    room: RoomSelection,
    placement: P,
    make: Make,
)
    ensures
        forall|slot: &mut CabProcessorLoadState<B>| #[trigger]
            call_ensures(
                request_cab_rebuild::<F, P, B, Make>,
                (slot, sample_rate, block_size, microphone, room, placement, make),
                (),
            ) ==> final(slot).pending is Some && exists|config: CabProcessorConfig<F, P>|
                {
                    &&& #[trigger] call_ensures(make, (config,), final(slot).pending->0)
                    &&& config.sample_rate == sample_rate
                    &&& config.max_buffer_size == block_size
                    &&& config.speaker_id@ == "p12r"@
                    &&& config.cabinet_id@ == "tweed_5e3_open_back_1x12"@
                    &&& forall|id: &'static str| #[trigger]
                        call_ensures(MicSelection::registry_id, (microphone,), id)
                            ==> config.microphone_id@ == id@
                    &&& config.placement == placement
                    &&& config.preamp_gain_db == 35
                    &&& !config.polarity_inverted && config.pan_percent == 0
                        && !config.secondary_mic
                    &&& config.speaker_enabled && config.cabinet_enabled
                    &&& config.mic_enabled && config.response_enabled
                    &&& config.room_enabled == (room != RoomSelection::NoRoom)
                    &&& config.room_id is Some == (room != RoomSelection::NoRoom)
                    &&& config.room_text() == room.registry_text()
                },
{
}

/// An arm that is put on offer is taken once: the slot hands out the latest
/// one, and is empty afterwards, as it is after it was cleared.
pub proof fn law_arm_is_taken_once<B>(arm: B)
    ensures
        forall|slot: &mut CabProcessorLoadState<B>| #[trigger]
            call_ensures(CabProcessorLoadState::<B>::offer, (slot, arm), ()) ==> final(slot).pending
                == Some(arm),
        forall|slot: &mut CabProcessorLoadState<B>, taken: Option<B>| #[trigger]
            call_ensures(CabProcessorLoadState::<B>::take_pending, (slot,), taken) ==> taken
                == slot.pending && final(slot).pending is None,
        forall|slot: &mut CabProcessorLoadState<B>| #[trigger]
            call_ensures(CabProcessorLoadState::<B>::clear, (slot,), ()) ==> final(slot).pending
                is None,
        forall|slot: CabProcessorLoadState<B>| #[trigger]
            call_ensures(CabProcessorLoadState::<B>::new, (), slot) ==> slot.pending is None,
{
}

} // verus!
