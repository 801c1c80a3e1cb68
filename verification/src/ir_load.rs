//! The slot through which an impulse response reaches the audio thread.

use crate::ir_load_status;
use vstd::prelude::*;

#[allow(unused_imports)]
use crate::stage::runs;

verus! {

/// The longest direct section of a convolver, in taps.
pub const MAX_FIR_TAPS: usize = 128;

/// The block size that is assumed until the host has named one.
pub const DEFAULT_BLOCK_SIZE: usize = 512;

/// The sample rate that is assumed until the host has named one, in hertz.
pub const DEFAULT_SAMPLE_RATE_HZ: u16 = 48_000;

/// What a convolver has to be built for.
#[derive(Debug, Clone, Copy, PartialEq, Eq)]
pub struct IrRequest<F> {
    pub sample_rate: F,
    pub block_size: usize,
    pub fir_len: usize,
}

/// The state that the loader, the editor and the audio thread share. `F` is
/// the type of a sample rate and `C` of a convolver.
#[derive(Debug)]
pub struct IrLoadState<F, C> {
    pub pending: Option<C>,
    pub sample_rate: F,
    pub block_size: usize,
    pub status: u8,
}

impl<F: Copy + From<u16>, C> IrLoadState<F, C> {
    /// No impulse response, at the sample rate and block size that are assumed
    /// until the host names its own.
    pub fn new() -> (state: Self)
        ensures
            state.pending is None,
            call_ensures(F::from, (DEFAULT_SAMPLE_RATE_HZ,), state.sample_rate),
            state.block_size == DEFAULT_BLOCK_SIZE,
            state.status == ir_load_status::NO_IR,
    {
        IrLoadState {
            pending: None,
            sample_rate: F::from(DEFAULT_SAMPLE_RATE_HZ),
            block_size: DEFAULT_BLOCK_SIZE,
            status: ir_load_status::NO_IR,
        }
    }
}

impl<F: Copy + From<u16>, C> Default for IrLoadState<F, C> {
    fn default() -> (state: Self)
        ensures
            state.pending is None,
            call_ensures(F::from, (DEFAULT_SAMPLE_RATE_HZ,), state.sample_rate),
            state.block_size == DEFAULT_BLOCK_SIZE,
            state.status == ir_load_status::NO_IR,
    {
        Self::new()
    }
}

impl<F: Copy, C> IrLoadState<F, C> {
    /// What a convolver would have to be built for now.
    pub open spec fn request(self) -> IrRequest<F> {
        IrRequest {
            sample_rate: self.sample_rate,
            block_size: self.block_size,
            fir_len: if self.block_size < MAX_FIR_TAPS {
                self.block_size
            } else {
                MAX_FIR_TAPS
            },
        }
    }

    /// The state after a file has been loaded, or has failed to.
    pub open spec fn after_load(self, loaded: Option<C>) -> Self {
        match loaded {
            Some(conv) => IrLoadState {
                pending: Some(conv),
                status: ir_load_status::LOADED,
                ..self
            },
            None => IrLoadState { pending: None, status: ir_load_status::FAILED, ..self },
        }
    }

    /// Takes the host's format over.
    pub fn set_audio_format(&mut self, sample_rate: F, block_size: usize)
        ensures
            *final(self) == (IrLoadState { sample_rate, block_size, ..*old(self) }),
    {
        self.sample_rate = sample_rate;
        self.block_size = block_size;
    }

    /// Shows that a file is being loaded and says what its convolver has to be
    /// built for.
    pub fn begin_load(&mut self) -> (request: IrRequest<F>)
        ensures
            request == old(self).request(),
            *final(self) == (IrLoadState { status: ir_load_status::LOADING, ..*old(self) }),
    {
        self.status = ir_load_status::LOADING;
        let fir_len: usize = if self.block_size < MAX_FIR_TAPS {
            self.block_size
        } else {
            MAX_FIR_TAPS
        };
        IrRequest { sample_rate: self.sample_rate, block_size: self.block_size, fir_len }
    }

    /// Offers the convolver of the loaded file to the audio thread, or shows
    /// that the file could not be loaded and takes back what an earlier file
    /// left on offer.
    pub fn finish_load(&mut self, loaded: Option<C>)
        ensures
            *final(self) == old(self).after_load(loaded),
    {
        match loaded {
            Some(conv) => {
                self.pending = Some(conv);
                self.status = ir_load_status::LOADED;
            },
            None => {
                self.pending = None;
                self.status = ir_load_status::FAILED;
            },
        }
    }

    /// Takes the convolver that is on offer.
    pub fn take_pending(&mut self) -> (pending: Option<C>)
        ensures
            pending == old(self).pending,
            *final(self) == (IrLoadState { pending: None, ..*old(self) }),
    {
        self.pending.take()
    }

    /// Starts over at the host's format: no impulse response, nothing on offer.
    pub fn restart(&mut self, sample_rate: F, block_size: usize)
        ensures
            *final(self) == (IrLoadState {
                pending: None::<C>,
                sample_rate,
                block_size,
                status: ir_load_status::NO_IR,
            }),
    {
        self.set_audio_format(sample_rate, block_size);
        self.status = ir_load_status::NO_IR;
        self.pending = None;
    }
}

/// The operations of the engine that make a convolver of a file.
pub struct IrOps<Read, Center, Level, Convolve> {
    /// Reads the response in a file at a sample rate, if it can be read.
    pub read: Read,
    /// Removes the offset of a response.
    pub center: Center,
    /// Brings the peak of a response to its norm.
    pub level: Level,
    /// Builds the convolver of a response for a block size and a length of its
    /// direct section.
    pub convolve: Convolve,
}

/// Makes the convolver of a file: the response that is read loses its offset,
/// is then levelled, and is then built into a convolver for the format that was
/// asked for. A file that cannot be read gives none. `D` is the type of a path
/// and `R` of a response.
pub fn load_convolver<D, F, R, C, Read, Center, Level, Convolve>(
    request: IrRequest<F>,
    path: D,
    ops: IrOps<Read, Center, Level, Convolve>,
) -> (conv: Option<C>) where
    Read: FnOnce(D, F) -> Option<R>,
    Center: FnOnce(&mut R),
    Level: FnOnce(&mut R),
    Convolve: FnOnce(&R, usize, usize) -> C,

    requires
        call_requires(ops.read, (path, request.sample_rate)),
        runs(ops.center),
        runs(ops.level),
        forall|r: &R, block_size: usize, fir_len: usize| #[trigger]
            call_requires(ops.convolve, (r, block_size, fir_len)),
    ensures
        exists|response: Option<R>|
            {
                &&& #[trigger] call_ensures(ops.read, (path, request.sample_rate), response)
                &&& match response {
                    None => conv is None,
                    Some(raw) => conv is Some && exists|r0: &mut R, r1: &mut R, c: C|
                        {
                            &&& #[trigger] call_ensures(ops.center, (r0,), ())
                            &&& #[trigger] call_ensures(ops.level, (r1,), ())
                            &&& #[trigger] call_ensures(
                                ops.convolve,
                                (&*final(r1), request.block_size, request.fir_len),
                                c,
                            )
                            &&& *r0 == raw && *r1 == *final(r0)
                            &&& conv == Some(c)
                        },
                }
            },
{
    let IrOps { read, center, level, convolve } = ops;
    match read(path, request.sample_rate) {
        Some(raw) => {
            let mut response = raw;
            center(&mut response);
            level(&mut response);
            Some(convolve(&response, request.block_size, request.fir_len))
        },
        None => None,
    }
}

/// Loads a file into the state.
pub fn load_ir_file_into_state<D, F: Copy, R, C, Read, Center, Level, Convolve>(
    state: &mut IrLoadState<F, C>,
    path: D,
    ops: IrOps<Read, Center, Level, Convolve>,
) where
    Read: FnOnce(D, F) -> Option<R>,
    Center: FnOnce(&mut R),
    Level: FnOnce(&mut R),
    Convolve: FnOnce(&R, usize, usize) -> C,

    requires
        call_requires(ops.read, (path, old(state).sample_rate)),
        runs(ops.center),
        runs(ops.level),
        forall|r: &R, block_size: usize, fir_len: usize| #[trigger]
            call_requires(ops.convolve, (r, block_size, fir_len)),
    ensures
        exists|loaded: Option<C>|
            {
                &&& #[trigger] call_ensures(
                    load_convolver::<D, F, R, C, Read, Center, Level, Convolve>,
                    (old(state).request(), path, ops),
                    loaded,
                )
                &&& *final(state) == old(state).after_load(loaded)
            },
{
    let request = state.begin_load();
    let loaded = load_convolver(request, path, ops);
    state.finish_load(loaded);
}

/// Persists the path of a file that was loaded; the path of one that was not
/// leaves the persisted one as it is.
pub fn remember_ir_path(status: u8, persisted: &mut String, path: String)
    ensures
        *final(persisted) == if status == ir_load_status::LOADED {
            path
        } else {
            *old(persisted)
        },
{
    if status == ir_load_status::LOADED {
        *persisted = path;
    }
}

/// Ends the load of a file: what came of it goes into the state, and the path
/// of a file that was loaded, as `shown` writes it, is persisted.
pub fn finish_ir_load<F: Copy, C>(
    state: &mut IrLoadState<F, C>,
    loaded: Option<C>,
    persisted: &mut String,
    shown: String,
)
    ensures
        *final(state) == old(state).after_load(loaded),
        *final(persisted) == if loaded is Some {
            shown
        } else {
            *old(persisted)
        },
{
    state.finish_load(loaded);
    remember_ir_path(state.status, persisted, shown);
}

/// What the status strip shows.
#[derive(Debug, Clone, Copy, PartialEq, Eq, Structural)]
pub enum StripColor {
    Gray,
    Green,
    Red,
}

pub open spec fn strip_text(status: u8) -> Seq<char> {
    if status == ir_load_status::LOADING {
        "Loading..."@
    } else if status == ir_load_status::LOADED {
        "Loaded"@
    } else if status == ir_load_status::FAILED {
        "Failed"@
    } else {
        "No IR Loaded"@
    }
}

pub open spec fn strip_color(status: u8) -> StripColor {
    if status == ir_load_status::LOADED {
        StripColor::Green
    } else if status == ir_load_status::FAILED {
        StripColor::Red
    } else {
        StripColor::Gray
    }
}

/// The colour and the text of the status strip.
pub fn status_strip(status: u8) -> (strip: (StripColor, &'static str))
    ensures
        strip.0 == strip_color(status),
        strip.1@ == strip_text(status),
{
    if status == ir_load_status::LOADING {
        (StripColor::Gray, "Loading...")
    } else if status == ir_load_status::LOADED {
        (StripColor::Green, "Loaded")
    } else if status == ir_load_status::FAILED {
        (StripColor::Red, "Failed")
    } else {
        (StripColor::Gray, "No IR Loaded")
    }
}

/// A load never stays unfinished: whatever comes of it, the status afterwards
/// is that of a file that was loaded or of one that failed, it is the former
/// exactly when there is a convolver, and what is on offer comes of this load.
pub proof fn law_load_ends_loaded_or_failed<F: Copy, C>(
    state: IrLoadState<F, C>,
    loaded: Option<C>,
)
    ensures
        state.after_load(loaded).status == ir_load_status::LOADED <==> loaded is Some,
        state.after_load(loaded).status == ir_load_status::FAILED <==> loaded is None,
        state.after_load(loaded).pending == loaded,
        state.after_load(loaded).status != ir_load_status::LOADING,
        state.after_load(loaded).status != ir_load_status::NO_IR,
{
}

/// A load that fails leaves nothing on offer, whatever an earlier one left.
pub proof fn law_failed_load_offers_nothing<F: Copy, C>(state: IrLoadState<F, C>)
    ensures
        state.after_load(None).pending is None,
{
}

/// A convolver is never built with a direct section longer than its block.
pub proof fn law_fir_fits_block<F: Copy, C>(state: IrLoadState<F, C>)
    ensures
        state.request().fir_len <= state.request().block_size,
        state.request().fir_len <= MAX_FIR_TAPS,
{
}

/// A convolver is asked for at the host's own sample rate and block size, with
/// a direct section of 128 taps or of the block, whichever is shorter. While
/// it is made the status is that of loading, and what is on offer stays.
pub proof fn law_convolver_is_asked_for_at_the_hosts_format<F: Copy, C>()
    ensures
        forall|state: &mut IrLoadState<F, C>, request: IrRequest<F>| #[trigger]
            call_ensures(IrLoadState::<F, C>::begin_load, (state,), request) ==> {
                &&& request.block_size == state.block_size
                &&& request.sample_rate == state.sample_rate
                &&& request.fir_len <= 128 && request.fir_len <= state.block_size
                &&& request.fir_len == 128 || request.fir_len == state.block_size
                &&& final(state).status == 0
                &&& final(state).pending == state.pending
                &&& final(state).sample_rate == state.sample_rate
                &&& final(state).block_size == state.block_size
            },
{
}

/// What a finished load offers is exactly what came of it, and the status says
/// which it was; the format stays.
pub proof fn law_finished_load_offers_what_came<F: Copy, C>(loaded: Option<C>)
    ensures
        forall|state: &mut IrLoadState<F, C>| #[trigger]
            call_ensures(IrLoadState::<F, C>::finish_load, (state, loaded), ()) ==> {
                &&& final(state).pending == loaded
                &&& final(state).status == 1 <==> loaded is Some
                &&& final(state).status == 2 <==> loaded is None
                &&& final(state).sample_rate == state.sample_rate
                &&& final(state).block_size == state.block_size
            },
{
}

/// The audio thread takes what is on offer once, and taking it changes nothing
/// else.
pub proof fn law_offer_is_taken_once<F: Copy, C>()
    ensures
        forall|state: &mut IrLoadState<F, C>, taken: Option<C>| #[trigger]
            call_ensures(IrLoadState::<F, C>::take_pending, (state,), taken) ==> {
                &&& taken == state.pending
                &&& final(state).pending is None
                &&& final(state).status == state.status
                &&& final(state).sample_rate == state.sample_rate
                &&& final(state).block_size == state.block_size
            },
{
}

/// The host's format is taken over as it is. A restart also forgets the file
/// and what is on offer; a change of format alone does not.
pub proof fn law_format_is_the_hosts<F: Copy, C>(sample_rate: F, block_size: usize)
    ensures
        forall|state: &mut IrLoadState<F, C>| #[trigger]
            call_ensures(
                IrLoadState::<F, C>::set_audio_format,
                (state, sample_rate, block_size),
                (),
            ) ==> {
                &&& final(state).sample_rate == sample_rate
                &&& final(state).block_size == block_size
                &&& final(state).pending == state.pending
                &&& final(state).status == state.status
            },
        forall|state: &mut IrLoadState<F, C>| #[trigger]
            call_ensures(IrLoadState::<F, C>::restart, (state, sample_rate, block_size), ()) ==> {
                &&& final(state).sample_rate == sample_rate
                &&& final(state).block_size == block_size
                &&& final(state).pending is None
                &&& final(state).status == 3
            },
{
}

/// Where the operations are functions of what they are given, the convolver is
/// the one of the response in the file, read at the rate asked for, first
/// without its offset and then levelled, for the block and the direct section
/// asked for; a file without a response gives none.
pub proof fn law_convolver_is_that_of_the_file<D, F, R, C, Read, Center, Level, Convolve>(
    request: IrRequest<F>,
    path: D,
    ops: IrOps<Read, Center, Level, Convolve>,
    conv: Option<C>,
    response: spec_fn(D, F) -> Option<R>,
    centered: spec_fn(R) -> R,
    leveled: spec_fn(R) -> R,
    convolver: spec_fn(R, usize, usize) -> C,
) where
    Read: FnOnce(D, F) -> Option<R>,
    Center: FnOnce(&mut R),
    Level: FnOnce(&mut R),
    Convolve: FnOnce(&R, usize, usize) -> C,

    requires
        call_ensures(
            load_convolver::<D, F, R, C, Read, Center, Level, Convolve>,
            (request, path, ops),
            conv,
        ),
        forall|d: D, rate: F, r: Option<R>| #[trigger]
            call_ensures(ops.read, (d, rate), r) ==> r == response(d, rate),
        forall|r: &mut R| #[trigger] call_ensures(ops.center, (r,), ()) ==> *final(r) == centered(*r),
        forall|r: &mut R| #[trigger] call_ensures(ops.level, (r,), ()) ==> *final(r) == leveled(*r),
        forall|r: &R, block_size: usize, fir_len: usize, c: C| #[trigger]
            call_ensures(ops.convolve, (r, block_size, fir_len), c) ==> c == convolver(
                *r,
                block_size,
                fir_len,
            ),
    ensures
        conv == match response(path, request.sample_rate) {
            Some(raw) => Some(
                convolver(leveled(centered(raw)), request.block_size, request.fir_len),
            ),
            None => None,
        },
{
}

/// Loading a file at the host's format offers the convolver of that file for
/// that format, and nothing where there is no response to read.
pub proof fn law_loaded_file_is_offered_at_the_hosts_format<
    D,
    F: Copy,
    R,
    C,
    Read,
    Center,
    Level,
    Convolve,
>(
    path: D,
    ops: IrOps<Read, Center, Level, Convolve>,
    response: spec_fn(D, F) -> Option<R>,
    centered: spec_fn(R) -> R,
    leveled: spec_fn(R) -> R,
    convolver: spec_fn(R, usize, usize) -> C,
) where
    Read: FnOnce(D, F) -> Option<R>,
    Center: FnOnce(&mut R),
    Level: FnOnce(&mut R),
    Convolve: FnOnce(&R, usize, usize) -> C,

    requires
        forall|d: D, rate: F, r: Option<R>| #[trigger]
            call_ensures(ops.read, (d, rate), r) ==> r == response(d, rate),
        forall|r: &mut R| #[trigger] call_ensures(ops.center, (r,), ()) ==> *final(r) == centered(*r),
        forall|r: &mut R| #[trigger] call_ensures(ops.level, (r,), ()) ==> *final(r) == leveled(*r),
        forall|r: &R, block_size: usize, fir_len: usize, c: C| #[trigger]
            call_ensures(ops.convolve, (r, block_size, fir_len), c) ==> c == convolver(
                *r,
                block_size,
                fir_len,
            ),
    ensures
        forall|state: &mut IrLoadState<F, C>| #[trigger]
            call_ensures(
                load_ir_file_into_state::<D, F, R, C, Read, Center, Level, Convolve>,
                (state, path, ops),
                (),
            ) ==> {
                let raw = response(path, state.sample_rate);
                &&& final(state).pending == match raw {
                    Some(r) => Some(
                        convolver(
                            leveled(centered(r)),
                            state.block_size,
                            if state.block_size < 128 {
                                state.block_size
                            } else {
                                128
                            },
                        ),
                    ),
                    None => None,
                }
                &&& final(state).status == if raw is Some {
                    1
                } else {
                    2int
                }
                &&& final(state).sample_rate == state.sample_rate
                &&& final(state).block_size == state.block_size
            },
{
    assert forall|state: &mut IrLoadState<F, C>, loaded: Option<C>|
        #[trigger] call_ensures(
            load_convolver::<D, F, R, C, Read, Center, Level, Convolve>,
            (state.request(), path, ops),
            loaded,
        ) implies loaded == match response(path, state.sample_rate) {
        Some(raw) => Some(
            convolver(
                leveled(centered(raw)),
                state.block_size,
                if state.block_size < 128 {
                    state.block_size
                } else {
                    128
                },
            ),
        ),
        None => None,
    } by {
        law_convolver_is_that_of_the_file::<D, F, R, C, Read, Center, Level, Convolve>(
            state.request(),
            path,
            ops,
            loaded,
            response,
            centered,
            leveled,
            convolver,
        );
    }
}

/// A path is persisted exactly when its file was loaded: the state then offers
/// a convolver, and otherwise the path of before stays.
pub proof fn law_path_is_persisted_with_its_file<F: Copy, C>(
    loaded: Option<C>,
    shown: String,
    status: u8,
)
    ensures
        forall|state: &mut IrLoadState<F, C>, persisted: &mut String| #[trigger]
            call_ensures(finish_ir_load::<F, C>, (state, loaded, persisted, shown), ()) ==> {
                &&& final(state).pending == loaded
                &&& final(state).status == if loaded is Some {
                    1
                } else {
                    2int
                }
                &&& final(state).sample_rate == state.sample_rate
                &&& final(state).block_size == state.block_size
                &&& final(state).pending is Some ==> *final(persisted) == shown
                &&& final(state).pending is None ==> *final(persisted) == *persisted
            },
        forall|persisted: &mut String| #[trigger]
            call_ensures(remember_ir_path, (status, persisted, shown), ()) ==> {
                &&& status == 1 ==> *final(persisted) == shown
                &&& status != 1 ==> *final(persisted) == *persisted
            },
{
}

/// The strip is green for a file that was loaded alone, red for one that failed
/// alone, and says so; of every other status it shows that a file is being
/// loaded or that there is none.
pub proof fn law_strip_tells_loaded_from_failed(status: u8, strip: (StripColor, &'static str))
    requires
        call_ensures(status_strip, (status,), strip),
    ensures
        strip.0 == StripColor::Green <==> status == 1,
        strip.0 == StripColor::Red <==> status == 2,
        status == 1 ==> strip.1@ == "Loaded"@,
        status == 2 ==> strip.1@ == "Failed"@,
        status == 0 ==> strip.1@ == "Loading..."@,
        status > 2 ==> strip.1@ == "No IR Loaded"@,
{
}

/// A state that no host has named a format to assumes 48 kilohertz and blocks
/// of 512, and has no file.
pub proof fn law_fresh_state_assumes_a_format<F: Copy + From<u16>, C>(state: IrLoadState<F, C>)
    requires
        call_ensures(IrLoadState::<F, C>::new, (), state),
    ensures
        state.pending is None,
        call_ensures(F::from, (48_000u16,), state.sample_rate),
        state.block_size == 512,
        state.status == 3,
{
}

} // verus!
