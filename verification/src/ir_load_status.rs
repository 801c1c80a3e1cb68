//! Where the loading of an impulse response stands.

use vstd::prelude::*;

verus! {

/// A file is being loaded.
pub const LOADING: u8 = 0;

/// A file was loaded.
pub const LOADED: u8 = 1;

/// The last file could not be loaded.
pub const FAILED: u8 = 2;

/// No file was loaded: the cabinet is a unity passthrough.
pub const NO_IR: u8 = 3;

} // verus!
