//! What the store knows of the image format: its versions, what a header says
//! before any key exists, and what an image holds once one does.

use vstd::prelude::*;

use crate::error::Error;
use crate::keystore::accounts::SlotMap;
use crate::scrubbed::Scrubbed;

verus! {

/// The format version every image is sealed in.
pub const VERSION: u16 = 4;

/// The older version that is still read.
pub const V3_VERSION: u16 = 3;

/// What a key derivation costs.
#[derive(Clone, Copy, Debug, PartialEq, Eq, Structural)]
pub struct Kdf {
    pub memory_kib: u32,
    pub passes: u32,
    pub lanes: u32,
}

/// An image's plaintext header: the version it is in, and what its key is
/// derived with.
pub struct Header {
    pub version: u16,
    pub kdf: Kdf,
    pub salt: Vec<u8>,
}

/// What an image holds, once its key has opened it.
pub struct Parsed {
    pub generation: u64,
    pub slots: SlotMap,
    pub master: Option<Scrubbed>,
}

/// One image as it was read: its header, and what opening it under the store's
/// key gave.
pub struct Reading {
    pub header: Result<Header, Error>,
    pub parsed: Result<Parsed, Error>,
}

/// How long an image may be: the empty store's, and the longest sealed.
#[derive(Clone, Copy, Debug, PartialEq, Eq, Structural)]
pub struct ImageLimits {
    pub min: usize,
    pub max: usize,
}

} // verus!
