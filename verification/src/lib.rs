//! The keystore of a Mochimo wallet, and what the wallet program decides around
//! it.
//!
//! A Mochimo account spends one-time keys: a key that signs twice gives itself
//! away. So the store that remembers how far along an account is must never step
//! back, whatever fails under it. [`keystore`] is that store: an encrypted image
//! of every account, replaced whole on every commit, in one of two layouts whose
//! steps survive a power cut at any point. [`wallet`] is the program around it:
//! the prompts, the console, and the way from a command line to a command.
//!
//! Nothing here does I/O. What has to be done to a file or a terminal is handed
//! out as a value, and how it went is handed back; which comes next, and what
//! each failure means, is decided here. The sealing of an image, the derivation
//! of keys and the commands themselves are the caller's.

pub mod account;
pub mod consts;
pub mod error;
pub mod hash;
pub mod keystore;
pub mod scrubbed;
pub mod text;
pub mod utf;
pub mod wallet;
pub mod wording;
