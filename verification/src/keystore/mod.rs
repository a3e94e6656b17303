//! The keystore: durable storage for accounts, and what witnesses an advance.
//!
//! One directory, one image holding every account, rewritten on every commit.
//! In the rename layout the image is written to a temp, flushed, renamed over
//! the snapshot, and the directory flushed. In the slot layout it goes into the
//! one of two slot files that does not hold the newest image, and is flushed.
//!
//! Three obligations are kept here. A position never steps back: the only
//! positions taken are forward ones, and a handle that saw a commit error
//! refuses everything from then on. One key stream has one account: an account
//! whose stream is in the store already is refused, by what its key material
//! produces and not by what it carries. And accounts go by tag, never by
//! position.
//!
//! [`opening`] and [`creating`] are how a handle comes to be, [`store`] is the
//! handle, [`change`] and [`commit`] are what one commit is made of, [`slots`]
//! is the two-slot layout, and [`laws`] and [`crash`] say what holds throughout.
//! [`answers`], [`stages`], [`steps`], [`framing`] and [`rights`] say what each
//! call comes to, in its own inputs and results.

pub mod accounts;
pub mod answers;
pub mod change;
pub mod commit;
pub mod crash;
pub mod creating;
pub mod format;
pub mod framing;
pub mod laws;
pub mod medium;
pub mod opening;
pub mod perms;
pub mod rights;
pub mod slots;
pub mod stages;
pub mod steps;
pub mod store;

pub use accounts::{Figures, Pending};
pub use creating::occupied;
pub use format::Kdf;
pub use medium::{Call, Instrumented};
pub use slots::newest_image;
pub use store::{AccountView, AdvanceReceipt, Durable, Init, Keystore, Unlock};
