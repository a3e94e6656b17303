//! What the wallet program decides: [`dispatch`] goes from a command line to a
//! command, [`terminal`] asks for secrets, [`line`] gathers what is typed, and
//! [`console`] is the Windows console. [`answers`] says what each call comes to,
//! in its own inputs and results.

pub mod answers;
pub mod console;
pub mod dispatch;
pub mod line;
pub mod terminal;
