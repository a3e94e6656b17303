//! The prompts: what is asked on the controlling terminal, in which order, and
//! in which words a failure is reported.
//!
//! Secrets are read from the terminal device by name, never from a standard
//! stream, with echo off. Turning echo off is checked before anything is read,
//! and turning it back on is checked before an answer is read that must be
//! visible. The prompt goes to the same device as the answer comes from, and a
//! prompt that could not be written is a refusal. End of input is refused as
//! such, before anything is compared.

use vstd::prelude::*;

use crate::scrubbed::Scrubbed;
use crate::text::{padded_hex_text, decimal_text};
#[allow(unused_imports)]
use crate::text::{decimal, padded_hex};

verus! {

/// The two platforms a terminal is opened on.
#[derive(Clone, Copy, Debug, PartialEq, Eq, Structural)]
pub enum Platform {
    Unix,
    Windows,
}

/// The device secrets are read from, as every message names it.
pub const TERMINAL_UNIX: &'static str = "/dev/tty";

/// The device secrets are read from, as every message names it.
pub const TERMINAL_WINDOWS: &'static str = "the console (CONIN$ and CONOUT$)";

/// What a prompt says when the terminal reports end-of-file before a line was
/// typed.
pub const END_OF_INPUT_UNIX: &'static str =
    "end of input at the prompt: the terminal reported end-of-file (Ctrl-D) before a line was \
     typed, so nothing was read and nothing was compared. Type the answer and press Enter, or \
     run the command again.";

/// What a prompt says when the console reports end of input before a line was
/// typed.
pub const END_OF_INPUT_WINDOWS: &'static str =
    "end of input at the prompt: the console reported end of input (Ctrl-Z at the start of the \
     line, or Ctrl-C) before a line was typed, so nothing was read and nothing was compared. \
     Type the answer and press Enter, or run the command again.";

/// What a secret is refused with where echo could not be turned off.
pub const ECHO_ON: &'static str =
    "refusing to read a secret with terminal echo on: the words would be visible and \
     may be kept in the terminal's scrollback. Nothing was read.";

/// What a visible answer is refused with where echo could not be turned back on.
pub const ECHO_OFF_UNIX: &'static str =
    "cannot turn terminal echo back on, so the confirmation would be typed blind. \
     That is how the words get mistyped. Nothing further was read; run `stty echo` \
     to restore your terminal.";

/// What a visible answer is refused with where echo could not be turned back on.
pub const ECHO_OFF_WINDOWS: &'static str =
    "cannot turn console echo back on, so the confirmation would be typed blind. \
     That is how the words get mistyped. Nothing further was read; close this \
     console window and open another to restore it.";

/// What follows the error of a terminal that could not be opened.
pub const NO_TERMINAL_UNIX: &'static str =
    ". This program reads secrets from the controlling \
     terminal and there is none here -- it cannot be driven from a pipe, a cron job \
     or a harness without one.";

/// What follows the error of a console that could not be opened.
pub const NO_TERMINAL_WINDOWS: &'static str =
    ". This program reads secrets from the console it runs \
     in and there is none here -- it cannot be driven from a pipe, a scheduled \
     task or a harness without one.";

/// The device's name, per platform.
pub open spec fn terminal_name(platform: Platform) -> Seq<char> {
    match platform {
        Platform::Unix => TERMINAL_UNIX@,
        Platform::Windows => TERMINAL_WINDOWS@,
    }
}

/// The refusal of an answer that never came, per platform.
pub open spec fn end_of_input(platform: Platform) -> Seq<char> {
    match platform {
        Platform::Unix => END_OF_INPUT_UNIX@,
        Platform::Windows => END_OF_INPUT_WINDOWS@,
    }
}

fn terminal(platform: Platform) -> (name: &'static str)
    ensures
        name@ == terminal_name(platform),
{
    match platform {
        Platform::Unix => TERMINAL_UNIX,
        Platform::Windows => TERMINAL_WINDOWS,
    }
}

fn sentence(front: &str, name: &str, why: &str) -> (text: String)
    ensures
        text@ == front@ + name@ + ": "@ + why@,
{
    let mut text = front.to_owned();
    text.append(name);
    text.append(": ");
    text.append(why);
    text
}

/// What showing a text on the terminal comes to, given the error where it could
/// not be written.
pub fn shown(platform: Platform, written: Result<(), String>) -> (outcome: Result<(), String>)
    ensures
        match (outcome, written) {
            (Ok(_), Ok(_)) => true,
            (Err(text), Err(why)) => text@ == "cannot write to "@ + terminal_name(platform) + ": "@
                + why@,
            _ => false,
        },
{
    match written {
        Ok(_) => Ok(()),
        Err(why) => Err(sentence("cannot write to ", terminal(platform), why.as_str())),
    }
}

/// One step of a prompt.
#[derive(Clone, Copy, Debug, PartialEq, Eq, Structural)]
pub enum AskStep {
    /// Turn echo back on, and see that it is.
    RestoreEcho,
    /// Write the prompt.
    WritePrompt,
    /// Take the terminal to read from.
    OpenToRead,
    /// Read the line.
    ReadLine,
    /// Write the newline that an unseen Enter did not.
    EndLine,
}

/// The steps of a prompt, in order. A visible answer has echo restored first; a
/// secret one has its line ended last.
pub open spec fn ask_steps(visible: bool) -> Seq<AskStep> {
    if visible {
        seq![
            AskStep::RestoreEcho,
            AskStep::WritePrompt,
            AskStep::OpenToRead,
            AskStep::ReadLine,
        ]
    } else {
        seq![AskStep::WritePrompt, AskStep::OpenToRead, AskStep::ReadLine, AskStep::EndLine]
    }
}

/// The refusal of a step that failed. A newline that could not be written is
/// none: nothing depends on it.
pub open spec fn step_refusal(platform: Platform, step: AskStep, why: Seq<char>) -> Option<
    Seq<char>,
> {
    match step {
        AskStep::RestoreEcho => Some(why),
        AskStep::WritePrompt => Some(
            "cannot write to "@ + terminal_name(platform) + ": "@ + why,
        ),
        AskStep::OpenToRead => Some("cannot read "@ + terminal_name(platform) + ": "@ + why),
        AskStep::ReadLine => Some("cannot read from "@ + terminal_name(platform) + ": "@ + why),
        AskStep::EndLine => None,
    }
}

/// A prompt under way.
pub struct Ask {
    platform: Platform,
    visible: bool,
    at: usize,
    outcome: Option<Result<Scrubbed, String>>,
}

impl Ask {
    /// On which platform.
    pub closed spec fn on(&self) -> Platform {
        self.platform
    }

    /// Whether the answer is visible.
    pub closed spec fn is_visible(&self) -> bool {
        self.visible
    }

    /// How many steps have been taken.
    pub closed spec fn taken(&self) -> nat {
        self.at as nat
    }

    /// What the prompt is refused with, where it is.
    pub closed spec fn refused(&self) -> Option<Seq<char>> {
        match self.outcome {
            Some(Err(text)) => Some(text@),
            _ => None,
        }
    }

    /// The answer, once it has been read.
    pub closed spec fn answer(&self) -> Option<Scrubbed> {
        match self.outcome {
            Some(Ok(line)) => Some(line),
            _ => None,
        }
    }

    /// No more steps than there are have been taken, and once the line's has,
    /// there is an answer or a refusal.
    pub open spec fn wf(&self) -> bool {
        let steps = ask_steps(self.is_visible());
        &&& self.taken() <= steps.len()
        &&& if self.taken() == steps.len() || steps[self.taken() as int] is EndLine {
            self.answer() is Some || self.refused() is Some
        } else {
            self.answer() is None
        }
        &&& self.answer() is Some ==> self.refused() is None
    }

    /// The step to take next. Once a step is refused nothing more is asked, but
    /// a secret line that was read at all is ended.
    pub open spec fn next_step(&self) -> Option<AskStep> {
        let steps = ask_steps(self.is_visible());
        if self.taken() >= steps.len() {
            None
        } else {
            let step = steps[self.taken() as int];
            if self.refused() is None || step is EndLine {
                Some(step)
            } else {
                None
            }
        }
    }

    /// A prompt with nothing done yet.
    pub fn new(platform: Platform, visible: bool) -> (ask: Ask)
        ensures
            ask.wf(),
            ask.on() == platform,
            ask.is_visible() == visible,
            ask.taken() == 0,
            ask.refused() is None,
            ask.answer() is None,
    {
        Ask { platform, visible, at: 0, outcome: None }
    }

    /// The step to take next.
    pub fn next(&self) -> (step: Option<AskStep>)
        requires
            self.wf(),
        ensures
            step == self.next_step(),
    {
        let step = if self.visible {
            match self.at {
                0 => AskStep::RestoreEcho,
                1 => AskStep::WritePrompt,
                2 => AskStep::OpenToRead,
                3 => AskStep::ReadLine,
                _ => {
                    return None;
                },
            }
        } else {
            match self.at {
                0 => AskStep::WritePrompt,
                1 => AskStep::OpenToRead,
                2 => AskStep::ReadLine,
                3 => AskStep::EndLine,
                _ => {
                    return None;
                },
            }
        };
        match (&self.outcome, step) {
            (Some(Err(_)), AskStep::EndLine) => Some(step),
            (Some(Err(_)), _) => None,
            _ => Some(step),
        }
    }

    /// How the step went, for every step but the reading of the line. Nothing is
    /// taken down where there is no such step to take.
    pub fn did(&mut self, outcome: Result<(), String>)
        requires
            old(self).wf(),
        ensures
            final(self).wf(),
            final(self).on() == old(self).on(),
            final(self).is_visible() == old(self).is_visible(),
            final(self).answer() == old(self).answer(),
            match old(self).next_step() {
                Some(step) => if step is ReadLine {
                    *final(self) == *old(self)
                } else {
                    &&& final(self).taken() == old(self).taken() + 1
                    &&& final(self).refused() == match outcome {
                        Ok(_) => old(self).refused(),
                        Err(why) => if step is EndLine {
                            old(self).refused()
                        } else {
                            step_refusal(old(self).on(), step, why@)
                        },
                    }
                },
                None => *final(self) == *old(self),
            },
    {
        let step = match self.next() {
            Some(step) => step,
            None => {
                return ;
            },
        };
        if let AskStep::ReadLine = step {
            return ;
        }
        self.at = self.at + 1;
        match outcome {
            Ok(_) => {},
            Err(why) => match step {
                AskStep::RestoreEcho => {
                    self.outcome = Some(Err(why));
                },
                AskStep::WritePrompt => {
                    let text = sentence("cannot write to ", terminal(self.platform), why.as_str());
                    self.outcome = Some(Err(text));
                },
                AskStep::OpenToRead => {
                    let text = sentence("cannot read ", terminal(self.platform), why.as_str());
                    self.outcome = Some(Err(text));
                },
                _ => {},
            },
        }
    }

    /// The line that was read: nothing where the input ended first, or the error
    /// it could not be read with.
    pub fn read(&mut self, line: Result<Option<Scrubbed>, String>)
        requires
            old(self).wf(),
        ensures
            final(self).wf(),
            final(self).on() == old(self).on(),
            final(self).is_visible() == old(self).is_visible(),
            if old(self).next_step() == Some(AskStep::ReadLine) {
                &&& final(self).taken() == old(self).taken() + 1
                &&& match line {
                    Ok(Some(line)) => final(self).answer() == Some(line) && final(self).refused()
                        is None,
                    Ok(None) => final(self).answer() == old(self).answer() && final(self).refused()
                        == Some(end_of_input(old(self).on())),
                    Err(why) => final(self).answer() == old(self).answer() && final(self).refused()
                        == step_refusal(old(self).on(), AskStep::ReadLine, why@),
                }
            } else {
                *final(self) == *old(self)
            },
    {
        match self.next() {
            Some(AskStep::ReadLine) => {},
            _ => {
                return ;
            },
        }
        self.at = self.at + 1;
        match line {
            Ok(Some(line)) => {
                self.outcome = Some(Ok(line));
            },
            Ok(None) => {
                let text = match self.platform {
                    Platform::Unix => END_OF_INPUT_UNIX.to_owned(),
                    Platform::Windows => END_OF_INPUT_WINDOWS.to_owned(),
                };
                self.outcome = Some(Err(text));
            },
            Err(why) => {
                let text = sentence("cannot read from ", terminal(self.platform), why.as_str());
                self.outcome = Some(Err(text));
            },
        }
    }

    /// The answer, once nothing more is to be done, or what refused it.
    pub fn finish(self) -> (answer: Result<Scrubbed, String>)
        requires
            self.wf(),
            self.next_step() is None,
        ensures
            match answer {
                Ok(line) => self.refused() is None && self.answer() == Some(line),
                Err(text) => self.refused() == Some(text@) && self.answer() is None,
            },
    {
        self.outcome.unwrap()
    }
}

/// A line is read only once its prompt has been written, and a visible answer
/// only once echo is back on: reading is the last thing asked, and every step
/// before it succeeded.
pub proof fn law_a_line_is_read_last(visible: bool, i: int)
    requires
        0 <= i < ask_steps(visible).len(),
        ask_steps(visible)[i] is ReadLine,
    ensures
        i >= 2,
        ask_steps(visible)[i - 1] is OpenToRead,
        ask_steps(visible)[i - 2] is WritePrompt,
        visible ==> ask_steps(visible)[0] is RestoreEcho,
        forall|j: int| i < j < ask_steps(visible).len() ==> ask_steps(visible)[j] is EndLine,
{
}

/// How turning echo off or back on went.
pub enum EchoSet {
    /// The terminal could not be taken a second time.
    NotDuplicated(String),
    /// Whether it was set.
    Told(bool),
}

/// Echo is off, or why no secret is read.
pub fn echo_off(platform: Platform, set: EchoSet) -> (off: Result<(), String>)
    ensures
        match (off, set) {
            (Ok(_), EchoSet::Told(set)) => set,
            (Err(text), EchoSet::Told(set)) => !set && text@ == ECHO_ON@,
            (Err(text), EchoSet::NotDuplicated(why)) => text@ == match platform {
                Platform::Unix => "cannot duplicate "@ + "/dev/tty"@ + ": "@ + why@,
                Platform::Windows => "cannot duplicate "@ + "the console input handle"@ + ": "@
                    + why@,
            },
            _ => false,
        },
{
    match set {
        EchoSet::Told(true) => Ok(()),
        EchoSet::Told(false) => Err(ECHO_ON.to_owned()),
        EchoSet::NotDuplicated(why) => match platform {
            Platform::Unix => Err(sentence("cannot duplicate ", "/dev/tty", why.as_str())),
            Platform::Windows => Err(
                sentence("cannot duplicate ", "the console input handle", why.as_str()),
            ),
        },
    }
}

/// Echo is back on, or why no visible answer is read.
pub fn echo_restored(platform: Platform, set: EchoSet) -> (on: Result<(), String>)
    ensures
        match (on, set) {
            (Ok(_), EchoSet::Told(set)) => set,
            (Err(text), EchoSet::Told(set)) => !set && text@ == match platform {
                Platform::Unix => ECHO_OFF_UNIX@,
                Platform::Windows => ECHO_OFF_WINDOWS@,
            },
            (Err(text), EchoSet::NotDuplicated(why)) => text@ == "cannot duplicate "@
                + "/dev/tty to restore terminal echo"@ + ": "@ + why@,
            _ => false,
        },
{
    match set {
        EchoSet::Told(true) => Ok(()),
        EchoSet::Told(false) => Err(
            match platform {
                Platform::Unix => ECHO_OFF_UNIX.to_owned(),
                Platform::Windows => ECHO_OFF_WINDOWS.to_owned(),
            },
        ),
        EchoSet::NotDuplicated(why) => Err(
            sentence("cannot duplicate ", "/dev/tty to restore terminal echo", why.as_str()),
        ),
    }
}

/// What a terminal that could not be opened is reported as: `device` is the name
/// it was opened by.
pub fn no_terminal(platform: Platform, device: &str, why: &str) -> (text: String)
    ensures
        text@ == "cannot open "@ + device@ + ": "@ + why@ + match platform {
            Platform::Unix => NO_TERMINAL_UNIX@,
            Platform::Windows => NO_TERMINAL_WINDOWS@,
        },
{
    let mut text = sentence("cannot open ", device, why);
    text.append(
        match platform {
            Platform::Unix => NO_TERMINAL_UNIX,
            Platform::Windows => NO_TERMINAL_WINDOWS,
        },
    );
    text
}

/// How a draw from the system's generator went.
pub enum Draw {
    /// The device could not be opened.
    NotOpened(String),
    /// The device did not give every byte asked for.
    NotRead(String),
    /// More bytes were asked for than one call gives.
    TooWide(u64),
    /// The generator's own status: zero is success.
    Status(u32),
    /// Every byte was drawn.
    Drawn,
}

/// What a draw that failed is reported as. No weak draw stands in for a strong
/// one: every failure is one of these.
pub open spec fn draw_refusal(draw: Draw) -> Option<Seq<char>> {
    match draw {
        Draw::NotOpened(why) => Some("cannot open "@ + "/dev/urandom"@ + ": "@ + why@),
        Draw::NotRead(why) => Some("cannot read "@ + "/dev/urandom"@ + ": "@ + why@),
        Draw::TooWide(n) => Some(
            "a "@ + decimal(n as int) + "-byte draw does not fit one BCryptGenRandom call"@,
        ),
        Draw::Status(status) => if status == 0 {
            None
        } else {
            Some(
                "the system random generator failed (BCryptGenRandom, NTSTATUS 0x"@ + padded_hex(
                    status as nat,
                    8,
                ) + ")"@,
            )
        },
        Draw::Drawn => None,
    }
}

/// What a draw comes to: see [`draw_refusal`].
pub fn drawn(draw: Draw) -> (outcome: Result<(), String>)
    ensures
        match (outcome, draw_refusal(draw)) {
            (Ok(_), None) => true,
            (Err(text), Some(why)) => text@ == why,
            _ => false,
        },
{
    match draw {
        Draw::NotOpened(why) => Err(sentence("cannot open ", "/dev/urandom", why.as_str())),
        Draw::NotRead(why) => Err(sentence("cannot read ", "/dev/urandom", why.as_str())),
        Draw::TooWide(n) => {
            let mut text = "a ".to_owned();
            text.append(decimal_text(n).as_str());
            text.append("-byte draw does not fit one BCryptGenRandom call");
            Err(text)
        },
        Draw::Status(status) => {
            if status == 0 {
                return Ok(());
            }
            let mut text =
                "the system random generator failed (BCryptGenRandom, NTSTATUS 0x".to_owned();
            text.append(padded_hex_text(status as u64, 8).as_str());
            text.append(")");
            Err(text)
        },
        Draw::Drawn => Ok(()),
    }
}

/// Everything a creation draws from the system: three separate draws, not one
/// split three ways.
pub struct CreateEntropy {
    pub phrase: Scrubbed,
    pub salt: Scrubbed,
    pub nonce_seed: Scrubbed,
}

/// What the three draws come to: all of them, or the first that failed.
pub fn create_entropy(
    phrase: Result<Scrubbed, String>,
    salt: Result<Scrubbed, String>,
    nonce_seed: Result<Scrubbed, String>,
) -> (drawn: Result<CreateEntropy, String>)
    ensures
        drawn == match (phrase, salt, nonce_seed) {
            (Err(text), _, _) => Err::<CreateEntropy, String>(text),
            (_, Err(text), _) => Err(text),
            (_, _, Err(text)) => Err(text),
            (Ok(phrase), Ok(salt), Ok(nonce_seed)) => Ok(
                CreateEntropy { phrase, salt, nonce_seed },
            ),
        },
{
    match phrase {
        Err(text) => Err(text),
        Ok(phrase) => match salt {
            Err(text) => Err(text),
            Ok(salt) => match nonce_seed {
                Err(text) => Err(text),
                Ok(nonce_seed) => Ok(CreateEntropy { phrase, salt, nonce_seed }),
            },
        },
    }
}

} // verus!
