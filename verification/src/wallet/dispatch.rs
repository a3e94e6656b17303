//! From the command line to the command: what is checked first, which commands
//! open a store, and what is reported where one cannot be run.
//!
//! A node that was named is checked before anything else, whatever the command,
//! so a URL that cannot be used is refused before a password is asked for.
//! Creating a store and sending an artifact open none, and neither do the
//! commands that only read the chain. Every other command asks for the password,
//! draws the entropy its commits need, and opens the store.

use vstd::prelude::*;

use crate::error::{Error, TransportKind};
#[allow(unused_imports)]
use crate::error::message;
use crate::scrubbed::Scrubbed;

verus! {

/// What a run ends with.
#[derive(Clone, Copy, Debug, PartialEq, Eq, Structural)]
pub enum Code {
    /// It succeeded.
    Success,
    /// The command line was refused.
    Usage,
    /// Nothing was run.
    StartupRefused,
    /// The command was refused.
    Refused,
}

/// The process's exit code.
pub open spec fn exit_number(code: Code) -> u8 {
    match code {
        Code::Success => 0,
        Code::Usage => 1,
        Code::StartupRefused => 2,
        Code::Refused => 3,
    }
}

/// The process's exit code.
pub fn exit_code(code: Code) -> (number: u8)
    ensures
        number == exit_number(code),
{
    match code {
        Code::Success => 0,
        Code::Usage => 1,
        Code::StartupRefused => 2,
        Code::Refused => 3,
    }
}

/// Whether a report goes to standard output: a success does, and everything else
/// goes to standard error.
pub fn to_stdout(code: Code) -> (stdout: bool)
    ensures
        stdout == (exit_number(code) == 0),
{
    match code {
        Code::Success => true,
        _ => false,
    }
}

/// What a run prints, and the code it ends with.
#[derive(Debug, PartialEq, Eq)]
pub struct Report {
    pub text: String,
    pub code: Code,
}

/// The report is `text`, with `code`.
pub open spec fn reports(report: Report, text: Seq<char>, code: Code) -> bool {
    report.text@ == text && report.code == code
}

/// A command, by what it needs.
#[derive(Debug, PartialEq, Eq)]
pub enum Verb {
    /// Make a store, from a new phrase or one that is typed in.
    Create { from_phrase: bool },
    /// Send an artifact: the artifact is its whole input.
    Submit { artifact: String },
    /// Read the chain: the node is its whole input.
    Explore,
    /// Anything done with a store.
    Store,
}

/// A command line that was understood.
pub struct Invocation {
    pub dir: String,
    pub node: Option<String>,
    pub verb: Verb,
}

/// What a command line was understood as.
pub enum ParsedArgv {
    Help,
    Run(Invocation),
}

/// What a command line comes to.
pub enum Begun {
    /// It was not understood: print this and end with the usage code.
    Usage(String),
    /// There is nothing to run: print this.
    Printed(Report),
    /// There is a command to run.
    Run(Dispatch),
}

/// A command to run, with nothing checked yet.
pub struct Dispatch {
    invocation: Invocation,
}

/// What a command line comes to. Help is an outcome, not an error.
pub fn begin(parsed: Result<ParsedArgv, String>, help: &str) -> (begun: Begun)
    ensures
        match (begun, parsed) {
            (Begun::Usage(text), Err(usage)) => text == usage,
            (Begun::Printed(report), Ok(ParsedArgv::Help)) => reports(report, help@, Code::Success),
            (Begun::Run(dispatch), Ok(ParsedArgv::Run(invocation))) => dispatch.of() == invocation,
            _ => false,
        },
{
    match parsed {
        Err(usage) => Begun::Usage(usage),
        Ok(ParsedArgv::Help) => Begun::Printed(Report { text: help.to_owned(), code: Code::Success }),
        Ok(ParsedArgv::Run(invocation)) => Begun::Run(Dispatch { invocation }),
    }
}

/// Where a command goes once its node is in order.
pub enum Route {
    /// Make a store.
    Create { dir: String, from_phrase: bool },
    /// Send an artifact.
    Submit { artifact: String },
    /// Read the chain.
    Explore,
    /// Open the store first.
    Unlock(Unlocking),
}

/// The route is the one the invocation asks for.
pub open spec fn routes(route: Route, invocation: Invocation) -> bool {
    match (route, invocation.verb) {
        (Route::Create { dir, from_phrase }, Verb::Create { from_phrase: asked }) => dir
            == invocation.dir && from_phrase == asked,
        (Route::Submit { artifact }, Verb::Submit { artifact: given }) => artifact == given,
        (Route::Explore, Verb::Explore) => true,
        (Route::Unlock(unlocking), Verb::Store) => unlocking.at() == invocation.dir,
        _ => false,
    }
}

impl Dispatch {
    /// What was invoked.
    pub closed spec fn of(&self) -> Invocation {
        self.invocation
    }

    /// The node that was named, to be checked before anything else.
    pub fn node_url(&self) -> (url: Option<&str>)
        ensures
            match (url, self.of().node) {
                (Some(url), Some(named)) => url@ == named@,
                (None, None) => true,
                _ => false,
            },
    {
        match &self.invocation.node {
            Some(url) => Some(url.as_str()),
            None => None,
        }
    }

    /// Where the command goes, given the error the named node was refused with,
    /// if it was.
    pub fn node(self, refused: Option<String>) -> (route: Result<Route, Report>)
        ensures
            match (route, self.of().node, refused) {
                (Err(report), Some(url), Some(why)) => reports(
                    report,
                    "cannot use node "@ + url@ + ": "@ + why@,
                    Code::StartupRefused,
                ),
                (Err(_), _, _) => false,
                (Ok(_), Some(_), Some(_)) => false,
                (Ok(route), _, _) => routes(route, self.of()),
            },
    {
        if let Some(url) = &self.invocation.node {
            if let Some(why) = refused {
                let mut text = "cannot use node ".to_owned();
                text.append(url.as_str());
                text.append(": ");
                text.append(why.as_str());
                return Err(Report { text, code: Code::StartupRefused });
            }
        }
        Ok(
            match self.invocation.verb {
                Verb::Create { from_phrase } => Route::Create {
                    dir: self.invocation.dir,
                    from_phrase,
                },
                Verb::Submit { artifact } => Route::Submit { artifact },
                Verb::Explore => Route::Explore,
                Verb::Store => Route::Unlock(Unlocking { dir: self.invocation.dir }),
            },
        )
    }
}

/// A store to open, with nothing asked yet.
pub struct Unlocking {
    dir: String,
}

/// A store to open, and its password.
pub struct WithPassword {
    dir: String,
    password: Scrubbed,
}

/// A store to open, its password, and the entropy its commits need.
pub struct Ready {
    dir: String,
    password: Scrubbed,
    nonce_seed: Scrubbed,
}

impl Unlocking {
    /// The store's directory.
    pub closed spec fn at(&self) -> String {
        self.dir
    }

    /// The password that was typed, or why none was.
    pub fn password(self, typed: Result<Scrubbed, String>) -> (next: Result<WithPassword, Report>)
        ensures
            match (next, typed) {
                (Ok(next), Ok(password)) => next.at() == self.at() && next.word() == password,
                (Err(report), Err(text)) => reports(report, text@, Code::StartupRefused),
                _ => false,
            },
    {
        match typed {
            Ok(password) => Ok(WithPassword { dir: self.dir, password }),
            Err(text) => Err(Report { text, code: Code::StartupRefused }),
        }
    }
}

impl WithPassword {
    /// The store's directory.
    pub closed spec fn at(&self) -> String {
        self.dir
    }

    /// The password.
    pub closed spec fn word(&self) -> Scrubbed {
        self.password
    }

    /// The entropy that was drawn, or why none was.
    pub fn nonce_seed(self, drawn: Result<Scrubbed, String>) -> (next: Result<Ready, Report>)
        ensures
            match (next, drawn) {
                (Ok(next), Ok(nonce_seed)) => {
                    &&& next.at() == self.at()
                    &&& next.word() == self.word()
                    &&& next.seed() == nonce_seed
                },
                (Err(report), Err(text)) => reports(report, text@, Code::StartupRefused),
                _ => false,
            },
    {
        match drawn {
            Ok(nonce_seed) => Ok(Ready { dir: self.dir, password: self.password, nonce_seed }),
            Err(text) => Err(Report { text, code: Code::StartupRefused }),
        }
    }
}

impl Ready {
    /// The store's directory.
    pub closed spec fn at(&self) -> String {
        self.dir
    }

    /// The password.
    pub closed spec fn word(&self) -> Scrubbed {
        self.password
    }

    /// The entropy.
    pub closed spec fn seed(&self) -> Scrubbed {
        self.nonce_seed
    }

    /// The store's directory.
    pub fn dir(&self) -> (dir: &str)
        ensures
            dir@ == self.at()@,
    {
        self.dir.as_str()
    }

    /// The password.
    pub fn password(&self) -> (password: &[u8])
        ensures
            password@ == self.word()@,
    {
        self.password.as_slice()
    }

    /// The entropy.
    pub fn nonce_seed(&self) -> (nonce_seed: &[u8])
        ensures
            nonce_seed@ == self.seed()@,
    {
        self.nonce_seed.as_slice()
    }

    /// What is reported of a store that would not open.
    pub fn not_opened(&self, why: &Error) -> (report: Report)
        ensures
            reports(
                report,
                "cannot open the keystore at "@ + self.at()@ + ": "@ + message(*why),
                Code::StartupRefused,
            ),
    {
        let mut text = "cannot open the keystore at ".to_owned();
        text.append(self.dir.as_str());
        text.append(": ");
        text.append(why.message().as_str());
        Report { text, code: Code::StartupRefused }
    }
}

/// What a request comes to where no node was named: refused by name, never sent
/// to nowhere.
pub fn post_without_node() -> (e: Error)
    ensures
        e == (Error::Transport { op: "post with no --node given", kind: TransportKind::Other }),
{
    Error::Transport { op: "post with no --node given", kind: TransportKind::Other }
}

} // verus!
