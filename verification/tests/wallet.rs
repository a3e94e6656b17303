use mochimo_crypto::error::{Error, IoKind, TransportKind};
use mochimo_crypto::scrubbed::Scrubbed;
use mochimo_crypto::wallet::console::{
    needs_another, silent_mode, units_to_read, units_to_write, ConsoleInput, ConsoleOutput, ENABLE_ECHO_INPUT,
    ENABLE_LINE_INPUT,
};
use mochimo_crypto::wallet::dispatch::{
    begin, exit_code, post_without_node, to_stdout, Begun, Code, Dispatch, Invocation, ParsedArgv, Report, Route, Verb,
};
use mochimo_crypto::wallet::line::{AfterRead, Line, PHRASE_CAPACITY};
use mochimo_crypto::wallet::terminal::{
    create_entropy, drawn, echo_off, echo_restored, no_terminal, shown, Ask, AskStep, Draw, EchoSet, Platform,
    ECHO_OFF_UNIX, ECHO_OFF_WINDOWS, ECHO_ON, END_OF_INPUT_UNIX, END_OF_INPUT_WINDOWS,
};
use windows_sys::Win32::System::Console as console;

/// A line gathered from scripted reads, as the loop over a terminal gathers it.
fn gather(reads: &[Result<&[u8], IoKind>]) -> Result<Option<String>, String> {
    let mut line = Line::new();
    for read in reads {
        let mut chunk = [0u8; PHRASE_CAPACITY];
        let outcome = match read {
            Ok(bytes) => {
                chunk[..bytes.len()].copy_from_slice(bytes);
                Ok(bytes.len())
            }
            Err(kind) => Err(*kind),
        };
        match line.read(outcome, &chunk) {
            AfterRead::ReadOn => {}
            AfterRead::Ended => break,
            AfterRead::Failed => return Err("failed".to_string()),
        }
    }
    line.finish().map(|line| line.map(|line| String::from_utf8_lossy(line.as_slice()).into_owned()))
}

fn typed(text: &str) -> Result<Option<String>, String> {
    gather(&[Ok(text.as_bytes()), Ok(b"")])
}

#[test]
fn a_line_ends_at_its_newline_and_is_trimmed() {
    assert_eq!(typed("password\n"), Ok(Some("password".to_string())));
    assert_eq!(typed("  pass word\t\r\n"), Ok(Some("pass word".to_string())));
    assert_eq!(typed("first\nsecond\n"), Ok(Some("first".to_string())));
    assert_eq!(typed("no newline"), Ok(Some("no newline".to_string())));
    assert_eq!(typed("\n"), Ok(Some(String::new())));
    assert_eq!(typed(""), Ok(None));
    for c in [
        '\u{9}', '\u{b}', '\u{c}', '\u{85}', '\u{a0}', '\u{1680}', '\u{2000}', '\u{200a}', '\u{2028}', '\u{2029}',
        '\u{202f}', '\u{205f}', '\u{3000}',
    ] {
        assert_eq!(typed(&format!("{c}x{c}y{c}")), Ok(Some(format!("x{c}y"))), "{c:?}");
    }
    assert_eq!(typed("\u{200b}x\u{200b}"), Ok(Some("\u{200b}x\u{200b}".to_string())));
}

#[test]
fn how_a_line_is_cut_into_reads_decides_nothing() {
    let text = "Gr\u{fc}\u{df}e \u{1f600} ende\n".as_bytes();
    let whole = gather(&[Ok(text)]);
    assert_eq!(whole, Ok(Some("Gr\u{fc}\u{df}e \u{1f600} ende".to_string())));
    for cut in 1..text.len() {
        let (front, back) = text.split_at(cut);
        assert_eq!(gather(&[Ok(front), Err(IoKind::Interrupted), Ok(back)]), whole, "cut at {cut}");
    }
}

#[test]
fn a_long_line_is_gathered_whole() {
    let long = "x".repeat(PHRASE_CAPACITY);
    let reads: Vec<Result<&[u8], IoKind>> = vec![Ok(long.as_bytes()); 5];
    assert_eq!(gather(&reads), Ok(Some("x".repeat(5 * PHRASE_CAPACITY))));
}

#[test]
fn a_line_that_is_not_utf8_or_cannot_be_read_is_refused() {
    assert_eq!(gather(&[Ok(b"\xff\n")]), Err("stream did not contain valid UTF-8".to_string()));
    assert_eq!(gather(&[Ok(b"\xc3"), Ok(b"")]), Err("stream did not contain valid UTF-8".to_string()));
    assert_eq!(gather(&[Ok(b"abc"), Err(IoKind::Other)]), Err("failed".to_string()));
}

fn scrubbed(text: &str) -> Scrubbed {
    Scrubbed::new(text.as_bytes().to_vec())
}

#[test]
fn a_visible_answer_is_asked_with_echo_back_on() {
    let mut ask = Ask::new(Platform::Unix, true);
    for step in [AskStep::RestoreEcho, AskStep::WritePrompt, AskStep::OpenToRead] {
        assert_eq!(ask.next(), Some(step));
        ask.did(Ok(()));
    }
    assert_eq!(ask.next(), Some(AskStep::ReadLine));
    ask.did(Err("not this step's".to_string()));
    ask.read(Ok(Some(scrubbed("three words here"))));
    assert_eq!(ask.next(), None);
    assert_eq!(ask.finish().map(|line| line.as_slice().to_vec()), Ok(b"three words here".to_vec()));

    let mut ask = Ask::new(Platform::Unix, true);
    ask.did(Err("echo stayed off".to_string()));
    assert_eq!(ask.next(), None);
    assert_eq!(ask.finish().err(), Some("echo stayed off".to_string()));
}

#[test]
fn a_secret_answer_is_asked_and_its_line_ended() {
    let mut ask = Ask::new(Platform::Windows, false);
    for step in [AskStep::WritePrompt, AskStep::OpenToRead] {
        assert_eq!(ask.next(), Some(step));
        ask.did(Ok(()));
    }
    ask.read(Ok(None));
    assert_eq!(ask.next(), Some(AskStep::EndLine));
    ask.did(Err("broken pipe".to_string()));
    assert_eq!(ask.next(), None);
    assert_eq!(ask.finish().err(), Some(END_OF_INPUT_WINDOWS.to_string()));

    let refused = |outcomes: usize| {
        let mut ask = Ask::new(Platform::Unix, false);
        for _ in 0..outcomes {
            ask.did(Ok(()));
        }
        ask.did(Err("gone".to_string()));
        assert_eq!(ask.next(), None);
        ask.finish().err()
    };
    assert_eq!(refused(0), Some("cannot write to /dev/tty: gone".to_string()));
    assert_eq!(refused(1), Some("cannot read /dev/tty: gone".to_string()));
    let mut ask = Ask::new(Platform::Unix, false);
    ask.did(Ok(()));
    ask.did(Ok(()));
    ask.read(Err("gone".to_string()));
    ask.did(Ok(()));
    assert_eq!(ask.finish().err(), Some("cannot read from /dev/tty: gone".to_string()));
}

#[test]
fn the_prompts_speak_the_platforms_own_words() {
    assert_eq!(shown(Platform::Unix, Ok(())), Ok(()));
    assert_eq!(
        shown(Platform::Windows, Err("gone".to_string())),
        Err("cannot write to the console (CONIN$ and CONOUT$): gone".to_string())
    );
    assert!(END_OF_INPUT_UNIX.contains("(Ctrl-D) before a line was typed, so nothing was read"));
    assert!(END_OF_INPUT_WINDOWS.contains("(Ctrl-Z at the start of the line, or Ctrl-C)"));
    assert_eq!(echo_off(Platform::Unix, EchoSet::Told(true)), Ok(()));
    assert_eq!(echo_off(Platform::Unix, EchoSet::Told(false)), Err(ECHO_ON.to_string()));
    assert_eq!(
        echo_off(Platform::Unix, EchoSet::NotDuplicated("gone".to_string())),
        Err("cannot duplicate /dev/tty: gone".to_string())
    );
    assert_eq!(
        echo_off(Platform::Windows, EchoSet::NotDuplicated("gone".to_string())),
        Err("cannot duplicate the console input handle: gone".to_string())
    );
    assert_eq!(echo_restored(Platform::Unix, EchoSet::Told(true)), Ok(()));
    assert_eq!(echo_restored(Platform::Unix, EchoSet::Told(false)), Err(ECHO_OFF_UNIX.to_string()));
    assert_eq!(echo_restored(Platform::Windows, EchoSet::Told(false)), Err(ECHO_OFF_WINDOWS.to_string()));
    assert_eq!(
        echo_restored(Platform::Unix, EchoSet::NotDuplicated("gone".to_string())),
        Err("cannot duplicate /dev/tty to restore terminal echo: gone".to_string())
    );
    assert_eq!(
        no_terminal(Platform::Unix, "/dev/tty", "No such device"),
        "cannot open /dev/tty: No such device. This program reads secrets from the controlling terminal and there \
         is none here -- it cannot be driven from a pipe, a cron job or a harness without one."
    );
    assert_eq!(
        no_terminal(Platform::Windows, "CONIN$", "gone"),
        "cannot open CONIN$: gone. This program reads secrets from the console it runs in and there is none here \
         -- it cannot be driven from a pipe, a scheduled task or a harness without one."
    );
}

#[test]
fn every_way_a_draw_fails_is_loud() {
    assert_eq!(drawn(Draw::Drawn), Ok(()));
    assert_eq!(drawn(Draw::Status(0)), Ok(()));
    assert_eq!(
        drawn(Draw::Status(0xc000_0001)),
        Err("the system random generator failed (BCryptGenRandom, NTSTATUS 0xc0000001)".to_string())
    );
    assert_eq!(
        drawn(Draw::Status(0x1a)),
        Err("the system random generator failed (BCryptGenRandom, NTSTATUS 0x0000001a)".to_string())
    );
    assert_eq!(
        drawn(Draw::TooWide(5_000_000_000)),
        Err("a 5000000000-byte draw does not fit one BCryptGenRandom call".to_string())
    );
    assert_eq!(drawn(Draw::NotOpened("gone".to_string())), Err("cannot open /dev/urandom: gone".to_string()));
    assert_eq!(drawn(Draw::NotRead("short".to_string())), Err("cannot read /dev/urandom: short".to_string()));
}

#[test]
fn a_creation_draws_three_times() {
    let draw = |n: u8| Ok(Scrubbed::new(vec![n]));
    let all = create_entropy(draw(1), draw(2), draw(3)).unwrap_or_else(|e| panic!("{e}"));
    assert_eq!(
        (all.phrase.as_slice(), all.salt.as_slice(), all.nonce_seed.as_slice()),
        (&[1u8][..], &[2u8][..], &[3u8][..])
    );
    let fail = |text: &str| Err(text.to_string());
    assert_eq!(create_entropy(fail("a"), fail("b"), fail("c")).err(), Some("a".to_string()));
    assert_eq!(create_entropy(draw(1), fail("b"), fail("c")).err(), Some("b".to_string()));
    assert_eq!(create_entropy(draw(1), draw(2), fail("c")).err(), Some("c".to_string()));
}

#[test]
fn a_read_asks_for_a_third_of_the_buffer_less_a_unit() {
    assert_eq!(units_to_read(PHRASE_CAPACITY), Ok(169));
    assert_eq!(units_to_read(6), Ok(1));
    assert_eq!(units_to_read(5), Err(IoKind::InvalidInput));
    assert_eq!(units_to_read(0), Err(IoKind::InvalidInput));
    assert_eq!(units_to_read(1 << 20), Ok(4095));
    assert!(needs_another(&[0x41, 0xd83d]));
    assert!(!needs_another(&[0xd83d, 0xde00]));
    assert!(!needs_another(&[]));
}

#[test]
fn a_consoles_units_become_utf8() {
    let mut input = ConsoleInput::new();
    let mut read = |text: &str| {
        let units: Vec<u16> = text.encode_utf16().collect();
        input.take_in(&units, PHRASE_CAPACITY).map(|bytes| String::from_utf8_lossy(bytes.as_slice()).into_owned())
    };
    assert_eq!(read("\u{fc}\u{df}\u{f1}\u{fa} \u{1f600}"), Ok("\u{fc}\u{df}\u{f1}\u{fa} \u{1f600}".to_string()));
    assert_eq!(read("\u{1a}still the line\r\n"), Ok("\u{1a}still the line\r\n".to_string()));
    assert_eq!(read("\u{1a}\r\n"), Ok(String::new()));
    assert_eq!(read("a\u{1a}\r\n"), Ok("a\u{1a}\r\n".to_string()));
    assert_eq!(read(""), Ok(String::new()));
    assert_eq!(read("\u{1a}"), Ok(String::new()));
    let mut input = ConsoleInput::new();
    assert_eq!(input.take_in(&[0xd83d], PHRASE_CAPACITY).err(), Some(IoKind::InvalidData));
    assert!(!input.at_line_start);
}

#[test]
fn a_write_is_utf16_and_goes_on_until_it_is_done() {
    let text = "Gr\u{fc}\u{df}e \u{1f600}\n";
    let units: Vec<u16> = text.encode_utf16().collect();
    assert_eq!(units_to_write(text.as_bytes()), Ok(units.clone()));
    assert_eq!(units_to_write(&text.as_bytes()[..3]), Err(IoKind::InvalidData));
    assert_eq!(units_to_write(b""), Ok(vec![]));
    let mut output = ConsoleOutput::new(units.len());
    assert_eq!(output.next(), Some((0, 9)));
    assert_eq!(output.wrote(4), Ok(()));
    assert_eq!(output.next(), Some((4, 5)));
    assert_eq!(output.wrote(0), Err(IoKind::WriteZero));
    assert_eq!(output.wrote(5), Ok(()));
    assert_eq!(output.next(), None);
    assert_eq!(ConsoleOutput::new(0).next(), None);
}

#[test]
fn echo_is_one_bit_and_line_input_another() {
    assert_eq!(ENABLE_LINE_INPUT, console::ENABLE_LINE_INPUT);
    assert_eq!(ENABLE_ECHO_INPUT, console::ENABLE_ECHO_INPUT);
    assert_eq!(silent_mode(0x1f7), 0x1f3);
    assert_eq!(silent_mode(0), 2);
}

fn dispatch(node: Option<&str>, verb: Verb) -> Dispatch {
    let invocation = Invocation { dir: "store".to_string(), node: node.map(str::to_string), verb };
    match begin(Ok(ParsedArgv::Run(invocation)), "help") {
        Begun::Run(dispatch) => dispatch,
        _ => panic!("a command was not run"),
    }
}

#[test]
fn a_command_line_is_run_printed_or_refused() {
    match begin(Ok(ParsedArgv::Help), "how to use it") {
        Begun::Printed(report) => assert_eq!(report, Report { text: "how to use it".to_string(), code: Code::Success }),
        _ => panic!("help is an outcome"),
    }
    match begin(Err("unknown verb".to_string()), "help") {
        Begun::Usage(text) => assert_eq!(text, "unknown verb"),
        _ => panic!("a bad command line is refused"),
    }
    let codes = [Code::Success, Code::Usage, Code::StartupRefused, Code::Refused];
    assert_eq!(codes.map(exit_code), [0, 1, 2, 3]);
    assert_eq!(codes.map(to_stdout), [true, false, false, false]);
}

#[test]
fn a_named_node_is_checked_before_anything_else() {
    let verbs = || [Verb::Create { from_phrase: false }, Verb::Explore, Verb::Store];
    for verb in verbs() {
        let dispatch = dispatch(Some("ftp://x"), verb);
        assert_eq!(dispatch.node_url(), Some("ftp://x"));
        let report = match dispatch.node(Some("not http".to_string())) {
            Err(report) => report,
            Ok(_) => panic!("a node that cannot be used was accepted"),
        };
        let text = "cannot use node ftp://x: not http".to_string();
        assert_eq!(report, Report { text, code: Code::StartupRefused });
    }
    for verb in verbs() {
        assert!(dispatch(Some("http://x"), verb).node(None).is_ok());
    }
    assert_eq!(dispatch(None, Verb::Store).node_url(), None);
}

#[test]
fn only_a_store_command_asks_for_a_password() {
    let create = dispatch(None, Verb::Create { from_phrase: true }).node(None);
    assert!(matches!(create, Ok(Route::Create { dir, from_phrase: true }) if dir == "store"));
    let submit = dispatch(None, Verb::Submit { artifact: "ff".to_string() }).node(None);
    assert!(matches!(submit, Ok(Route::Submit { artifact }) if artifact == "ff"));
    assert!(matches!(dispatch(None, Verb::Explore).node(None), Ok(Route::Explore)));
    let unlocking = || match dispatch(None, Verb::Store).node(None) {
        Ok(Route::Unlock(unlocking)) => unlocking,
        _ => panic!("a store command opens the store"),
    };
    let refused = |text: &str| Report { text: text.to_string(), code: Code::StartupRefused };
    assert_eq!(unlocking().password(Err("no terminal".to_string())).err(), Some(refused("no terminal")));
    let with = || unlocking().password(Ok(scrubbed("pass"))).unwrap_or_else(|_| panic!("refused"));
    assert_eq!(with().nonce_seed(Err("no entropy".to_string())).err(), Some(refused("no entropy")));
    let ready = with().nonce_seed(Ok(scrubbed("seed"))).unwrap_or_else(|_| panic!("refused"));
    assert_eq!((ready.dir(), ready.password(), ready.nonce_seed()), ("store", &b"pass"[..], &b"seed"[..]));
    assert_eq!(
        ready.not_opened(&Error::Locked),
        refused(
            "cannot open the keystore at store: another wallet process holds keystore.lock; the lock releases when \
             that process exits -- do not delete the file"
        )
    );
}

#[test]
fn a_request_without_a_node_is_refused_by_name() {
    assert_eq!(
        post_without_node(),
        Error::Transport { op: "post with no --node given", kind: TransportKind::Other }
    );
}
