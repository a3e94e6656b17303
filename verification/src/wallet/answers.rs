//! What the prompts, the line, the console and the command line come to, said of
//! the calls themselves.

use vstd::prelude::*;
#[allow(unused_imports)]
use vstd::utf8::{encode_utf8, encode_utf8_decode_utf8, encode_utf8_valid_utf8, valid_utf8};

use crate::error::{Error, IoKind, TransportKind};
use crate::scrubbed::Scrubbed;
#[allow(unused_imports)]
use crate::text::{decimal_text, padded_hex_text};
#[allow(unused_imports)]
use crate::utf::{text_to_utf16, trim, utf16_to_utf8};
use crate::wallet::console::{ConsoleInput, ConsoleOutput};
#[allow(unused_imports)]
use crate::wallet::console::{needs_another, silent_mode, unit_room, units_to_read, units_to_write};
#[allow(unused_imports)]
use crate::wallet::dispatch::{begin, exit_code, post_without_node, to_stdout};
use crate::wallet::dispatch::{
    Begun, Code, Dispatch, ParsedArgv, Ready, Report, Route, Unlocking, Verb,
    WithPassword,
};
#[allow(unused_imports)]
use crate::wallet::line::{has_newline, up_to_newline};
use crate::wallet::line::{AfterRead, Line};
#[allow(unused_imports)]
use crate::wallet::terminal::{
    create_entropy, drawn, echo_off, echo_restored, no_terminal, shown, ECHO_OFF_UNIX,
    ECHO_OFF_WINDOWS, ECHO_ON, END_OF_INPUT_UNIX, END_OF_INPUT_WINDOWS, NO_TERMINAL_UNIX,
    NO_TERMINAL_WINDOWS,
};
use crate::wallet::terminal::{Ask, AskStep, CreateEntropy, Draw, EchoSet, Platform};

verus! {

proof fn lemma_up_to(bytes: Seq<u8>, k: int)
    requires
        0 <= k <= bytes.len(),
        forall|j: int| 0 <= j < k ==> bytes[j] != 10,
        k < bytes.len() ==> bytes[k] == 10,
    ensures
        up_to_newline(bytes) == if k < bytes.len() {
            bytes.take(k + 1)
        } else {
            bytes
        },
        has_newline(bytes) <==> k < bytes.len(),
    decreases bytes.len(),
{
    if k < bytes.len() {
        assert(bytes[k] == 10);
    }
    if bytes.len() == 0 {
        assert(bytes =~= seq![]);
    } else if k == 0 {
        assert(bytes.take(1) =~= seq![bytes[0]]);
    } else {
        let rest = bytes.drop_first();
        lemma_up_to(rest, k - 1);
        if k < bytes.len() {
            assert(seq![bytes[0]] + rest.take(k) =~= bytes.take(k + 1));
        } else {
            assert(seq![bytes[0]] + rest =~= bytes);
        }
    }
}

/// A line takes in a chunk up to its first newline and with it, and has ended
/// then; without one it takes in the whole of it. Once it has ended it takes in
/// nothing.
pub proof fn law_a_line_goes_to_its_first_newline(line: &mut Line, chunk: &[u8], k: int)
    requires
        call_ensures(Line::take_in, (line, chunk), ()),
        0 <= k <= chunk@.len(),
        forall|j: int| 0 <= j < k ==> chunk@[j] != 10,
        k < chunk@.len() ==> chunk@[k] == 10,
    ensures
        old(line).so_far().ended ==> final(line).so_far() == old(line).so_far(),
        !old(line).so_far().ended && k < chunk@.len() ==> final(line).so_far().ended && final(line).so_far().bytes == old(line).so_far().bytes + chunk@.take(k + 1),
        !old(line).so_far().ended && k == chunk@.len() ==> !final(line).so_far().ended && final(line).so_far().bytes == old(line).so_far().bytes + chunk@,
{
    lemma_up_to(chunk@, k);
}

/// A read takes in as many bytes of the chunk as it brought. One that brought
/// none, or a newline, ends the line, and any other reads on. An interrupted one
/// reads on with nothing taken in, and any other failure ends it as one.
pub proof fn law_a_read_takes_in_what_it_brought(
    line: &mut Line,
    twin: &mut Line,
    chunk: &[u8],
    part: &[u8],
    outcome: Result<usize, IoKind>,
    after: AfterRead,
)
    requires
        call_ensures(Line::read, (line, outcome, chunk), after),
        call_ensures(Line::take_in, (twin, part), ()),
        old(twin).so_far() == old(line).so_far(),
    ensures
        outcome matches Ok(n) ==> (n <= chunk@.len() && part@ == chunk@.take(n as int) || n
            > chunk@.len() && part@ == chunk@) ==> final(line).so_far() == final(twin).so_far(),
        outcome matches Ok(n) ==> {
            &&& n == 0 || final(line).so_far().ended ==> after == AfterRead::Ended
            &&& n > 0 && !final(line).so_far().ended ==> after == AfterRead::ReadOn
        },
        outcome matches Err(kind) ==> {
            &&& final(line).so_far() == old(line).so_far()
            &&& kind == IoKind::Interrupted ==> after == AfterRead::ReadOn
            &&& kind != IoKind::Interrupted ==> after == AfterRead::Failed
        },
{
}

/// A line that has just begun holds nothing and has not ended.
pub proof fn law_a_line_begins_empty(line: Line)
    requires
        call_ensures(Line::new, (), line),
    ensures
        line.so_far().bytes.len() == 0,
        !line.so_far().ended,
{
}

/// A line is what was gathered, trimmed: whatever text it is the UTF-8 of. One
/// of which no byte came is none, and one that is no text is refused.
pub proof fn law_a_line_is_its_text_trimmed(
    line: Line,
    text: &str,
    inner: &str,
    out: Result<Option<Scrubbed>, String>,
)
    requires
        call_ensures(Line::finish, (line,), out),
        call_ensures(trim, (text,), inner),
    ensures
        line.so_far().bytes.len() == 0 ==> out is Ok && out->Ok_0 is None,
        line.so_far().bytes.len() > 0 && line.so_far().bytes == encode_utf8(text@) ==> out is Ok
            && out->Ok_0 is Some && out->Ok_0->0@ == encode_utf8(inner@),
        line.so_far().bytes.len() > 0 && !valid_utf8(line.so_far().bytes) ==> out is Err
            && out->Err_0@ == "stream did not contain valid UTF-8"@,
{
    encode_utf8_decode_utf8(text@);
    encode_utf8_valid_utf8(text@);
}

/// The silent mode has line input on and echo off, and every other bit as it
/// was.
pub proof fn law_only_echo_and_line_input_are_set(mode: u32, silent: u32)
    requires
        call_ensures(silent_mode, (mode,), silent),
    ensures
        silent & 2 == 2,
        silent & 4 == 0,
        silent & 0xffff_fff9 == mode & 0xffff_fff9,
{
    assert(((mode | 2u32) & !4u32) & 2u32 == 2u32 && ((mode | 2u32) & !4u32) & 4u32 == 0u32 && ((mode
        | 2u32) & !4u32) & 0xffff_fff9u32 == mode & 0xffff_fff9u32) by (bit_vector);
}

/// A read is asked for as many units as fit, each as three bytes and one more
/// among them, but never for more than one short of four thousand and
/// ninety-six; a buffer with no room for two is refused.
pub proof fn law_as_many_units_are_read_as_fit(room: usize, units: Result<usize, IoKind>)
    requires
        call_ensures(units_to_read, (room,), units),
    ensures
        units is Ok <==> room >= 6,
        units matches Err(kind) ==> kind == IoKind::InvalidInput,
        units matches Ok(n) ==> {
            &&& 1 <= n <= 4095
            &&& 3 * (n + 1) <= room
            &&& n == 4095 || 3 * (n + 2) > room
        },
{
}

/// One unit more is read exactly where the last is the first half of a pair.
pub proof fn law_a_pair_is_never_cut(units: &[u16], more: bool)
    requires
        call_ensures(needs_another, (units,), more),
    ensures
        more <==> units@.len() > 0 && 0xd800 <= units@[units@.len() - 1] <= 0xdbff,
{
}

/// A console's first read begins a line, and so does a read after one that ended
/// on a line feed, or that brought nothing where it began a line itself. A
/// `Ctrl-Z` that begins a line ends the input; any other units come to their
/// text's bytes, or are refused.
pub proof fn law_a_read_comes_to_its_bytes(
    input: &mut ConsoleInput,
    first: ConsoleInput,
    units: &[u16],
    room: usize,
    text: Option<Scrubbed>,
    bytes: Result<Scrubbed, IoKind>,
)
    requires
        call_ensures(ConsoleInput::new, (), first),
        units@.len() <= unit_room(room),
        call_ensures(ConsoleInput::take_in, (input, units, room), bytes),
        call_ensures(utf16_to_utf8, (units,), text),
    ensures
        first.at_line_start,
        units@.len() == 0 ==> final(input).at_line_start == old(input).at_line_start,
        units@.len() > 0 ==> (final(input).at_line_start <==> units@[units@.len() - 1] == 0x0a),
        ({
            let ends = old(input).at_line_start && units@.len() > 0 && units@[0] == 0x1a;
            &&& ends ==> bytes is Ok && bytes->Ok_0@.len() == 0
            &&& !ends && text is Some ==> bytes is Ok && bytes->Ok_0@ == text->0@
            &&& !ends && text is None ==> bytes == Err::<Scrubbed, IoKind>(IoKind::InvalidData)
        }),
        bytes is Ok ==> bytes->Ok_0@.len() <= room,
{
}

/// As many units as a read was asked for, and the one more that completes a
/// pair, can be taken in.
pub proof fn law_what_was_asked_for_can_be_taken_in(
    input: &mut ConsoleInput,
    room: usize,
    asked: usize,
    units: &[u16],
)
    requires
        call_ensures(units_to_read, (room,), Ok(asked)),
        units@.len() <= asked + 1,
    ensures
        call_requires(ConsoleInput::take_in, (input, units, room)),
{
}

/// The bytes of a text are written as its units, and bytes that are no whole
/// text are refused.
pub proof fn law_a_text_is_written_as_its_units(
    bytes: &[u8],
    text: &str,
    of_text: Vec<u16>,
    units: Result<Vec<u16>, IoKind>,
)
    requires
        call_ensures(units_to_write, (bytes,), units),
        call_ensures(text_to_utf16, (text,), of_text),
    ensures
        bytes@ == encode_utf8(text@) ==> units is Ok && units->Ok_0@ == of_text@,
        !valid_utf8(bytes@) ==> units == Err::<Vec<u16>, IoKind>(IoKind::InvalidData),
{
    encode_utf8_decode_utf8(text@);
    encode_utf8_valid_utf8(text@);
}

/// A write goes on from where it stands with all that is left, or as much as one
/// call takes, until nothing is left.
pub proof fn law_a_write_goes_on_until_nothing_is_left(
    units: usize,
    fresh: ConsoleOutput,
    output: ConsoleOutput,
    next: Option<(usize, u32)>,
)
    requires
        call_ensures(ConsoleOutput::new, (units,), fresh),
        output.wf(),
        call_ensures(ConsoleOutput::next, (&output,), next),
    ensures
        fresh.all() == units,
        fresh.written() == 0,
        output.written() == output.all() ==> next is None,
        output.written() < output.all() ==> next is Some,
        next matches Some((from, count)) ==> {
            let left = output.all() - output.written();
            &&& from == output.written()
            &&& 0 < count <= left
            &&& count == left || count == 0xffff_ffff
        },
{
}

/// A call that wrote some units brings a write that much further, never past its
/// end; one that wrote none is an error and brings it nowhere.
pub proof fn law_a_call_brings_a_write_further(
    output: &mut ConsoleOutput,
    units: u32,
    outcome: Result<(), IoKind>,
)
    requires
        old(output).wf(),
        call_ensures(ConsoleOutput::wrote, (output, units), outcome),
    ensures
        final(output).all() == old(output).all(),
        units == 0 ==> outcome == Err::<(), IoKind>(IoKind::WriteZero) && final(output).written()
            == old(output).written(),
        units > 0 ==> outcome == Ok::<(), IoKind>(()),
        units > 0 && units <= old(output).all() - old(output).written() ==> final(output).written()
            == old(output).written() + units,
        units > old(output).all() - old(output).written() ==> final(output).written()
            == old(output).all(),
{
}

/// The codes are nought for success, one for a command line that was refused,
/// two where nothing was run and three where the command was refused; only a
/// success is printed to standard output.
pub proof fn law_each_ending_has_its_code(code: Code, number: u8, stdout: bool)
    requires
        call_ensures(exit_code, (code,), number),
        call_ensures(to_stdout, (code,), stdout),
    ensures
        code == Code::Success ==> number == 0 && stdout,
        code == Code::Usage ==> number == 1 && !stdout,
        code == Code::StartupRefused ==> number == 2 && !stdout,
        code == Code::Refused ==> number == 3 && !stdout,
{
}

/// A command line that was not understood is answered with its usage, a call for
/// help with the help and success, and any other is run as it was understood.
pub proof fn law_a_command_line_comes_to_what_it_asks(
    parsed: Result<ParsedArgv, String>,
    help: &str,
    begun: Begun,
)
    requires
        call_ensures(begin, (parsed, help), begun),
    ensures
        parsed matches Err(usage) ==> begun is Usage && begun->Usage_0 == usage,
        parsed matches Ok(ParsedArgv::Help) ==> begun is Printed && begun->Printed_0.text@ == help@
            && begun->Printed_0.code == Code::Success,
        parsed matches Ok(ParsedArgv::Run(invocation)) ==> begun is Run && begun->Run_0.of()
            == invocation,
{
}

/// A node that was named and refused ends the command, whatever it is, naming the
/// node and the reason. Otherwise each command goes its own way with its own
/// input, and only what is done with a store opens one.
pub proof fn law_a_command_goes_its_own_way(
    dispatch: Dispatch,
    refused: Option<String>,
    url: Option<&str>,
    route: Result<Route, Report>,
)
    requires
        call_ensures(Dispatch::node_url, (&dispatch,), url),
        call_ensures(Dispatch::node, (dispatch, refused), route),
    ensures
        url is Some <==> dispatch.of().node is Some,
        url is Some ==> url->0@ == dispatch.of().node->0@,
        url is Some && refused is Some ==> route is Err && route->Err_0.code == Code::StartupRefused
            && route->Err_0.text@ == "cannot use node "@ + url->0@ + ": "@ + refused->0@,
        url is None || refused is None ==> route is Ok && match dispatch.of().verb {
            Verb::Create { from_phrase } => route->Ok_0 is Create && route->Ok_0->Create_dir
                == dispatch.of().dir && route->Ok_0->Create_from_phrase == from_phrase,
            Verb::Submit { artifact } => route->Ok_0 is Submit && route->Ok_0->Submit_artifact
                == artifact,
            Verb::Explore => route->Ok_0 is Explore,
            Verb::Store => route->Ok_0 is Unlock && route->Ok_0->Unlock_0.at() == dispatch.of().dir,
        },
{
}

/// A store is opened in the directory that was named, with the password that was
/// typed and the entropy that was drawn; without one or the other nothing is run,
/// and the reason is reported as it came.
pub proof fn law_a_store_is_opened_with_what_was_typed_and_drawn(
    unlocking: Unlocking,
    typed: Result<Scrubbed, String>,
    asked: Result<WithPassword, Report>,
    drew: Result<Scrubbed, String>,
    ready: Result<Ready, Report>,
    dir: &str,
    password: &[u8],
    nonce_seed: &[u8],
)
    requires
        call_ensures(Unlocking::password, (unlocking, typed), asked),
        asked is Ok ==> call_ensures(WithPassword::nonce_seed, (asked->Ok_0, drew), ready),
        asked is Ok && ready is Ok ==> {
            &&& call_ensures(Ready::dir, (&ready->Ok_0,), dir)
            &&& call_ensures(Ready::password, (&ready->Ok_0,), password)
            &&& call_ensures(Ready::nonce_seed, (&ready->Ok_0,), nonce_seed)
        },
    ensures
        typed matches Err(why) ==> asked is Err && asked->Err_0.text@ == why@ && asked->Err_0.code
            == Code::StartupRefused,
        typed is Ok ==> asked is Ok,
        typed is Ok && drew is Err ==> ready is Err && ready->Err_0.text@ == drew->Err_0@
            && ready->Err_0.code == Code::StartupRefused,
        typed is Ok && drew is Ok ==> ready is Ok && dir@ == unlocking.at()@ && password@
            == typed->Ok_0@ && nonce_seed@ == drew->Ok_0@,
{
}

/// A store that would not open is reported with its directory and the error's
/// own text, and a request with no node named is refused by name.
pub proof fn law_a_store_that_would_not_open_is_named(
    ready: Ready,
    dir: &str,
    why: Error,
    text: String,
    report: Report,
    nowhere: Error,
)
    requires
        call_ensures(Ready::dir, (&ready,), dir),
        call_ensures(Error::message, (&why,), text),
        call_ensures(Ready::not_opened, (&ready, &why), report),
        call_ensures(post_without_node, (), nowhere),
    ensures
        report.code == Code::StartupRefused,
        report.text@ == "cannot open the keystore at "@ + dir@ + ": "@ + text@,
        nowhere == (Error::Transport { op: "post with no --node given", kind: TransportKind::Other }),
{
}

/// A visible answer has echo restored, the prompt written, the terminal taken
/// and the line read; a secret one has no echo restored and its line ended.
/// After a refusal nothing more is asked, but a secret line that was read at all
/// is ended.
pub proof fn law_a_prompt_goes_step_by_step(
    platform: Platform,
    visible: bool,
    fresh: Ask,
    ask: Ask,
    step: Option<AskStep>,
)
    requires
        call_ensures(Ask::new, (platform, visible), fresh),
        ask.wf(),
        call_ensures(Ask::next, (&ask,), step),
    ensures
        fresh.on() == platform,
        fresh.is_visible() == visible,
        fresh.taken() == 0,
        fresh.answer() is None && fresh.refused() is None,
        ask.is_visible() && ask.refused() is None ==> {
            &&& ask.taken() == 0 ==> step == Some(AskStep::RestoreEcho)
            &&& ask.taken() == 1 ==> step == Some(AskStep::WritePrompt)
            &&& ask.taken() == 2 ==> step == Some(AskStep::OpenToRead)
            &&& ask.taken() == 3 ==> step == Some(AskStep::ReadLine)
            &&& ask.taken() == 4 ==> step is None
        },
        !ask.is_visible() && ask.refused() is None ==> {
            &&& ask.taken() == 0 ==> step == Some(AskStep::WritePrompt)
            &&& ask.taken() == 1 ==> step == Some(AskStep::OpenToRead)
            &&& ask.taken() == 2 ==> step == Some(AskStep::ReadLine)
            &&& ask.taken() == 4 ==> step is None
        },
        !ask.is_visible() && ask.taken() == 3 ==> step == Some(AskStep::EndLine),
        ask.refused() is Some && (ask.is_visible() || ask.taken() != 3) ==> step is None,
        ask.taken() <= 4,
{
}

/// A step that went well is one more taken; one that did not refuses the prompt,
/// naming the device, except for the end of the line, on which nothing depends.
/// Nothing is taken down where the line is to be read, nor where nothing is left
/// to do.
pub proof fn law_a_prompt_is_refused_by_the_step_that_failed(
    ask: &mut Ask,
    outcome: Result<(), String>,
    step: Option<AskStep>,
)
    requires
        old(ask).wf(),
        call_ensures(Ask::next, (&*old(ask),), step),
        call_ensures(Ask::did, (ask, outcome), ()),
    ensures
        final(ask).on() == old(ask).on(),
        final(ask).is_visible() == old(ask).is_visible(),
        final(ask).answer() == old(ask).answer(),
        step is None || step == Some(AskStep::ReadLine) ==> *final(ask) == *old(ask),
        step is Some && step->0 != AskStep::ReadLine ==> final(ask).taken() == old(ask).taken() + 1,
        step is Some && step->0 != AskStep::ReadLine && (outcome is Ok || step->0 == AskStep::EndLine)
            ==> final(ask).refused() == old(ask).refused(),
        outcome matches Err(why) ==> {
            let device = match old(ask).on() {
                Platform::Unix => "/dev/tty"@,
                Platform::Windows => "the console (CONIN$ and CONOUT$)"@,
            };
            &&& step == Some(AskStep::RestoreEcho) ==> final(ask).refused() == Some(why@)
            &&& step == Some(AskStep::WritePrompt) ==> final(ask).refused() == Some(
                "cannot write to "@ + device + ": "@ + why@,
            )
            &&& step == Some(AskStep::OpenToRead) ==> final(ask).refused() == Some(
                "cannot read "@ + device + ": "@ + why@,
            )
        },
{
}

/// The line that was read is the answer, as it is. An input that ended first and
/// a read that failed refuse the prompt. Nothing is taken down where no line is
/// to be read.
pub proof fn law_the_line_that_was_read_is_the_answer(
    ask: &mut Ask,
    line: Result<Option<Scrubbed>, String>,
    step: Option<AskStep>,
)
    requires
        old(ask).wf(),
        call_ensures(Ask::next, (&*old(ask),), step),
        call_ensures(Ask::read, (ask, line), ()),
    ensures
        step != Some(AskStep::ReadLine) ==> *final(ask) == *old(ask),
        step == Some(AskStep::ReadLine) ==> {
            let device = match old(ask).on() {
                Platform::Unix => "/dev/tty"@,
                Platform::Windows => "the console (CONIN$ and CONOUT$)"@,
            };
            &&& final(ask).taken() == old(ask).taken() + 1
            &&& final(ask).on() == old(ask).on()
            &&& final(ask).is_visible() == old(ask).is_visible()
            &&& line matches Ok(Some(typed)) ==> final(ask).answer() == Some(typed)
                && final(ask).refused() is None
            &&& line matches Ok(None) ==> final(ask).answer() is None && final(ask).refused() == Some(
                match old(ask).on() {
                    Platform::Unix => END_OF_INPUT_UNIX@,
                    Platform::Windows => END_OF_INPUT_WINDOWS@,
                },
            )
            &&& line matches Err(why) ==> final(ask).answer() is None && final(ask).refused() == Some(
                "cannot read from "@ + device + ": "@ + why@,
            )
        },
{
}

/// A prompt that is through hands back its answer, or what refused it.
pub proof fn law_a_prompt_hands_back_its_answer(ask: Ask, answer: Result<Scrubbed, String>)
    requires
        ask.wf(),
        ask.next_step() is None,
        call_ensures(Ask::finish, (ask,), answer),
    ensures
        ask.answer() is Some ==> answer is Ok && answer->Ok_0 == ask.answer()->0,
        ask.refused() is Some ==> answer is Err && answer->Err_0@ == ask.refused()->0,
{
}

/// A text that was written was shown; one that could not be is refused, naming
/// the device.
pub proof fn law_a_text_is_shown_or_refused(
    platform: Platform,
    written: Result<(), String>,
    outcome: Result<(), String>,
)
    requires
        call_ensures(shown, (platform, written), outcome),
    ensures
        outcome is Ok <==> written is Ok,
        written matches Err(why) ==> outcome->Err_0@ == "cannot write to "@ + match platform {
            Platform::Unix => "/dev/tty"@,
            Platform::Windows => "the console (CONIN$ and CONOUT$)"@,
        } + ": "@ + why@,
{
}

/// A secret is read only where echo was turned off, and a visible answer only
/// where it was turned back on; a terminal that could not be taken again says
/// why.
pub proof fn law_echo_is_as_it_was_told(
    platform: Platform,
    set: EchoSet,
    off: Result<(), String>,
    on: Result<(), String>,
)
    requires
        call_ensures(echo_off, (platform, set), off),
        call_ensures(echo_restored, (platform, set), on),
    ensures
        off is Ok <==> set == EchoSet::Told(true),
        on is Ok <==> set == EchoSet::Told(true),
        set == EchoSet::Told(false) ==> off->Err_0@ == ECHO_ON@ && on->Err_0@ == match platform {
            Platform::Unix => ECHO_OFF_UNIX@,
            Platform::Windows => ECHO_OFF_WINDOWS@,
        },
        set matches EchoSet::NotDuplicated(why) ==> {
            &&& off->Err_0@ == "cannot duplicate "@ + match platform {
                Platform::Unix => "/dev/tty"@,
                Platform::Windows => "the console input handle"@,
            } + ": "@ + why@
            &&& on->Err_0@ == "cannot duplicate "@ + "/dev/tty to restore terminal echo"@ + ": "@ + why@
        },
{
}

/// A terminal that could not be opened is reported by the name it was opened by
/// and the reason, and by what it means on its platform.
pub proof fn law_a_terminal_that_could_not_be_opened_is_named(
    platform: Platform,
    device: &str,
    why: &str,
    text: String,
)
    requires
        call_ensures(no_terminal, (platform, device, why), text),
    ensures
        platform == Platform::Unix ==> text@ == "cannot open "@ + device@ + ": "@ + why@
            + NO_TERMINAL_UNIX@,
        platform == Platform::Windows ==> text@ == "cannot open "@ + device@ + ": "@ + why@
            + NO_TERMINAL_WINDOWS@,
{
}

/// A draw succeeds exactly where every byte was drawn or the generator's status
/// is nought. Any failure is reported with its reason, its width or its status
/// in eight digits.
pub proof fn law_no_weak_draw_stands_in(
    draw: Draw,
    outcome: Result<(), String>,
    n: u64,
    width: String,
    status: String,
)
    requires
        call_ensures(drawn, (draw,), outcome),
        call_ensures(decimal_text, (n,), width),
        call_ensures(padded_hex_text, (n, 8), status),
    ensures
        outcome is Ok <==> draw is Drawn || draw == Draw::Status(0),
        draw matches Draw::NotOpened(why) ==> outcome->Err_0@ == "cannot open "@ + "/dev/urandom"@
            + ": "@ + why@,
        draw matches Draw::NotRead(why) ==> outcome->Err_0@ == "cannot read "@ + "/dev/urandom"@
            + ": "@ + why@,
        draw == Draw::TooWide(n) ==> outcome->Err_0@ == "a "@ + width@
            + "-byte draw does not fit one BCryptGenRandom call"@,
        draw matches Draw::Status(code) ==> code != 0 && code == n ==> outcome->Err_0@
            == "the system random generator failed (BCryptGenRandom, NTSTATUS 0x"@ + status@ + ")"@,
{
}

/// A creation has all three draws, each in its own place, or the reason of the
/// first that failed.
pub proof fn law_three_draws_stay_three(
    phrase: Result<Scrubbed, String>,
    salt: Result<Scrubbed, String>,
    nonce_seed: Result<Scrubbed, String>,
    drew: Result<CreateEntropy, String>,
)
    requires
        call_ensures(create_entropy, (phrase, salt, nonce_seed), drew),
    ensures
        drew is Ok <==> phrase is Ok && salt is Ok && nonce_seed is Ok,
        drew is Ok ==> drew->Ok_0.phrase == phrase->Ok_0 && drew->Ok_0.salt == salt->Ok_0
            && drew->Ok_0.nonce_seed == nonce_seed->Ok_0,
        phrase is Err ==> drew->Err_0 == phrase->Err_0,
        phrase is Ok && salt is Err ==> drew->Err_0 == salt->Err_0,
        phrase is Ok && salt is Ok && nonce_seed is Err ==> drew->Err_0 == nonce_seed->Err_0,
{
}

} // verus!
