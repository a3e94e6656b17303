//! The Windows console: what is asked of it, and what its UTF-16 becomes.
//!
//! Reads and writes are the wide ones, so that a password's bytes are its UTF-8
//! on every platform. One read asks for at most a third of the buffer it fills,
//! because a unit is at most three bytes, so the transcoding always fits and
//! nothing typed is held back between reads. A read that ends on the first half
//! of a surrogate pair is completed by one unit more. `Ctrl-Z` ends the input
//! only where it begins a line, which the read before it decides.

use vstd::prelude::*;
#[allow(unused_imports)]
use vstd::utf8::{decode_utf8, encode_utf8, encode_utf8_decode_utf8, valid_utf8};

use crate::error::IoKind;
use crate::scrubbed::Scrubbed;
use crate::utf::{str_from_utf8, text_to_utf16, utf16_to_utf8};
#[allow(unused_imports)]
use crate::utf::{
    decode_utf16, encode_utf16, is_high, law_bytes_are_at_most_three_a_unit,
    law_units_are_no_more_than_bytes, law_utf16_reads_back, paired, units_of,
};

verus! {

/// The mode bit that has the console gather whole lines.
pub const ENABLE_LINE_INPUT: u32 = 2;

/// The mode bit that has the console echo what is typed.
pub const ENABLE_ECHO_INPUT: u32 = 4;

/// The most units asked of one read, whatever buffer is offered.
pub const READ_UNITS: usize = 4096;

/// What a line beginning with it means: the end of the input.
pub const CTRL_Z: u16 = 0x1a;

/// Where a line ends.
pub const LF: u16 = 0x0a;

/// The console's mode with echo off and line input on.
pub fn silent_mode(mode: u32) -> (silent: u32)
    ensures
        silent == (mode | ENABLE_LINE_INPUT) & !ENABLE_ECHO_INPUT,
        silent & ENABLE_LINE_INPUT != 0,
        silent & ENABLE_ECHO_INPUT == 0,
        forall|bit: u32|
            bit & (ENABLE_LINE_INPUT | ENABLE_ECHO_INPUT) == 0 ==> #[trigger] (silent & bit) == mode
                & bit,
{
    let silent: u32 = (mode | ENABLE_LINE_INPUT) & !ENABLE_ECHO_INPUT;
    assert(((mode | 2u32) & !4u32) & 2u32 != 0 && ((mode | 2u32) & !4u32) & 4u32 == 0)
        by (bit_vector);
    assert forall|bit: u32|
        bit & (ENABLE_LINE_INPUT | ENABLE_ECHO_INPUT) == 0 implies #[trigger] (silent & bit) == mode
        & bit by {
        assert(bit & (2u32 | 4u32) == 0 ==> ((mode | 2u32) & !4u32) & bit == mode & bit)
            by (bit_vector);
    }
    silent
}

/// How many units a read into a buffer of `room` bytes has room for.
pub open spec fn unit_room(room: usize) -> int {
    if room / 3 < READ_UNITS {
        (room / 3) as int
    } else {
        READ_UNITS as int
    }
}

/// How many units to ask of one read into a buffer of `room` bytes: one fewer
/// than there is room for, which the second half of a surrogate pair may take. A
/// buffer too small for one character is refused.
pub fn units_to_read(room: usize) -> (units: Result<usize, IoKind>)
    ensures
        units == if unit_room(room) < 2 {
            Err::<usize, IoKind>(IoKind::InvalidInput)
        } else {
            Ok((unit_room(room) - 1) as usize)
        },
{
    let want: usize = if room / 3 < READ_UNITS {
        room / 3
    } else {
        READ_UNITS
    };
    if want < 2 {
        Err(IoKind::InvalidInput)
    } else {
        Ok(want - 1)
    }
}

/// Whether what was read ends on the first half of a surrogate pair, and one
/// unit more is to be read.
pub fn needs_another(units: &[u16]) -> (more: bool)
    ensures
        more == (units@.len() > 0 && is_high(units@.last())),
{
    if units.len() == 0 {
        return false;
    }
    let last: u16 = units[units.len() - 1];
    0xd800 <= last && last < 0xdc00
}

/// A console being read.
#[derive(Clone, Copy, Debug, PartialEq, Eq, Structural)]
pub struct ConsoleInput {
    /// Whether the next read begins a line.
    pub at_line_start: bool,
}

/// What a read's units come to: nothing where they begin a line with `Ctrl-Z`,
/// their UTF-8, or a refusal where a surrogate stands alone.
pub open spec fn units_read(at_line_start: bool, units: Seq<u16>) -> Result<Seq<u8>, IoKind> {
    if at_line_start && units.len() > 0 && units[0] == CTRL_Z {
        Ok(seq![])
    } else {
        match decode_utf16(units) {
            Some(text) => Ok(encode_utf8(text)),
            None => Err(IoKind::InvalidData),
        }
    }
}

/// Whether the read after this one begins a line: where this one ended on a
/// line feed, and where it brought nothing, as before.
pub open spec fn starts_line(at_line_start: bool, units: Seq<u16>) -> bool {
    if units.len() > 0 {
        units.last() == LF
    } else {
        at_line_start
    }
}

impl ConsoleInput {
    /// A console just opened: its first read begins a line.
    pub fn new() -> (input: ConsoleInput)
        ensures
            input.at_line_start,
    {
        ConsoleInput { at_line_start: true }
    }

    /// What a read's units come to, in a buffer of `room` bytes: at most that
    /// many bytes, and none where the input has ended.
    pub fn take_in(&mut self, units: &[u16], room: usize) -> (bytes: Result<Scrubbed, IoKind>)
        requires
            units@.len() <= unit_room(room),
        ensures
            final(self).at_line_start == starts_line(old(self).at_line_start, units@),
            match (bytes, units_read(old(self).at_line_start, units@)) {
                (Ok(bytes), Ok(wanted)) => bytes@ == wanted && bytes@.len() <= room,
                (Err(kind), Err(why)) => kind == why,
                _ => false,
            },
    {
        let begins_a_line = self.at_line_start;
        if units.len() > 0 {
            self.at_line_start = units[units.len() - 1] == LF;
            if begins_a_line && units[0] == CTRL_Z {
                let none: Vec<u8> = Vec::new();
                assert(none@ =~= seq![]);
                return Ok(Scrubbed::new(none));
            }
        }
        match utf16_to_utf8(units) {
            Some(bytes) => {
                proof {
                    law_bytes_are_at_most_three_a_unit(units@);
                }
                Ok(bytes)
            },
            None => Err(IoKind::InvalidData),
        }
    }
}

/// A line broken into reads reads as it would whole: what two reads bring, where
/// neither splits a surrogate pair and the second does not begin a line, is what
/// one read of both brings.
pub proof fn law_reads_join(at_line_start: bool, first: Seq<u16>, second: Seq<u16>)
    requires
        first.len() > 0,
        first.last() != LF,
        !(at_line_start && first[0] == CTRL_Z),
        decode_utf16(first) is Some,
        decode_utf16(second) is Some,
    ensures
        units_read(at_line_start, first + second) == Ok::<Seq<u8>, IoKind>(
            units_read(at_line_start, first)->Ok_0 + units_read(
                starts_line(at_line_start, first),
                second,
            )->Ok_0,
        ),
{
    lemma_decode_joins(first, second);
    lemma_encode_joins(decode_utf16(first)->0, decode_utf16(second)->0);
    assert((first + second)[0] == first[0]);
}

/// A password's bytes are its UTF-8, whatever is typed: the units the console
/// hands over for a text come to that text's own bytes, unless the text begins a
/// line with `Ctrl-Z`.
pub proof fn law_a_typed_text_comes_to_its_utf8(at_line_start: bool, text: Seq<char>)
    requires
        !(at_line_start && text.len() > 0 && text[0] == '\u{1a}'),
    ensures
        units_read(at_line_start, encode_utf16(text)) == Ok::<Seq<u8>, IoKind>(encode_utf8(text)),
{
    law_utf16_reads_back(text);
    if text.len() > 0 {
        assert(encode_utf16(text)[0] == units_of(text[0])[0]);
    }
}

proof fn lemma_decode_joins(first: Seq<u16>, second: Seq<u16>)
    requires
        decode_utf16(first) is Some,
        decode_utf16(second) is Some,
    ensures
        decode_utf16(first + second) == Some(decode_utf16(first)->0 + decode_utf16(second)->0),
    decreases first.len(),
{
    let whole = first + second;
    let tail = decode_utf16(second)->0;
    if first.len() == 0 {
        assert(whole =~= second);
        assert(decode_utf16(first)->0 =~= seq![]);
        assert(decode_utf16(first)->0 + tail =~= tail);
    } else {
        let pair = is_high(first[0]);
        assert(whole[0] == first[0]);
        let rest = if pair {
            first.skip(2)
        } else {
            first.drop_first()
        };
        lemma_decode_joins(rest, second);
        let text = decode_utf16(rest)->0;
        if pair {
            assert(whole[1] == first[1]);
            assert(whole.skip(2) =~= rest + second);
            let c = paired(first[0], first[1]);
            assert(decode_utf16(first) == Some(seq![c] + text));
            assert(decode_utf16(whole) == Some(seq![c] + (text + tail)));
            assert(seq![c] + (text + tail) =~= seq![c] + text + tail);
        } else {
            assert(whole.drop_first() =~= rest + second);
            let c = first[0] as u32 as char;
            assert(decode_utf16(first) == Some(seq![c] + text));
            assert(decode_utf16(whole) == Some(seq![c] + (text + tail)));
            assert(seq![c] + (text + tail) =~= seq![c] + text + tail);
        }
    }
}

proof fn lemma_encode_joins(first: Seq<char>, second: Seq<char>)
    ensures
        encode_utf8(first + second) == encode_utf8(first) + encode_utf8(second),
    decreases first.len(),
{
    if first.len() == 0 {
        assert(first + second =~= second);
        assert(encode_utf8(first) + encode_utf8(second) =~= encode_utf8(second));
    } else {
        assert((first + second).drop_first() =~= first.drop_first() + second);
        lemma_encode_joins(first.drop_first(), second);
        assert(encode_utf8(first + second) =~= encode_utf8(first) + encode_utf8(second));
    }
}

/// The units of a write of `bytes`, which must be whole UTF-8: a slice that
/// splits a character is refused rather than written as a replacement for it.
/// There are never more of them than bytes.
pub fn units_to_write(bytes: &[u8]) -> (units: Result<Vec<u16>, IoKind>)
    ensures
        match units {
            Ok(units) => {
                &&& valid_utf8(bytes@)
                &&& units@ == encode_utf16(decode_utf8(bytes@))
                &&& units@.len() <= bytes@.len()
            },
            Err(kind) => !valid_utf8(bytes@) && kind == IoKind::InvalidData,
        },
{
    match str_from_utf8(bytes) {
        Some(text) => {
            proof {
                encode_utf8_decode_utf8(text@);
                law_units_are_no_more_than_bytes(text@);
            }
            Ok(text_to_utf16(text))
        },
        None => Err(IoKind::InvalidData),
    }
}

/// A write to the console, by how many of its units have been written.
#[derive(Clone, Copy, Debug, PartialEq, Eq, Structural)]
pub struct ConsoleOutput {
    total: usize,
    done: usize,
}

impl ConsoleOutput {
    /// How many units there are to write.
    pub closed spec fn all(&self) -> nat {
        self.total as nat
    }

    /// How many have been written.
    pub closed spec fn written(&self) -> nat {
        self.done as nat
    }

    /// No more have been written than there are.
    pub open spec fn wf(&self) -> bool {
        self.written() <= self.all()
    }

    /// A write of `units` units, none of them written yet.
    pub fn new(units: usize) -> (output: ConsoleOutput)
        ensures
            output.wf(),
            output.all() == units,
            output.written() == 0,
    {
        ConsoleOutput { total: units, done: 0 }
    }

    /// Where the next call writes from, and how many units it is handed: all
    /// that are left, or as many as one call takes. Nothing where all have been
    /// written.
    pub fn next(&self) -> (next: Option<(usize, u32)>)
        requires
            self.wf(),
        ensures
            match next {
                Some((from, count)) => {
                    &&& from == self.written()
                    &&& self.written() < self.all()
                    &&& count == if self.all() - self.written() <= u32::MAX {
                        self.all() - self.written()
                    } else {
                        u32::MAX as int
                    }
                },
                None => self.written() == self.all(),
            },
    {
        if self.done >= self.total {
            return None;
        }
        let left: usize = self.total - self.done;
        let count: u32 = if left as u64 <= u32::MAX as u64 {
            left as u32
        } else {
            u32::MAX
        };
        Some((self.done, count))
    }

    /// How many units the call wrote. None at all is an error.
    pub fn wrote(&mut self, units: u32) -> (outcome: Result<(), IoKind>)
        requires
            old(self).wf(),
        ensures
            final(self).wf(),
            final(self).all() == old(self).all(),
            outcome == if units == 0 {
                Err::<(), IoKind>(IoKind::WriteZero)
            } else {
                Ok(())
            },
            final(self).written() == if old(self).written() + units <= old(self).all() {
                (old(self).written() + units) as nat
            } else {
                old(self).all()
            },
    {
        if units == 0 {
            return Err(IoKind::WriteZero);
        }
        let left: usize = self.total - self.done;
        if units as u64 <= left as u64 {
            self.done = self.done + units as usize;
        } else {
            self.done = self.total;
        }
        Ok(())
    }
}

} // verus!
