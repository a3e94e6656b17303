//! One typed line, gathered so that every buffer it passes through is
//! overwritten before it is released.
//!
//! The line is gathered from whole chunks, up to its newline or the end of the
//! input. A buffer that grows by reallocating leaves the old allocation holding
//! the line, so this one grows by hand: it starts with room for every recovery
//! phrase, and a longer line -- a password has no ceiling -- is moved into a
//! fresh buffer of twice the room, the old one overwritten as it is dropped.

use vstd::prelude::*;
#[allow(unused_imports)]
use vstd::utf8::{decode_utf8, encode_utf8, encode_utf8_decode_utf8, valid_utf8};

use crate::error::IoKind;
use crate::scrubbed::{copied, Scrubbed};
use crate::utf::{str_from_utf8, trim};
#[allow(unused_imports)]
use crate::utf::trimmed;

verus! {

/// The size of every read a line is gathered from, and the room it starts with.
/// A 24-word phrase is at most some 215 bytes, so no phrase makes it grow.
pub const PHRASE_CAPACITY: usize = 512;

/// What ends a line.
pub const NEWLINE: u8 = 10;

/// What a line that is not UTF-8 is refused with.
pub const NOT_UTF8: &'static str = "stream did not contain valid UTF-8";

/// The bytes up to and with the first newline, or all of them where there is
/// none.
pub open spec fn up_to_newline(bytes: Seq<u8>) -> Seq<u8>
    decreases bytes.len(),
{
    if bytes.len() == 0 {
        seq![]
    } else if bytes[0] == NEWLINE {
        seq![bytes[0]]
    } else {
        seq![bytes[0]] + up_to_newline(bytes.drop_first())
    }
}

/// There is a newline in the bytes.
pub open spec fn has_newline(bytes: Seq<u8>) -> bool {
    exists|i: int| 0 <= i < bytes.len() && #[trigger] bytes[i] == NEWLINE
}

/// A line as far as it has been gathered.
pub struct Gathered {
    pub bytes: Seq<u8>,
    pub ended: bool,
}

/// The line with one chunk more: nothing is taken in once it has ended.
pub open spec fn with_chunk(line: Gathered, chunk: Seq<u8>) -> Gathered {
    if line.ended {
        line
    } else {
        Gathered { bytes: line.bytes + up_to_newline(chunk), ended: has_newline(chunk) }
    }
}

/// How the input was cut into chunks decides nothing: two chunks are the one
/// they make.
pub proof fn law_chunks_decide_nothing(line: Gathered, first: Seq<u8>, second: Seq<u8>)
    ensures
        with_chunk(with_chunk(line, first), second) == with_chunk(line, first + second),
{
    if !line.ended {
        lemma_up_to_newline(first, second);
        if has_newline(first) {
            let i = choose|i: int| 0 <= i < first.len() && #[trigger] first[i] == NEWLINE;
            assert((first + second)[i] == NEWLINE);
        } else if has_newline(second) {
            let i = choose|i: int| 0 <= i < second.len() && #[trigger] second[i] == NEWLINE;
            assert((first + second)[first.len() + i] == NEWLINE);
        } else if has_newline(first + second) {
            let i = choose|i: int|
                0 <= i < first.len() + second.len() && #[trigger] (first + second)[i] == NEWLINE;
            if i < first.len() {
                assert(first[i] == NEWLINE);
            } else {
                assert(second[i - first.len()] == NEWLINE);
            }
        }
        assert(line.bytes + up_to_newline(first) + up_to_newline(second) =~= line.bytes + (
        up_to_newline(first) + up_to_newline(second)));
    }
}

proof fn lemma_up_to_newline(first: Seq<u8>, second: Seq<u8>)
    ensures
        up_to_newline(first + second) == if has_newline(first) {
            up_to_newline(first)
        } else {
            up_to_newline(first) + up_to_newline(second)
        },
    decreases first.len(),
{
    let whole = first + second;
    if first.len() == 0 {
        assert(whole =~= second);
        assert(up_to_newline(first) + up_to_newline(second) =~= up_to_newline(second));
    } else {
        let rest = first.drop_first();
        assert(whole.drop_first() =~= rest + second);
        lemma_up_to_newline(rest, second);
        if first[0] != NEWLINE {
            if has_newline(first) {
                let i = choose|i: int| 0 <= i < first.len() && #[trigger] first[i] == NEWLINE;
                assert(rest[i - 1] == NEWLINE);
            }
            if has_newline(rest) {
                let i = choose|i: int| 0 <= i < rest.len() && #[trigger] rest[i] == NEWLINE;
                assert(first[i + 1] == NEWLINE);
            }
            assert(up_to_newline(first) + up_to_newline(second) =~= seq![first[0]] + (up_to_newline(
                rest,
            ) + up_to_newline(second)));
        }
    }
}

/// What is done after a read.
#[derive(Clone, Copy, Debug, PartialEq, Eq, Structural)]
pub enum AfterRead {
    /// The line has not ended: read on.
    ReadOn,
    /// The line is all there is.
    Ended,
    /// The read failed, and the line with it.
    Failed,
}

/// A line being gathered.
pub struct Line {
    bytes: Scrubbed,
    room: usize,
    ended: bool,
}

impl Line {
    /// The line as far as it has been gathered.
    pub closed spec fn so_far(&self) -> Gathered {
        Gathered { bytes: self.bytes@, ended: self.ended }
    }

    /// Nothing yet.
    pub fn new() -> (line: Line)
        ensures
            line.so_far() == (Gathered { bytes: seq![], ended: false }),
    {
        let bytes = Scrubbed::new(Vec::with_capacity(PHRASE_CAPACITY));
        let line = Line { bytes, room: PHRASE_CAPACITY, ended: false };
        assert(line.so_far().bytes =~= seq![]);
        line
    }

    /// Put one byte in, moving what is held into a buffer of twice the room
    /// where it has none left.
    fn put(&mut self, byte: u8)
        ensures
            final(self).so_far() == (Gathered {
                bytes: old(self).so_far().bytes.push(byte),
                ended: old(self).so_far().ended,
            }),
    {
        if self.bytes.len() >= self.room {
            let wider: usize = if self.room <= usize::MAX / 2 {
                self.room * 2
            } else {
                usize::MAX
            };
            let mut moved = Scrubbed::new(Vec::with_capacity(wider));
            let held = self.bytes.as_slice();
            let mut i: usize = 0;
            assert(held@.take(0) =~= moved@);
            while i < held.len()
                invariant
                    i <= held.len(),
                    moved@ == held@.take(i as int),
                decreases held.len() - i,
            {
                moved.push(held[i]);
                assert(held@.take(i + 1) =~= held@.take(i as int).push(held@[i as int]));
                i = i + 1;
            }
            assert(held@.take(i as int) =~= held@);
            self.bytes = moved;
            self.room = wider;
        }
        self.bytes.push(byte);
    }

    /// Take in one chunk.
    pub fn take_in(&mut self, chunk: &[u8])
        ensures
            final(self).so_far() == with_chunk(old(self).so_far(), chunk@),
    {
        let ghost before = self.so_far();
        if self.ended {
            return ;
        }
        let mut i: usize = 0;
        assert(chunk@.skip(0) =~= chunk@);
        assert(before.bytes + up_to_newline(chunk@.take(0)) =~= before.bytes);
        while i < chunk.len()
            invariant
                i <= chunk.len(),
                !self.so_far().ended,
                before.bytes + up_to_newline(chunk@) == self.so_far().bytes + up_to_newline(
                    chunk@.skip(i as int),
                ),
                forall|j: int| 0 <= j < i ==> chunk@[j] != NEWLINE,
                before == old(self).so_far(),
                !before.ended,
            decreases chunk.len() - i,
        {
            let byte: u8 = chunk[i];
            let ghost rest = chunk@.skip(i as int);
            let ghost held = self.so_far().bytes;
            assert(rest[0] == byte);
            self.put(byte);
            if byte == NEWLINE {
                self.ended = true;
                assert(chunk@[i as int] == NEWLINE);
                assert(held + up_to_newline(rest) =~= self.so_far().bytes);
                return ;
            }
            proof {
                assert(rest.drop_first() =~= chunk@.skip(i + 1));
                assert(held + (seq![byte] + up_to_newline(rest.drop_first())) =~= held.push(byte)
                    + up_to_newline(rest.drop_first()));
            }
            i = i + 1;
        }
        proof {
            assert(chunk@.skip(i as int) =~= seq![]);
            assert(self.so_far().bytes + up_to_newline(seq![]) =~= self.so_far().bytes);
        }
    }

    /// What a read brought: how many bytes of `chunk`, or the kind of its
    /// failure. None is the end of the input; an interrupted read is retried;
    /// any other failure ends the line.
    pub fn read(&mut self, outcome: Result<usize, IoKind>, chunk: &[u8]) -> (after: AfterRead)
        ensures
            final(self).so_far() == match outcome {
                Ok(n) => with_chunk(
                    old(self).so_far(),
                    if n <= chunk@.len() {
                        chunk@.take(n as int)
                    } else {
                        chunk@
                    },
                ),
                Err(_) => old(self).so_far(),
            },
            after == match outcome {
                Ok(n) => if n == 0 || final(self).so_far().ended {
                    AfterRead::Ended
                } else {
                    AfterRead::ReadOn
                },
                Err(IoKind::Interrupted) => AfterRead::ReadOn,
                Err(_) => AfterRead::Failed,
            },
    {
        match outcome {
            Ok(n) => {
                if n <= chunk.len() {
                    let (front, _rest) = chunk.split_at(n);
                    assert(front@ =~= chunk@.take(n as int));
                    self.take_in(front);
                } else {
                    self.take_in(chunk);
                }
                if n == 0 || self.ended {
                    AfterRead::Ended
                } else {
                    AfterRead::ReadOn
                }
            },
            Err(IoKind::Interrupted) => AfterRead::ReadOn,
            Err(_) => AfterRead::Failed,
        }
    }

    /// The line, without the white space around it; nothing where the input
    /// ended before any byte of it came; and a refusal where it is not UTF-8.
    pub fn finish(self) -> (line: Result<Option<Scrubbed>, String>)
        ensures
            match line {
                Ok(None) => self.so_far().bytes.len() == 0,
                Ok(Some(line)) => {
                    &&& self.so_far().bytes.len() > 0
                    &&& valid_utf8(self.so_far().bytes)
                    &&& line@ == encode_utf8(trimmed(decode_utf8(self.so_far().bytes)))
                },
                Err(text) => {
                    &&& self.so_far().bytes.len() > 0
                    &&& !valid_utf8(self.so_far().bytes)
                    &&& text@ == NOT_UTF8@
                },
            },
    {
        if self.bytes.len() == 0 {
            return Ok(None);
        }
        match str_from_utf8(self.bytes.as_slice()) {
            Some(text) => {
                proof {
                    encode_utf8_decode_utf8(text@);
                }
                let inner = trim(text);
                Ok(Some(Scrubbed::new(copied(inner.as_bytes()))))
            },
            None => Err(NOT_UTF8.to_owned()),
        }
    }
}

} // verus!
