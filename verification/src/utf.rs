//! Text as the bytes and the units it travels in: UTF-8, UTF-16, and the white
//! space around a typed line.

use vstd::prelude::*;
use vstd::utf8::{char_is_scalar, char_u32_cast, encode_scalar, encode_utf8, is_scalar, valid_utf8};
#[allow(unused_imports)]
use vstd::utf8::encode_utf8_decode_utf8;

use crate::scrubbed::Scrubbed;

verus! {

/// `std::str::from_utf8`: the text the bytes are the UTF-8 of, or nothing where
/// they are not UTF-8.
#[verifier::external_body]
pub(crate) fn str_from_utf8(bytes: &[u8]) -> (text: Option<&str>)
    ensures
        text is Some <==> valid_utf8(bytes@),
        text matches Some(text) ==> encode_utf8(text@) == bytes@,
{
    std::str::from_utf8(bytes).ok()
}

/// The characters Unicode calls white space.
pub open spec fn is_white(c: char) -> bool {
    let v = c as u32;
    ||| 0x9 <= v <= 0xd
    ||| v == 0x20
    ||| v == 0x85
    ||| v == 0xa0
    ||| v == 0x1680
    ||| 0x2000 <= v <= 0x200a
    ||| v == 0x2028
    ||| v == 0x2029
    ||| v == 0x202f
    ||| v == 0x205f
    ||| v == 0x3000
}

/// The text without the white space it begins with.
pub open spec fn trimmed_start(text: Seq<char>) -> Seq<char>
    decreases text.len(),
{
    if text.len() > 0 && is_white(text[0]) {
        trimmed_start(text.drop_first())
    } else {
        text
    }
}

/// The text without the white space it ends with.
pub open spec fn trimmed_end(text: Seq<char>) -> Seq<char>
    decreases text.len(),
{
    if text.len() > 0 && is_white(text.last()) {
        trimmed_end(text.drop_last())
    } else {
        text
    }
}

/// The text without the white space around it.
pub open spec fn trimmed(text: Seq<char>) -> Seq<char> {
    trimmed_end(trimmed_start(text))
}

fn white(c: char) -> (is: bool)
    ensures
        is == is_white(c),
{
    let v: u32 = c as u32;
    (0x9 <= v && v <= 0xd) || v == 0x20 || v == 0x85 || v == 0xa0 || v == 0x1680 || (0x2000 <= v && v
        <= 0x200a) || v == 0x2028 || v == 0x2029 || v == 0x202f || v == 0x205f || v == 0x3000
}

/// The text without the white space around it: a part of it, nothing copied.
pub fn trim(text: &str) -> (inner: &str)
    ensures
        inner@ == trimmed(text@),
{
    let n: usize = text.unicode_len();
    let mut start: usize = 0;
    assert(text@.skip(0) =~= text@);
    while start < n && white(text.get_char(start))
        invariant
            n == text@.len(),
            start <= n,
            trimmed_start(text@) == trimmed_start(text@.skip(start as int)),
        decreases n - start,
    {
        assert(text@.skip(start as int).drop_first() =~= text@.skip(start + 1));
        start = start + 1;
    }
    let ghost front = text@.skip(start as int);
    assert(trimmed_start(text@) == front);
    let mut end: usize = n;
    assert(text@.subrange(start as int, n as int) =~= front);
    while start < end && white(text.get_char(end - 1))
        invariant
            n == text@.len(),
            start <= end <= n,
            trimmed_end(front) == trimmed_end(text@.subrange(start as int, end as int)),
        decreases end - start,
    {
        assert(text@.subrange(start as int, end as int).drop_last() =~= text@.subrange(
            start as int,
            end - 1,
        ));
        end = end - 1;
    }
    text.substring_char(start, end)
}

/// White space around a line is no part of it, and trimming twice is trimming
/// once.
pub proof fn law_trimming_twice_is_trimming_once(text: Seq<char>)
    ensures
        trimmed(trimmed(text)) == trimmed(text),
        trimmed(text).len() > 0 ==> !is_white(trimmed(text)[0]) && !is_white(trimmed(text).last()),
{
    lemma_trimmed_start(text);
    lemma_trimmed_end(trimmed_start(text));
}

proof fn lemma_trimmed_start(text: Seq<char>)
    ensures
        trimmed_start(text).len() > 0 ==> !is_white(trimmed_start(text)[0]),
    decreases text.len(),
{
    if text.len() > 0 && is_white(text[0]) {
        lemma_trimmed_start(text.drop_first());
    }
}

proof fn lemma_trimmed_end(text: Seq<char>)
    ensures
        trimmed_end(text).len() > 0 ==> !is_white(trimmed_end(text).last()) && trimmed_end(text)[0]
            == text[0],
    decreases text.len(),
{
    if text.len() > 0 && is_white(text.last()) {
        lemma_trimmed_end(text.drop_last());
    }
}

/// The first half of a surrogate pair.
pub open spec fn is_high(unit: u16) -> bool {
    0xd800 <= unit < 0xdc00
}

/// The second half of a surrogate pair.
pub open spec fn is_low(unit: u16) -> bool {
    0xdc00 <= unit < 0xe000
}

/// The UTF-16 units of one character: itself, or a surrogate pair.
pub open spec fn units_of(c: char) -> Seq<u16> {
    let v = c as u32;
    if v < 0x10000 {
        seq![v as u16]
    } else {
        seq![
            (0xd800 + (v - 0x10000) / 0x400) as u16,
            (0xdc00 + (v - 0x10000) % 0x400) as u16,
        ]
    }
}

/// The UTF-16 units of a text.
pub open spec fn encode_utf16(text: Seq<char>) -> Seq<u16>
    decreases text.len(),
{
    if text.len() == 0 {
        seq![]
    } else {
        units_of(text[0]) + encode_utf16(text.drop_first())
    }
}

/// The character a surrogate pair is.
pub open spec fn paired(high: u16, low: u16) -> char {
    (0x10000 + (high - 0xd800) * 0x400 + (low - 0xdc00)) as u32 as char
}

/// The text the units are the UTF-16 of, or nothing where a surrogate stands
/// alone.
pub open spec fn decode_utf16(units: Seq<u16>) -> Option<Seq<char>>
    decreases units.len(),
{
    if units.len() == 0 {
        Some(seq![])
    } else if !is_high(units[0]) && !is_low(units[0]) {
        match decode_utf16(units.drop_first()) {
            Some(rest) => Some(seq![units[0] as u32 as char] + rest),
            None => None,
        }
    } else if is_high(units[0]) && units.len() >= 2 && is_low(units[1]) {
        match decode_utf16(units.skip(2)) {
            Some(rest) => Some(seq![paired(units[0], units[1])] + rest),
            None => None,
        }
    } else {
        None
    }
}

proof fn lemma_encode_utf8_push(text: Seq<char>, c: char)
    ensures
        encode_utf8(text.push(c)) == encode_utf8(text) + encode_scalar(c as u32),
    decreases text.len(),
{
    if text.len() == 0 {
        let one = text.push(c);
        assert(one.drop_first() =~= text);
        assert(one[0] == c);
        assert(encode_utf8(text) =~= seq![]);
        assert(encode_utf8(one) == encode_scalar(one[0] as u32) + encode_utf8(one.drop_first()));
        assert(encode_utf8(one) =~= encode_scalar(c as u32));
        assert(encode_utf8(text) + encode_scalar(c as u32) =~= encode_scalar(c as u32));
    } else {
        assert(text.push(c).drop_first() =~= text.drop_first().push(c));
        lemma_encode_utf8_push(text.drop_first(), c);
        assert(encode_utf8(text.push(c)) =~= encode_utf8(text) + encode_scalar(c as u32));
    }
}

proof fn lemma_encode_utf16_push(text: Seq<char>, c: char)
    ensures
        encode_utf16(text.push(c)) == encode_utf16(text) + units_of(c),
    decreases text.len(),
{
    if text.len() == 0 {
        assert(text.push(c).drop_first() =~= text);
        assert(encode_utf16(text.push(c)) =~= units_of(c));
        assert(encode_utf16(text) + units_of(c) =~= units_of(c));
    } else {
        assert(text.push(c).drop_first() =~= text.drop_first().push(c));
        lemma_encode_utf16_push(text.drop_first(), c);
        assert(encode_utf16(text.push(c)) =~= encode_utf16(text) + units_of(c));
    }
}

/// The UTF-16 of a text reads back as that text.
pub proof fn law_utf16_reads_back(text: Seq<char>)
    ensures
        decode_utf16(encode_utf16(text)) == Some(text),
    decreases text.len(),
{
    if text.len() > 0 {
        let rest = text.drop_first();
        law_utf16_reads_back(rest);
        let units = encode_utf16(text);
        let c = text[0];
        let v = c as u32;
        char_is_scalar(c);
        char_u32_cast(c, v);
        if v < 0x10000 {
            assert(units.drop_first() =~= encode_utf16(rest));
            assert(units[0] == v);
        } else {
            assert(units.skip(2) =~= encode_utf16(rest));
            assert(units[0] == units_of(c)[0] && units[1] == units_of(c)[1]);
            let w = v - 0x10000;
            assert(w / 0x400 < 0x400 && (w / 0x400) * 0x400 + w % 0x400 == w) by (nonlinear_arith)
                requires
                    0 <= w < 0x100000,
            ;
            assert(units[0] - 0xd800 == w / 0x400 && units[1] - 0xdc00 == w % 0x400);
            assert(0x10000 + (units[0] - 0xd800) * 0x400 + (units[1] - 0xdc00) == v);
            assert(paired(units[0], units[1]) == c);
        }
        assert(seq![c] + rest =~= text);
    } else {
        assert(text =~= seq![]);
    }
}

/// A text never has more UTF-16 units than UTF-8 bytes, so room for its bytes
/// is room for its units.
pub proof fn law_units_are_no_more_than_bytes(text: Seq<char>)
    ensures
        encode_utf16(text).len() <= encode_utf8(text).len(),
    decreases text.len(),
{
    if text.len() > 0 {
        law_units_are_no_more_than_bytes(text.drop_first());
    }
}

/// A unit is at most three bytes of UTF-8, so a third of a buffer is as many
/// units as always fit in it.
pub proof fn law_bytes_are_at_most_three_a_unit(units: Seq<u16>)
    requires
        decode_utf16(units) is Some,
    ensures
        encode_utf8(decode_utf16(units)->0).len() <= 3 * units.len(),
    decreases units.len(),
{
    if units.len() > 0 {
        let pair = is_high(units[0]);
        let rest_units = if pair {
            units.skip(2)
        } else {
            units.drop_first()
        };
        law_bytes_are_at_most_three_a_unit(rest_units);
        let text = decode_utf16(units)->0;
        assert(text.drop_first() =~= decode_utf16(rest_units)->0);
    }
}

/// Put a character's UTF-8 at the end.
fn push_scalar(out: &mut Scrubbed, scalar: u32)
    requires
        is_scalar(scalar),
    ensures
        final(out)@ == old(out)@ + encode_scalar(scalar),
{
    let ghost before = out@;
    if scalar <= 0x7f {
        out.push((scalar & 0x7f) as u8);
    } else if scalar <= 0x7ff {
        out.push(0xc0 | ((scalar >> 6) & 0x1f) as u8);
        out.push(0x80 | (scalar & 0x3f) as u8);
    } else if scalar <= 0xffff {
        out.push(0xe0 | ((scalar >> 12) & 0x0f) as u8);
        out.push(0x80 | ((scalar >> 6) & 0x3f) as u8);
        out.push(0x80 | (scalar & 0x3f) as u8);
    } else {
        out.push(0xf0 | ((scalar >> 18) & 0x7) as u8);
        out.push(0x80 | ((scalar >> 12) & 0x3f) as u8);
        out.push(0x80 | ((scalar >> 6) & 0x3f) as u8);
        out.push(0x80 | (scalar & 0x3f) as u8);
    }
    assert(out@ =~= before + encode_scalar(scalar));
}

/// The UTF-8 of what the units are the UTF-16 of, or nothing where a surrogate
/// stands alone.
///
/// Room is made for every byte there can be before any is put in, so that it
/// never grows and leaves no copy behind.
pub fn utf16_to_utf8(units: &[u16]) -> (bytes: Option<Scrubbed>)
    ensures
        match (bytes, decode_utf16(units@)) {
            (Some(bytes), Some(text)) => bytes@ == encode_utf8(text),
            (None, None) => true,
            _ => false,
        },
{
    let room: usize = if units.len() <= usize::MAX / 3 {
        units.len() * 3
    } else {
        units.len()
    };
    let mut out = Scrubbed::new(Vec::with_capacity(room));
    let ghost mut done: Seq<char> = seq![];
    let mut i: usize = 0;
    assert(units@.skip(0) =~= units@);
    while i < units.len()
        invariant
            i <= units.len(),
            out@ == encode_utf8(done),
            decode_utf16(units@) == match decode_utf16(units@.skip(i as int)) {
                Some(rest) => Some(done + rest),
                None => None,
            },
        decreases units.len() - i,
    {
        let unit: u16 = units[i];
        let ghost here = units@.skip(i as int);
        assert(here[0] == unit);
        let is_surrogate = 0xd800 <= unit && unit < 0xe000;
        if !is_surrogate {
            push_scalar(&mut out, unit as u32);
            proof {
                let c = unit as u32 as char;
                assert(here.drop_first() =~= units@.skip(i + 1));
                lemma_encode_utf8_push(done, c);
                if decode_utf16(units@.skip(i + 1)) is Some {
                    let rest = decode_utf16(units@.skip(i + 1))->0;
                    assert(done + (seq![c] + rest) =~= done.push(c) + rest);
                }
                done = done.push(c);
            }
            i = i + 1;
        } else {
            if unit >= 0xdc00 || i + 1 >= units.len() {
                return None;
            }
            let next: u16 = units[i + 1];
            assert(here[1] == next);
            if next < 0xdc00 || next >= 0xe000 {
                return None;
            }
            let scalar: u32 = 0x10000 + (unit as u32 - 0xd800) * 0x400 + (next as u32 - 0xdc00);
            push_scalar(&mut out, scalar);
            proof {
                let c = paired(unit, next);
                assert(here.skip(2) =~= units@.skip(i + 2));
                lemma_encode_utf8_push(done, c);
                if decode_utf16(units@.skip(i + 2)) is Some {
                    let rest = decode_utf16(units@.skip(i + 2))->0;
                    assert(done + (seq![c] + rest) =~= done.push(c) + rest);
                }
                done = done.push(c);
            }
            i = i + 2;
        }
    }
    proof {
        assert(units@.skip(i as int) =~= seq![]);
        assert(done + seq![] =~= done);
    }
    Some(out)
}

/// The UTF-16 units of a text.
///
/// Room is made for as many units as the text has bytes before any is put in,
/// so that it never grows and leaves no copy behind.
pub fn text_to_utf16(text: &str) -> (units: Vec<u16>)
    ensures
        units@ == encode_utf16(text@),
{
    let mut out: Vec<u16> = Vec::with_capacity(text.len());
    let n: usize = text.unicode_len();
    let mut i: usize = 0;
    assert(text@.take(0) =~= seq![]);
    while i < n
        invariant
            i <= n,
            n == text@.len(),
            out@ == encode_utf16(text@.take(i as int)),
        decreases n - i,
    {
        let c = text.get_char(i);
        let v: u32 = c as u32;
        let ghost before = out@;
        if v < 0x10000 {
            out.push(v as u16);
        } else {
            out.push((0xd800 + (v - 0x10000) / 0x400) as u16);
            out.push((0xdc00 + (v - 0x10000) % 0x400) as u16);
        }
        proof {
            assert(out@ =~= before + units_of(c));
            assert(text@.take(i + 1) =~= text@.take(i as int).push(c));
            lemma_encode_utf16_push(text@.take(i as int), c);
        }
        i = i + 1;
    }
    assert(text@.take(n as int) =~= text@);
    out
}

/// How far into a text its leading white space goes.
proof fn lemma_leading(text: Seq<char>) -> (from: int)
    ensures
        0 <= from <= text.len(),
        trimmed_start(text) == text.skip(from),
        forall|i: int| 0 <= i < from ==> is_white(#[trigger] text[i]),
        from < text.len() ==> !is_white(text[from]),
    decreases text.len(),
{
    if text.len() > 0 && is_white(text[0]) {
        let rest = text.drop_first();
        let from = lemma_leading(rest);
        assert(rest.skip(from) =~= text.skip(from + 1));
        assert forall|i: int| 0 <= i < from + 1 implies is_white(#[trigger] text[i]) by {
            if i > 0 {
                assert(text[i] == rest[i - 1]);
            }
        }
        from + 1
    } else {
        assert(text.skip(0) =~= text);
        0
    }
}

/// Where in a text its trailing white space begins.
proof fn lemma_trailing(text: Seq<char>) -> (to: int)
    ensures
        0 <= to <= text.len(),
        trimmed_end(text) == text.take(to),
        forall|i: int| to <= i < text.len() ==> is_white(#[trigger] text[i]),
        to > 0 ==> !is_white(text[to - 1]),
    decreases text.len(),
{
    if text.len() > 0 && is_white(text.last()) {
        let rest = text.drop_last();
        let to = lemma_trailing(rest);
        assert(rest.take(to) =~= text.take(to));
        assert forall|i: int| to <= i < text.len() implies is_white(#[trigger] text[i]) by {
            if i < text.len() - 1 {
                assert(text[i] == rest[i]);
            }
        }
        to
    } else {
        assert(text.take(text.len() as int) =~= text);
        text.len() as int
    }
}

/// A text is the white space it begins with, its trim, and the white space it
/// ends with; the trim neither begins nor ends with any. White space is the tab
/// to the carriage return, the space, the next-line, and the no-break, ogham,
/// typographic, line-separator, paragraph-separator, narrow no-break,
/// mathematical and ideographic spaces, and nothing else.
pub proof fn law_only_white_space_is_trimmed(text: &str, inner: &str) -> (parts: (
    Seq<char>,
    Seq<char>,
))
    requires
        call_ensures(trim, (text,), inner),
    ensures
        inner@ == trimmed(text@),
        text@ == parts.0 + inner@ + parts.1,
        forall|i: int|
            #![trigger parts.0[i]]
            0 <= i < parts.0.len() ==> ({
                let c = parts.0[i] as u32;
                0x9 <= c <= 0xd || c == 0x20 || c == 0x85 || c == 0xa0 || c == 0x1680
                    || 0x2000 <= c <= 0x200a || c == 0x2028 || c == 0x2029 || c == 0x202f || c == 0x205f
                    || c == 0x3000
            }),
        forall|i: int|
            #![trigger parts.1[i]]
            0 <= i < parts.1.len() ==> ({
                let c = parts.1[i] as u32;
                0x9 <= c <= 0xd || c == 0x20 || c == 0x85 || c == 0xa0 || c == 0x1680
                    || 0x2000 <= c <= 0x200a || c == 0x2028 || c == 0x2029 || c == 0x202f || c == 0x205f
                    || c == 0x3000
            }),
        forall|i: int|
            #![trigger inner@[i]]
            0 <= i < inner@.len() && (i == 0 || i == inner@.len() - 1) ==> ({
                let c = inner@[i] as u32;
                !(0x9 <= c <= 0xd) && c != 0x20 && c != 0x85 && c != 0xa0 && c != 0x1680 && !(0x2000 <= c
                    <= 0x200a) && c != 0x2028 && c != 0x2029 && c != 0x202f && c != 0x205f && c != 0x3000
            }),
{
    let from = lemma_leading(text@);
    let front = text@.skip(from);
    let to = lemma_trailing(front);
    let parts = (text@.take(from), front.skip(to));
    assert(text@ =~= parts.0 + inner@ + parts.1);
    assert forall|i: int| 0 <= i < parts.0.len() implies is_white(#[trigger] parts.0[i]) by {
        assert(is_white(text@[i]));
    }
    assert forall|i: int| 0 <= i < parts.1.len() implies is_white(#[trigger] parts.1[i]) by {
        assert(is_white(front[to + i]));
    }
    law_trimming_twice_is_trimming_once(text@);
    parts
}

/// A text that begins and ends in a printable character is its own trim,
/// whatever stands between the two.
pub proof fn law_a_text_in_print_is_its_own_trim(text: &str, inner: &str)
    requires
        call_ensures(trim, (text,), inner),
        text@.len() > 0,
        '!' <= text@[0] <= '~',
        '!' <= text@.last() <= '~',
    ensures
        inner@ == text@,
{
    let (lead, tail) = law_only_white_space_is_trimmed(text, inner);
    if lead.len() > 0 {
        assert(text@[0] == lead[0]);
        assert(lead[0] as u32 == text@[0] as u32);
    }
    if tail.len() > 0 {
        assert(text@.last() == tail.last());
        assert(tail[tail.len() - 1] as u32 == text@.last() as u32);
    }
    assert(text@ =~= inner@);
}

/// White space put in front of a text or behind it is trimmed off again.
pub proof fn law_white_space_around_a_text_is_trimmed(
    text: &str,
    wider: &str,
    inner: &str,
    wider_inner: &str,
    lead: Seq<char>,
    tail: Seq<char>,
)
    requires
        call_ensures(trim, (text,), inner),
        call_ensures(trim, (wider,), wider_inner),
        wider@ == lead + text@ + tail,
        forall|i: int|
            #![trigger lead[i]]
            0 <= i < lead.len() ==> ({
                let c = lead[i] as u32;
                0x9 <= c <= 0xd || c == 0x20 || c == 0x85 || c == 0xa0 || c == 0x1680
                    || 0x2000 <= c <= 0x200a || c == 0x2028 || c == 0x2029 || c == 0x202f || c == 0x205f
                    || c == 0x3000
            }),
        forall|i: int|
            #![trigger tail[i]]
            0 <= i < tail.len() ==> ({
                let c = tail[i] as u32;
                0x9 <= c <= 0xd || c == 0x20 || c == 0x85 || c == 0xa0 || c == 0x1680
                    || 0x2000 <= c <= 0x200a || c == 0x2028 || c == 0x2029 || c == 0x202f || c == 0x205f
                    || c == 0x3000
            }),
    ensures
        wider_inner@ == inner@,
{
    assert forall|i: int| 0 <= i < lead.len() implies is_white(#[trigger] lead[i]) by {}
    assert forall|i: int| 0 <= i < tail.len() implies is_white(#[trigger] tail[i]) by {}
    lemma_lead_goes(lead, text@ + tail);
    assert(lead + (text@ + tail) =~= wider@);
    let from = lemma_leading(text@);
    let front = text@.skip(from);
    if from < text@.len() {
        lemma_lead_goes(text@.take(from), front + tail);
        assert(text@.take(from) + (front + tail) =~= text@ + tail);
        assert(trimmed_start(front + tail) == front + tail);
        lemma_tail_goes(front, tail);
    } else {
        lemma_lead_goes(text@ + tail, seq![]);
        assert((text@ + tail) + seq![] =~= text@ + tail);
        assert(front =~= seq![]);
    }
}

/// White space in front of a text goes, all of it.
proof fn lemma_lead_goes(lead: Seq<char>, text: Seq<char>)
    requires
        forall|i: int| 0 <= i < lead.len() ==> is_white(#[trigger] lead[i]),
    ensures
        trimmed_start(lead + text) == trimmed_start(text),
    decreases lead.len(),
{
    if lead.len() > 0 {
        assert((lead + text).drop_first() =~= lead.drop_first() + text);
        assert(is_white((lead + text)[0]));
        lemma_lead_goes(lead.drop_first(), text);
    } else {
        assert(lead + text =~= text);
    }
}

/// White space behind a text goes, all of it.
proof fn lemma_tail_goes(text: Seq<char>, tail: Seq<char>)
    requires
        forall|i: int| 0 <= i < tail.len() ==> is_white(#[trigger] tail[i]),
    ensures
        trimmed_end(text + tail) == trimmed_end(text),
    decreases tail.len(),
{
    if tail.len() > 0 {
        assert((text + tail).drop_last() =~= text + tail.drop_last());
        assert((text + tail).last() == tail.last());
        assert(is_white(tail[tail.len() - 1]));
        lemma_tail_goes(text, tail.drop_last());
    } else {
        assert(text + tail =~= text);
    }
}

/// A text with one character more has that character's units more: the
/// character itself below the supplementary planes, and above them the two
/// surrogates whose low ten bits are what it is past the first plane. A text
/// with nothing in it has none.
pub proof fn law_a_character_more_is_its_units_more(
    text: &str,
    longer: &str,
    c: char,
    units: Vec<u16>,
    more: Vec<u16>,
)
    requires
        call_ensures(text_to_utf16, (text,), units),
        call_ensures(text_to_utf16, (longer,), more),
        longer@ == text@.push(c),
    ensures
        text@.len() == 0 ==> units@.len() == 0,
        more@.len() >= units@.len() && more@.take(units@.len() as int) == units@,
        (c as u32) < 0x10000 ==> more@.len() == units@.len() + 1 && more@.last() == c as u32,
        c as u32 >= 0x10000 ==> {
            let (high, low) = (more@[units@.len() as int], more@.last());
            &&& more@.len() == units@.len() + 2
            &&& 0xd800 <= high <= 0xdbff
            &&& 0xdc00 <= low <= 0xdfff
            &&& c as u32 == 0x10000 + (high - 0xd800) * 0x400 + (low - 0xdc00)
        },
{
    lemma_encode_utf16_push(text@, c);
    char_is_scalar(c);
    assert(more@ =~= units@ + units_of(c));
    assert(more@.take(units@.len() as int) =~= units@);
    let w = c as u32 - 0x10000;
    if w >= 0 {
        assert(w / 0x400 < 0x400 && (w / 0x400) * 0x400 + w % 0x400 == w) by (nonlinear_arith)
            requires
                0 <= w < 0x100000,
        ;
    }
}

/// A surrogate at `i` stands without the other half.
pub open spec fn stands_alone(units: Seq<u16>, i: int) -> bool {
    ||| 0xd800 <= units[i] <= 0xdbff && (i + 1 >= units.len() || units[i + 1] < 0xdc00 || units[i + 1]
        > 0xdfff)
    ||| 0xdc00 <= units[i] <= 0xdfff && (i == 0 || units[i - 1] < 0xd800 || units[i - 1] > 0xdbff)
}

proof fn lemma_decodes(units: Seq<u16>)
    ensures
        match decode_utf16(units) {
            Some(text) => {
                &&& encode_utf16(text) == units
                &&& forall|i: int| 0 <= i < units.len() ==> !#[trigger] stands_alone(units, i)
            },
            None => exists|i: int| 0 <= i < units.len() && #[trigger] stands_alone(units, i),
        },
    decreases units.len(),
{
    if units.len() == 0 {
        assert(units =~= seq![]);
        assert(encode_utf16(seq![]) =~= seq![]);
    } else {
        let pair = is_high(units[0]) && units.len() >= 2 && is_low(units[1]);
        if !pair && (is_high(units[0]) || is_low(units[0])) {
            assert(stands_alone(units, 0));
        } else {
            let n: int = if pair {
                2
            } else {
                1
            };
            let rest = units.skip(n);
            assert(units.drop_first() =~= units.skip(1));
            lemma_decodes(rest);
            assert forall|i: int| 0 <= i < rest.len() implies #[trigger] stands_alone(rest, i)
                == stands_alone(units, i + n) by {
                assert(rest[i] == units[i + n]);
            }
            match decode_utf16(rest) {
                Some(text) => {
                    let c = if pair {
                        paired(units[0], units[1])
                    } else {
                        units[0] as u32 as char
                    };
                    let whole = decode_utf16(units)->0;
                    assert(whole == seq![c] + text);
                    assert(whole.drop_first() =~= text);
                    assert(whole[0] == c);
                    lemma_units_of_decoded(units);
                    assert(encode_utf16(whole) =~= units);
                    assert forall|i: int| 0 <= i < units.len() implies !#[trigger] stands_alone(
                        units,
                        i,
                    ) by {
                        if i >= n {
                            assert(!stands_alone(rest, i - n));
                        }
                    }
                },
                None => {
                    let i = choose|i: int| 0 <= i < rest.len() && #[trigger] stands_alone(rest, i);
                    assert(stands_alone(units, i + n));
                },
            }
        }
    }
}

/// The character at the front of the units has those units.
proof fn lemma_units_of_decoded(units: Seq<u16>)
    requires
        units.len() > 0,
    ensures
        is_high(units[0]) && units.len() >= 2 && is_low(units[1]) ==> units_of(
            paired(units[0], units[1]),
        ) =~= units.take(2),
        !is_high(units[0]) && !is_low(units[0]) ==> units_of(units[0] as u32 as char) =~= units.take(1),
{
    if is_high(units[0]) && units.len() >= 2 && is_low(units[1]) {
        let (h, l) = (units[0] - 0xd800, units[1] - 0xdc00);
        let v = (0x10000 + h * 0x400 + l) as u32;
        char_u32_cast(v as char, v);
        assert((h * 0x400 + l) / 0x400 == h && (h * 0x400 + l) % 0x400 == l) by (nonlinear_arith)
            requires
                0 <= h < 0x400,
                0 <= l < 0x400,
        ;
        assert(v - 0x10000 == h * 0x400 + l);
    } else if !is_high(units[0]) && !is_low(units[0]) {
        let v = units[0] as u32;
        char_u32_cast(v as char, v);
    }
}

/// Units become text unless a surrogate stands alone among them, and the bytes
/// that come out are the UTF-8 of the one text that has these units.
pub proof fn law_units_are_read_unless_a_surrogate_stands_alone(
    units: &[u16],
    bytes: Option<Scrubbed>,
    text: &str,
    of_text: Vec<u16>,
)
    requires
        call_ensures(utf16_to_utf8, (units,), bytes),
        call_ensures(text_to_utf16, (text,), of_text),
    ensures
        bytes is None <==> exists|i: int| 0 <= i < units@.len() && #[trigger] stands_alone(units@, i),
        of_text@ == units@ ==> bytes is Some && bytes->0@ == encode_utf8(text@),
        bytes is Some && bytes->0@ == encode_utf8(text@) ==> of_text@ == units@,
{
    lemma_decodes(units@);
    law_utf16_reads_back(text@);
    if bytes is Some && bytes->0@ == encode_utf8(text@) {
        encode_utf8_decode_utf8(text@);
        encode_utf8_decode_utf8(decode_utf16(units@)->0);
    }
}

} // verus!
