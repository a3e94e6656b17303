//! Numbers as text: the numerals that messages are built from.

use vstd::prelude::*;
#[allow(unused_imports)]
use vstd::utf8::encode_utf8_decode_utf8;

use crate::scrubbed::same_bytes;

verus! {

/// The character of the digit `d`, for any base up to sixteen.
pub open spec fn digit_char(d: nat) -> char
{
    if d < 10 {
        (('0' as u32) + d) as char
    } else {
        (('a' as u32) + (d - 10)) as char
    }
}

/// `n` written in `base` without leading zeros: what `{}` prints for ten, `{:o}`
/// for eight and `{:x}` for sixteen.
pub open spec fn numeral(n: nat, base: nat) -> Seq<char>
    decreases n,
{
    if base < 2 || n < base {
        seq![digit_char(n)]
    } else {
        proof {
            assert(n / base < n) by (nonlinear_arith)
                requires
                    2 <= base <= n,
            ;
        }
        numeral(n / base, base).push(digit_char(n % base))
    }
}

/// `n` in decimal.
pub open spec fn decimal(n: int) -> Seq<char> {
    if n < 0 {
        "-"@ + numeral((-n) as nat, 10)
    } else {
        numeral(n as nat, 10)
    }
}

/// `n` in hexadecimal, padded on the left with zeros to `width` digits.
pub open spec fn padded_hex(n: nat, width: nat) -> Seq<char>
    decreases width,
{
    if width == 0 {
        Seq::empty()
    } else {
        padded_hex(n / 16, (width - 1) as nat).push(digit_char(n % 16))
    }
}

/// The two hexadecimal digits of each byte, in order.
pub open spec fn hex_bytes(bytes: Seq<u8>) -> Seq<char>
    decreases bytes.len(),
{
    if bytes.len() == 0 {
        Seq::empty()
    } else {
        hex_bytes(bytes.drop_last()) + padded_hex(bytes.last() as nat, 2)
    }
}

/// One digit, as the one-character text that prints it.
pub fn digit_text(d: u64) -> (text: &'static str)
    requires
        d < 16,
    ensures
        text@ == seq![digit_char(d as nat)],
{
    proof {
        reveal_strlit("0");
        reveal_strlit("1");
        reveal_strlit("2");
        reveal_strlit("3");
        reveal_strlit("4");
        reveal_strlit("5");
        reveal_strlit("6");
        reveal_strlit("7");
        reveal_strlit("8");
        reveal_strlit("9");
        reveal_strlit("a");
        reveal_strlit("b");
        reveal_strlit("c");
        reveal_strlit("d");
        reveal_strlit("e");
        reveal_strlit("f");
    }
    match d {
        0 => "0",
        1 => "1",
        2 => "2",
        3 => "3",
        4 => "4",
        5 => "5",
        6 => "6",
        7 => "7",
        8 => "8",
        9 => "9",
        10 => "a",
        11 => "b",
        12 => "c",
        13 => "d",
        14 => "e",
        _ => "f",
    }
}

/// `n` written in `base`.
pub fn numeral_text(n: u64, base: u64) -> (text: String)
    requires
        2 <= base <= 16,
    ensures
        text@ == numeral(n as nat, base as nat),
    decreases n,
{
    if n < base {
        digit_text(n).to_owned()
    } else {
        assert(n / base < n) by (nonlinear_arith)
            requires
                2 <= base <= n,
        ;
        assert(n % base < base) by (nonlinear_arith)
            requires
                2 <= base,
        ;
        let mut text = numeral_text(n / base, base);
        text.append(digit_text(n % base));
        assert(text@ =~= numeral(n as nat, base as nat));
        text
    }
}

/// `n` in decimal.
pub fn decimal_text(n: u64) -> (text: String)
    ensures
        text@ == decimal(n as int),
{
    numeral_text(n, 10)
}

/// `n` in decimal, with its sign when it is negative.
pub fn signed_text(n: i64) -> (text: String)
    ensures
        text@ == decimal(n as int),
{
    if n < 0 {
        let magnitude: u64 = (-(n + 1)) as u64 + 1;
        let mut text = "-".to_owned();
        text.append(numeral_text(magnitude, 10).as_str());
        text
    } else {
        numeral_text(n as u64, 10)
    }
}

/// `n` in hexadecimal, padded with zeros to `width` digits.
pub fn padded_hex_text(n: u64, width: u64) -> (text: String)
    ensures
        text@ == padded_hex(n as nat, width as nat),
    decreases width,
{
    if width == 0 {
        String::new()
    } else {
        let mut text = padded_hex_text(n / 16, width - 1);
        text.append(digit_text(n % 16));
        assert(text@ =~= padded_hex(n as nat, width as nat));
        text
    }
}

/// The hexadecimal digits of `bytes`.
pub fn hex_text(bytes: &[u8]) -> (text: String)
    ensures
        text@ == hex_bytes(bytes@),
{
    let mut text = String::new();
    let mut i: usize = 0;
    assert(bytes@.take(0) =~= Seq::<u8>::empty());
    while i < bytes.len()
        invariant
            i <= bytes.len(),
            text@ == hex_bytes(bytes@.take(i as int)),
        decreases bytes.len() - i,
    {
        text.append(padded_hex_text(bytes[i] as u64, 2).as_str());
        assert(bytes@.take(i + 1).drop_last() =~= bytes@.take(i as int));
        i = i + 1;
    }
    assert(bytes@.take(bytes.len() as int) =~= bytes@);
    text
}

/// Whether two texts are the same text.
pub fn same_text(a: &str, b: &str) -> (same: bool)
    ensures
        same == (a@ == b@),
{
    proof {
        encode_utf8_decode_utf8(a@);
        encode_utf8_decode_utf8(b@);
    }
    same_bytes(a.as_bytes(), b.as_bytes())
}

/// What a character counts as a digit: nought to nine, then the small letters
/// from ten.
pub open spec fn digit_value(c: char) -> int {
    if '0' <= c <= '9' {
        c as u32 - '0' as u32
    } else if 'a' <= c <= 'f' {
        c as u32 - 'a' as u32 + 10
    } else {
        -1
    }
}

/// The number that digits are read as in `base`, the first weighing most.
pub open spec fn reads_as(digits: Seq<char>, base: nat) -> int
    decreases digits.len(),
{
    if digits.len() == 0 {
        0
    } else {
        reads_as(digits.drop_last(), base) * base + digit_value(digits.last())
    }
}

proof fn lemma_digit(d: nat)
    requires
        d < 16,
    ensures
        digit_value(digit_char(d)) == d,
        digit_char(d) == '0' <==> d == 0,
{
}

proof fn lemma_numeral(n: nat, base: nat)
    requires
        2 <= base <= 16,
    ensures
        reads_as(numeral(n, base), base) == n,
        numeral(n, base).len() >= 1,
        numeral(n, base)[0] == '0' ==> n == 0 && numeral(n, base).len() == 1,
        forall|i: int|
            0 <= i < numeral(n, base).len() ==> 0 <= digit_value(#[trigger] numeral(n, base)[i]) < base,
    decreases n,
{
    let digits = numeral(n, base);
    if n < base {
        lemma_digit(n);
        assert(digits.drop_last() =~= seq![]);
        assert(reads_as(digits.drop_last(), base) == 0);
        assert(0 * base == 0);
    } else {
        assert(n / base < n && n / base > 0 && n % base < base && (n / base) * base + n % base == n)
            by (nonlinear_arith)
            requires
                2 <= base <= n,
        ;
        lemma_numeral(n / base, base);
        lemma_digit(n % base);
        let front = numeral(n / base, base);
        assert(digits.drop_last() =~= front);
        assert forall|i: int| 0 <= i < digits.len() implies 0 <= digit_value(#[trigger] digits[i])
            < base by {
            if i < front.len() {
                assert(digits[i] == front[i]);
            }
        }
        assert(digits[0] == front[0]);
    }
}

proof fn lemma_padded(n: nat, width: nat)
    ensures
        padded_hex(n, width).len() == width,
        n < vstd::arithmetic::power::pow(16, width) ==> reads_as(padded_hex(n, width), 16) == n,
        forall|i: int| 0 <= i < width ==> 0 <= digit_value(#[trigger] padded_hex(n, width)[i]) < 16,
    decreases width,
{
    reveal(vstd::arithmetic::power::pow);
    if width > 0 {
        let front = padded_hex(n / 16, (width - 1) as nat);
        let digits = padded_hex(n, width);
        lemma_padded(n / 16, (width - 1) as nat);
        lemma_digit(n % 16);
        assert(digits.drop_last() =~= front);
        assert forall|i: int| 0 <= i < width implies 0 <= digit_value(#[trigger] digits[i]) < 16 by {
            if i < width - 1 {
                assert(digits[i] == front[i]);
            }
        }
    }
}

/// A digit is one character, and counts as the digit it is of.
pub proof fn law_a_digit_reads_back(d: u64, text: &'static str)
    requires
        d < 16,
        call_ensures(digit_text, (d,), text),
    ensures
        text@.len() == 1,
        digit_value(text@[0]) == d,
{
    lemma_digit(d as nat);
}

/// A number's digits read back as the number, in the base they were written
/// in, and no nought stands in front of another digit.
pub proof fn law_a_numeral_reads_back(n: u64, base: u64, text: String)
    requires
        2 <= base <= 16,
        call_ensures(numeral_text, (n, base), text),
    ensures
        reads_as(text@, base as nat) == n,
        text@.len() >= 1,
        text@.len() > 1 ==> text@[0] != '0',
        forall|i: int| 0 <= i < text@.len() ==> 0 <= digit_value(#[trigger] text@[i]) < base,
{
    lemma_numeral(n as nat, base as nat);
}

/// A number in decimal reads back as the number; a negative one is a dash and
/// the digits of what it is short of nought by.
pub proof fn law_a_decimal_reads_back(n: u64, text: String, m: i64, signed: String)
    requires
        call_ensures(decimal_text, (n,), text),
        call_ensures(signed_text, (m,), signed),
    ensures
        reads_as(text@, 10) == n,
        text@.len() >= 1,
        text@.len() > 1 ==> text@[0] != '0',
        m >= 0 ==> reads_as(signed@, 10) == m,
        m < 0 ==> signed@.len() >= 2 && signed@[0] == '-' && signed@[1] != '0' && reads_as(
            signed@.drop_first(),
            10,
        ) == -m,
{
    lemma_numeral(n as nat, 10);
    reveal_strlit("-");
    if m < 0 {
        lemma_numeral((-m) as nat, 10);
        assert(signed@.drop_first() =~= numeral((-m) as nat, 10));
    } else {
        lemma_numeral(m as nat, 10);
    }
}

/// A number in padded hexadecimal has as many digits as it was padded to, and
/// reads back as the number wherever that many digits can hold it.
pub proof fn law_padded_hexadecimal_reads_back(n: u64, width: u64, text: String)
    requires
        call_ensures(padded_hex_text, (n, width), text),
    ensures
        text@.len() == width,
        n < vstd::arithmetic::power::pow(16, width as nat) ==> reads_as(text@, 16) == n,
        forall|i: int| 0 <= i < width ==> 0 <= digit_value(#[trigger] text@[i]) < 16,
{
    lemma_padded(n as nat, width as nat);
}

proof fn lemma_hex(bytes: Seq<u8>, i: int)
    requires
        0 <= i < bytes.len(),
    ensures
        hex_bytes(bytes).len() == 2 * bytes.len(),
        hex_bytes(bytes).subrange(2 * i, 2 * i + 2) == padded_hex(bytes[i] as nat, 2),
    decreases bytes.len(),
{
    let front = bytes.drop_last();
    let text = hex_bytes(bytes);
    lemma_padded(bytes.last() as nat, 2);
    if i < front.len() {
        lemma_hex(front, i);
        assert(text.subrange(2 * i, 2 * i + 2) =~= hex_bytes(front).subrange(2 * i, 2 * i + 2));
    } else {
        if front.len() > 0 {
            lemma_hex(front, front.len() - 1);
        } else {
            assert(hex_bytes(front) =~= seq![]);
        }
        assert(i == front.len() && bytes[i] == bytes.last());
        assert(text == hex_bytes(front) + padded_hex(bytes.last() as nat, 2));
        assert(text.subrange(2 * i, 2 * i + 2) =~= padded_hex(bytes[i] as nat, 2));
    }
}

/// Bytes in hexadecimal are two digits each, in order: the two at a byte's place
/// read back as the byte.
pub proof fn law_each_byte_is_its_two_digits(bytes: &[u8], i: int, text: String)
    requires
        call_ensures(hex_text, (bytes,), text),
        0 <= i < bytes@.len(),
    ensures
        text@.len() == 2 * bytes@.len(),
        reads_as(text@.subrange(2 * i, 2 * i + 2), 16) == bytes@[i],
        0 <= digit_value(text@[2 * i]) < 16,
        0 <= digit_value(text@[2 * i + 1]) < 16,
{
    lemma_hex(bytes@, i);
    lemma_padded(bytes@[i] as nat, 2);
    reveal_with_fuel(vstd::arithmetic::power::pow, 3);
    let two = text@.subrange(2 * i, 2 * i + 2);
    assert(two[0] == text@[2 * i] && two[1] == text@[2 * i + 1]);
}

/// Two texts are the same exactly where they are as long and agree at every
/// character.
pub proof fn law_the_same_texts_agree_at_every_character(a: &str, b: &str, same: bool)
    requires
        call_ensures(same_text, (a, b), same),
    ensures
        same <==> a@.len() == b@.len() && forall|i: int| 0 <= i < a@.len() ==> a@[i] == b@[i],
{
    if a@.len() == b@.len() && forall|i: int| 0 <= i < a@.len() ==> a@[i] == b@[i] {
        assert(a@ =~= b@);
    }
}

} // verus!
