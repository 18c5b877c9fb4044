//! Reading and writing the values that the configuration is made of: decimal
//! numbers and comma-separated lists.

use vstd::prelude::*;
use vstd::string::StrSliceExecFns;
use vstd::string::StringExecFns;

verus! {

/// Whether a character is one of the ten decimal digits.
pub open spec fn is_digit(c: char) -> bool {
    '0' <= c <= '9'
}

/// The number that a decimal digit stands for.
pub open spec fn digit_value(c: char) -> nat {
    (c as nat - '0' as nat) as nat
}

/// The number that a row of decimal digits stands for. Leading zeros count
/// for nothing; the empty row stands for zero.
pub open spec fn digits_value(digits: Seq<char>) -> nat
    decreases digits.len(),
{
    if digits.len() == 0 {
        0
    } else {
        digits_value(digits.drop_last()) * 10 + digit_value(digits.last())
    }
}

/// Whether a text holds decimal digits and nothing else.
pub open spec fn all_digits(text: Seq<char>) -> bool {
    forall|i: int| 0 <= i < text.len() ==> is_digit(#[trigger] text[i])
}

/// The text without one leading `+`, if it has one.
pub open spec fn without_plus(text: Seq<char>) -> Seq<char> {
    if text.len() > 0 && text[0] == '+' {
        text.drop_first()
    } else {
        text
    }
}

/// The number that a text stands for, if it is one that fits: an optional `+`,
/// then one or more decimal digits and nothing else, with a value of at most
/// `max`.
pub open spec fn parse_unsigned(text: Seq<char>, max: nat) -> Option<nat> {
    let digits = without_plus(text);
    if digits.len() > 0 && all_digits(digits) && digits_value(digits) <= max {
        Some(digits_value(digits))
    } else {
        None
    }
}

/// A row of digits stands for at least as much as any of its front parts.
pub proof fn lemma_digits_value_grows(digits: Seq<char>, k: int)
    requires
        0 <= k <= digits.len(),
    ensures
        digits_value(digits.take(k)) <= digits_value(digits),
    decreases digits.len() - k,
{
    if k == digits.len() {
        assert(digits.take(k) =~= digits);
    } else {
        lemma_digits_value_grows(digits, k + 1);
        assert(digits.take(k + 1).drop_last() =~= digits.take(k));
    }
}

/// Reads an unsigned decimal number of at most `max`.
pub fn parse_number(text: &str, max: u64) -> (number: Option<u64>)
    ensures
        match number {
            Some(n) => parse_unsigned(text@, max as nat) == Some(n as nat),
            None => parse_unsigned(text@, max as nat) is None,
        },
{
    let len = text.unicode_len();
    if len == 0 {
        return None;
    }
    let start: usize = if text.get_char(0) == '+' {
        1
    } else {
        0
    };
    if start == len {
        return None;
    }
    let ghost digits = without_plus(text@);
    assert(digits =~= text@.skip(start as int));
    let mut value: u64 = 0;
    let mut i: usize = start;
    assert(digits.take(0) =~= Seq::<char>::empty());
    while i < len
        invariant
            start <= i <= len,
            len == text@.len(),
            digits == without_plus(text@),
            digits.len() == len - start,
            forall|j: int| 0 <= j < digits.len() ==> digits[j] == text@[start + j],
            all_digits(digits.take(i - start)),
            value == digits_value(digits.take(i - start)),
            value <= max,
        decreases len - i,
    {
        let c = text.get_char(i);
        let ghost seen = digits.take(i - start);
        let ghost more = digits.take(i - start + 1);
        assert(more.drop_last() =~= seen);
        assert(more.last() == c);
        if !(c >= '0' && c <= '9') {
            assert(!is_digit(digits[i - start]));
            return None;
        }
        let d: u64 = (c as u32 - '0' as u32) as u64;
        assert(d == digit_value(c));
        if d > max || value > (max - d) / 10 {
            proof {
                assert(digits_value(more) > max);
                lemma_digits_value_grows(digits, i - start + 1);
            }
            return None;
        }
        value = value * 10 + d;
        assert forall|j: int| 0 <= j < more.len() implies is_digit(#[trigger] more[j]) by {
            if j < seen.len() {
                assert(more[j] == seen[j]);
            }
        }
        i += 1;
    }
    assert(digits.take(len - start) =~= digits);
    Some(value)
}

/// Where the separator first stands in a text; the length of the text if it
/// stands nowhere.
pub open spec fn first_index_of(text: Seq<char>, separator: char) -> int
    decreases text.len(),
{
    if text.len() == 0 {
        0
    } else if text[0] == separator {
        0
    } else {
        1 + first_index_of(text.drop_first(), separator)
    }
}

/// The pieces of a text between its separators, in order. A text without
/// separator is one piece; two separators in a row, or one at either end,
/// bound an empty piece. There is always one piece more than there are
/// separators.
pub open spec fn split(text: Seq<char>, separator: char) -> Seq<Seq<char>>
    decreases text.len(),
{
    let at = first_index_of(text, separator);
    if 0 <= at < text.len() {
        seq![text.take(at)] + split(text.skip(at + 1), separator)
    } else {
        seq![text]
    }
}

/// The separator first stands at `at` if it stands there and nowhere before;
/// it stands nowhere if `at` is the length of the text.
pub proof fn lemma_first_index_of(text: Seq<char>, separator: char, at: int)
    requires
        0 <= at <= text.len(),
        forall|j: int| 0 <= j < at ==> text[j] != separator,
        at < text.len() ==> text[at] == separator,
    ensures
        first_index_of(text, separator) == at,
    decreases text.len(),
{
    if text.len() > 0 && at > 0 {
        let rest = text.drop_first();
        assert forall|j: int| 0 <= j < at - 1 implies rest[j] != separator by {
            assert(rest[j] == text[j + 1]);
        }
        lemma_first_index_of(rest, separator, at - 1);
    }
}

/// The views of a row of strings.
pub open spec fn texts(strings: Seq<String>) -> Seq<Seq<char>> {
    strings.map_values(|s: String| s@)
}

/// Cuts a text at every separator.
pub fn split_on(text: &str, separator: char) -> (pieces: Vec<String>)
    ensures
        texts(pieces@) == split(text@, separator),
{
    let len = text.unicode_len();
    let mut pieces: Vec<String> = Vec::new();
    let mut start: usize = 0;
    let mut i: usize = 0;
    assert(text@.skip(0) =~= text@);
    assert(texts(pieces@) =~= Seq::<Seq<char>>::empty());
    assert(texts(pieces@) + split(text@.skip(0), separator) =~= split(text@, separator));
    while i < len
        invariant
            start <= i <= len,
            len == text@.len(),
            split(text@, separator) == texts(pieces@) + split(text@.skip(start as int), separator),
            forall|j: int| start <= j < i ==> text@[j] != separator,
        decreases len - i,
    {
        let c = text.get_char(i);
        if c == separator {
            let piece = text.substring_char(start, i).to_owned();
            proof {
                let rest = text@.skip(start as int);
                assert forall|j: int| 0 <= j < i - start implies rest[j] != separator by {
                    assert(rest[j] == text@[start + j]);
                }
                lemma_first_index_of(rest, separator, i - start);
                assert(rest.take(i - start) =~= text@.subrange(start as int, i as int));
                assert(rest.skip(i - start + 1) =~= text@.skip(i + 1));
                assert(texts(pieces@.push(piece)) =~= texts(pieces@).push(piece@));
                assert(texts(pieces@).push(piece@) + split(text@.skip(i + 1), separator) =~= texts(
                    pieces@,
                ) + (seq![piece@] + split(text@.skip(i + 1), separator)));
            }
            pieces.push(piece);
            start = i + 1;
        }
        i += 1;
    }
    let piece = text.substring_char(start, len).to_owned();
    proof {
        let rest = text@.skip(start as int);
        assert forall|j: int| 0 <= j < rest.len() implies rest[j] != separator by {
            assert(rest[j] == text@[start + j]);
        }
        lemma_first_index_of(rest, separator, rest.len() as int);
        assert(rest =~= text@.subrange(start as int, len as int));
        assert(texts(pieces@.push(piece)) =~= texts(pieces@).push(piece@));
        assert(texts(pieces@).push(piece@) =~= texts(pieces@) + seq![piece@]);
    }
    pieces.push(piece);
    pieces
}

/// The character that stands for a number below ten.
pub open spec fn digit_char(d: nat) -> char {
    if d == 0 {
        '0'
    } else if d == 1 {
        '1'
    } else if d == 2 {
        '2'
    } else if d == 3 {
        '3'
    } else if d == 4 {
        '4'
    } else if d == 5 {
        '5'
    } else if d == 6 {
        '6'
    } else if d == 7 {
        '7'
    } else if d == 8 {
        '8'
    } else {
        '9'
    }
}

/// A number written in decimal digits, without sign or leading zeros.
pub open spec fn decimal(n: nat) -> Seq<char>
    decreases n,
{
    if n < 10 {
        seq![digit_char(n)]
    } else {
        decimal(n / 10).push(digit_char(n % 10))
    }
}

/// The one-character text of a number below ten.
fn digit_text(d: u64) -> (text: &'static str)
    requires
        d < 10,
    ensures
        text@ == seq![digit_char(d as nat)],
{
    proof {
        reveal_strlit("0");
        reveal_strlit("1");
        reveal_strlit("2");
        reveal_strlit("3");
        reveal_strlit("4");
        reveal_strlit("5");
        reveal_strlit("6");
        reveal_strlit("7");
        reveal_strlit("8");
        reveal_strlit("9");
    }
    let text = if d == 0 {
        "0"
    } else if d == 1 {
        "1"
    } else if d == 2 {
        "2"
    } else if d == 3 {
        "3"
    } else if d == 4 {
        "4"
    } else if d == 5 {
        "5"
    } else if d == 6 {
        "6"
    } else if d == 7 {
        "7"
    } else if d == 8 {
        "8"
    } else {
        "9"
    };
    assert(text@ =~= seq![digit_char(d as nat)]);
    text
}

/// Writes a number in decimal digits at the end of a text.
pub fn push_decimal(text: &mut String, n: u64)
    ensures
        final(text)@ == old(text)@ + decimal(n as nat),
    decreases n,
{
    if n >= 10 {
        push_decimal(text, n / 10);
    }
    let ghost before = text@;
    text.append(digit_text(n % 10));
    proof {
        if n >= 10 {
            assert(old(text)@ + decimal(n as nat / 10).push(digit_char(n as nat % 10)) =~= before
                + seq![digit_char(n as nat % 10)]);
        }
    }
}

} // verus!
