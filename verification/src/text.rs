//! Text primitives of the loader: decimal integers and separated lists.

use vstd::prelude::*;
use vstd::std_specs::iter::IteratorSpec;
use std::str::Chars;

verus! {

/// Whether `c` is one of the ASCII digits `0` to `9`.
pub open spec fn is_digit(c: char) -> bool {
    '0' <= c && c <= '9'
}

/// The number that an ASCII digit stands for; zero for any other character.
pub open spec fn digit_value(c: char) -> nat {
    if is_digit(c) {
        (c as u32 - '0' as u32) as nat
    } else {
        0
    }
}

/// Whether `s` consists of ASCII digits only.
pub open spec fn all_digits(s: Seq<char>) -> bool {
    forall|i: int| 0 <= i < s.len() ==> is_digit(#[trigger] s[i])
}

/// The number written by the digits of `s` in base ten, most significant
/// digit first. The empty text has the value zero.
pub open spec fn decimal_value(s: Seq<char>) -> nat
    decreases s.len(),
{
    if s.len() == 0 {
        0
    } else {
        10 * decimal_value(s.drop_last()) + digit_value(s.last())
    }
}

/// What a run of digits is worth as a `u64`: `None` when the run is empty,
/// holds anything but digits, or names a number above `u64::MAX`.
pub open spec fn digits_to_u64(s: Seq<char>) -> Option<u64> {
    if s.len() > 0 && all_digits(s) && decimal_value(s) <= u64::MAX {
        Some(decimal_value(s) as u64)
    } else {
        None
    }
}

/// Whether `s` begins with the character `c`.
pub open spec fn starts_with_char(s: Seq<char>, c: char) -> bool {
    s.len() > 0 && s[0] == c
}

/// The digits of an unsigned decimal: the text without one leading `+`.
pub open spec fn unsigned_digits(s: Seq<char>) -> Seq<char> {
    if starts_with_char(s, '+') {
        s.skip(1)
    } else {
        s
    }
}

/// The digits of a signed decimal: the text without one leading `+` or `-`.
pub open spec fn signed_digits(s: Seq<char>) -> Seq<char> {
    if starts_with_char(s, '+') || starts_with_char(s, '-') {
        s.skip(1)
    } else {
        s
    }
}

/// The integer that a signed decimal names: its digits' value, negated
/// when the text begins with `-`.
pub open spec fn signed_value(s: Seq<char>) -> int {
    if starts_with_char(s, '-') {
        -(decimal_value(signed_digits(s)) as int)
    } else {
        decimal_value(signed_digits(s)) as int
    }
}

/// The `u64` that `s` denotes: an optional `+`, then one or more ASCII
/// digits, worth at most `u64::MAX`. Any other text, the empty one, and a
/// text with blanks or a `-` included, denotes nothing.
pub open spec fn parse_u64_spec(s: Seq<char>) -> Option<u64> {
    digits_to_u64(unsigned_digits(s))
}

/// The `i64` that `s` denotes: an optional `+` or `-`, then one or more
/// ASCII digits, the whole within `i64::MIN ..= i64::MAX`. Any other text
/// denotes nothing.
pub open spec fn parse_i64_spec(s: Seq<char>) -> Option<i64> {
    let digits = signed_digits(s);
    if digits.len() > 0 && all_digits(digits) && i64::MIN <= signed_value(s) <= i64::MAX {
        Some(signed_value(s) as i64)
    } else {
        None
    }
}

/// A longer run of digits is worth at least as much as any of its prefixes.
pub proof fn lemma_decimal_value_prefix(s: Seq<char>, n: int)
    requires
        0 <= n <= s.len(),
    ensures
        decimal_value(s.take(n)) <= decimal_value(s),
    decreases s.len(),
{
    if n < s.len() {
        lemma_decimal_value_prefix(s.drop_last(), n);
        assert(s.drop_last().take(n) =~= s.take(n));
    } else {
        assert(s.take(n) =~= s);
    }
}

/// The value of a text of one, two or three characters, digit by digit.
pub proof fn lemma_short_decimal_values(s: Seq<char>)
    requires
        1 <= s.len() <= 3,
    ensures
        s.len() == 1 ==> decimal_value(s) == digit_value(s[0]),
        s.len() == 2 ==> decimal_value(s) == 10 * digit_value(s[0]) + digit_value(s[1]),
        s.len() == 3 ==> decimal_value(s) == 100 * digit_value(s[0]) + 10 * digit_value(s[1])
            + digit_value(s[2]),
{
    reveal_with_fuel(decimal_value, 4);
    if s.len() == 2 {
        assert(s.drop_last().drop_last().len() == 0);
    } else if s.len() == 3 {
        assert(s.drop_last().drop_last().drop_last().len() == 0);
    }
}

/// Reads `text`, from its first character or past a sign in that place,
/// as a run of ASCII digits.
fn read_digits(text: &str, past_sign: bool) -> (value: Option<u64>)
    requires
        past_sign ==> text@.len() > 0,
    ensures
        value == digits_to_u64(
            if past_sign {
                text@.skip(1)
            } else {
                text@
            },
        ),
{
    let ghost start: int = if past_sign { 1 } else { 0 };
    let ghost digits: Seq<char> = text@.skip(start);
    let mut rest = text.chars();
    if past_sign {
        let _ = rest.next();
        proof {
            assert(text@.drop_first() =~= text@.skip(1));
        }
    }
    let mut acc: u64 = 0;
    let mut seen: bool = false;
    let ghost mut i: int = 0;
    proof {
        assert(text@.skip(0) =~= text@);
        assert(digits.skip(0) =~= digits);
    }
    loop
        invariant
            rest.obeys_prophetic_iter_laws(),
            0 <= i <= digits.len(),
            start == (if past_sign { 1int } else { 0int }),
            start <= text@.len(),
            digits == text@.skip(start),
            !past_sign ==> digits == text@,
            rest.remaining() == digits.skip(i),
            seen == (i > 0),
            all_digits(digits.take(i)),
            acc == decimal_value(digits.take(i)),
        decreases text@.len() - start - i,
    {
        let next: Option<char> = rest.next();
        match next {
            None => {
                proof {
                    assert(digits.take(i) =~= digits);
                }
                if seen {
                    return Some(acc);
                } else {
                    return None;
                }
            },
            Some(c) => {
                proof {
                    assert(digits.skip(i).drop_first() =~= digits.skip(i + 1));
                    assert(digits.take(i + 1).drop_last() =~= digits.take(i));
                    assert(digits.take(i + 1).last() == c);
                }
                if c < '0' || c > '9' {
                    proof {
                        assert(!is_digit(digits[i]));
                    }
                    return None;
                }
                let d: u64 = (c as u32 - '0' as u32) as u64;
                let grown: Option<u64> = match acc.checked_mul(10) {
                    Some(shifted) => shifted.checked_add(d),
                    None => None,
                };
                match grown {
                    Some(n) => {
                        acc = n;
                    },
                    None => {
                        proof {
                            lemma_decimal_value_prefix(digits, i + 1);
                        }
                        return None;
                    },
                }
                seen = true;
                proof {
                    i = i + 1;
                }
            },
        }
    }
}

/// The first character of `text`, if it has one.
fn first_char(text: &str) -> (first: Option<char>)
    ensures
        first == (if text@.len() > 0 {
            Some(text@[0])
        } else {
            None
        }),
{
    let mut probe = text.chars();
    probe.next()
}

/// Reads `text` as an unsigned decimal integer.
pub fn parse_u64(text: &str) -> (value: Option<u64>)
    ensures
        value == parse_u64_spec(text@),
{
    match first_char(text) {
        Some('+') => read_digits(text, true),
        _ => read_digits(text, false),
    }
}

/// Reads `text` as a signed decimal integer.
pub fn parse_i64(text: &str) -> (value: Option<i64>)
    ensures
        value == parse_i64_spec(text@),
{
    let first: Option<char> = first_char(text);
    let negative: bool = first == Some('-');
    let magnitude: Option<u64> = read_digits(text, negative || first == Some('+'));
    match magnitude {
        Some(m) => {
            if m <= 0x7fff_ffff_ffff_ffff {
                if negative {
                    Some(-(m as i64))
                } else {
                    Some(m as i64)
                }
            } else if negative && m == 0x8000_0000_0000_0000 {
                Some(i64::MIN)
            } else {
                None
            }
        },
        None => None,
    }
}

/// The place of the first `c` in `s`, counted from zero; the length of `s`
/// when `s` holds no `c`.
pub open spec fn position_of(s: Seq<char>, c: char) -> int
    decreases s.len(),
{
    if s.len() == 0 || s[0] == c {
        0
    } else {
        1 + position_of(s.drop_first(), c)
    }
}

/// The pieces of `s` between the occurrences of `separator`, in order. A
/// text without the separator is its own single piece, so the empty text
/// has one empty piece; two separators in a row, or one at either end, give
/// an empty piece there.
pub open spec fn split_on(s: Seq<char>, separator: char) -> Seq<Seq<char>>
    decreases s.len(),
{
    let at = position_of(s, separator);
    if 0 <= at < s.len() {
        seq![s.take(at)] + split_on(s.skip(at + 1), separator)
    } else {
        seq![s]
    }
}

/// The texts that a sequence of strings holds.
pub open spec fn views(strings: Seq<String>) -> Seq<Seq<char>> {
    strings.map_values(|s: String| s@)
}

/// `position_of` finds the place `k` before which no `c` stands and at
/// which either a `c` stands or the text ends.
pub proof fn lemma_position_of(s: Seq<char>, c: char, k: int)
    requires
        0 <= k <= s.len(),
        forall|j: int| 0 <= j < k ==> s[j] != c,
        k < s.len() ==> s[k] == c,
    ensures
        position_of(s, c) == k,
    decreases k,
{
    if k > 0 {
        lemma_position_of(s.drop_first(), c, k - 1);
    }
}

/// The pieces put together again, with `separator` between neighbours.
pub open spec fn join(pieces: Seq<Seq<char>>, separator: char) -> Seq<char>
    decreases pieces.len(),
{
    if pieces.len() == 0 {
        Seq::empty()
    } else if pieces.len() == 1 {
        pieces[0]
    } else {
        pieces[0] + seq![separator] + join(pieces.drop_first(), separator)
    }
}

/// `position_of` lies within the text or at its end, no `c` stands
/// before it, and where it lies within the text a `c` stands at it.
pub proof fn lemma_position_of_is_first(s: Seq<char>, c: char)
    ensures
        0 <= position_of(s, c) <= s.len(),
        position_of(s, c) < s.len() ==> s[position_of(s, c)] == c,
        forall|j: int| 0 <= j < position_of(s, c) ==> s[j] != c,
    decreases s.len(),
{
    if s.len() > 0 && s[0] != c {
        let rest = s.drop_first();
        lemma_position_of_is_first(rest, c);
        assert forall|j: int| 0 <= j < position_of(s, c) implies s[j] != c by {
            if j > 0 {
                assert(s[j] == rest[j - 1]);
            }
        }
    }
}

/// Splitting loses nothing and invents nothing: there is at least one
/// piece, no piece holds the separator, and the pieces joined by the
/// separator are the text that was split.
pub proof fn lemma_split_on(s: Seq<char>, separator: char)
    ensures
        split_on(s, separator).len() >= 1,
        forall|i: int, j: int|
            0 <= i < split_on(s, separator).len() && 0 <= j < split_on(s, separator)[i].len()
                ==> split_on(s, separator)[i][j] != separator,
        join(split_on(s, separator), separator) == s,
    decreases s.len(),
{
    let at = position_of(s, separator);
    let pieces = split_on(s, separator);
    lemma_position_of_is_first(s, separator);
    if 0 <= at < s.len() {
        let rest = split_on(s.skip(at + 1), separator);
        lemma_split_on(s.skip(at + 1), separator);
        assert(pieces.drop_first() =~= rest);
        assert(pieces[0] == s.take(at));
        assert(join(pieces, separator) =~= s.take(at) + seq![separator] + s.skip(at + 1));
        assert(s.take(at) + seq![separator] + s.skip(at + 1) =~= s);
        assert forall|i: int, j: int|
            0 <= i < pieces.len() && 0 <= j < pieces[i].len() implies pieces[i][j]
            != separator by {
            if i > 0 {
                assert(pieces[i] == rest[i - 1]);
            }
        }
    } else {
        assert(pieces =~= seq![s]);
    }
}

/// Splits `text` at every occurrence of `separator`.
pub fn split(text: &str, separator: char) -> (pieces: Vec<String>)
    ensures
        views(pieces@) == split_on(text@, separator),
{
    let len: usize = text.unicode_len();
    let mut pieces: Vec<String> = Vec::new();
    let mut rest = text.chars();
    let mut start: usize = 0;
    let mut i: usize = 0;
    proof {
        assert(text@.skip(0) =~= text@);
        assert(views(pieces@) + split_on(text@, separator) =~= split_on(text@, separator));
    }
    loop
        invariant
            rest.obeys_prophetic_iter_laws(),
            len == text@.len(),
            0 <= start <= i <= len,
            rest.remaining() == text@.skip(i as int),
            forall|j: int| start <= j < i ==> text@[j] != separator,
            split_on(text@, separator) == views(pieces@) + split_on(
                text@.skip(start as int),
                separator,
            ),
        decreases len - i,
    {
        let ghost tail: Seq<char> = text@.skip(start as int);
        let ghost done: Seq<Seq<char>> = views(pieces@);
        let next: Option<char> = rest.next();
        match next {
            None => {
                let piece: &str = text.substring_char(start, len);
                pieces.push(piece.to_owned());
                proof {
                    lemma_position_of(tail, separator, len - start);
                    assert(piece@ =~= tail);
                    assert(views(pieces@) =~= done + seq![tail]);
                }
                return pieces;
            },
            Some(c) => {
                proof {
                    assert(text@.skip(i as int).drop_first() =~= text@.skip(i as int + 1));
                }
                if c == separator {
                    let piece: &str = text.substring_char(start, i);
                    pieces.push(piece.to_owned());
                    proof {
                        lemma_position_of(tail, separator, i - start);
                        assert(piece@ =~= tail.take(i - start));
                        assert(tail.skip(i - start + 1) =~= text@.skip(i as int + 1));
                        assert(views(pieces@) =~= done + seq![tail.take(i - start)]);
                        assert(split_on(text@, separator) =~= views(pieces@) + split_on(
                            text@.skip(i as int + 1),
                            separator,
                        ));
                    }
                    start = i + 1;
                }
                i = i + 1;
            },
        }
    }
}

} // verus!
