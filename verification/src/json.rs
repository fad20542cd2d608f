//! Reading JSON back, as far as the reports of the benchmarks need it: strings without escapes,
//! whole numbers, and objects of numbers, without white space. What is read here is JSON, and
//! means there what it means here.

use vstd::prelude::*;

use crate::text::{all_digits, decimal, digits_value, is_digit, lemma_decimal_denotes};

verus! {

/// Whether a JSON string can hold a character as it is.
pub open spec fn is_plain_char(c: char) -> bool {
    c >= ' ' && c != '"' && c != '\\'
}

/// Whether a JSON string can hold a text as it is: it has no quotes, no backslashes and no
/// control characters.
pub open spec fn is_plain(text: Seq<char>) -> bool {
    forall|i: int| 0 <= i < text.len() ==> is_plain_char(#[trigger] text[i])
}

/// What follows `start` in a text that begins with it.
pub open spec fn after(text: Seq<char>, start: Seq<char>) -> Option<Seq<char>> {
    if start.len() <= text.len() && text.take(start.len() as int) == start {
        Some(text.skip(start.len() as int))
    } else {
        None
    }
}

/// How many characters at the start of a text a JSON string can hold as they are.
pub open spec fn plain_count(text: Seq<char>) -> nat
    decreases text.len(),
{
    if text.len() > 0 && is_plain_char(text[0]) {
        1 + plain_count(text.skip(1))
    } else {
        0
    }
}

/// Reads a string in quotes; the second part is what follows it.
pub open spec fn read_string(text: Seq<char>) -> Option<(Seq<char>, Seq<char>)> {
    let n = plain_count(text.skip(1));
    if text.len() > n + 1 && text[0] == '"' && text[n as int + 1] == '"' {
        Some((text.subrange(1, n as int + 1), text.skip(n as int + 2)))
    } else {
        None
    }
}

/// How many digits stand at the start of a text.
pub open spec fn digit_count(text: Seq<char>) -> nat
    decreases text.len(),
{
    if text.len() > 0 && is_digit(text[0]) {
        1 + digit_count(text.skip(1))
    } else {
        0
    }
}

/// Reads a number, which has no leading zeros; the second part is what follows it.
pub open spec fn read_number(text: Seq<char>) -> Option<(nat, Seq<char>)> {
    let n = digit_count(text);
    if n == 0 || n > 1 && text[0] == '0' {
        None
    } else {
        Some((digits_value(text.take(n as int)), text.skip(n as int)))
    }
}

/// No more digits stand at the start of a text than it has characters.
pub proof fn lemma_digit_count_fits(text: Seq<char>)
    ensures
        digit_count(text) <= text.len(),
    decreases text.len(),
{
    if text.len() > 0 {
        lemma_digit_count_fits(text.skip(1));
    }
}

/// Reads the members of an object, of which there is at least one, with numbers as their values;
/// the second part is what follows them.
pub open spec fn read_members(text: Seq<char>) -> Option<(Seq<(Seq<char>, nat)>, Seq<char>)>
    decreases text.len(),
{
    match read_string(text) {
        Some((name, value)) => if value.len() > 0 && value[0] == ':' {
            proof {
                lemma_digit_count_fits(value.skip(1));
            }
            match read_number(value.skip(1)) {
                Some((n, rest)) => if rest.len() > 0 && rest[0] == ',' {
                    match read_members(rest.skip(1)) {
                        Some((more, end)) => Some((seq![(name, n)] + more, end)),
                        None => None,
                    }
                } else {
                    Some((seq![(name, n)], rest))
                },
                None => None,
            }
        } else {
            None
        },
        None => None,
    }
}

/// Reads an object with numbers as its values; the second part is what follows it.
pub open spec fn read_object(text: Seq<char>) -> Option<(Seq<(Seq<char>, nat)>, Seq<char>)> {
    if text.len() < 2 || text[0] != '{' {
        None
    } else if text[1] == '}' {
        Some((Seq::empty(), text.skip(2)))
    } else {
        match read_members(text.skip(1)) {
            Some((members, rest)) => if rest.len() > 0 && rest[0] == '}' {
                Some((members, rest.skip(1)))
            } else {
                None
            },
            None => None,
        }
    }
}

/// What stands after a start is read after it.
pub proof fn lemma_after(start: Seq<char>, rest: Seq<char>)
    ensures
        after(start + rest, start) == Some(rest),
{
    assert((start + rest).take(start.len() as int) =~= start);
    assert((start + rest).skip(start.len() as int) =~= rest);
}

proof fn lemma_plain_count(text: Seq<char>, rest: Seq<char>)
    requires
        is_plain(text),
        rest.len() > 0,
        !is_plain_char(rest[0]),
    ensures
        plain_count(text + rest) == text.len(),
    decreases text.len(),
{
    if text.len() == 0 {
        assert(text + rest =~= rest);
    } else {
        assert((text + rest).skip(1) =~= text.skip(1) + rest);
        assert(is_plain_char(text[0]));
        lemma_plain_count(text.skip(1), rest);
    }
}

/// A plain text in quotes is read as itself.
pub proof fn lemma_string_is_read(text: Seq<char>, rest: Seq<char>)
    requires
        is_plain(text),
    ensures
        read_string(seq!['"'] + text + seq!['"'] + rest) == Some((text, rest)),
{
    let quoted = seq!['"'] + text + seq!['"'] + rest;
    let n = text.len() as int;
    assert(quoted.skip(1) =~= text + (seq!['"'] + rest));
    lemma_plain_count(text, seq!['"'] + rest);
    assert(quoted.subrange(1, n + 1) =~= text);
    assert(quoted.skip(n + 2) =~= rest);
}

proof fn lemma_digit_count(digits: Seq<char>, rest: Seq<char>)
    requires
        all_digits(digits),
        rest.len() == 0 || !is_digit(rest[0]),
    ensures
        digit_count(digits + rest) == digits.len(),
    decreases digits.len(),
{
    if digits.len() == 0 {
        assert(digits + rest =~= rest);
    } else {
        assert((digits + rest).skip(1) =~= digits.skip(1) + rest);
        assert(is_digit(digits[0]));
        lemma_digit_count(digits.skip(1), rest);
    }
}

/// Decimal notation is not empty, and begins with a zero for zero alone.
proof fn lemma_no_leading_zero(n: nat)
    ensures
        decimal(n).len() > 0,
        decimal(n)[0] == '0' ==> n == 0,
        n < 10 ==> decimal(n).len() == 1,
    decreases n,
{
    if n >= 10 {
        lemma_no_leading_zero(n / 10);
    }
}

/// Decimal notation is read as the number.
pub proof fn lemma_number_is_read(n: nat, rest: Seq<char>)
    requires
        rest.len() == 0 || !is_digit(rest[0]),
    ensures
        read_number(decimal(n) + rest) == Some((n, rest)),
{
    let digits = decimal(n);
    lemma_decimal_denotes(n);
    lemma_no_leading_zero(n);
    lemma_digit_count(digits, rest);
    assert((digits + rest).take(digits.len() as int) =~= digits);
    assert((digits + rest).skip(digits.len() as int) =~= rest);
}

} // verus!
