//! What holds of pieces, lines, white space and numbers.

use vstd::prelude::*;

use crate::text::{
    all_digits, decimal, digit, digits_value, is_digit, is_space, lemma_decimal_denotes, lines,
    number, signed_decimal, split_on, strip_plus, strip_return, trim, trim_end, trim_start,
};

verus! {

/// A row of pieces with `sep` between each two of them.
pub open spec fn joined_with<T>(pieces: Seq<Seq<T>>, sep: T) -> Seq<T>
    decreases pieces.len(),
{
    if pieces.len() == 0 {
        Seq::empty()
    } else if pieces.len() == 1 {
        pieces[0]
    } else {
        joined_with(pieces.drop_last(), sep).push(sep) + pieces.last()
    }
}

/// Whether no piece holds `sep`.
pub open spec fn are_free_of<T>(pieces: Seq<Seq<T>>, sep: T) -> bool {
    forall|i: int| 0 <= i < pieces.len() ==> !(#[trigger] pieces[i]).contains(sep)
}

/// Splitting a text without the separator gives the text.
pub proof fn lemma_one_piece<T>(text: Seq<T>, sep: T)
    requires
        !text.contains(sep),
    ensures
        split_on(text, sep) == seq![text],
    decreases text.len(),
{
    if text.len() > 0 {
        let before = text.drop_last();
        assert forall|x: T| before.contains(x) implies text.contains(x) by {
            let i = choose|i: int| 0 <= i < before.len() && before[i] == x;
            assert(text[i] == x);
        }
        lemma_one_piece(before, sep);
        assert(text.contains(text.last()));
        assert(before.push(text.last()) =~= text);
        assert(split_on(text, sep) =~= seq![text]);
    } else {
        assert(text =~= Seq::empty());
    }
}

/// A separator and a piece after a text give one piece more.
pub proof fn lemma_piece_more<T>(text: Seq<T>, piece: Seq<T>, sep: T)
    requires
        !piece.contains(sep),
    ensures
        split_on(text.push(sep) + piece, sep) == split_on(text, sep).push(piece),
    decreases piece.len(),
{
    let whole = text.push(sep) + piece;
    if piece.len() == 0 {
        assert(whole =~= text.push(sep));
        assert(whole.drop_last() =~= text);
        assert(piece =~= Seq::empty());
    } else {
        let before = piece.drop_last();
        assert forall|x: T| before.contains(x) implies piece.contains(x) by {
            let i = choose|i: int| 0 <= i < before.len() && before[i] == x;
            assert(piece[i] == x);
        }
        lemma_piece_more(text, before, sep);
        assert(whole.drop_last() =~= text.push(sep) + before);
        assert(whole.last() == piece.last());
        assert(piece.contains(piece.last()));
        let pieces = split_on(text, sep);
        assert(pieces.push(before).drop_last() =~= pieces);
        assert(before.push(piece.last()) =~= piece);
    }
}

/// Splitting undoes joining: a row of pieces that are free of the separator, joined with it and
/// split again, is the row.
pub proof fn law_splitting_undoes_joining<T>(pieces: Seq<Seq<T>>, sep: T)
    requires
        pieces.len() > 0,
        are_free_of(pieces, sep),
    ensures
        split_on(joined_with(pieces, sep), sep) == pieces,
    decreases pieces.len(),
{
    if pieces.len() == 1 {
        lemma_one_piece(pieces[0], sep);
        assert(pieces =~= seq![pieces[0]]);
    } else {
        let before = pieces.drop_last();
        assert forall|i: int| 0 <= i < before.len() implies !(#[trigger] before[i]).contains(
            sep,
        ) by {
            assert(before[i] == pieces[i]);
        }
        law_splitting_undoes_joining(before, sep);
        assert(!pieces[pieces.len() - 1].contains(sep));
        lemma_piece_more(joined_with(before, sep), pieces.last(), sep);
        assert(before.push(pieces.last()) =~= pieces);
    }
}

/// A line and how it ends: with a newline alone, or with a carriage return before it.
pub open spec fn ended(line: Seq<char>, carriage: bool) -> Seq<char> {
    if carriage {
        line.push('\r').push('\n')
    } else {
        line.push('\n')
    }
}

/// A text of lines, each with its end.
pub open spec fn ended_lines(rows: Seq<Seq<char>>, carriage: Seq<bool>) -> Seq<char>
    decreases rows.len(),
{
    if rows.len() == 0 {
        Seq::empty()
    } else {
        ended_lines(rows.drop_last(), carriage.drop_last()) + ended(rows.last(), carriage.last())
    }
}

/// Whether each row is one line that its end does not run into.
pub open spec fn are_lines(rows: Seq<Seq<char>>, carriage: Seq<bool>) -> bool {
    forall|i: int|
        0 <= i < rows.len() ==> !(#[trigger] rows[i]).contains('\n') && (carriage[i]
            || rows[i].len() == 0 || rows[i].last() != '\r')
}

/// The pieces of a text of ended lines: the lines with their carriage returns, and an empty one.
proof fn lemma_ended_pieces(rows: Seq<Seq<char>>, carriage: Seq<bool>)
    requires
        are_lines(rows, carriage),
        carriage.len() == rows.len(),
    ensures
        ({
            let pieces = split_on(ended_lines(rows, carriage), '\n');
            &&& pieces.len() == rows.len() + 1
            &&& pieces.last().len() == 0
            &&& pieces.drop_last().map_values(|piece: Seq<char>| strip_return(piece)) == rows
        }),
    decreases rows.len(),
{
    let text = ended_lines(rows, carriage);
    let stripped = |piece: Seq<char>| strip_return(piece);
    if rows.len() == 0 {
        assert(text =~= Seq::empty());
        assert(split_on(text, '\n').drop_last().map_values(stripped) =~= rows);
    } else {
        let before = rows.drop_last();
        assert forall|i: int| 0 <= i < before.len() implies !(#[trigger] before[i]).contains('\n')
            && (carriage.drop_last()[i] || before[i].len() == 0 || before[i].last() != '\r') by {
            assert(before[i] == rows[i]);
            assert(carriage.drop_last()[i] == carriage[i]);
        }
        lemma_ended_pieces(before, carriage.drop_last());
        let start = ended_lines(before, carriage.drop_last());
        let line = rows.last();
        let kept = if carriage.last() {
            line.push('\r')
        } else {
            line
        };
        assert(!rows[rows.len() - 1].contains('\n'));
        assert(!kept.contains('\n')) by {
            if kept.contains('\n') {
                let i = choose|i: int| 0 <= i < kept.len() && kept[i] == '\n';
                assert(line[i] == '\n');
            }
        }
        let old_pieces = split_on(start, '\n');
        lemma_tail_grows(start, kept);
        assert(old_pieces.last() =~= Seq::empty());
        assert(old_pieces.last() + kept =~= kept);
        assert(text =~= (start + kept).push('\n'));
        assert(text.drop_last() =~= start + kept);
        let pieces = split_on(text, '\n');
        assert(pieces =~= old_pieces.drop_last().push(kept).push(Seq::empty()));
        assert(pieces.drop_last() =~= old_pieces.drop_last().push(kept));
        assert(strip_return(kept) =~= line);
        assert(pieces.drop_last().map_values(stripped) =~= old_pieces.drop_last().map_values(
            stripped,
        ).push(line));
        assert(before.push(line) =~= rows);
    }
}

/// Text without the separator adds to the last piece.
pub proof fn lemma_tail_grows(text: Seq<char>, tail: Seq<char>)
    requires
        !tail.contains('\n'),
    ensures
        split_on(text, '\n').len() > 0,
        split_on(text + tail, '\n') == split_on(text, '\n').drop_last().push(
            split_on(text, '\n').last() + tail,
        ),
    decreases text.len() + tail.len(),
{
    if tail.len() == 0 {
        assert(text + tail =~= text);
        lemma_some_piece(text);
        let pieces = split_on(text, '\n');
        assert(pieces.last() + tail =~= pieces.last());
        assert(pieces.drop_last().push(pieces.last()) =~= pieces);
    } else {
        let before = tail.drop_last();
        assert(!before.contains('\n')) by {
            if before.contains('\n') {
                let i = choose|i: int| 0 <= i < before.len() && before[i] == '\n';
                assert(tail[i] == '\n');
            }
        }
        assert(tail.contains(tail.last()));
        lemma_tail_grows(text, before);
        assert((text + tail).drop_last() =~= text + before);
        let pieces = split_on(text, '\n');
        assert(pieces.drop_last().push(pieces.last() + before).drop_last() =~= pieces.drop_last());
        assert((pieces.last() + before).push(tail.last()) =~= pieces.last() + tail);
    }
}

proof fn lemma_some_piece(text: Seq<char>)
    ensures
        split_on(text, '\n').len() > 0,
    decreases text.len(),
{
    if text.len() > 0 {
        lemma_some_piece(text.drop_last());
    }
}

/// The lines of a text are what it was written from, whether they end with a newline or with a
/// carriage return and a newline. What follows the last end is a line of its own, unless it is
/// empty.
pub proof fn law_lines_are_read(rows: Seq<Seq<char>>, carriage: Seq<bool>, tail: Seq<char>)
    requires
        are_lines(rows, carriage),
        carriage.len() == rows.len(),
        !tail.contains('\n'),
    ensures
        lines(ended_lines(rows, carriage) + tail) == if tail.len() == 0 {
            rows
        } else {
            rows.push(tail)
        },
{
    let text = ended_lines(rows, carriage);
    lemma_ended_pieces(rows, carriage);
    lemma_tail_grows(text, tail);
    let old_pieces = split_on(text, '\n');
    let pieces = split_on(text + tail, '\n');
    assert(old_pieces.last() + tail =~= tail);
    assert(pieces.drop_last() =~= old_pieces.drop_last());
}

/// Whether a text holds white space alone.
pub open spec fn all_space(text: Seq<char>) -> bool {
    forall|i: int| 0 <= i < text.len() ==> is_space(#[trigger] text[i])
}

/// Whether a text neither begins nor ends with white space.
pub open spec fn is_bare(text: Seq<char>) -> bool {
    text.len() > 0 ==> !is_space(text[0]) && !is_space(text.last())
}

proof fn lemma_start_goes(space: Seq<char>, text: Seq<char>)
    requires
        all_space(space),
        text.len() > 0 ==> !is_space(text[0]),
    ensures
        trim_start(space + text) == text,
    decreases space.len(),
{
    if space.len() == 0 {
        assert(space + text =~= text);
    } else {
        assert((space + text).skip(1) =~= space.skip(1) + text);
        assert(is_space(space[0]));
        lemma_start_goes(space.skip(1), text);
    }
}

proof fn lemma_end_goes(text: Seq<char>, space: Seq<char>)
    requires
        all_space(space),
        text.len() > 0 ==> !is_space(text.last()),
    ensures
        trim_end(text + space) == text,
    decreases space.len(),
{
    if space.len() == 0 {
        assert(text + space =~= text);
    } else {
        assert((text + space).drop_last() =~= text + space.drop_last());
        assert(is_space(space[space.len() - 1]));
        lemma_end_goes(text, space.drop_last());
    }
}

/// Trimming takes away the white space around a text, and nothing else.
pub proof fn law_trimming_leaves_the_text(before: Seq<char>, text: Seq<char>, behind: Seq<char>)
    requires
        all_space(before),
        all_space(behind),
        is_bare(text),
    ensures
        trim(before + text + behind) == text,
{
    if text.len() == 0 {
        let space = before + behind;
        assert forall|i: int| 0 <= i < space.len() implies is_space(#[trigger] space[i]) by {
            if i >= before.len() {
                assert(space[i] == behind[i - before.len()]);
            }
        }
        assert(before + text + behind =~= space + text);
        lemma_start_goes(space, text);
        assert(text + Seq::<char>::empty() =~= text);
        lemma_end_goes(text, Seq::empty());
    } else {
        assert(before + text + behind =~= before + (text + behind));
        assert((text + behind)[0] == text[0]);
        lemma_start_goes(before, text + behind);
        lemma_end_goes(text, behind);
    }
}

/// White space is what Unicode says it is: the characters from the tab to the carriage return,
/// the space, the next line, the no-break space, and the seventeen spaces and separators beyond.
pub proof fn law_white_space(c: char)
    ensures
        is_space(c) == seq![
            0x9u32,
            0xa,
            0xb,
            0xc,
            0xd,
            0x20,
            0x85,
            0xa0,
            0x1680,
            0x2000,
            0x2001,
            0x2002,
            0x2003,
            0x2004,
            0x2005,
            0x2006,
            0x2007,
            0x2008,
            0x2009,
            0x200a,
            0x2028,
            0x2029,
            0x202f,
            0x205f,
            0x3000,
        ].contains(c as u32),
{
    let all = seq![
        0x9u32,
        0xa,
        0xb,
        0xc,
        0xd,
        0x20,
        0x85,
        0xa0,
        0x1680,
        0x2000,
        0x2001,
        0x2002,
        0x2003,
        0x2004,
        0x2005,
        0x2006,
        0x2007,
        0x2008,
        0x2009,
        0x200a,
        0x2028,
        0x2029,
        0x202f,
        0x205f,
        0x3000,
    ];
    let n = c as u32;
    assert(all[0] == 0x9 && all[1] == 0xa && all[2] == 0xb && all[3] == 0xc && all[4] == 0xd);
    assert(all[5] == 0x20 && all[6] == 0x85 && all[7] == 0xa0 && all[8] == 0x1680);
    assert(forall|i: int| 9 <= i <= 19 ==> #[trigger] all[i] == 0x2000 + (i - 9));
    assert(all[20] == 0x2028 && all[21] == 0x2029 && all[22] == 0x202f && all[23] == 0x205f);
    assert(all[24] == 0x3000);
    if is_space(c) {
        if 0x2000 <= n <= 0x200a {
            assert(all[n - 0x2000 + 9] == n);
        }
        assert(all.contains(n));
    }
}

/// A row of zeros.
pub open spec fn zeros(k: nat) -> Seq<char> {
    Seq::new(k, |i: int| '0')
}

/// Decimal notation is built digit by digit, from the first one on.
pub proof fn law_decimal_is_built_by_digits(n: nat, d: nat)
    requires
        d < 10,
    ensures
        decimal(d) == seq![(48 + d) as char],
        n > 0 ==> decimal(10 * n + d) == decimal(n).push((48 + d) as char),
{
    assert((10 * n + d) / 10 == n);
    assert((10 * n + d) % 10 == d);
}

/// Every row of digits is the decimal notation of its value, with zeros before it.
proof fn lemma_digits_are_decimal(digits: Seq<char>) -> (k: nat)
    requires
        digits.len() > 0,
        all_digits(digits),
    ensures
        digits == zeros(k) + decimal(digits_value(digits)),
    decreases digits.len(),
{
    let before = digits.drop_last();
    let last = digits.last();
    assert(is_digit(digits[digits.len() - 1]));
    let d = (last as nat - 48) as nat;
    assert(digit(d) == last);
    if before.len() == 0 {
        assert(digits_value(before) == 0);
        assert(zeros(0) + decimal(d) =~= digits);
        0
    } else {
        assert forall|i: int| 0 <= i < before.len() implies is_digit(#[trigger] before[i]) by {
            assert(is_digit(digits[i]));
        }
        let k = lemma_digits_are_decimal(before);
        let n = digits_value(before);
        assert(before.push(last) =~= digits);
        if n == 0 {
            assert(decimal(0) =~= seq!['0']);
            assert(zeros(k) + decimal(0) =~= zeros(k + 1));
            assert(digits =~= zeros(k + 1) + decimal(d));
            k + 1
        } else {
            law_decimal_is_built_by_digits(n, d);
            assert(n * 10 + d == 10 * n + d);
            assert(digits =~= zeros(k) + decimal(10 * n + d));
            k
        }
    }
}

/// Zeros before a number do not change it.
proof fn lemma_zeros_do_not_count(k: nat, n: nat)
    ensures
        all_digits(zeros(k) + decimal(n)),
        digits_value(zeros(k) + decimal(n)) == n,
    decreases n,
{
    lemma_decimal_denotes(n);
    let text = zeros(k) + decimal(n);
    assert forall|i: int| 0 <= i < text.len() implies is_digit(#[trigger] text[i]) by {
        if i >= k {
            assert(text[i] == decimal(n)[i - k]);
        }
    }
    if n < 10 {
        assert(text.drop_last() =~= zeros(k));
        lemma_zeros_are_zero(k);
        assert(text.last() == digit(n));
    } else {
        lemma_zeros_do_not_count(k, n / 10);
        assert(text.drop_last() =~= zeros(k) + decimal(n / 10));
        assert(text.last() == digit(n % 10));
    }
}

proof fn lemma_zeros_are_zero(k: nat)
    ensures
        digits_value(zeros(k)) == 0,
    decreases k,
{
    if k > 0 {
        lemma_zeros_are_zero((k - 1) as nat);
        assert(zeros(k).drop_last() =~= zeros((k - 1) as nat));
    }
}

/// Decimal notation is read as the number where it fits, also with zeros or one plus sign before
/// it, and is refused where it does not fit.
pub proof fn law_numbers_are_read(n: nat, max: nat, k: nat)
    ensures
        number(zeros(k) + decimal(n), max) == if n <= max {
            Some(n)
        } else {
            None
        },
        number(seq!['+'] + zeros(k) + decimal(n), max) == if n <= max {
            Some(n)
        } else {
            None
        },
{
    let digits = zeros(k) + decimal(n);
    lemma_zeros_do_not_count(k, n);
    lemma_decimal_denotes(n);
    assert(decimal(n).len() > 0);
    assert(is_digit(digits[0]));
    assert(strip_plus(digits) == digits);
    let signed = seq!['+'] + zeros(k) + decimal(n);
    assert(signed.skip(1) =~= digits);
}

/// Nothing else is read as a number: what is read is decimal notation, with zeros or one plus
/// sign before it.
pub proof fn law_only_numbers_are_read(text: Seq<char>, max: nat)
    requires
        number(text, max) is Some,
    ensures
        number(text, max)->0 <= max,
        exists|k: nat|
            text == #[trigger] zeros(k) + decimal(number(text, max)->0) || text == seq!['+']
                + zeros(k) + decimal(number(text, max)->0),
{
    let digits = strip_plus(text);
    let n = number(text, max)->0;
    let k = lemma_digits_are_decimal(digits);
    assert(digits == zeros(k) + decimal(n));
    assert(text.len() > 0);
    if text[0] == '+' {
        assert(digits == text.skip(1));
        assert(text =~= seq!['+'] + text.skip(1));
        assert(seq!['+'] + (zeros(k) + decimal(n)) =~= seq!['+'] + zeros(k) + decimal(n));
    } else {
        assert(text =~= zeros(k) + decimal(n));
    }
}

/// A negative number is written as its absolute value after a minus sign.
pub proof fn law_signs_are_written(n: nat)
    ensures
        signed_decimal(n as int) == decimal(n),
        n > 0 ==> signed_decimal(-n) == seq!['-'] + decimal(n),
{
}

} // verus!
