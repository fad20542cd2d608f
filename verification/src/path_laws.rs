//! What holds of joining paths, of file names, and of how paths are shown.

use vstd::prelude::*;
use vstd::utf8::*;

use crate::path::{
    file_name_of, hex_escape, is_idle_piece, joined, last_step, path_debug, shown, valid_start,
    SLASH,
};
use crate::text::split_on;
use crate::text_laws::{lemma_one_piece, lemma_piece_more};

verus! {

/// Whether a name is one step down: not empty, without a slash, and neither `.` nor `..`.
pub open spec fn is_step(name: Seq<u8>) -> bool {
    &&& name.len() > 0
    &&& !name.contains(47u8)
    &&& name != seq![46u8]
    &&& name != seq![46u8, 46u8]
}

/// An absolute path is itself from wherever it is looked up; a relative one is looked up in the
/// base: it stands at the end, after the base and exactly one slash that parts the two.
pub proof fn law_paths_are_joined(base: Seq<u8>, rel: Seq<u8>)
    ensures
        rel.len() > 0 && rel[0] == 47 ==> joined(base, rel) == rel,
        (rel.len() == 0 || rel[0] != 47) && base.len() == 0 ==> joined(base, rel) == rel,
        (rel.len() == 0 || rel[0] != 47) && base.len() > 0 && base.last() != 47 ==> joined(
            base,
            rel,
        ) == base + seq![47u8] + rel,
        (rel.len() == 0 || rel[0] != 47) && base.len() > 0 && base.last() == 47 ==> joined(
            base,
            rel,
        ) == base + rel,
{
    assert(base.push(SLASH) =~= base + seq![47u8]);
    if base.len() == 0 {
        assert(base + rel =~= rel);
    }
}

/// Two relative names in one directory give the same path only where they are the same name.
pub proof fn law_joining_keeps_names_apart(base: Seq<u8>, one: Seq<u8>, other: Seq<u8>)
    requires
        one.len() > 0 && one[0] != 47,
        other.len() > 0 && other[0] != 47,
        joined(base, one) == joined(base, other),
    ensures
        one == other,
{
    let start = if base.len() == 0 || base.last() == SLASH {
        base
    } else {
        base.push(SLASH)
    };
    assert((start + one).skip(start.len() as int) =~= one);
    assert((start + other).skip(start.len() as int) =~= other);
}

/// The pieces of a path that a step was added to.
proof fn lemma_step_pieces(base: Seq<u8>, name: Seq<u8>)
    requires
        is_step(name),
    ensures
        split_on(joined(base, name), SLASH).len() > 0,
        split_on(joined(base, name), SLASH).last() == name,
{
    assert(name.contains(name[0]));
    law_paths_are_joined(base, name);
    if base.len() == 0 {
        lemma_one_piece(name, SLASH);
    } else if base.last() == SLASH {
        let before = base.drop_last();
        assert(before.push(SLASH) =~= base);
        lemma_piece_more(before, name, SLASH);
    } else {
        assert(base + seq![47u8] =~= base.push(SLASH));
        lemma_piece_more(base, name, SLASH);
    }
}

/// The file name of a path is the last step that was added to it, whatever stands before it.
pub proof fn law_the_last_step_is_the_file_name(base: Seq<u8>, name: Seq<u8>)
    requires
        is_step(name),
    ensures
        file_name_of(joined(base, name)) == Some(name),
{
    lemma_step_pieces(base, name);
}

/// A slash at the end, alone or with a dot after it, does not change the file name; a step to the
/// parent at the end leaves none.
pub proof fn law_ends_of_paths(path: Seq<u8>)
    ensures
        file_name_of(path + seq![47u8]) == file_name_of(path),
        file_name_of(path + seq![47u8, 46u8]) == file_name_of(path),
        file_name_of(path + seq![47u8, 46u8, 46u8]) is None,
        file_name_of(Seq::empty()) is None,
{
    let none = Seq::<u8>::empty();
    let dot = seq![46u8];
    let dots = seq![46u8, 46u8];
    assert(!none.contains(SLASH));
    assert(!dot.contains(SLASH)) by {
        assert(dot[0] != SLASH);
    }
    assert(!dots.contains(SLASH)) by {
        assert(dots[0] != SLASH && dots[1] != SLASH);
    }
    assert(path + seq![47u8] =~= path.push(SLASH) + none);
    assert(path + seq![47u8, 46u8] =~= path.push(SLASH) + dot);
    assert(path + seq![47u8, 46u8, 46u8] =~= path.push(SLASH) + dots);
    lemma_piece_more(path, none, SLASH);
    lemma_piece_more(path, dot, SLASH);
    lemma_piece_more(path, dots, SLASH);
    let pieces = split_on(path, SLASH);
    assert(pieces.push(none).drop_last() =~= pieces);
    assert(pieces.push(dot).drop_last() =~= pieces);
    assert(is_idle_piece(none) && is_idle_piece(dot));
    assert(dots.len() == 2 && dot.len() == 1);
    assert(!is_idle_piece(dots));
    assert(last_step(pieces.push(none)) == last_step(pieces));
    assert(last_step(pieces.push(dot)) == last_step(pieces));
    assert(last_step(pieces.push(dots)) == Some(dots));
    assert(split_on(none, SLASH) =~= seq![none]);
    assert(seq![none].drop_last() =~= Seq::<Seq<u8>>::empty());
    assert(last_step(seq![none]) == last_step(Seq::<Seq<u8>>::empty()));
}

/// The value of an upper-case hexadecimal digit.
pub open spec fn hex_value(c: char) -> int {
    if '0' <= c <= '9' {
        c as int - 48
    } else {
        c as int - 55
    }
}

/// The escape of a byte is a backslash, an `x` and two upper-case hexadecimal digits, which
/// denote the byte.
pub proof fn law_escapes_denote_the_byte(byte: u8)
    ensures
        hex_escape(byte).len() == 4,
        hex_escape(byte)[0] == '\\' && hex_escape(byte)[1] == 'x',
        forall|i: int|
            2 <= i < 4 ==> '0' <= #[trigger] hex_escape(byte)[i] <= '9' || 'A' <= hex_escape(
                byte,
            )[i] <= 'F',
        16 * hex_value(hex_escape(byte)[2]) + hex_value(hex_escape(byte)[3]) == byte,
{
    let high = byte as nat / 16;
    let low = byte as nat % 16;
    assert(high < 16 && low < 16);
    assert(16 * high + low == byte);
}

/// A path that is a text is shown as `Debug` shows it.
pub proof fn law_texts_are_shown_as_debug_does(path: Seq<u8>)
    requires
        valid_utf8(path),
    ensures
        shown(path) == path_debug(decode_utf8(path)),
{
    assert(path.take(path.len() as int) =~= path);
}

/// A path that is a text up to a byte that is part of no character is shown as `Debug` shows the
/// text, then that byte's escape, and then what follows it.
pub proof fn law_odd_bytes_are_escaped(start: Seq<u8>, byte: u8, rest: Seq<u8>)
    requires
        valid_utf8(start),
        forall|n: int|
            start.len() < n <= start.len() + 1 + rest.len() ==> !valid_utf8(
                #[trigger] (start.push(byte) + rest).take(n),
            ),
    ensures
        shown(start.push(byte) + rest) == path_debug(decode_utf8(start)) + hex_escape(byte) + shown(
            rest,
        ),
{
    let path = start.push(byte) + rest;
    let n = start.len() as int;
    assert(path.take(n) =~= start);
    lemma_valid_start(path, start.len(), path.len());
    assert(path[n] == byte);
    assert(path.skip(n + 1) =~= rest);
}

proof fn lemma_valid_start(path: Seq<u8>, n: nat, from: nat)
    requires
        n <= from <= path.len(),
        valid_utf8(path.take(n as int)),
        forall|m: int| n < m <= from ==> !valid_utf8(#[trigger] path.take(m)),
    ensures
        valid_start(path, from) == n,
    decreases from,
{
    if from > n {
        assert(!valid_utf8(path.take(from as int)));
        lemma_valid_start(path, n, (from - 1) as nat);
    }
}

} // verus!
