//! Paths of the host: any row of bytes, with the operations and the renderings that the
//! jailer needs.

use vstd::prelude::*;
use vstd::slice::slice_to_vec;
use vstd::string::*;
use vstd::utf8::*;

use crate::text::{split_on, views};

verus! {

/// What `Path`'s `Debug` prints of a path that is a text.
pub uninterp spec fn path_debug(path: Seq<char>) -> Seq<char>;

/// What `String::from_utf8_lossy` makes of `bytes`.
pub uninterp spec fn lossy(bytes: Seq<u8>) -> Seq<char>;

/// `std::str::from_utf8` accepts exactly the valid UTF-8 encodings, and gives the text that
/// the bytes encode.
#[verifier::external_body]
pub(crate) fn decode_text(bytes: &[u8]) -> (r: Option<String>)
    ensures
        match r {
            Some(text) => valid_utf8(bytes@) && text@ == decode_utf8(bytes@),
            None => !valid_utf8(bytes@),
        },
{
    std::str::from_utf8(bytes).ok().map(|text| text.to_string())
}

/// `String::from_utf8_lossy`: its result depends on the bytes alone, and is the text that
/// they encode where they are valid UTF-8.
#[verifier::external_body]
fn decode_lossy(bytes: &[u8]) -> (r: String)
    ensures
        r@ == lossy(bytes@),
        valid_utf8(bytes@) ==> r@ == decode_utf8(bytes@),
{
    String::from_utf8_lossy(bytes).into_owned()
}

/// `Path`'s `Debug`: what it prints depends on the path alone.
#[verifier::external_body]
fn debug_path_text(path: &str) -> (r: String)
    ensures
        r@ == path_debug(path@),
{
    format!("{:?}", std::path::Path::new(path))
}

/// A path of the host.
#[derive(Debug, PartialEq, Eq)]
pub struct HostPath {
    pub bytes: Vec<u8>,
}

impl View for HostPath {
    type V = Seq<u8>;

    open spec fn view(&self) -> Seq<u8> {
        self.bytes@
    }
}

impl Clone for HostPath {
    fn clone(&self) -> (r: Self)
        ensures
            r@ == self@,
    {
        HostPath { bytes: slice_to_vec(self.bytes.as_slice()) }
    }
}

/// The byte that separates the components of a path.
pub const SLASH: u8 = 47;

/// The path that `rel` denotes when it is looked up from `base`.
pub open spec fn joined(base: Seq<u8>, rel: Seq<u8>) -> Seq<u8> {
    if rel.len() > 0 && rel[0] == SLASH {
        rel
    } else if base.len() == 0 || base.last() == SLASH {
        base + rel
    } else {
        base.push(SLASH) + rel
    }
}

/// Whether a piece between two slashes stands for no step at all.
pub open spec fn is_idle_piece(piece: Seq<u8>) -> bool {
    piece.len() == 0 || piece == seq![46u8]
}

/// The last of `pieces` that stands for a step.
pub open spec fn last_step(pieces: Seq<Seq<u8>>) -> Option<Seq<u8>>
    decreases pieces.len(),
{
    if pieces.len() == 0 {
        None
    } else if is_idle_piece(pieces.last()) {
        last_step(pieces.drop_last())
    } else {
        Some(pieces.last())
    }
}

/// The name of the file that `path` denotes, if its last step is not one to the parent.
pub open spec fn file_name_of(path: Seq<u8>) -> Option<Seq<u8>> {
    match last_step(split_on(path, SLASH)) {
        Some(step) => if step == seq![46u8, 46u8] {
            None
        } else {
            Some(step)
        },
        None => None,
    }
}

/// The longest start of `bytes` of at most `n` bytes that is valid UTF-8.
pub open spec fn valid_start(bytes: Seq<u8>, n: nat) -> nat
    decreases n,
{
    if n == 0 || valid_utf8(bytes.take(n as int)) {
        n
    } else {
        valid_start(bytes, (n - 1) as nat)
    }
}

/// An upper-case hexadecimal digit.
pub open spec fn hex_digit(d: nat) -> char {
    if d < 10 {
        (48 + d) as char
    } else {
        (55 + d) as char
    }
}

/// How a byte that is part of no character is shown: `\xNN`.
pub open spec fn hex_escape(byte: u8) -> Seq<char> {
    seq!['\\', 'x', hex_digit(byte as nat / 16), hex_digit(byte as nat % 16)]
}

/// How messages show a path: each row of characters as `Debug` does, in quotes of its own, and
/// every byte that is part of no character as a hexadecimal escape.
pub open spec fn shown(bytes: Seq<u8>) -> Seq<char>
    decreases bytes.len(),
{
    let n = valid_start(bytes, bytes.len());
    let text = path_debug(decode_utf8(bytes.take(n as int)));
    if n >= bytes.len() {
        text
    } else {
        text + hex_escape(bytes[n as int]) + shown(bytes.skip(n as int + 1))
    }
}

fn hex_char(d: u8) -> (r: char)
    requires
        d < 16,
    ensures
        r == hex_digit(d as nat),
{
    if d < 10 {
        (48 + d) as char
    } else {
        (55 + d) as char
    }
}

impl HostPath {
    /// The path with the given bytes.
    pub fn from_bytes(bytes: &[u8]) -> (r: Self)
        ensures
            r@ == bytes@,
    {
        HostPath { bytes: slice_to_vec(bytes) }
    }

    /// The path that is spelled as `text`.
    pub fn from_text(text: &str) -> (r: Self)
        ensures
            r@ == encode_utf8(text@),
    {
        HostPath { bytes: text.as_bytes_vec() }
    }

    /// Looks `rel` up from this path.
    pub fn join(&self, rel: &HostPath) -> (r: Self)
        ensures
            r@ == joined(self@, rel@),
    {
        let n = self.bytes.len();
        if rel.bytes.len() > 0 && rel.bytes[0] == SLASH {
            return rel.clone();
        }
        let mut bytes = slice_to_vec(self.bytes.as_slice());
        if n > 0 && self.bytes[n - 1] != SLASH {
            bytes.push(SLASH);
        }
        let mut tail = slice_to_vec(rel.bytes.as_slice());
        bytes.append(&mut tail);
        HostPath { bytes }
    }

    /// Looks a name up from this path.
    pub fn join_text(&self, rel: &str) -> (r: Self)
        ensures
            r@ == joined(self@, encode_utf8(rel@)),
    {
        self.join(&HostPath::from_text(rel))
    }

    /// How `Display` shows this path.
    pub fn display(&self) -> (r: String)
        ensures
            r@ == lossy(self@),
            valid_utf8(self@) ==> r@ == decode_utf8(self@),
    {
        decode_lossy(self.bytes.as_slice())
    }

    /// How messages show this path: as `Debug` does, but for quotes around each row of
    /// characters where the path is no text.
    pub fn show(&self) -> (r: String)
        ensures
            r@ == shown(self@),
    {
        let bytes = self.bytes.as_slice();
        let mut out = String::new();
        let total = bytes.len();
        let mut from: usize = 0;
        assert(bytes@.skip(0) =~= bytes@);
        loop
            invariant
                total == bytes@.len(),
                from <= bytes@.len(),
                bytes@ == self@,
                out@ + shown(bytes@.skip(from as int)) == shown(self@),
            decreases bytes@.len() - from,
        {
            let ghost rest = bytes@.skip(from as int);
            let mut n: usize = bytes.len() - from;
            let mut text = decode_text(&bytes[from..from + n]);
            assert(bytes@.subrange(from as int, from + n) =~= rest.take(n as int));
            while text.is_none() && n > 0
                invariant
                    total == bytes@.len(),
                    from <= total,
                    rest == bytes@.skip(from as int),
                    n <= rest.len(),
                    valid_start(rest, n as nat) == valid_start(rest, rest.len()),
                    match text {
                        Some(t) => valid_utf8(rest.take(n as int)) && t@ == decode_utf8(
                            rest.take(n as int),
                        ),
                        None => !valid_utf8(rest.take(n as int)),
                    },
                decreases n,
            {
                n -= 1;
                text = decode_text(&bytes[from..from + n]);
                assert(bytes@.subrange(from as int, from + n) =~= rest.take(n as int));
            }
            let valid = match text {
                Some(t) => t,
                None => String::new(),
            };
            proof {
                if text is None {
                    assert(rest.take(0) =~= Seq::<u8>::empty());
                    assert(valid_utf8(rest.take(0)));
                }
                assert(n == valid_start(rest, rest.len()));
            }
            let ghost before = out@;
            let quoted = debug_path_text(valid.as_str());
            out.append(quoted.as_str());
            if n == bytes.len() - from {
                return out;
            }
            let byte = bytes[from + n];
            out.append("\\x");
            out.push(hex_char(byte / 16));
            out.push(hex_char(byte % 16));
            proof {
                reveal_strlit("\\x");
                assert(byte == rest[n as int]);
                assert(rest.skip(n + 1) =~= bytes@.skip(from + n + 1));
                assert(out@ =~= before + (quoted@ + hex_escape(byte)));
                assert(out@ + shown(rest.skip(n + 1)) =~= before + (quoted@ + hex_escape(byte)
                    + shown(rest.skip(n + 1))));
            }
            from = from + n + 1;
        }
    }

    /// The last step of this path, if it names a file.
    pub fn file_name(&self) -> (r: Option<HostPath>)
        ensures
            match r {
                Some(name) => file_name_of(self@) == Some(name@),
                None => file_name_of(self@) is None,
            },
    {
        let pieces = split_bytes(self.bytes.as_slice());
        let ghost all = views(pieces@);
        let mut n: usize = pieces.len();
        assert(all.take(n as int) =~= all);
        while n > 0
            invariant
                n <= pieces.len(),
                all == views(pieces@),
                all == split_on(self@, SLASH),
                last_step(all.take(n as int)) == last_step(all),
            decreases n,
        {
            let piece = &pieces[n - 1];
            proof {
                assert(all.take(n as int).last() == piece@);
                assert(all.take(n as int).drop_last() =~= all.take(n - 1));
            }
            let dot = piece.len() == 1 && piece[0] == 46;
            assert(dot == (piece@ =~= seq![46u8]));
            if piece.len() > 0 && !dot {
                let parent = piece.len() == 2 && piece[0] == 46 && piece[1] == 46;
                assert(parent == (piece@ =~= seq![46u8, 46u8]));
                if parent {
                    return None;
                }
                return Some(HostPath::from_bytes(piece.as_slice()));
            }
            n -= 1;
        }
        None
    }
}

/// Splits `path` at every slash.
fn split_bytes(path: &[u8]) -> (r: Vec<Vec<u8>>)
    ensures
        views(r@) == split_on(path@, SLASH),
{
    let mut done: Vec<Vec<u8>> = Vec::new();
    let mut current: Vec<u8> = Vec::new();
    let mut i: usize = 0;
    while i < path.len()
        invariant
            i <= path.len(),
            views(done@).push(current@) == split_on(path@.take(i as int), SLASH),
        decreases path.len() - i,
    {
        let byte = path[i];
        proof {
            assert(path@.take(i + 1).drop_last() =~= path@.take(i as int));
        }
        let ghost before = views(done@).push(current@);
        if byte == SLASH {
            done.push(current);
            current = Vec::new();
            assert(views(done@) =~= before);
        } else {
            current.push(byte);
            assert(before.drop_last() =~= views(done@));
        }
        i += 1;
    }
    assert(path@.take(path@.len() as int) =~= path@);
    let ghost before = views(done@);
    done.push(current);
    assert(views(done@) =~= before.push(current@));
    done
}

} // verus!
