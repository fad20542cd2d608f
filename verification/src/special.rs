//! The special files of the cgroup file system, which hold one line, and texts for the C side.

use vstd::prelude::*;
use vstd::slice::slice_to_vec;
use vstd::string::*;
use vstd::utf8::*;

use crate::error::{JailerError, NulError};
use crate::path::{decode_text, HostPath};
use crate::text::{chars_of, text_of};

verus! {

/// How a file is to be opened.
#[derive(Debug, Clone, Copy, PartialEq, Eq, Structural)]
pub struct OpenMode {
    pub read: bool,
    pub write: bool,
    /// Whether a file that is absent is created.
    pub create: bool,
    /// Whether a file that is there is emptied.
    pub truncate: bool,
    /// Whether a symbolic link is followed.
    pub follow: bool,
}

/// How a special file is opened for writing.
#[verifier::allow_in_spec]
pub fn write_mode() -> OpenMode
    returns
        (OpenMode {
            read: false,
            write: true,
            create: true,
            truncate: true,
            follow: false,
        }),
{
    OpenMode {
        read: false,
        write: true,
        create: true,
        truncate: true,
        follow: false,
    }
}

/// How a special file is opened for reading.
#[verifier::allow_in_spec]
pub fn read_mode() -> OpenMode
    returns
        (OpenMode {
            read: true,
            write: false,
            create: false,
            truncate: false,
            follow: false,
        }),
{
    OpenMode {
        read: true,
        write: false,
        create: false,
        truncate: false,
        follow: false,
    }
}

/// What came of an action of `writeln_special`.
#[derive(Debug, PartialEq, Eq)]
pub enum WriteEvent {
    /// Nothing has been done yet.
    Begin,
    /// The file was opened, or could not be.
    Opened(Result<(), String>),
    /// The text was written, or could not be.
    Written(Result<(), String>),
}

/// What `writeln_special` asks for.
#[derive(Debug, PartialEq, Eq)]
pub enum WriteAction {
    /// Open the file.
    Open(OpenMode),
    /// Write this text.
    WriteAll(String),
    /// The line is written, or could not be.
    Finish(Result<(), JailerError>),
}

/// Whether `error` says that the file at `path` could not be written because of `cause`.
pub open spec fn is_write_error(error: JailerError, path: Seq<u8>, cause: Seq<char>) -> bool {
    error matches JailerError::Write(at, why) && at@ == path && why@ == cause
}

/// Whether `action` is what writing `value` to the file at `path` asks for after an event.
pub open spec fn is_write_action(
    path: Seq<u8>,
    value: Seq<char>,
    event: WriteEvent,
    action: WriteAction,
) -> bool {
    match event {
        WriteEvent::Begin => action == WriteAction::Open(write_mode()),
        WriteEvent::Opened(Ok(_)) => action matches WriteAction::WriteAll(text) && text@
            == value.push('\n'),
        WriteEvent::Written(Ok(_)) => action == WriteAction::Finish(Ok(())),
        WriteEvent::Opened(Err(cause)) | WriteEvent::Written(Err(cause)) => {
            action matches WriteAction::Finish(Err(error)) && is_write_error(error, path, cause@)
        },
    }
}

/// Writes a value and a newline to a special file, one action after the other.
pub fn writeln_special(file_path: &HostPath, value: &str, event: WriteEvent) -> (r: WriteAction)
    ensures
        is_write_action(file_path@, value@, event, r),
{
    match event {
        WriteEvent::Begin => WriteAction::Open(write_mode()),
        WriteEvent::Opened(Ok(_)) => {
            let mut text = value.to_owned();
            text.push('\n');
            WriteAction::WriteAll(text)
        },
        WriteEvent::Written(Ok(_)) => WriteAction::Finish(Ok(())),
        WriteEvent::Opened(Err(cause)) | WriteEvent::Written(Err(cause)) => {
            WriteAction::Finish(Err(JailerError::Write(file_path.clone(), cause)))
        },
    }
}

/// What came of an action of `readln_special`.
#[derive(Debug, PartialEq, Eq)]
pub enum ReadEvent {
    /// Nothing has been done yet.
    Begin,
    /// The file was opened, or could not be.
    Opened(Result<(), String>),
    /// The file holds this text, or could not be read.
    Contents(Result<String, String>),
}

/// What `readln_special` asks for.
#[derive(Debug, PartialEq, Eq)]
pub enum ReadAction {
    /// Open the file.
    Open(OpenMode),
    /// Read the whole file as a text.
    ReadAll,
    /// The file holds this line, or could not be read.
    Finish(Result<String, JailerError>),
}

/// Whether `error` says that the file at `path` could not be read because of `cause`.
pub open spec fn is_read_error(error: JailerError, path: Seq<u8>, cause: Seq<char>) -> bool {
    error matches JailerError::ReadToString(at, why) && at@ == path && why@ == cause
}

/// A text without the newline at its end, if there is one.
pub open spec fn without_end(text: Seq<char>) -> Seq<char> {
    if text.len() > 0 && text.last() == '\n' {
        text.drop_last()
    } else {
        text
    }
}

/// Whether `action` is what reading the file at `path` asks for after an event.
pub open spec fn is_read_action(path: Seq<u8>, event: ReadEvent, action: ReadAction) -> bool {
    match event {
        ReadEvent::Begin => action == ReadAction::Open(read_mode()),
        ReadEvent::Opened(Ok(_)) => action == ReadAction::ReadAll,
        ReadEvent::Contents(Ok(text)) => action matches ReadAction::Finish(Ok(line)) && line@
            == without_end(text@),
        ReadEvent::Opened(Err(cause)) | ReadEvent::Contents(Err(cause)) => {
            action matches ReadAction::Finish(Err(error)) && is_read_error(error, path, cause@)
        },
    }
}

/// Reads the line of a special file, one action after the other.
pub fn readln_special(file_path: &HostPath, event: ReadEvent) -> (r: ReadAction)
    ensures
        is_read_action(file_path@, event, r),
{
    match event {
        ReadEvent::Begin => ReadAction::Open(read_mode()),
        ReadEvent::Opened(Ok(_)) => ReadAction::ReadAll,
        ReadEvent::Contents(Ok(text)) => {
            let mut line = chars_of(text.as_str());
            let n = line.len();
            if n > 0 && line[n - 1] == '\n' {
                line.pop();
            }
            assert(line@ =~= without_end(text@));
            ReadAction::Finish(Ok(text_of(line.as_slice())))
        },
        ReadEvent::Opened(Err(cause)) | ReadEvent::Contents(Err(cause)) => {
            ReadAction::Finish(Err(JailerError::ReadToString(file_path.clone(), cause)))
        },
    }
}

/// What `readln_special` makes of the text that `writeln_special` has written is the value.
pub proof fn law_line_reads_back(value: Seq<char>)
    ensures
        without_end(value.push('\n')) == value,
{
    assert(value.push('\n').drop_last() =~= value);
}

/// Where `bytes` hold their first zero, if they hold one.
pub fn find_nul(bytes: &[u8]) -> (r: Option<usize>)
    ensures
        match r {
            Some(i) => i < bytes@.len() && bytes@[i as int] == 0 && (forall|j: int|
                0 <= j < i ==> bytes@[j] != 0),
            None => !bytes@.contains(0),
        },
{
    let mut i: usize = 0;
    while i < bytes.len()
        invariant
            i <= bytes.len(),
            forall|j: int| 0 <= j < i ==> bytes@[j] != 0,
        decreases bytes.len() - i,
    {
        if bytes[i] == 0 {
            return Some(i);
        }
        i += 1;
    }
    None
}

/// Whether `error` says that `bytes` hold a zero, and where the first one is.
pub open spec fn is_nul_error(error: JailerError, bytes: Seq<u8>) -> bool {
    error matches JailerError::CStringParsing(nul) && nul.bytes@ == bytes && nul.position
        < bytes.len() && bytes[nul.position as int] == 0 && (forall|j: int|
        0 <= j < nul.position ==> bytes[j] != 0)
}

/// Whether `error` says that the path is no text.
pub open spec fn is_text_error(error: JailerError, path: Seq<u8>) -> bool {
    error matches JailerError::OsStringParsing(at, bytes) && at@ == path && bytes@ == path
}

/// Whether `r` is the C string that spells a path, or why there is none.
pub open spec fn is_c_string(path: Seq<u8>, r: Result<Vec<u8>, JailerError>) -> bool {
    match r {
        Ok(bytes) => bytes@ == path && valid_utf8(path) && !path.contains(0),
        Err(error) => if valid_utf8(path) {
            path.contains(0) && is_nul_error(error, path)
        } else {
            is_text_error(error, path)
        },
    }
}

/// The bytes of a C string that spells a path, without the zero that ends it.
pub fn to_cstring(path: &HostPath) -> (r: Result<Vec<u8>, JailerError>)
    ensures
        is_c_string(path@, r),
{
    let bytes = path.bytes.as_slice();
    if decode_text(bytes).is_none() {
        return Err(JailerError::OsStringParsing(path.clone(), slice_to_vec(bytes)));
    }
    match find_nul(bytes) {
        Some(position) => {
            assert(path@.contains(path@[position as int]));
            Err(JailerError::CStringParsing(NulError { position, bytes: slice_to_vec(bytes) }))
        },
        None => Ok(slice_to_vec(bytes)),
    }
}

} // verus!
