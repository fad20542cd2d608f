//! Reading what a benchmark run has left in the serial log: the JSON report of fio, and fio's
//! time series.

use vstd::prelude::*;
use vstd::string::*;

use crate::text::{
    chars_of, lines, lines_of, number, parse_number, same_text, split_chars, split_on, text_of,
    trim, trim_chars, views,
};

verus! {

/// One entry of a fio time series.
#[derive(Debug, Clone, Copy, PartialEq, Eq)]
pub struct FioLogEntry {
    pub timestamp_ms: u64,
    pub value: u64,
    /// 0 is read, 1 is write.
    pub direction: u8,
    /// Only latency logs have one.
    pub block_size: Option<u64>,
}

/// The fields of a line: what stands between its commas, without the white space around it.
pub open spec fn fields(line: Seq<char>) -> Seq<Seq<char>> {
    split_on(line, ',').map_values(|field: Seq<char>| trim(field))
}

/// The number in a field, if it fits in 64 bits.
pub open spec fn long_field(field: Seq<char>) -> Option<u64> {
    match number(field, u64::MAX as nat) {
        Some(n) => Some(n as u64),
        None => None,
    }
}

/// The number in a field, if it fits in 8 bits.
pub open spec fn short_field(field: Seq<char>) -> Option<u8> {
    match number(field, u8::MAX as nat) {
        Some(n) => Some(n as u8),
        None => None,
    }
}

/// The entry that a line holds: time, value and direction, and in a fourth field the block
/// size, which is dropped where it is no number. A line of another form holds none.
pub open spec fn entry_of(line: Seq<char>) -> Option<FioLogEntry> {
    let parts = fields(line);
    if parts.len() == 3 || parts.len() == 4 {
        match (long_field(parts[0]), long_field(parts[1]), short_field(parts[2])) {
            (Some(timestamp_ms), Some(value), Some(direction)) => Some(
                FioLogEntry {
                    timestamp_ms,
                    value,
                    direction,
                    block_size: if parts.len() == 4 {
                        long_field(parts[3])
                    } else {
                        None
                    },
                },
            ),
            _ => None,
        }
    } else {
        None
    }
}

/// The entries of a row of lines, in their order.
pub open spec fn entries_of(lines: Seq<Seq<char>>) -> Seq<FioLogEntry>
    decreases lines.len(),
{
    if lines.len() == 0 {
        Seq::empty()
    } else {
        match entry_of(lines.last()) {
            Some(entry) => entries_of(lines.drop_last()).push(entry),
            None => entries_of(lines.drop_last()),
        }
    }
}

fn parse_long(field: &[char]) -> (r: Option<u64>)
    ensures
        r == long_field(trim(field@)),
{
    parse_number(trim_chars(field), u64::MAX)
}

fn parse_short(field: &[char]) -> (r: Option<u8>)
    ensures
        r == short_field(trim(field@)),
{
    match parse_number(trim_chars(field), u8::MAX as u64) {
        Some(n) => Some(n as u8),
        None => None,
    }
}

/// Reads one line of a time series.
pub fn parse_fio_line(line: &[char]) -> (r: Option<FioLogEntry>)
    ensures
        r == entry_of(line@),
{
    let parts = split_chars(line, ',');
    let ghost split = split_on(line@, ',');
    proof {
        assert(views(parts@).len() == parts@.len());
        assert forall|i: int| 0 <= i < parts@.len() implies #[trigger] fields(line@)[i]
            == trim(parts@[i]@) by {
            assert(split[i] == views(parts@)[i]);
        }
    }
    if parts.len() != 3 && parts.len() != 4 {
        return None;
    }
    let timestamp_ms = parse_long(parts[0].as_slice());
    let value = parse_long(parts[1].as_slice());
    let direction = parse_short(parts[2].as_slice());
    assert(timestamp_ms == long_field(fields(line@)[0]));
    assert(value == long_field(fields(line@)[1]));
    assert(direction == short_field(fields(line@)[2]));
    let block_size = if parts.len() == 4 {
        let size = parse_long(parts[3].as_slice());
        assert(size == long_field(fields(line@)[3]));
        size
    } else {
        None
    };
    match (timestamp_ms, value, direction) {
        (Some(timestamp_ms), Some(value), Some(direction)) => Some(
            FioLogEntry { timestamp_ms, value, direction, block_size },
        ),
        _ => None,
    }
}

/// Reads a time series: the entries of the lines that have the form of one.
pub fn parse_fio_log(raw: &str) -> (r: Vec<FioLogEntry>)
    ensures
        r@ == entries_of(lines(raw@)),
{
    let lines = lines_of(raw);
    let ghost all = views(lines@);
    let mut out: Vec<FioLogEntry> = Vec::new();
    let mut i: usize = 0;
    while i < lines.len()
        invariant
            i <= lines.len(),
            all == views(lines@),
            out@ == entries_of(all.take(i as int)),
        decreases lines.len() - i,
    {
        assert(all.take(i + 1).drop_last() =~= all.take(i as int));
        assert(all.take(i + 1).last() == lines@[i as int]@);
        if let Some(entry) = parse_fio_line(lines[i].as_slice()) {
            out.push(entry);
        }
        i += 1;
    }
    assert(all.take(all.len() as int) =~= all);
    out
}

/// Whether the text from the first opening brace to the last closing brace is one: the last
/// closing brace does not stand before the character that precedes the first opening one.
pub open spec fn braces_in_order(raw: Seq<char>) -> bool {
    raw.contains('{') && raw.contains('}') ==> raw.index_of_first('{')->0 <= raw.index_of_last(
        '}',
    )->0 + 1
}

/// The text from the first opening brace to the last closing brace.
pub open spec fn json_block(raw: Seq<char>) -> Option<Seq<char>> {
    match (raw.index_of_first('{'), raw.index_of_last('}')) {
        (Some(from), Some(to)) => Some(raw.subrange(from, to + 1)),
        _ => None,
    }
}

/// Where `c` stands first.
fn find_first(text: &[char], c: char) -> (r: Option<usize>)
    ensures
        match r {
            Some(i) => text@.index_of_first(c) == Some(i as int),
            None => text@.index_of_first(c) is None,
        },
{
    let mut i: usize = 0;
    while i < text.len()
        invariant
            i <= text.len(),
            forall|j: int| 0 <= j < i ==> text@[j] != c,
        decreases text.len() - i,
    {
        if text[i] == c {
            proof {
                assert(text@.contains(text@[i as int]));
                text@.index_of_first_ensures(c);
            }
            return Some(i);
        }
        i += 1;
    }
    proof {
        text@.index_of_first_ensures(c);
    }
    None
}

/// Where `c` stands last.
fn find_last(text: &[char], c: char) -> (r: Option<usize>)
    ensures
        match r {
            Some(i) => text@.index_of_last(c) == Some(i as int),
            None => text@.index_of_last(c) is None,
        },
{
    let mut i: usize = text.len();
    while i > 0
        invariant
            i <= text.len(),
            forall|j: int| i <= j < text@.len() ==> text@[j] != c,
        decreases i,
    {
        if text[i - 1] == c {
            proof {
                assert(text@.contains(text@[i - 1]));
                text@.index_of_last_ensures(c);
            }
            return Some(i - 1);
        }
        i -= 1;
    }
    proof {
        text@.index_of_last_ensures(c);
    }
    None
}

/// Strips what stands around the JSON object in a serial log.
pub fn extract_json_block(raw: &str) -> (r: Option<&str>)
    requires
        braces_in_order(raw@),
    ensures
        match r {
            Some(block) => json_block(raw@) == Some(block@),
            None => json_block(raw@) is None,
        },
{
    let chars = chars_of(raw);
    let total = chars.len();
    assert(total == raw@.len());
    proof {
        raw@.index_of_first_ensures('{');
        raw@.index_of_last_ensures('}');
    }
    match (find_first(chars.as_slice(), '{'), find_last(chars.as_slice(), '}')) {
        (Some(from), Some(to)) => Some(raw.substring_char(from, to + 1)),
        _ => None,
    }
}

/// Whether `needle` occurs in `text`.
pub open spec fn occurs(needle: Seq<char>, text: Seq<char>) -> bool {
    exists|i: int|
        0 <= i <= text.len() - needle.len() && #[trigger] text.subrange(i, i + needle.len())
            == needle
}

/// Looks for `needle` in `text`.
fn contains_text(text: &[char], needle: &str) -> (r: bool)
    ensures
        r == occurs(needle@, text@),
{
    let n = needle.unicode_len();
    if text.len() < n {
        return false;
    }
    let last = text.len() - n;
    let mut i: usize = 0;
    loop
        invariant
            n == needle@.len(),
            i <= last == text@.len() - n,
            text@.len() <= usize::MAX,
            forall|j: int| 0 <= j < i ==> #[trigger] text@.subrange(j, j + n) != needle@,
        decreases last - i,
    {
        let window = text_of(&text[i..i + n]);
        if same_text(window.as_str(), needle) {
            assert(text@.subrange(i as int, i + needle@.len()) == needle@);
            return true;
        }
        if i == last {
            return false;
        }
        i += 1;
    }
}

/// Whether a serial log could be read and says that the results are complete.
pub open spec fn says_complete(serial: Option<&str>) -> bool {
    serial matches Some(log) && occurs("===RESULTS_END==="@, log@)
}

/// Whether the serial log, if it could be read, says that the results are complete.
pub fn results_ready(serial: Option<&str>) -> (r: bool)
    ensures
        r == says_complete(serial),
{
    match serial {
        Some(log) => contains_text(chars_of(log).as_slice(), "===RESULTS_END==="),
        None => false,
    }
}

/// The name of the time series that a line opens.
pub open spec fn opened_tag(line: Seq<char>) -> Option<Seq<char>> {
    let open = "===FIO_LOG "@;
    let close = "==="@;
    let n = line.len() - close.len();
    if open.len() <= n && line.take(open.len() as int) == open && line.skip(n) == close {
        Some(line.subrange(open.len() as int, n))
    } else {
        None
    }
}

/// The time series that have been read, and the one that is being read.
pub struct Collected {
    pub logs: Map<Seq<char>, Seq<FioLogEntry>>,
    pub tag: Seq<char>,
    pub buffer: Seq<char>,
    pub collecting: bool,
}

impl Collected {
    /// Before the first line.
    pub open spec fn nothing() -> Self {
        Collected {
            logs: Map::empty(),
            tag: Seq::empty(),
            buffer: Seq::empty(),
            collecting: false,
        }
    }

    /// After one line more. A line that opens a time series begins one, also within another; a
    /// closing line ends the one that is open, which replaces an earlier one of the same name;
    /// other lines count only within one.
    pub open spec fn with_line(self, line: Seq<char>) -> Self {
        match opened_tag(line) {
            Some(tag) => Collected { tag, buffer: Seq::empty(), collecting: true, ..self },
            None => if !self.collecting {
                self
            } else if line == "===FIO_LOG_END==="@ {
                Collected {
                    logs: self.logs.insert(
                        self.tag,
                        entries_of(lines(self.buffer)),
                    ),
                    collecting: false,
                    ..self
                }
            } else {
                Collected { buffer: self.buffer + line.push('\n'), ..self }
            },
        }
    }

    /// After a row of lines.
    pub open spec fn with_lines(lines: Seq<Seq<char>>) -> Self
        decreases lines.len(),
    {
        if lines.len() == 0 {
            Self::nothing()
        } else {
            Self::with_lines(lines.drop_last()).with_line(lines.last())
        }
    }
}

/// A time series with its name.
#[derive(Debug, PartialEq, Eq)]
pub struct FioLog {
    pub tag: String,
    pub entries: Vec<FioLogEntry>,
}

/// The time series by their names.
pub open spec fn log_map(logs: Seq<FioLog>) -> Map<Seq<char>, Seq<FioLogEntry>>
    decreases logs.len(),
{
    if logs.len() == 0 {
        Map::empty()
    } else {
        log_map(logs.drop_last()).insert(logs.last().tag@, logs.last().entries@)
    }
}

/// Whether no name occurs twice.
pub open spec fn distinct_tags(logs: Seq<FioLog>) -> bool {
    forall|i: int, j: int|
        0 <= i < j < logs.len() ==> #[trigger] logs[i].tag@ != #[trigger] logs[j].tag@
}

proof fn lemma_log_map_replaced(logs: Seq<FioLog>, i: int, log: FioLog)
    requires
        0 <= i < logs.len(),
        logs[i].tag@ == log.tag@,
        distinct_tags(logs),
    ensures
        log_map(logs.update(i, log)) == log_map(logs).insert(log.tag@, log.entries@),
    decreases logs.len(),
{
    let updated = logs.update(i, log);
    if i == logs.len() - 1 {
        assert(updated.drop_last() =~= logs.drop_last());
        assert(log_map(updated) =~= log_map(logs).insert(log.tag@, log.entries@));
    } else {
        assert(updated.drop_last() =~= logs.drop_last().update(i, log));
        lemma_log_map_replaced(logs.drop_last(), i, log);
        assert(logs[i].tag@ != logs.last().tag@);
        assert(log_map(updated) =~= log_map(logs).insert(log.tag@, log.entries@));
    }
}

/// Files a time series under its name, in place of an earlier one.
fn insert_log(logs: &mut Vec<FioLog>, log: FioLog)
    requires
        distinct_tags(old(logs)@),
    ensures
        distinct_tags(final(logs)@),
        log_map(final(logs)@) == log_map(old(logs)@).insert(log.tag@, log.entries@),
{
    let mut i: usize = 0;
    while i < logs.len()
        invariant
            i <= logs.len(),
            logs@ == old(logs)@,
            distinct_tags(logs@),
            forall|j: int| 0 <= j < i ==> (#[trigger] logs@[j]).tag@ != log.tag@,
        decreases logs.len() - i,
    {
        if same_text(logs[i].tag.as_str(), log.tag.as_str()) {
            proof {
                lemma_log_map_replaced(logs@, i as int, log);
            }
            logs.set(i, log);
            return;
        }
        i += 1;
    }
    logs.push(log);
    assert(logs@.drop_last() =~= old(logs)@);
}

/// Reads the name of the time series that a line opens.
fn parse_tag(line: &[char]) -> (r: Option<String>)
    ensures
        match r {
            Some(tag) => opened_tag(line@) == Some(tag@),
            None => opened_tag(line@) is None,
        },
{
    let open: usize = 11;
    let close: usize = 3;
    proof {
        reveal_strlit("===FIO_LOG ");
        reveal_strlit("===");
    }
    if line.len() < open + close {
        return None;
    }
    let n = line.len() - close;
    let start = text_of(&line[0..open]);
    let end = text_of(&line[n..line.len()]);
    assert(line@.subrange(0, 11) =~= line@.take(11));
    assert(line@.subrange(n as int, line@.len() as int) =~= line@.skip(n as int));
    if same_text(start.as_str(), "===FIO_LOG ") && same_text(end.as_str(), "===") {
        Some(text_of(&line[open..n]))
    } else {
        None
    }
}

/// What comes of reading a text as JSON: the value as its compact text, or what is wrong.
pub uninterp spec fn parsed_json(text: Seq<char>) -> Result<Seq<char>, Seq<char>>;

/// `serde_json::from_str` for a `serde_json::Value`, which is handed on as its compact text, and
/// its error as the text that describes it: both depend on the text that is read alone.
#[verifier::external_body]
fn parse_json(text: &str) -> (r: Result<String, String>)
    ensures
        match r {
            Ok(value) => parsed_json(text@) == Ok::<Seq<char>, Seq<char>>(value@),
            Err(cause) => parsed_json(text@) == Err::<Seq<char>, Seq<char>>(cause@),
        },
{
    match serde_json::from_str::<serde_json::Value>(text) {
        Ok(value) => Ok(value.to_string()),
        Err(cause) => Err(cause.to_string()),
    }
}

/// Why a serial log could not be read.
#[derive(Debug, PartialEq, Eq)]
pub enum FioError {
    /// It holds no text in braces.
    NoReport,
    /// The text in braces is no JSON.
    BadReport { block: String, cause: String },
}

/// The message of a failure.
pub open spec fn fio_message(error: FioError) -> Seq<char> {
    match error {
        FioError::NoReport => "No JSON object found in serial output"@,
        FioError::BadReport { block, cause: _ } => "Failed to parse fio JSON: '"@ + block@ + "'"@,
    }
}

impl FioError {
    /// The message that tells the user what failed.
    pub fn message(&self) -> (r: String)
        ensures
            r@ == fio_message(*self),
    {
        match self {
            FioError::NoReport => "No JSON object found in serial output".to_owned(),
            FioError::BadReport { block, cause: _ } => {
                "Failed to parse fio JSON: '".to_owned().concat(block.as_str()).concat("'")
            },
        }
    }
}

/// Whether `r` is what a serial log gives whose text in braces is `block`, where reading that
/// text as JSON came to `parsed`.
pub open spec fn are_blocks(
    content: Seq<char>,
    block: Seq<char>,
    parsed: Result<Seq<char>, Seq<char>>,
    r: Result<(String, Vec<FioLog>), FioError>,
) -> bool {
    match parsed {
        Ok(report) => {
            &&& r matches Ok((json, logs))
            &&& json@ == report
            &&& log_map(logs@) == Collected::with_lines(lines(content)).logs
            &&& distinct_tags(logs@)
        },
        Err(wrong) => r matches Err(FioError::BadReport { block: text, cause }) && text@ == block
            && cause@ == wrong,
    }
}

/// The view of what reading a text as JSON came to.
pub open spec fn parsed_view(parsed: Result<String, String>) -> Result<Seq<char>, Seq<char>> {
    match parsed {
        Ok(report) => Ok(report@),
        Err(cause) => Err(cause@),
    }
}

/// Whether `r` is what a serial log gives.
pub open spec fn are_extracted(
    content: Seq<char>,
    r: Result<(String, Vec<FioLog>), FioError>,
) -> bool {
    match json_block(content) {
        Some(block) => are_blocks(content, block, parsed_json(block), r),
        None => r == Err::<(String, Vec<FioLog>), FioError>(FioError::NoReport),
    }
}

/// Reads a serial log: the JSON report, as the compact text of its value, and the time series.
///
/// ```text
/// {fio JSON output}
/// ===FIO_JSON_END===
/// ===FIO_LOG iops===
/// 123,456,789
/// ===FIO_LOG_END===
/// ```
pub fn extract_blocks(content: &str) -> (r: Result<(String, Vec<FioLog>), FioError>)
    requires
        braces_in_order(content@),
    ensures
        are_extracted(content@, r),
{
    match extract_json_block(content) {
        Some(block) => blocks_of(content, block, parse_json(block)),
        None => Err(FioError::NoReport),
    }
}

/// Reads a serial log whose text in braces is `block`, given what reading that text as JSON
/// came to.
pub fn blocks_of(content: &str, block: &str, parsed: Result<String, String>) -> (r: Result<
    (String, Vec<FioLog>),
    FioError,
>)
    ensures
        are_blocks(content@, block@, parsed_view(parsed), r),
{
    let json = match parsed {
        Ok(report) => report,
        Err(cause) => {
            return Err(FioError::BadReport { block: block.to_owned(), cause });
        },
    };
    let lines = lines_of(content);
    let ghost all = views(lines@);
    let mut logs: Vec<FioLog> = Vec::new();
    let mut tag = String::new();
    let mut buffer = String::new();
    let mut collecting = false;
    let mut i: usize = 0;
    while i < lines.len()
        invariant
            i <= lines.len(),
            all == views(lines@),
            distinct_tags(logs@),
            Collected::with_lines(all.take(i as int)) == (Collected {
                logs: log_map(logs@),
                tag: tag@,
                buffer: buffer@,
                collecting,
            }),
        decreases lines.len() - i,
    {
        let line = &lines[i];
        proof {
            assert(all.take(i + 1).drop_last() =~= all.take(i as int));
            assert(all.take(i + 1).last() == line@);
        }
        match parse_tag(line.as_slice()) {
            Some(opened) => {
                tag = opened;
                buffer = String::new();
                collecting = true;
            },
            None => if collecting {
                let text = text_of(line.as_slice());
                if same_text(text.as_str(), "===FIO_LOG_END===") {
                    insert_log(
                        &mut logs,
                        FioLog { tag: tag.clone(), entries: parse_fio_log(buffer.as_str()) },
                    );
                    collecting = false;
                } else {
                    let ghost before = buffer@;
                    buffer.append(text.as_str());
                    buffer.push('\n');
                    assert(buffer@ =~= before + line@.push('\n'));
                }
            },
        }
        i += 1;
    }
    assert(all.take(all.len() as int) =~= all);
    Ok((json, logs))
}

} // verus!
