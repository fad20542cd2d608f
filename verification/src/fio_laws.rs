//! What holds of every time series and of every serial log.

use vstd::prelude::*;

use crate::fio::{
    are_blocks, are_extracted, distinct_tags, entries_of, entry_of, fields, fio_message,
    json_block, log_map, occurs, opened_tag, parsed_json, says_complete, Collected, FioError,
    FioLog, FioLogEntry,
};
use crate::text::{
    decimal, is_digit, is_space, lemma_decimal_denotes, lines, number, split_on, strip_return,
    trim, trim_end, trim_start,
};
use crate::text_laws::{
    all_space, are_free_of, are_lines, ended_lines, is_bare, joined_with, law_lines_are_read,
    law_numbers_are_read, law_splitting_undoes_joining, law_trimming_leaves_the_text,
    lemma_tail_grows, zeros,
};

verus! {

/// A field: a text with white space around it.
pub open spec fn padded(before: Seq<char>, text: Seq<char>, behind: Seq<char>) -> Seq<char> {
    before + text + behind
}

/// A line of fields.
pub open spec fn line_of(texts: Seq<Seq<char>>) -> Seq<char> {
    joined_with(texts, ',')
}

/// Decimal notation has neither commas nor white space.
proof fn lemma_decimal_is_clean(n: nat)
    ensures
        !decimal(n).contains(','),
        is_bare(decimal(n)),
        decimal(n).len() > 0,
{
    lemma_decimal_denotes(n);
    let text = decimal(n);
    if text.contains(',') {
        let i = choose|i: int| 0 <= i < text.len() && text[i] == ',';
        assert(is_digit(text[i]));
    }
    assert(is_digit(text[0]));
    assert(is_digit(text[text.len() - 1]));
}

/// A padded number has no commas, and is read as the number where it fits.
proof fn lemma_padded_number(before: Seq<char>, n: nat, behind: Seq<char>, max: nat)
    requires
        all_space(before),
        all_space(behind),
    ensures
        !padded(before, decimal(n), behind).contains(','),
        trim(padded(before, decimal(n), behind)) == decimal(n),
        number(trim(padded(before, decimal(n), behind)), max) == if n <= max {
            Some(n)
        } else {
            None
        },
{
    lemma_decimal_is_clean(n);
    law_trimming_leaves_the_text(before, decimal(n), behind);
    law_numbers_are_read(n, max, 0);
    assert(zeros(0) + decimal(n) =~= decimal(n));
    let text = padded(before, decimal(n), behind);
    if text.contains(',') {
        let i = choose|i: int| 0 <= i < text.len() && text[i] == ',';
        if i < before.len() {
            assert(is_space(before[i]));
        } else if i < before.len() + decimal(n).len() {
            assert(decimal(n)[i - before.len()] == ',');
        } else {
            assert(is_space(behind[i - before.len() - decimal(n).len()]));
        }
    }
}

/// The fields of a line of texts are the texts, without the white space around them.
proof fn lemma_fields_of(texts: Seq<Seq<char>>)
    requires
        texts.len() > 0,
        are_free_of(texts, ','),
    ensures
        fields(line_of(texts)).len() == texts.len(),
        forall|i: int|
            0 <= i < texts.len() ==> #[trigger] fields(line_of(texts))[i] == trim(texts[i]),
{
    law_splitting_undoes_joining(texts, ',');
}

/// Writing an entry of an iops or bandwidth log and reading it back gives the entry: the first
/// number is the time, the second the value, the third the direction. White space around the
/// numbers does not matter.
pub proof fn law_short_entries_read_back(
    t: u64,
    v: u64,
    d: u8,
    before: Seq<char>,
    behind: Seq<char>,
)
    requires
        all_space(before),
        all_space(behind),
    ensures
        entry_of(
            line_of(
                seq![
                    padded(before, decimal(t as nat), behind),
                    padded(before, decimal(v as nat), behind),
                    padded(before, decimal(d as nat), behind),
                ],
            ),
        ) == Some(
            FioLogEntry { timestamp_ms: t, value: v, direction: d, block_size: None },
        ),
{
    let texts = seq![
        padded(before, decimal(t as nat), behind),
        padded(before, decimal(v as nat), behind),
        padded(before, decimal(d as nat), behind),
    ];
    lemma_padded_number(before, t as nat, behind, u64::MAX as nat);
    lemma_padded_number(before, v as nat, behind, u64::MAX as nat);
    lemma_padded_number(before, d as nat, behind, u8::MAX as nat);
    lemma_fields_of(texts);
    let parts = fields(line_of(texts));
    assert(parts[0] == trim(texts[0]));
    assert(parts[1] == trim(texts[1]));
    assert(parts[2] == trim(texts[2]));
}

/// Writing an entry of a latency log and reading it back gives the entry: a fourth number is the
/// block size, and changes nothing else. A fourth field that is no number is no block size.
pub proof fn law_long_entries_read_back(
    t: u64,
    v: u64,
    d: u8,
    size: Seq<char>,
    before: Seq<char>,
    behind: Seq<char>,
)
    requires
        all_space(before),
        all_space(behind),
        !size.contains(','),
    ensures
        entry_of(
            line_of(
                seq![
                    padded(before, decimal(t as nat), behind),
                    padded(before, decimal(v as nat), behind),
                    padded(before, decimal(d as nat), behind),
                    size,
                ],
            ),
        ) == Some(
            FioLogEntry {
                timestamp_ms: t,
                value: v,
                direction: d,
                block_size: match number(trim(size), u64::MAX as nat) {
                    Some(n) => Some(n as u64),
                    None => None,
                },
            },
        ),
{
    let texts = seq![
        padded(before, decimal(t as nat), behind),
        padded(before, decimal(v as nat), behind),
        padded(before, decimal(d as nat), behind),
        size,
    ];
    lemma_padded_number(before, t as nat, behind, u64::MAX as nat);
    lemma_padded_number(before, v as nat, behind, u64::MAX as nat);
    lemma_padded_number(before, d as nat, behind, u8::MAX as nat);
    lemma_fields_of(texts);
    let parts = fields(line_of(texts));
    assert(parts[0] == trim(texts[0]));
    assert(parts[1] == trim(texts[1]));
    assert(parts[2] == trim(texts[2]));
    assert(parts[3] == trim(texts[3]));
}

/// The block size of a latency log is read back as well.
pub proof fn law_block_sizes_read_back(
    t: u64,
    v: u64,
    d: u8,
    s: u64,
    before: Seq<char>,
    behind: Seq<char>,
)
    requires
        all_space(before),
        all_space(behind),
    ensures
        entry_of(
            line_of(
                seq![
                    padded(before, decimal(t as nat), behind),
                    padded(before, decimal(v as nat), behind),
                    padded(before, decimal(d as nat), behind),
                    padded(before, decimal(s as nat), behind),
                ],
            ),
        ) == Some(
            FioLogEntry { timestamp_ms: t, value: v, direction: d, block_size: Some(s) },
        ),
{
    lemma_padded_number(before, s as nat, behind, u64::MAX as nat);
    law_long_entries_read_back(
        t,
        v,
        d,
        padded(before, decimal(s as nat), behind),
        before,
        behind,
    );
}

/// A line holds an entry only where it has three or four fields, and the first three are numbers
/// that fit; the entry says just these numbers.
pub proof fn law_only_entries_are_read(texts: Seq<Seq<char>>)
    requires
        texts.len() > 0,
        are_free_of(texts, ','),
    ensures
        entry_of(line_of(texts)) is Some <==> (texts.len() == 3 || texts.len() == 4) && number(
            trim(texts[0]),
            u64::MAX as nat,
        ) is Some && number(trim(texts[1]), u64::MAX as nat) is Some && number(
            trim(texts[2]),
            u8::MAX as nat,
        ) is Some,
        entry_of(line_of(texts)) matches Some(entry) ==> {
            &&& number(trim(texts[0]), u64::MAX as nat) == Some(entry.timestamp_ms as nat)
            &&& number(trim(texts[1]), u64::MAX as nat) == Some(entry.value as nat)
            &&& number(trim(texts[2]), u8::MAX as nat) == Some(entry.direction as nat)
        },
{
    lemma_fields_of(texts);
    let parts = fields(line_of(texts));
    assert(parts.len() == texts.len());
    if texts.len() >= 3 {
        assert(parts[0] == trim(texts[0]));
        assert(parts[1] == trim(texts[1]));
        assert(parts[2] == trim(texts[2]));
    }
}

/// The entries of two rows of lines are those of the first and then those of the second.
pub proof fn law_entries_are_read_line_by_line(one: Seq<Seq<char>>, other: Seq<Seq<char>>)
    ensures
        entries_of(one + other) == entries_of(one) + entries_of(other),
    decreases other.len(),
{
    if other.len() == 0 {
        assert(one + other =~= one);
        assert(entries_of(one) + entries_of(other) =~= entries_of(one));
    } else {
        law_entries_are_read_line_by_line(one, other.drop_last());
        assert((one + other).drop_last() =~= one + other.drop_last());
        assert((one + other).last() == other.last());
        assert(entries_of(one + other) =~= entries_of(one) + entries_of(other));
    }
}

/// A line with an entry gives that entry and no other, and a line without one gives none.
pub proof fn law_a_line_gives_its_entry(line: Seq<char>)
    ensures
        entries_of(seq![line]) == match entry_of(line) {
            Some(entry) => seq![entry],
            None => Seq::empty(),
        },
{
    assert(seq![line].drop_last() =~= Seq::<Seq<char>>::empty());
    assert(entries_of(seq![line].drop_last()) =~= Seq::<FioLogEntry>::empty());
    assert(entries_of(seq![line]) =~= match entry_of(line) {
        Some(entry) => seq![entry],
        None => Seq::<FioLogEntry>::empty(),
    });
}

/// A row of lines that each hold an entry gives as many entries, each that of its own line.
pub proof fn law_no_entry_is_lost(rows: Seq<Seq<char>>)
    requires
        forall|i: int| 0 <= i < rows.len() ==> entry_of(#[trigger] rows[i]) is Some,
    ensures
        entries_of(rows).len() == rows.len(),
        forall|i: int|
            0 <= i < rows.len() ==> Some(#[trigger] entries_of(rows)[i]) == entry_of(rows[i]),
    decreases rows.len(),
{
    if rows.len() > 0 {
        let before = rows.drop_last();
        assert forall|i: int| 0 <= i < before.len() implies entry_of(
            #[trigger] before[i],
        ) is Some by {
            assert(before[i] == rows[i]);
        }
        law_no_entry_is_lost(before);
        assert(entry_of(rows[rows.len() - 1]) is Some);
        assert forall|i: int| 0 <= i < rows.len() implies Some(#[trigger] entries_of(rows)[i])
            == entry_of(rows[i]) by {
            if i < before.len() {
                assert(before[i] == rows[i]);
                assert(entries_of(before)[i] == entries_of(rows)[i]);
            }
        }
    }
}

/// One white space more at the end does not change what is left after trimming.
proof fn lemma_trim_ignores_end(text: Seq<char>, c: char)
    requires
        is_space(c),
    ensures
        trim(text.push(c)) == trim(text),
    decreases text.len(),
{
    let longer = text.push(c);
    if text.len() == 0 {
        assert(longer.skip(1) =~= text);
    } else if is_space(text[0]) {
        assert(longer.skip(1) =~= text.skip(1).push(c));
        lemma_trim_ignores_end(text.skip(1), c);
        assert(trim_start(longer) == trim_start(longer.skip(1)));
        assert(trim_start(text) == trim_start(text.skip(1)));
    } else {
        assert(trim_start(longer) == longer);
        assert(trim_start(text) == text);
        assert(longer.drop_last() =~= text);
        assert(trim_end(longer) == trim_end(longer.drop_last()));
    }
}

proof fn lemma_split_has_pieces(text: Seq<char>)
    ensures
        split_on(text, ',').len() > 0,
    decreases text.len(),
{
    if text.len() > 0 {
        lemma_split_has_pieces(text.drop_last());
    }
}

/// A carriage return at the end of a line does not change its entry.
proof fn lemma_return_does_not_matter(line: Seq<char>)
    ensures
        entry_of(strip_return(line)) == entry_of(line),
{
    if line.len() > 0 && line.last() == '\r' {
        let shorter = line.drop_last();
        lemma_split_has_pieces(shorter);
        let pieces = split_on(shorter, ',');
        let longer = split_on(line, ',');
        assert(longer == pieces.drop_last().push(pieces.last().push('\r')));
        lemma_trim_ignores_end(pieces.last(), '\r');
        assert(fields(line) =~= fields(shorter));
    }
}

/// The entries of lines and those of the lines without their carriage returns are the same.
proof fn lemma_returns_do_not_matter(rows: Seq<Seq<char>>)
    ensures
        entries_of(rows.map_values(|row: Seq<char>| strip_return(row))) == entries_of(rows),
    decreases rows.len(),
{
    let stripped = rows.map_values(|row: Seq<char>| strip_return(row));
    if rows.len() > 0 {
        lemma_returns_do_not_matter(rows.drop_last());
        lemma_return_does_not_matter(rows.last());
        assert(stripped.drop_last() =~= rows.drop_last().map_values(
            |row: Seq<char>| strip_return(row),
        ));
    } else {
        assert(stripped =~= rows);
    }
}

/// Whether a line neither opens nor closes a time series, nor holds a newline.
pub open spec fn is_body_line(line: Seq<char>) -> bool {
    &&& opened_tag(line) is None
    &&& line != "===FIO_LOG_END==="@
    &&& !line.contains('\n')
}

/// Whether every line is one of a time series.
pub open spec fn is_body(body: Seq<Seq<char>>) -> bool {
    forall|i: int| 0 <= i < body.len() ==> is_body_line(#[trigger] body[i])
}

/// The line that opens the time series `tag`.
pub open spec fn opening(tag: Seq<char>) -> Seq<char> {
    "===FIO_LOG "@ + tag + "==="@
}

/// A line with a name between its marks opens the time series of that name, and no other line
/// opens one.
pub proof fn law_tags_are_read(tag: Seq<char>, line: Seq<char>)
    ensures
        opened_tag(opening(tag)) == Some(tag),
        opened_tag(line) matches Some(name) ==> line == opening(name),
        opened_tag("===FIO_LOG_END==="@) is None,
{
    reveal_strlit("===FIO_LOG ");
    reveal_strlit("===");
    reveal_strlit("===FIO_LOG_END===");
    let whole = opening(tag);
    let open = "===FIO_LOG "@;
    let close = "==="@;
    let n = whole.len() - close.len();
    assert(whole.take(open.len() as int) =~= open);
    assert(whole.skip(n) =~= close);
    assert(whole.subrange(open.len() as int, n) =~= tag);
    if let Some(name) = opened_tag(line) {
        let m = line.len() - close.len();
        assert(line =~= line.take(open.len() as int) + line.subrange(open.len() as int, m)
            + line.skip(m));
    }
    let end = "===FIO_LOG_END==="@;
    assert(end.take(open.len() as int)[10] == '_');
    assert(open[10] == ' ');
}

/// What a row of lines adds to a log that is being read.
pub open spec fn with_more(start: Collected, rows: Seq<Seq<char>>) -> Collected
    decreases rows.len(),
{
    if rows.len() == 0 {
        start
    } else {
        with_more(start, rows.drop_last()).with_line(rows.last())
    }
}

proof fn lemma_with_more(before: Seq<Seq<char>>, rows: Seq<Seq<char>>)
    ensures
        Collected::with_lines(before + rows) == with_more(Collected::with_lines(before), rows),
    decreases rows.len(),
{
    if rows.len() == 0 {
        assert(before + rows =~= before);
    } else {
        lemma_with_more(before, rows.drop_last());
        assert((before + rows).drop_last() =~= before + rows.drop_last());
        assert((before + rows).last() == rows.last());
    }
}

/// Lines, each with a newline after it.
proof fn lemma_body_is_buffered(start: Collected, body: Seq<Seq<char>>)
    requires
        start.collecting,
        start.buffer.len() == 0,
        is_body(body),
    ensures
        with_more(start, body) == (Collected {
            buffer: with_more(start, body).buffer,
            ..start
        }),
        split_on(with_more(start, body).buffer, '\n').len() == body.len() + 1,
        split_on(with_more(start, body).buffer, '\n').drop_last() == body,
        split_on(with_more(start, body).buffer, '\n').last().len() == 0,
    decreases body.len(),
{
    if body.len() == 0 {
        assert(start.buffer =~= Seq::empty());
        assert(split_on(start.buffer, '\n').drop_last() =~= body);
    } else {
        let before = body.drop_last();
        assert forall|i: int| 0 <= i < before.len() implies is_body_line(#[trigger] before[i]) by {
            assert(before[i] == body[i]);
        }
        lemma_body_is_buffered(start, before);
        let line = body.last();
        assert(is_body_line(body[body.len() - 1]));
        let buffer = with_more(start, before).buffer;
        let longer = with_more(start, body).buffer;
        assert(longer == buffer + line.push('\n'));
        lemma_tail_grows(buffer, line);
        let pieces = split_on(buffer, '\n');
        assert(pieces.last() + line =~= line);
        assert(longer =~= (buffer + line).push('\n'));
        assert(longer.drop_last() =~= buffer + line);
        assert(split_on(longer, '\n') =~= before.push(line).push(Seq::empty()));
        assert(before.push(line) =~= body);
        assert(split_on(longer, '\n').drop_last() =~= body);
    }
}

/// A time series is read whole: wherever in a log its opening line, its lines and its closing
/// line stand, the log then holds the entries of all its lines, in their order, under its name,
/// and everything else as before.
pub proof fn law_series_are_read_whole(
    before: Seq<Seq<char>>,
    tag: Seq<char>,
    body: Seq<Seq<char>>,
)
    requires
        is_body(body),
    ensures
        Collected::with_lines(
            before + seq![opening(tag)] + body + seq!["===FIO_LOG_END==="@],
        ).logs == Collected::with_lines(before).logs.insert(tag, entries_of(body)),
        !Collected::with_lines(
            before + seq![opening(tag)] + body + seq!["===FIO_LOG_END==="@],
        ).collecting,
{
    let end = "===FIO_LOG_END==="@;
    law_tags_are_read(tag, end);
    let opened = before + seq![opening(tag)];
    assert(opened.drop_last() =~= before);
    let start = Collected::with_lines(opened);
    lemma_with_more(opened, body);
    lemma_body_is_buffered(start, body);
    let whole = opened + body + seq![end];
    assert(whole.drop_last() =~= opened + body);
    assert(whole.last() == end);
    let buffer = with_more(start, body).buffer;
    lemma_returns_do_not_matter(body);
    assert(lines(buffer) == body.map_values(|row: Seq<char>| strip_return(row)));
}

/// Lines outside of every time series change nothing, nor does a series that is not closed.
pub proof fn law_only_closed_series_count(
    before: Seq<Seq<char>>,
    tag: Seq<char>,
    body: Seq<Seq<char>>,
)
    requires
        is_body(body),
    ensures
        Collected::with_lines(before + seq![opening(tag)] + body).logs == Collected::with_lines(
            before,
        ).logs,
        !Collected::with_lines(before).collecting ==> Collected::with_lines(before + body)
            == Collected::with_lines(before),
        !Collected::with_lines(before).collecting ==> Collected::with_lines(
            before.push("===FIO_LOG_END==="@),
        ) == Collected::with_lines(before),
        Collected::with_lines(Seq::empty()).logs == Map::<Seq<char>, Seq<FioLogEntry>>::empty(),
        !Collected::with_lines(Seq::empty()).collecting,
    decreases body.len(),
{
    let end = "===FIO_LOG_END==="@;
    law_tags_are_read(tag, end);
    let opened = before + seq![opening(tag)];
    assert(opened.drop_last() =~= before);
    lemma_with_more(opened, body);
    lemma_body_is_buffered(Collected::with_lines(opened), body);
    assert(before.push(end).drop_last() =~= before);
    if body.len() == 0 {
        assert(before + body =~= before);
    } else {
        let shorter = body.drop_last();
        assert forall|i: int| 0 <= i < shorter.len() implies is_body_line(#[trigger] shorter[i]) by {
            assert(shorter[i] == body[i]);
        }
        law_only_closed_series_count(before, tag, shorter);
        assert(is_body_line(body[body.len() - 1]));
        assert((before + body).drop_last() =~= before + shorter);
    }
}

/// A serial log that ends with a time series is read with it: the report is what reading the text
/// in braces came to, and the series holds the entries of all its lines. Where that text is no
/// JSON, the log is refused with the text and the cause.
pub proof fn law_serial_logs_are_read(
    before: Seq<Seq<char>>,
    tag: Seq<char>,
    body: Seq<Seq<char>>,
    carriage: Seq<bool>,
    block: Seq<char>,
    parsed: Result<Seq<char>, Seq<char>>,
    r: Result<(String, Vec<FioLog>), FioError>,
)
    requires
        is_body(body),
        are_lines(
            before + seq![opening(tag)] + body + seq!["===FIO_LOG_END==="@],
            carriage,
        ),
        carriage.len() == before.len() + body.len() + 2,
        are_blocks(
            ended_lines(
                before + seq![opening(tag)] + body + seq!["===FIO_LOG_END==="@],
                carriage,
            ),
            block,
            parsed,
            r,
        ),
    ensures
        match parsed {
            Ok(report) => {
                &&& r matches Ok((json, logs))
                &&& json@ == report
                &&& log_map(logs@).contains_key(tag)
                &&& log_map(logs@)[tag] == entries_of(body)
            },
            Err(wrong) => r matches Err(FioError::BadReport { block: shown, cause }) && shown@
                == block && cause@ == wrong,
        },
{
    let rows = before + seq![opening(tag)] + body + seq!["===FIO_LOG_END==="@];
    law_lines_are_read(rows, carriage, Seq::empty());
    let text = ended_lines(rows, carriage);
    assert(text + Seq::<char>::empty() =~= text);
    law_series_are_read_whole(before, tag, body);
}

/// A row of time series by name holds each one that is in it, under its own name.
pub proof fn law_series_are_filed_by_name(logs: Seq<FioLog>, i: int)
    requires
        distinct_tags(logs),
        0 <= i < logs.len(),
    ensures
        log_map(logs).contains_key(logs[i].tag@),
        log_map(logs)[logs[i].tag@] == logs[i].entries@,
    decreases logs.len(),
{
    if i < logs.len() - 1 {
        let before = logs.drop_last();
        assert forall|a: int, b: int| 0 <= a < b < before.len() implies #[trigger] before[a].tag@
            != #[trigger] before[b].tag@ by {
            assert(logs[a].tag@ != logs[b].tag@);
        }
        law_series_are_filed_by_name(before, i);
        assert(logs[i].tag@ != logs[logs.len() - 1].tag@);
    }
}

/// A row of time series by name holds nothing but what is in it.
pub proof fn law_nothing_else_is_filed(logs: Seq<FioLog>, tag: Seq<char>)
    requires
        log_map(logs).contains_key(tag),
    ensures
        exists|i: int| 0 <= i < logs.len() && (#[trigger] logs[i]).tag@ == tag,
    decreases logs.len(),
{
    if logs.len() > 0 {
        let before = logs.drop_last();
        if logs.last().tag@ == tag {
            assert(logs[logs.len() - 1].tag@ == tag);
        } else {
            law_nothing_else_is_filed(before, tag);
            let i = choose|i: int| 0 <= i < before.len() && (#[trigger] before[i]).tag@ == tag;
            assert(logs[i].tag@ == tag);
        }
    }
}

/// The report is what stands from the first opening brace to the last closing one.
pub proof fn law_the_report_is_found(before: Seq<char>, report: Seq<char>, behind: Seq<char>)
    requires
        !before.contains('{'),
        !behind.contains('}'),
    ensures
        json_block(before + seq!['{'] + report + seq!['}'] + behind) == Some(
            seq!['{'] + report + seq!['}'],
        ),
{
    let raw = before + seq!['{'] + report + seq!['}'] + behind;
    let from = before.len() as int;
    let to = from + 1 + report.len();
    raw.index_of_first_ensures('{');
    raw.index_of_last_ensures('}');
    assert(raw[from] == '{' && raw[to] == '}');
    assert(raw.contains('{') && raw.contains('}'));
    let first = raw.index_of_first('{')->0;
    let last = raw.index_of_last('}')->0;
    if first < from {
        assert(before[first] == '{');
    }
    if last > to {
        assert(behind[last - to - 1] == '}');
    }
    assert(first == from && last == to);
    assert(raw.subrange(from, to + 1) =~= seq!['{'] + report + seq!['}']);
}

/// A log without an opening brace, or without a closing one, has no report.
pub proof fn law_no_braces_no_report(raw: Seq<char>)
    ensures
        json_block(raw) is None <==> !raw.contains('{') || !raw.contains('}'),
{
    raw.index_of_first_ensures('{');
    raw.index_of_last_ensures('}');
}

/// A text occurs in another exactly where it stands between two others there.
pub proof fn law_occurrences(needle: Seq<char>, text: Seq<char>)
    ensures
        occurs(needle, text) <==> exists|before: Seq<char>, behind: Seq<char>|
            text == #[trigger] (before + needle + behind),
{
    if occurs(needle, text) {
        let i = choose|i: int|
            0 <= i <= text.len() - needle.len() && #[trigger] text.subrange(i, i + needle.len())
                == needle;
        let before = text.take(i);
        let behind = text.skip(i + needle.len());
        assert(text =~= before + text.subrange(i, i + needle.len()) + behind);
        assert(text == before + needle + behind);
    }
    if exists|before: Seq<char>, behind: Seq<char>| text == #[trigger] (before + needle + behind) {
        let (before, behind) = choose|before: Seq<char>, behind: Seq<char>|
            text == #[trigger] (before + needle + behind);
        let i = before.len() as int;
        assert(text.subrange(i, i + needle.len()) =~= needle);
    }
}

/// The results are complete exactly where the log has the closing mark somewhere. A log that could
/// not be read has not.
pub proof fn law_results_are_complete_once_marked(log: &str)
    ensures
        says_complete(Some(log)) <==> exists|before: Seq<char>, behind: Seq<char>|
            log@ == #[trigger] (before + "===RESULTS_END==="@ + behind),
        !says_complete(None),
{
    law_occurrences("===RESULTS_END==="@, log@);
}

/// A log is read with the report that stands in it: where that is JSON, its value comes with the
/// time series; where it is not, it comes back in the failure; and where there is none, that is
/// the failure.
pub proof fn law_logs_are_read_with_their_report(
    before: Seq<char>,
    report: Seq<char>,
    behind: Seq<char>,
    bare: Seq<char>,
    r: Result<(String, Vec<FioLog>), FioError>,
)
    requires
        !before.contains('{'),
        !behind.contains('}'),
        !bare.contains('{') || !bare.contains('}'),
    ensures
        are_extracted(before + seq!['{'] + report + seq!['}'] + behind, r) ==> match parsed_json(
            seq!['{'] + report + seq!['}'],
        ) {
            Ok(value) => r matches Ok(read) && read.0@ == value && log_map(read.1@)
                == Collected::with_lines(
                lines(before + seq!['{'] + report + seq!['}'] + behind),
            ).logs,
            Err(wrong) => r matches Err(FioError::BadReport { block, cause }) && block@ == seq!['{']
                + report + seq!['}'] && cause@ == wrong,
        },
        are_extracted(bare, r) ==> (r matches Err(error) && error == FioError::NoReport),
{
    law_the_report_is_found(before, report, behind);
    law_no_braces_no_report(bare);
}

/// The message about a report that is no JSON shows the report, whatever the cause.
pub proof fn law_bad_reports_are_shown(block: String, cause: String, other: String)
    ensures
        fio_message(FioError::BadReport { block, cause }) == "Failed to parse fio JSON: '"@ + block@
            + "'"@,
        fio_message(FioError::BadReport { block, cause }) == fio_message(
            FioError::BadReport { block, cause: other },
        ),
{
}

} // verus!
