//! The setup benchmark: it times the setup phase of an isolation backend, and, where asked to,
//! the opening of files from within the restricted process.

use vstd::prelude::*;
use vstd::string::*;

use crate::error::JailerError;
use crate::orchestration::{print_version, version_text, Isolation};
use crate::json::{
    after, is_plain, lemma_after, lemma_number_is_read, lemma_string_is_read, read_members,
    read_number, read_object, read_string,
};
use crate::text::{
    decimal, is_digit, is_one_line, lemma_decimal_denotes, push_decimal, same_text,
};

verus! {

/// The timings of a setup phase, in nanoseconds.
#[derive(Debug, PartialEq, Eq)]
pub struct BenchTimings {
    /// The isolation backend.
    pub condition: String,
    pub total_setup_ns: u128,
    /// The steps of the phase, in their order.
    pub phases: Vec<(String, u128)>,
}

/// Names with their numbers.
pub open spec fn pair_views(pairs: Seq<(String, u128)>) -> Seq<(Seq<char>, u128)> {
    pairs.map_values(|pair: (String, u128)| (pair.0@, pair.1))
}

/// The members of a JSON object of numbers. Names are taken as they are.
pub open spec fn members(pairs: Seq<(Seq<char>, u128)>) -> Seq<char>
    decreases pairs.len(),
{
    if pairs.len() == 0 {
        Seq::empty()
    } else {
        let before = members(pairs.drop_last());
        let comma = if pairs.len() == 1 {
            before
        } else {
            before.push(',')
        };
        comma.push('"') + pairs.last().0 + "\":"@ + decimal(pairs.last().1 as nat)
    }
}

/// Appends the members of a JSON object of numbers.
fn push_members(out: &mut String, pairs: &[(String, u128)])
    ensures
        final(out)@ == old(out)@ + members(pair_views(pairs@)),
{
    let ghost before = out@;
    let ghost all = pair_views(pairs@);
    let mut i: usize = 0;
    assert(before + members(all.take(0)) =~= before);
    while i < pairs.len()
        invariant
            i <= pairs.len(),
            all == pair_views(pairs@),
            out@ == before + members(all.take(i as int)),
        decreases pairs.len() - i,
    {
        let ghost so_far = members(all.take(i as int));
        if i > 0 {
            out.push(',');
        }
        let pair = &pairs[i];
        out.push('"');
        out.append(pair.0.as_str());
        out.append("\":");
        push_decimal(out, pair.1);
        proof {
            let next = all.take(i + 1);
            assert(next.drop_last() =~= all.take(i as int));
            assert(next.last() == (pair.0@, pair.1));
            let comma = if i == 0 {
                so_far
            } else {
                so_far.push(',')
            };
            assert(out@ =~= before + (comma.push('"') + pair.0@ + "\":"@ + decimal(
                pair.1 as nat,
            )));
        }
        i += 1;
    }
    assert(all.take(all.len() as int) =~= all);
}

/// The report of a multi-file run: the setup timings and the time that each open took.
pub open spec fn multi_file_report(
    timings: BenchTimings,
    opens: Seq<(Seq<char>, u128)>,
) -> Seq<char> {
    "{\"condition\":\""@ + timings.condition@ + "\",\"total_setup_ns\":"@ + decimal(
        timings.total_setup_ns as nat,
    ) + ",\"phases\":{"@ + members(pair_views(timings.phases@)) + "},\"file_opens_ns\":{"@
        + members(opens) + "}}"@
}

/// Writes the report of a multi-file run as one line of JSON.
pub fn multi_file_json(timings: &BenchTimings, per_file_ns: &[(String, u128)]) -> (r: String)
    ensures
        r@ == multi_file_report(*timings, pair_views(per_file_ns@)),
{
    let mut out = String::new();
    out.append("{\"condition\":\"");
    out.append(timings.condition.as_str());
    out.append("\",\"total_setup_ns\":");
    push_decimal(&mut out, timings.total_setup_ns);
    out.append(",\"phases\":{");
    push_members(&mut out, timings.phases.as_slice());
    out.append("},\"file_opens_ns\":{");
    push_members(&mut out, per_file_ns);
    out.append("}}");
    assert(out@ =~= multi_file_report(*timings, pair_views(per_file_ns@)));
    out
}

/// Whether every name is one line.
pub open spec fn names_are_lines(pairs: Seq<(Seq<char>, u128)>) -> bool {
    forall|i: int| 0 <= i < pairs.len() ==> is_one_line(#[trigger] pairs[i].0)
}

proof fn lemma_members_are_one_line(pairs: Seq<(Seq<char>, u128)>)
    requires
        names_are_lines(pairs),
    ensures
        is_one_line(members(pairs)),
    decreases pairs.len(),
{
    if pairs.len() > 0 {
        let before = pairs.drop_last();
        assert forall|i: int| 0 <= i < before.len() implies is_one_line(
            #[trigger] before[i].0,
        ) by {
            assert(before[i] == pairs[i]);
        }
        lemma_members_are_one_line(before);
        lemma_decimal_denotes(pairs.last().1 as nat);
        assert(is_one_line(pairs[pairs.len() - 1].0));
        reveal_strlit("\":");
    }
}

/// A report is one line, where the names in it are.
pub proof fn law_report_is_one_line(timings: BenchTimings, opens: Seq<(Seq<char>, u128)>)
    requires
        is_one_line(timings.condition@),
        names_are_lines(pair_views(timings.phases@)),
        names_are_lines(opens),
    ensures
        is_one_line(multi_file_report(timings, opens)),
{
    reveal_strlit("{\"condition\":\"");
    reveal_strlit("\",\"total_setup_ns\":");
    reveal_strlit(",\"phases\":{");
    reveal_strlit("},\"file_opens_ns\":{");
    reveal_strlit("}}");
    lemma_decimal_denotes(timings.total_setup_ns as nat);
    lemma_members_are_one_line(pair_views(timings.phases@));
    lemma_members_are_one_line(opens);
}

/// What a report says: the label, the total, the steps of the setup phase and the opens.
pub struct ReadReport {
    pub condition: Seq<char>,
    pub total_setup_ns: nat,
    pub phases: Seq<(Seq<char>, nat)>,
    pub opens: Seq<(Seq<char>, nat)>,
}

/// Reads the end of a report from its objects on.
pub open spec fn read_objects(condition: Seq<char>, total_setup_ns: nat, text: Seq<char>) -> Option<
    ReadReport,
> {
    match after(text, ",\"phases\":"@) {
        Some(text) => match read_object(text) {
            Some((phases, text)) => match after(text, ",\"file_opens_ns\":"@) {
                Some(text) => match read_object(text) {
                    Some((opens, text)) => if text == "}"@ {
                        Some(ReadReport { condition, total_setup_ns, phases, opens })
                    } else {
                        None
                    },
                    None => None,
                },
                None => None,
            },
            None => None,
        },
        None => None,
    }
}

/// Reads a report: a JSON object with these four members.
pub open spec fn read_report(text: Seq<char>) -> Option<ReadReport> {
    match after(text, "{\"condition\":"@) {
        Some(text) => match read_string(text) {
            Some((condition, text)) => match after(text, ",\"total_setup_ns\":"@) {
                Some(text) => match read_number(text) {
                    Some((total, text)) => read_objects(condition, total, text),
                    None => None,
                },
                None => None,
            },
            None => None,
        },
        None => None,
    }
}

/// Names with their numbers, as they are read.
pub open spec fn numbers(pairs: Seq<(Seq<char>, u128)>) -> Seq<(Seq<char>, nat)> {
    pairs.map_values(|pair: (Seq<char>, u128)| (pair.0, pair.1 as nat))
}

/// Whether a JSON string can hold every name as it is.
pub open spec fn names_are_plain(pairs: Seq<(Seq<char>, u128)>) -> bool {
    forall|i: int| 0 <= i < pairs.len() ==> is_plain(#[trigger] pairs[i].0)
}

/// One member of a JSON object of numbers.
spec fn member(pair: (Seq<char>, u128)) -> Seq<char> {
    seq!['"'] + pair.0 + seq!['"'] + (seq![':'] + decimal(pair.1 as nat))
}

/// The last member, and the others before a comma.
proof fn lemma_members_back(pairs: Seq<(Seq<char>, u128)>)
    requires
        pairs.len() > 0,
    ensures
        members(pairs) == if pairs.len() == 1 {
            member(pairs[0])
        } else {
            members(pairs.drop_last()) + seq![','] + member(pairs.last())
        },
{
    reveal_strlit("\":");
    let last = pairs.last();
    let before = members(pairs.drop_last());
    if pairs.len() == 1 {
        assert(before =~= Seq::empty());
        assert(before.push('"') + last.0 + "\":"@ + decimal(last.1 as nat) =~= member(last));
    } else {
        assert(before.push(',').push('"') + last.0 + "\":"@ + decimal(last.1 as nat) =~= before
            + seq![','] + member(last));
    }
}

/// The first member, and the others after a comma.
proof fn lemma_members_front(pairs: Seq<(Seq<char>, u128)>)
    requires
        pairs.len() > 0,
    ensures
        members(pairs) == member(pairs[0]) + (if pairs.len() == 1 {
            Seq::empty()
        } else {
            seq![','] + members(pairs.skip(1))
        }),
    decreases pairs.len(),
{
    lemma_members_back(pairs);
    let first = member(pairs[0]);
    if pairs.len() == 1 {
        assert(first + Seq::<char>::empty() =~= first);
    } else {
        let before = pairs.drop_last();
        let rest = pairs.skip(1);
        let last = member(pairs.last());
        let comma = seq![','];
        lemma_members_front(before);
        lemma_members_back(rest);
        assert(rest.drop_last() =~= before.skip(1));
        if pairs.len() == 2 {
            assert(rest[0] == pairs.last());
            assert(first + Seq::<char>::empty() + comma + last =~= first + (comma + last));
        } else {
            let middle = members(before.skip(1));
            assert(first + (comma + middle) + comma + last =~= first + (comma + (middle + comma
                + last)));
        }
    }
}

/// Members are read as what they were written from.
proof fn lemma_members_are_read(pairs: Seq<(Seq<char>, u128)>, rest: Seq<char>)
    requires
        pairs.len() > 0,
        names_are_plain(pairs),
        rest.len() == 0 || (!is_digit(rest[0]) && rest[0] != ','),
    ensures
        read_members(members(pairs) + rest) == Some((numbers(pairs), rest)),
    decreases pairs.len(),
{
    let first = pairs[0];
    let later = pairs.skip(1);
    let comma = if pairs.len() == 1 {
        Seq::empty()
    } else {
        seq![','] + members(later)
    };
    let value = decimal(first.1 as nat);
    let from_colon = seq![':'] + (value + (comma + rest));
    lemma_members_front(pairs);
    assert(is_plain(pairs[0].0));
    assert(member(first) + comma + rest =~= seq!['"'] + first.0 + seq!['"'] + from_colon);
    lemma_string_is_read(first.0, from_colon);
    assert(from_colon.skip(1) =~= value + (comma + rest));
    lemma_number_is_read(first.1 as nat, comma + rest);
    if pairs.len() == 1 {
        assert(comma + rest =~= rest);
        assert(numbers(pairs) =~= seq![(first.0, first.1 as nat)]);
    } else {
        assert((comma + rest).skip(1) =~= members(later) + rest);
        assert forall|i: int| 0 <= i < later.len() implies is_plain(#[trigger] later[i].0) by {
            assert(later[i] == pairs[i + 1]);
        }
        lemma_members_are_read(later, rest);
        assert(numbers(pairs) =~= seq![(first.0, first.1 as nat)] + numbers(later));
    }
}

/// An object of members is read as what it was written from.
proof fn lemma_object_is_read(pairs: Seq<(Seq<char>, u128)>, rest: Seq<char>)
    requires
        names_are_plain(pairs),
    ensures
        read_object(seq!['{'] + members(pairs) + seq!['}'] + rest) == Some((numbers(pairs), rest)),
{
    let text = seq!['{'] + members(pairs) + seq!['}'] + rest;
    if pairs.len() == 0 {
        assert(text =~= seq!['{', '}'] + rest);
        assert(text.skip(2) =~= rest);
        assert(numbers(pairs) =~= Seq::empty());
    } else {
        lemma_members_front(pairs);
        assert(members(pairs)[0] == '"');
        assert(text[1] == members(pairs)[0]);
        assert(text.skip(1) =~= members(pairs) + (seq!['}'] + rest));
        lemma_members_are_read(pairs, seq!['}'] + rest);
        assert((seq!['}'] + rest).skip(1) =~= rest);
    }
}

/// A report is a JSON object that says just what it was written from, where the names in it
/// have no quotes, no backslashes and no control characters.
pub proof fn law_report_reads_back(timings: BenchTimings, opens: Seq<(Seq<char>, u128)>)
    requires
        is_plain(timings.condition@),
        names_are_plain(pair_views(timings.phases@)),
        names_are_plain(opens),
    ensures
        read_report(multi_file_report(timings, opens)) == Some(
            ReadReport {
                condition: timings.condition@,
                total_setup_ns: timings.total_setup_ns as nat,
                phases: numbers(pair_views(timings.phases@)),
                opens: numbers(opens),
            },
        ),
{
    reveal_strlit("{\"condition\":\"");
    reveal_strlit("\",\"total_setup_ns\":");
    reveal_strlit(",\"phases\":{");
    reveal_strlit("},\"file_opens_ns\":{");
    reveal_strlit("}}");
    reveal_strlit("{\"condition\":");
    reveal_strlit(",\"total_setup_ns\":");
    reveal_strlit(",\"phases\":");
    reveal_strlit(",\"file_opens_ns\":");
    reveal_strlit("}");
    let condition = timings.condition@;
    let total = decimal(timings.total_setup_ns as nat);
    let phases = pair_views(timings.phases@);
    let object = |pairs: Seq<(Seq<char>, u128)>| seq!['{'] + members(pairs) + seq!['}'];
    let end = object(opens) + "}"@;
    let from_opens = ",\"file_opens_ns\":"@ + end;
    let from_phases = object(phases) + from_opens;
    let from_objects = ",\"phases\":"@ + from_phases;
    let from_total = total + from_objects;
    let from_name = ",\"total_setup_ns\":"@ + from_total;
    let from_condition = seq!['"'] + condition + seq!['"'] + from_name;
    let text = multi_file_report(timings, opens);
    assert("{\"condition\":\""@ =~= "{\"condition\":"@ + seq!['"']);
    assert("\",\"total_setup_ns\":"@ =~= seq!['"'] + ",\"total_setup_ns\":"@);
    assert(",\"phases\":{"@ =~= ",\"phases\":"@ + seq!['{']);
    assert("},\"file_opens_ns\":{"@ =~= seq!['}'] + ",\"file_opens_ns\":"@ + seq!['{']);
    assert("}}"@ =~= seq!['}'] + "}"@);
    assert(text =~= "{\"condition\":"@ + from_condition);
    lemma_after("{\"condition\":"@, from_condition);
    lemma_string_is_read(condition, from_name);
    lemma_after(",\"total_setup_ns\":"@, from_total);
    lemma_number_is_read(timings.total_setup_ns as nat, from_objects);
    lemma_after(",\"phases\":"@, from_phases);
    lemma_object_is_read(phases, from_opens);
    lemma_after(",\"file_opens_ns\":"@, end);
    lemma_object_is_read(opens, "}"@);
}

/// What the command line of the setup benchmark asks for.
#[derive(Debug, PartialEq, Eq)]
pub struct BenchLine {
    pub help: bool,
    pub version: bool,
    pub isolation: Option<String>,
    pub mode: Option<String>,
    /// The description of all arguments.
    pub formatted_help: String,
}

/// A benchmark that was asked for.
#[derive(Debug, PartialEq, Eq)]
pub struct BenchRequest {
    pub isolation: Isolation,
    pub mode: String,
}

/// What came of an action of `run`.
#[derive(Debug, PartialEq, Eq)]
pub enum BenchEvent {
    /// Nothing has been done yet.
    Begin,
    /// The command line was read, or was refused.
    Parsed(Result<BenchLine, String>),
    /// The jail of the request was prepared, or could not be.
    Prepared(BenchRequest, Result<(), JailerError>),
    /// The benchmark has returned.
    Ran(Result<(), JailerError>),
}

/// The status that the benchmark exits with where an argument names no backend or no mode.
pub const REJECT_STATUS: i32 = 2;

/// The status that the benchmark exits with where it has failed.
pub const FAILURE_STATUS: i32 = 1;

/// What `run` asks for.
#[derive(Debug, PartialEq, Eq)]
pub enum BenchAction {
    /// Read the command line.
    ParseArgs,
    /// Print this text; there is nothing else to do.
    Print(String),
    /// Print this text on standard error and exit with this status.
    Reject(String, i32),
    /// Build the environment of the jail and prepare its directory.
    Prepare(BenchRequest),
    /// Time the setup phase alone.
    RunSetupMode(Isolation),
    /// Time the setup phase and the opening of files.
    RunMultiFileOpenMode(Isolation),
    /// The process is over.
    Finish(Result<(), JailerError>),
}

/// What `str`'s `Debug` prints.
pub uninterp spec fn text_debug(text: Seq<char>) -> Seq<char>;

/// `str`'s `Debug`: what it prints depends on the text alone.
#[verifier::external_body]
fn debug_text(text: &str) -> (r: String)
    ensures
        r@ == text_debug(text@),
{
    format!("{:?}", text)
}

/// The backend that an argument names.
pub open spec fn isolation_named(name: Option<String>) -> Option<Isolation> {
    match name {
        Some(name) => if name@ == "chroot"@ {
            Some(Isolation::Chroot)
        } else if name@ == "landlock"@ {
            Some(Isolation::Landlock)
        } else {
            None
        },
        None => None,
    }
}

/// The complaint about an argument that names no backend.
pub open spec fn isolation_complaint(name: Option<String>) -> Seq<char> {
    "--isolation must be \"chroot\" or \"landlock\", got "@ + match name {
        Some(name) => "Some("@ + text_debug(name@) + ")"@,
        None => "None"@,
    } + "\n"@
}

/// The complaint about an argument that names no mode.
pub open spec fn mode_complaint(mode: Seq<char>) -> Seq<char> {
    "--mode must be \"setup\" or \"multi-file-open\", got "@ + text_debug(mode) + "\n"@
}

/// The mode that an argument names.
pub open spec fn mode_named(mode: Option<String>) -> Seq<char> {
    match mode {
        Some(mode) => mode@,
        None => "setup"@,
    }
}

/// What the setup benchmark does after an event.
pub open spec fn is_next_bench_action(
    version: Seq<char>,
    event: BenchEvent,
    action: BenchAction,
) -> bool {
    match event {
        BenchEvent::Begin => action == BenchAction::ParseArgs,
        BenchEvent::Parsed(Err(cause)) => action == BenchAction::Finish(
            Err(JailerError::ArgumentParsing(cause)),
        ),
        BenchEvent::Parsed(Ok(line)) => if line.help {
            action matches BenchAction::Print(text) && text@ == version_text(
                "setup-bench"@,
                version,
            ) + line.formatted_help@ + "\n\n"@
        } else if line.version {
            action matches BenchAction::Print(text) && text@ == version_text(
                "setup-bench"@,
                version,
            )
        } else {
            match isolation_named(line.isolation) {
                Some(isolation) => action matches BenchAction::Prepare(request)
                    && request.isolation == isolation && request.mode@ == mode_named(line.mode),
                None => action matches BenchAction::Reject(text, status) && text@
                    == isolation_complaint(line.isolation) && status == REJECT_STATUS,
            }
        },
        BenchEvent::Prepared(request, Ok(_)) => if request.mode@ == "setup"@ {
            action == BenchAction::RunSetupMode(request.isolation)
        } else if request.mode@ == "multi-file-open"@ {
            action == BenchAction::RunMultiFileOpenMode(request.isolation)
        } else {
            action matches BenchAction::Reject(text, status) && text@ == mode_complaint(
                request.mode@,
            ) && status == REJECT_STATUS
        },
        BenchEvent::Prepared(_, Err(error)) => action == BenchAction::Finish(Err(error)),
        BenchEvent::Ran(result) => action == BenchAction::Finish(result),
    }
}

/// The backend that an argument names.
fn parse_isolation(name: &Option<String>) -> (r: Option<Isolation>)
    ensures
        r == isolation_named(*name),
{
    match name {
        Some(name) => if same_text(name.as_str(), "chroot") {
            Some(Isolation::Chroot)
        } else if same_text(name.as_str(), "landlock") {
            Some(Isolation::Landlock)
        } else {
            None
        },
        None => None,
    }
}

/// The course of the setup benchmark, one action after the other.
pub fn run(version: &str, event: BenchEvent) -> (r: BenchAction)
    ensures
        is_next_bench_action(version@, event, r),
{
    match event {
        BenchEvent::Begin => BenchAction::ParseArgs,
        BenchEvent::Parsed(Err(cause)) => BenchAction::Finish(
            Err(JailerError::ArgumentParsing(cause)),
        ),
        BenchEvent::Parsed(Ok(line)) => {
            if line.help {
                return BenchAction::Print(
                    print_version("setup-bench", version).concat(
                        line.formatted_help.as_str(),
                    ).concat("\n\n"),
                );
            }
            if line.version {
                return BenchAction::Print(print_version("setup-bench", version));
            }
            match parse_isolation(&line.isolation) {
                Some(isolation) => {
                    let mode = match line.mode {
                        Some(mode) => mode,
                        None => "setup".to_owned(),
                    };
                    BenchAction::Prepare(BenchRequest { isolation, mode })
                },
                None => {
                    let got = match &line.isolation {
                        Some(name) => "Some(".to_owned().concat(
                            debug_text(name.as_str()).as_str(),
                        ).concat(")"),
                        None => "None".to_owned(),
                    };
                    BenchAction::Reject(
                        "--isolation must be \"chroot\" or \"landlock\", got ".to_owned().concat(
                            got.as_str(),
                        ).concat("\n"),
                        REJECT_STATUS,
                    )
                },
            }
        },
        BenchEvent::Prepared(request, Ok(_)) => if same_text(request.mode.as_str(), "setup") {
            BenchAction::RunSetupMode(request.isolation)
        } else if same_text(request.mode.as_str(), "multi-file-open") {
            BenchAction::RunMultiFileOpenMode(request.isolation)
        } else {
            BenchAction::Reject(
                "--mode must be \"setup\" or \"multi-file-open\", got ".to_owned().concat(
                    debug_text(request.mode.as_str()).as_str(),
                ).concat("\n"),
                REJECT_STATUS,
            )
        },
        BenchEvent::Prepared(_, Err(error)) => BenchAction::Finish(Err(error)),
        BenchEvent::Ran(result) => BenchAction::Finish(result),
    }
}

} // verus!
