//! What holds of the course of the setup benchmark and of its reports.

use vstd::prelude::*;

use crate::error::JailerError;
use crate::orchestration::Isolation;
use crate::setup_bench::{
    is_next_bench_action, isolation_named, members, multi_file_report, pair_views,
    text_debug, BenchAction, BenchEvent, BenchLine, BenchRequest, BenchTimings,
};
use crate::text::decimal;

verus! {

/// A member is its name in quotes, as it is, and its number; an object without members is empty.
pub proof fn law_a_member_is_written(name: Seq<char>, n: u128)
    ensures
        members(Seq::empty()) == Seq::<char>::empty(),
        members(seq![(name, n)]) == seq!['"'] + name + seq!['"', ':'] + decimal(n as nat),
{
    reveal_strlit("\":");
    let one = seq![(name, n)];
    assert(one.drop_last() =~= Seq::empty());
    assert(members(one.drop_last()) =~= Seq::empty());
    assert(members(one) =~= seq!['"'] + name + seq!['"', ':'] + decimal(n as nat));
}

/// The members of two rows are those of the first, a comma, and those of the second.
pub proof fn law_members_are_parted_by_commas(
    one: Seq<(Seq<char>, u128)>,
    other: Seq<(Seq<char>, u128)>,
)
    requires
        one.len() > 0,
        other.len() > 0,
    ensures
        members(one + other) == members(one) + seq![','] + members(other),
    decreases other.len(),
{
    reveal_strlit("\":");
    let last = other.last();
    let before = other.drop_last();
    let member = seq!['"'] + last.0 + "\":"@ + decimal(last.1 as nat);
    assert((one + other).drop_last() =~= one + before);
    assert((one + other).last() == last);
    let start = members(one + before);
    assert(members(one + other) == start.push(',').push('"') + last.0 + "\":"@ + decimal(
        last.1 as nat,
    ));
    assert(members(one + other) =~= start + seq![','] + member);
    if before.len() == 0 {
        assert(one + before =~= one);
        assert(members(before) =~= Seq::empty());
        assert(members(other) =~= member);
    } else {
        law_members_are_parted_by_commas(one, before);
        assert(members(other) =~= members(before) + seq![','] + member);
        assert(members(one) + seq![','] + members(before) + seq![','] + member =~= members(one)
            + seq![','] + (members(before) + seq![','] + member));
    }
}

/// A report is the label, the total, the members of the setup phase and those of the opens, each
/// in its place, whatever they hold.
pub proof fn law_a_report_has_its_four_parts(
    timings: BenchTimings,
    opens: Seq<(Seq<char>, u128)>,
)
    ensures
        multi_file_report(timings, opens) == "{\"condition\":\""@ + timings.condition@
            + "\",\"total_setup_ns\":"@ + decimal(timings.total_setup_ns as nat) + ",\"phases\":{"@
            + members(pair_views(timings.phases@)) + "},\"file_opens_ns\":{"@ + members(opens)
            + "}}"@,
{
}

/// Names with their numbers keep their order.
pub proof fn law_pairs_keep_their_order(pairs: Seq<(String, u128)>, i: int)
    requires
        0 <= i < pairs.len(),
    ensures
        pair_views(pairs).len() == pairs.len(),
        pair_views(pairs)[i] == (pairs[i].0@, pairs[i].1),
{
}

/// Each backend has one name, and no other name is one of a backend.
pub proof fn law_backends_have_their_names(name: String)
    ensures
        isolation_named(Some(name)) == Some(Isolation::Chroot) <==> name@ == "chroot"@,
        isolation_named(Some(name)) == Some(Isolation::Landlock) <==> name@ == "landlock"@,
        isolation_named(None) is None,
{
    reveal_strlit("chroot");
    reveal_strlit("landlock");
    assert("chroot"@.len() == 6 && "landlock"@.len() == 8);
}

/// The benchmark runs what it was asked for: the backend that the command line names, in the mode
/// that it names, or in the setup mode where it names none. It prepares a jail first, and a mode
/// that is none is refused only then.
pub proof fn law_the_benchmark_runs_what_was_asked(
    version: Seq<char>,
    line: BenchLine,
    request: BenchRequest,
    prepared: BenchEvent,
    action: BenchAction,
)
    requires
        is_next_bench_action(version, BenchEvent::Parsed(Ok(line)), BenchAction::Prepare(request)),
        prepared matches BenchEvent::Prepared(asked, Ok(_)) && asked == request,
        is_next_bench_action(version, prepared, action),
    ensures
        !line.help && !line.version,
        line.isolation is Some,
        ({
            let mode = match line.mode {
                Some(mode) => mode@,
                None => "setup"@,
            };
            let name = line.isolation->0@;
            match action {
                BenchAction::RunSetupMode(isolation) => mode == "setup"@ && name == match isolation {
                    Isolation::Chroot => "chroot"@,
                    Isolation::Landlock => "landlock"@,
                },
                BenchAction::RunMultiFileOpenMode(isolation) => mode == "multi-file-open"@ && name
                    == match isolation {
                    Isolation::Chroot => "chroot"@,
                    Isolation::Landlock => "landlock"@,
                },
                BenchAction::Reject(text, status) => mode != "setup"@ && mode
                    != "multi-file-open"@ && status == 2 && text@
                    == "--mode must be \"setup\" or \"multi-file-open\", got "@ + text_debug(mode)
                    + "\n"@,
                _ => false,
            }
        }),
{
    law_backends_have_their_names(line.isolation->0);
}

/// A jail is prepared for every command line that names a backend and asks for neither help nor
/// the version; one that names none is refused with what it names.
pub proof fn law_every_backend_is_served(version: Seq<char>, line: BenchLine, action: BenchAction)
    requires
        is_next_bench_action(version, BenchEvent::Parsed(Ok(line)), action),
    ensures
        line.help ==> (action matches BenchAction::Print(text) && text@ == "setup-bench"@ + " v"@
            + version + "\n\n"@ + line.formatted_help@ + "\n\n"@),
        !line.help && line.version ==> (action matches BenchAction::Print(text) && text@
            == "setup-bench"@ + " v"@ + version + "\n\n"@),
        !line.help && !line.version ==> match line.isolation {
            Some(name) => if name@ == "chroot"@ || name@ == "landlock"@ {
                action matches BenchAction::Prepare(request) && (request.isolation
                    == Isolation::Chroot <==> name@ == "chroot"@)
            } else {
                action matches BenchAction::Reject(text, status) && status == 2 && text@
                    == "--isolation must be \"chroot\" or \"landlock\", got "@ + ("Some("@
                    + text_debug(name@) + ")"@) + "\n"@
            },
            None => action matches BenchAction::Reject(text, status) && status == 2 && text@
                == "--isolation must be \"chroot\" or \"landlock\", got "@ + "None"@ + "\n"@,
        },
{
    if let Some(name) = line.isolation {
        law_backends_have_their_names(name);
    }
}

/// The benchmark reads its command line first, ends as its run did, and hands every failure on as
/// it is.
pub proof fn law_the_benchmark_hands_failures_on(
    version: Seq<char>,
    event: BenchEvent,
    action: BenchAction,
)
    requires
        is_next_bench_action(version, event, action),
    ensures
        action == BenchAction::ParseArgs <==> event == BenchEvent::Begin,
        action matches BenchAction::Finish(result) ==> match event {
            BenchEvent::Parsed(Err(cause)) => result matches Err(error) && error
                == JailerError::ArgumentParsing(cause),
            BenchEvent::Prepared(_, Err(cause)) => result matches Err(error) && error == cause,
            BenchEvent::Ran(ended) => result == ended,
            _ => false,
        },
        event matches BenchEvent::Parsed(Err(_)) ==> action is Finish,
        event matches BenchEvent::Prepared(_, Err(_)) ==> action is Finish,
        event matches BenchEvent::Ran(_) ==> action is Finish,
{
}

} // verus!
