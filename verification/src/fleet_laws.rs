//! What holds of the command line, of every cycle and of every wait of the fleet benchmark.

use vstd::prelude::*;
use vstd::utf8::*;

use crate::fleet::{
    is_begun, is_flag, is_jailer_for, is_wait_action, law_ids_are_fresh, lemma_flags_differ,
    line_for, missing_flag, no_flags, path_views, read_flags, says, scanned, teardown_action,
    usage_text, vm_id, with_flag, word_views, words_of, Args, Flags, FleetAction, FleetEvent,
    FleetPhase, FleetRun, Invocation, Pair, Stream, TeardownAction, TeardownEvent, WaitAction,
    WaitEvent,
};
use crate::path::{file_name_of, joined, HostPath};
use crate::path_laws::law_joining_keeps_names_apart;
use crate::text::{decimal, is_digit, lemma_decimal_denotes, number};

verus! {

/// The words that a program is started with.
pub open spec fn words_given(program: Invocation) -> Seq<Seq<u8>> {
    path_views(program.arguments@)
}

/// The words of a command line and of a program are what they hold, in their order.
pub proof fn law_words_keep_their_order(words: Seq<String>, paths: Seq<HostPath>, i: int)
    ensures
        word_views(words).len() == words.len(),
        path_views(paths).len() == paths.len(),
        0 <= i < words.len() ==> word_views(words)[i] == words[i]@,
        0 <= i < paths.len() ==> path_views(paths)[i] == paths[i]@,
{
}

/// The jailer is told who the microVM is, what it executes, as whom and where, each after the
/// name of its argument, and, behind the separator, where the API socket is in the jail. None of
/// its standard streams leads anywhere.
pub proof fn law_the_jailer_is_told(jailer: Invocation, args: Args, id: Seq<char>)
    requires
        is_jailer_for(jailer, args, id),
    ensures
        ({
            let words = words_given(jailer);
            &&& jailer.program@ == args.jailer_bin@
            &&& words.len() == 13
            &&& words[0] == encode_utf8("--id"@) && words[1] == encode_utf8(id)
            &&& words[2] == encode_utf8("--exec-file"@) && words[3] == args.exec_file@
            &&& words[4] == encode_utf8("--uid"@) && words[5] == encode_utf8(args.uid@)
            &&& words[6] == encode_utf8("--gid"@) && words[7] == encode_utf8(args.gid@)
            &&& words[8] == encode_utf8("--chroot-base-dir"@) && words[9]
                == args.chroot_base_dir@
            &&& words[10] == encode_utf8("--"@)
            &&& words[11] == encode_utf8("--api-sock"@) && words[12] == encode_utf8(
                "/run/api.sock"@,
            )
            &&& jailer.stdin == Stream::Null && jailer.stdout == Stream::Null && jailer.stderr
                == Stream::Null
        }),
{
}

/// Whether two states are of one benchmark run.
pub open spec fn same_run(one: FleetRun, other: FleetRun) -> bool {
    &&& one.args == other.args
    &&& one.exec_file_name == other.exec_file_name
    &&& one.pid == other.pid
}

/// Whether two states are of one cycle of one benchmark run.
pub open spec fn same_cycle(one: FleetRun, other: FleetRun) -> bool {
    same_run(one, other) && one.cycle == other.cycle
}

/// Whether a run names the directories of its microVMs after the file that it executes.
pub open spec fn is_named_after_its_file(run: FleetRun) -> bool {
    file_name_of(run.args.exec_file@) == Some(run.exec_file_name@)
}

/// What a cycle does belongs together: the directory that it removes is that of the microVM that
/// it started, which the words of the jailer name, and the socket that it waits for is the one in
/// that directory. It waits for as long as the run was told.
pub proof fn law_a_cycle_keeps_to_its_vm(
    starting: FleetRun,
    waiting: FleetRun,
    removing: FleetRun,
    jailer: Invocation,
    wait: FleetAction,
    remove: FleetAction,
)
    requires
        same_cycle(starting, waiting),
        same_cycle(starting, removing),
        is_named_after_its_file(starting),
        starting.phase == FleetPhase::Spawning,
        waiting.phase == FleetPhase::Waiting,
        removing.phase == FleetPhase::Removing,
        starting.asks(FleetAction::Spawn(jailer)),
        waiting.asks(wait),
        removing.asks(remove),
    ensures
        ({
            let words = words_given(jailer);
            &&& file_name_of(words[3]) is Some
            &&& remove matches FleetAction::RemoveDir(dir)
            &&& wait matches FleetAction::WaitForSocket(socket, timeout_ms)
            &&& dir@ == joined(joined(words[9], file_name_of(words[3])->0), words[1])
            &&& socket@ == joined(
                joined(joined(dir@, encode_utf8("root"@)), encode_utf8("run"@)),
                encode_utf8("api.sock"@),
            )
            &&& timeout_ms == starting.args.timeout_ms
        }),
{
    law_the_jailer_is_told(jailer, starting.args, starting.id());
}

/// A run begins with the jailer of its first cycle, or is over at once where it has no cycles. It
/// takes the name of its directories from the file to execute, and cannot begin where that file
/// has none.
pub proof fn law_a_run_begins_with_its_first_cycle(
    args: Args,
    pid: u32,
    r: Result<(FleetRun, FleetAction), String>,
)
    requires
        is_begun(args, pid, r),
    ensures
        r is Ok <==> file_name_of(args.exec_file@) is Some,
        r matches Ok(begun) ==> {
            &&& is_named_after_its_file(begun.0)
            &&& begun.0.args == args
            &&& begun.0.pid == pid
            &&& begun.0.cycle == 0
            &&& args.cycles == 0 ==> begun.1 == FleetAction::Stop
            &&& args.cycles > 0 ==> (begun.1 matches FleetAction::Spawn(jailer) && is_jailer_for(
                jailer,
                args,
                "fleet-"@ + decimal(pid as nat) + "-"@ + decimal(0),
            ))
        },
        r matches Err(complaint) ==> complaint@ == "--exec-file has no filename"@,
{
}

/// The jailer of a cycle is that of the run, and is told what the run was told and a name that
/// holds the process and the cycle.
pub proof fn law_a_cycle_starts_its_jailer(run: FleetRun, action: FleetAction)
    requires
        run.phase == FleetPhase::Spawning,
        run.asks(action),
    ensures
        action matches FleetAction::Spawn(jailer) && is_jailer_for(
            jailer,
            run.args,
            "fleet-"@ + decimal(run.pid as nat) + "-"@ + decimal(run.cycle as nat),
        ),
{
}

/// A run asks for nothing but what belongs to its phase.
pub proof fn law_phases_have_their_actions(run: FleetRun, action: FleetAction)
    requires
        run.asks(action),
    ensures
        action is Spawn <==> run.phase == FleetPhase::Spawning,
        action is WaitForSocket <==> run.phase == FleetPhase::Waiting,
        action is RemoveDir <==> run.phase == FleetPhase::Removing,
        action is Stop <==> run.phase == FleetPhase::Over,
        action matches FleetAction::TearDown { ended } ==> run.phase == (FleetPhase::TearingDown {
            ended,
        }),
        run.phase is TearingDown ==> action is TearDown,
{
}

/// The name of a microVM is a text of ASCII characters that does not begin with a slash.
proof fn lemma_id_is_relative(pid: u32, cycle: u32)
    ensures
        encode_utf8(vm_id(pid, cycle)).len() > 0,
        encode_utf8(vm_id(pid, cycle))[0] != 47,
{
    reveal_strlit("fleet-");
    reveal_strlit("-");
    let id = vm_id(pid, cycle);
    let a = decimal(pid as nat);
    let b = decimal(cycle as nat);
    lemma_decimal_denotes(pid as nat);
    lemma_decimal_denotes(cycle as nat);
    assert forall|i: int| 0 <= i < id.len() implies #[trigger] (id[i] as nat) < 128 by {
        if 6 <= i < 6 + a.len() {
            assert(id[i] == a[i - 6]);
            assert(is_digit(a[i - 6]));
        } else if i > 6 + a.len() {
            assert(id[i] == b[i - 7 - a.len()]);
            assert(is_digit(b[i - 7 - a.len()]));
        }
    }
    assert(id[0] == 'f');
    is_ascii_chars_encode_utf8(id);
}

/// No two microVMs share a directory: two runs in one place, or two cycles of one run, remove two
/// directories.
pub proof fn law_no_two_vms_share_a_directory(
    one: FleetRun,
    other: FleetRun,
    remove_one: FleetAction,
    remove_other: FleetAction,
)
    requires
        one.args.chroot_base_dir@ == other.args.chroot_base_dir@,
        one.exec_file_name@ == other.exec_file_name@,
        one.pid != other.pid || one.cycle != other.cycle,
        one.phase == FleetPhase::Removing,
        other.phase == FleetPhase::Removing,
        one.asks(remove_one),
        other.asks(remove_other),
    ensures
        remove_one matches FleetAction::RemoveDir(dir) && (remove_other matches
            FleetAction::RemoveDir(other_dir) && dir@ != other_dir@),
{
    let a = encode_utf8(one.id());
    let b = encode_utf8(other.id());
    law_ids_are_fresh(one.pid, one.cycle, other.pid, other.cycle);
    lemma_id_is_relative(one.pid, one.cycle);
    lemma_id_is_relative(other.pid, other.cycle);
    encode_utf8_decode_utf8(one.id());
    encode_utf8_decode_utf8(other.id());
    assert(a != b);
    let place = joined(one.args.chroot_base_dir@, one.exec_file_name@);
    if joined(place, a) == joined(place, b) {
        law_joining_keeps_names_apart(place, a, b);
    }
}

/// A wait is given up once more time than it was given has passed, and not before; else it looks
/// whether the jailer has ended, and tells with what, and only then whether the socket can be
/// connected to. A socket that can be is ready at the time that was measured.
pub proof fn law_waits(timeout_ms: u64, event: WaitEvent, action: WaitAction)
    requires
        is_wait_action(timeout_ms, event, action),
    ensures
        match event {
            WaitEvent::Awake => action == WaitAction::ReadClock,
            WaitEvent::Clock(ns) => {
                &&& action is GiveUp || action == WaitAction::PollChild
                &&& action is GiveUp <==> ns > 1_000_000 * timeout_ms
                &&& action matches WaitAction::GiveUp(failure) ==> failure.msg@
                    == "timed out waiting for socket"@ && !failure.ended
            },
            WaitEvent::Child(ended) => match ended {
                Some(status) => action matches WaitAction::GiveUp(failure) && failure.ended
                    && failure.msg@ == "jailer exited early with "@ + status@,
                None => action == WaitAction::Connect,
            },
            WaitEvent::Connected(ready) => match ready {
                Some(ns) => action == WaitAction::Ready(ns),
                None => action == WaitAction::Sleep(200),
            },
        },
{
}

/// Where a wait is given up for want of time, it is given up later as well, and with less time.
pub proof fn law_time_does_not_come_back(
    timeout_ms: u64,
    less: u64,
    ns: u128,
    later: u128,
    action: WaitAction,
    other: WaitAction,
)
    requires
        less <= timeout_ms,
        ns <= later,
        is_wait_action(timeout_ms, WaitEvent::Clock(ns), action),
        is_wait_action(less, WaitEvent::Clock(later), other),
    ensures
        action is GiveUp ==> other is GiveUp,
{
    assert(less * 1_000_000 <= timeout_ms * 1_000_000) by (nonlinear_arith)
        requires
            less <= timeout_ms,
    ;
}

/// A teardown gives the jailer a fifth of a second to end: it looks every ten milliseconds, and
/// kills it only when that time is over.
pub proof fn law_teardowns(ns: u128, ended: bool)
    ensures
        teardown_action(TeardownEvent::Begin { ended }) == if ended {
            TeardownAction::Done
        } else {
            TeardownAction::SendTerm
        },
        teardown_action(TeardownEvent::Awake) == TeardownAction::Poll,
        teardown_action(TeardownEvent::Polled(ended)) == if ended {
            TeardownAction::Done
        } else {
            TeardownAction::ReadClock
        },
        teardown_action(TeardownEvent::Clock(ns)) == TeardownAction::KillAndWait <==> ns
            > 200_000_000,
        teardown_action(TeardownEvent::Clock(ns)) == TeardownAction::Sleep(10) <==> ns
            <= 200_000_000,
{
}

/// A line says the label and the result as they are, whatever they hold.
pub proof fn law_lines_say_the_result(condition: Seq<char>, event: FleetEvent)
    ensures
        match event {
            FleetEvent::Waited(Ok(ns)) => line_for(condition, event) == Some(
                "{\"condition\":\""@ + condition + "\",\"socket_ready_ns\":"@ + decimal(ns as nat)
                    + "}"@,
            ),
            FleetEvent::Waited(Err(failure)) => line_for(condition, event) == Some(
                "{\"condition\":\""@ + condition + "\",\"error\":\""@ + failure.msg@ + "\"}"@,
            ),
            FleetEvent::Spawned(Err(cause)) => line_for(condition, event) == Some(
                "{\"condition\":\""@ + condition + "\",\"error\":\""@ + ("spawn failed: "@
                    + cause@) + "\"}"@,
            ),
            _ => line_for(condition, event) is None,
        },
{
}

/// Every argument is what its flag was given.
pub proof fn law_arguments_are_what_was_given(flags: Flags, args: Args)
    requires
        says(flags, args),
    ensures
        missing_flag(flags) is None,
        args.jailer_bin@ == encode_utf8(flags.jailer_bin->0),
        args.condition@ == flags.condition->0,
        args.exec_file@ == encode_utf8(flags.exec_file->0),
        args.uid@ == flags.uid->0,
        args.gid@ == flags.gid->0,
        args.chroot_base_dir@ == encode_utf8(flags.chroot_base_dir->0),
        args.cycles == flags.cycles,
        args.timeout_ms == flags.timeout_ms,
{
}

/// A command line is complete exactly where the six flags without a default are given, and the
/// complaint is about the first of them that is not.
pub proof fn law_missing_flags_are_told(flags: Flags)
    ensures
        missing_flag(flags) is None <==> flags.jailer_bin is Some && flags.condition is Some
            && flags.exec_file is Some && flags.uid is Some && flags.gid is Some
            && flags.chroot_base_dir is Some,
        flags.jailer_bin is None ==> missing_flag(flags) == Some("--jailer-bin required"@),
        flags.jailer_bin is Some && flags.condition is None ==> missing_flag(flags) == Some(
            "--condition required"@,
        ),
        flags.jailer_bin is Some && flags.condition is Some && flags.exec_file is None
            ==> missing_flag(flags) == Some("--exec-file required"@),
        flags.jailer_bin is Some && flags.condition is Some && flags.exec_file is Some
            && flags.uid is None ==> missing_flag(flags) == Some("--uid required"@),
        flags.jailer_bin is Some && flags.condition is Some && flags.exec_file is Some
            && flags.uid is Some && flags.gid is None ==> missing_flag(flags) == Some(
            "--gid required"@,
        ),
        flags.jailer_bin is Some && flags.condition is Some && flags.exec_file is Some
            && flags.uid is Some && flags.gid is Some && flags.chroot_base_dir is None
            ==> missing_flag(flags) == Some("--chroot-base-dir required"@),
{
}

/// Where no flag is given, there are a hundred cycles of two seconds each, and nothing else.
pub proof fn law_defaults()
    ensures
        no_flags().cycles == 100,
        no_flags().timeout_ms == 2000,
        missing_flag(no_flags()) == Some("--jailer-bin required"@),
        forall|flags: Flags| #[trigger]
            scanned(flags, Seq::empty()) == Ok::<Flags, Seq<char>>(flags),
{
}

/// A flag sets what it is called after, and nothing else. Only a number that fits is a number of
/// cycles or of milliseconds; every other value can be used as it is.
pub proof fn law_a_flag_sets_its_own_value(flags: Flags, value: Seq<char>)
    ensures
        with_flag(flags, "--jailer-bin"@, value) == Ok::<Flags, Seq<char>>(
            Flags { jailer_bin: Some(value), ..flags },
        ),
        with_flag(flags, "--condition"@, value) == Ok::<Flags, Seq<char>>(
            Flags { condition: Some(value), ..flags },
        ),
        with_flag(flags, "--exec-file"@, value) == Ok::<Flags, Seq<char>>(
            Flags { exec_file: Some(value), ..flags },
        ),
        with_flag(flags, "--uid"@, value) == Ok::<Flags, Seq<char>>(
            Flags { uid: Some(value), ..flags },
        ),
        with_flag(flags, "--gid"@, value) == Ok::<Flags, Seq<char>>(
            Flags { gid: Some(value), ..flags },
        ),
        with_flag(flags, "--chroot-base-dir"@, value) == Ok::<Flags, Seq<char>>(
            Flags { chroot_base_dir: Some(value), ..flags },
        ),
        with_flag(flags, "--cycles"@, value) == match number(value, 4294967295) {
            Some(n) => Ok::<Flags, Seq<char>>(Flags { cycles: n as u32, ..flags }),
            None => Err("bad --cycles"@),
        },
        with_flag(flags, "--timeout-ms"@, value) == match number(value, 18446744073709551615) {
            Some(n) => Ok::<Flags, Seq<char>>(Flags { timeout_ms: n as u64, ..flags }),
            None => Err("bad --timeout-ms"@),
        },
{
    lemma_flags_differ();
}

/// Taking usable flags first and then the rest of a line is taking the whole line.
proof fn lemma_usable_start(flags: Flags, pairs: Seq<Pair>, rest: Seq<Seq<char>>)
    requires
        scanned(flags, words_of(pairs)) is Ok,
    ensures
        scanned(flags, words_of(pairs) + rest) == scanned(
            scanned(flags, words_of(pairs))->Ok_0,
            rest,
        ),
    decreases pairs.len(),
{
    let words = words_of(pairs);
    if pairs.len() == 0 {
        assert(words + rest =~= rest);
    } else {
        let later = words_of(pairs.skip(1));
        assert(words.skip(2) =~= later);
        assert(words[0] == pairs[0].0 && words[1] == pairs[0].1);
        assert((words + rest).skip(2) =~= later + rest);
        let next = with_flag(flags, pairs[0].0, pairs[0].1)->Ok_0;
        lemma_usable_start(next, pairs.skip(1), rest);
    }
}

/// The first thing that is wrong with a command line is what is told, whatever follows it: a word
/// that is no flag, a flag without its value, or a value that cannot be used.
pub proof fn law_the_first_mistake_is_told(
    flags: Flags,
    pairs: Seq<Pair>,
    word: Seq<char>,
    value: Seq<char>,
    rest: Seq<Seq<char>>,
)
    requires
        scanned(flags, words_of(pairs)) is Ok,
    ensures
        !is_flag(word) ==> scanned(flags, words_of(pairs) + (seq![word] + rest)) == Err::<
            Flags,
            Seq<char>,
        >("unknown flag "@ + word),
        is_flag(word) ==> scanned(flags, words_of(pairs) + seq![word]) == Err::<Flags, Seq<char>>(
            "missing value for "@ + word,
        ),
        word == "--cycles"@ && number(value, 4294967295) is None ==> scanned(
            flags,
            words_of(pairs) + (seq![word, value] + rest),
        ) == Err::<Flags, Seq<char>>("bad --cycles"@),
        word == "--timeout-ms"@ && number(value, 18446744073709551615) is None ==> scanned(
            flags,
            words_of(pairs) + (seq![word, value] + rest),
        ) == Err::<Flags, Seq<char>>("bad --timeout-ms"@),
{
    let told = scanned(flags, words_of(pairs))->Ok_0;
    lemma_usable_start(flags, pairs, seq![word] + rest);
    lemma_usable_start(flags, pairs, seq![word]);
    lemma_usable_start(flags, pairs, seq![word, value] + rest);
    assert((seq![word] + rest)[0] == word);
    assert((seq![word, value] + rest)[0] == word && (seq![word, value] + rest)[1] == value);
    law_a_flag_sets_its_own_value(told, value);
}

/// A command line is read where nothing is wrong with it and nothing is missing. What is wrong with
/// a flag is told before what is missing.
pub proof fn law_command_lines_are_read(
    pairs: Seq<Pair>,
    word: Seq<char>,
    rest: Seq<Seq<char>>,
    flags: Flags,
)
    requires
        scanned(no_flags(), words_of(pairs)) == Ok::<Flags, Seq<char>>(flags),
    ensures
        read_flags(words_of(pairs)) == match missing_flag(flags) {
            Some(missing) => Err::<Flags, Seq<char>>(missing),
            None => Ok(flags),
        },
        !is_flag(word) ==> read_flags(words_of(pairs) + (seq![word] + rest)) == Err::<
            Flags,
            Seq<char>,
        >("unknown flag "@ + word),
        is_flag(word) ==> read_flags(words_of(pairs) + seq![word]) == Err::<Flags, Seq<char>>(
            "missing value for "@ + word,
        ),
{
    law_the_first_mistake_is_told(no_flags(), pairs, word, word, rest);
}

/// A complaint is followed by a line that says how the benchmark is to be called.
pub proof fn law_complaints_end_with_the_usage(msg: Seq<char>)
    ensures
        usage_text(msg) == msg
            + "\nusage: fleet-churn-bench --jailer-bin <path> --condition <label> \
        --exec-file <path> --uid <uid> --gid <gid> --chroot-base-dir <dir> [--cycles N] \
        [--timeout-ms N]\n"@,
{
    reveal_strlit(
        "\nusage: fleet-churn-bench --jailer-bin <path> --condition <label> \
        --exec-file <path> --uid <uid> --gid <gid> --chroot-base-dir <dir> [--cycles N] \
        [--timeout-ms N]\n",
    );
    reveal_strlit(
        "usage: fleet-churn-bench --jailer-bin <path> --condition <label> \
        --exec-file <path> --uid <uid> --gid <gid> --chroot-base-dir <dir> [--cycles N] \
        [--timeout-ms N]",
    );
    reveal_strlit("\n");
}

/// The flags of the benchmark are these eight, and no other word is one.
pub proof fn law_the_flags(word: Seq<char>)
    ensures
        is_flag(word) <==> seq![
            "--chroot-base-dir"@,
            "--condition"@,
            "--cycles"@,
            "--exec-file"@,
            "--gid"@,
            "--jailer-bin"@,
            "--timeout-ms"@,
            "--uid"@,
        ].contains(word),
{
    let all = seq![
        "--chroot-base-dir"@,
        "--condition"@,
        "--cycles"@,
        "--exec-file"@,
        "--gid"@,
        "--jailer-bin"@,
        "--timeout-ms"@,
        "--uid"@,
    ];
    assert(all[0] == "--chroot-base-dir"@ && all[1] == "--condition"@ && all[2] == "--cycles"@);
    assert(all[3] == "--exec-file"@ && all[4] == "--gid"@ && all[5] == "--jailer-bin"@);
    assert(all[6] == "--timeout-ms"@ && all[7] == "--uid"@);
}

} // verus!
