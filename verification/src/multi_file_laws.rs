//! What holds of every multi-file run.

use vstd::prelude::*;
use vstd::utf8::*;

use crate::error::JailerError;
use crate::multi_file::{
    asks, is_history, is_start, state_after, FixtureError, MultiFileState, ProbeAction, ProbeDir,
    ProbeEvent, ProbeFailure, ProbeFlags, ProbeMove, Stage,
};
use crate::orchestration::Isolation;
use crate::path::joined;
use crate::setup_bench::multi_file_report;

verus! {

/// What a run asks for after a row of events.
pub open spec fn asked_after(run: MultiFileState, events: Seq<ProbeEvent>) -> ProbeMove {
    if events.len() == 0 {
        run.asked()
    } else {
        state_after(run, events.drop_last()).after(events.last()).1
    }
}

/// A file in the jail, as it is seen before the process is isolated.
pub open spec fn staged(chroot_dir: Seq<u8>, name: Seq<char>) -> Seq<u8> {
    joined(chroot_dir, encode_utf8(name))
}

/// What a run keeps: its jail and its backend, the timings and the base directory once there are
/// any, and the stage, which counts the events.
proof fn lemma_run_so_far(
    run: MultiFileState,
    chroot_dir: Seq<u8>,
    isolation: Isolation,
    events: Seq<ProbeEvent>,
)
    requires
        is_start(run, chroot_dir, isolation),
        is_history(run, events),
    ensures
        ({
            let state = state_after(run, events);
            &&& state.chroot_dir == chroot_dir
            &&& state.isolation == isolation
            &&& state.stage != Stage::Over ==> {
                &&& state.stage.place() == events.len()
                &&& asked_after(run, events) == state.asked()
                &&& events.len() > 5 ==> (events[5] matches ProbeEvent::SetUp(Ok(done))
                    && state.timings == done.0 && state.base_dir == done.1@)
                &&& forall|i: int| 0 <= i < events.len() ==> !is_failure(#[trigger] events[i])
            }
        }),
    decreases events.len(),
{
    if events.len() > 0 {
        let before = events.drop_last();
        lemma_run_so_far(run, chroot_dir, isolation, before);
        assert forall|i: int| 0 <= i < before.len() implies events[i] == #[trigger] before[i] by {}
        if events.len() > 6 {
            assert(before[5] == events[5]);
        }
        let state = state_after(run, events);
        if state.stage != Stage::Over {
            assert forall|i: int| 0 <= i < events.len() implies !is_failure(
                #[trigger] events[i],
            ) by {
                if i < before.len() {
                    assert(before[i] == events[i]);
                }
            }
        }
    }
}

/// Whether an event tells of a failure.
pub open spec fn is_failure(event: ProbeEvent) -> bool {
    match event {
        ProbeEvent::FileWritten(r) => r is Err,
        ProbeEvent::DirCreated(r) => r is Err,
        ProbeEvent::FifoMade(r) => r is Err,
        ProbeEvent::SetUp(r) => r is Err,
        ProbeEvent::DirOpened(r) => r is Err,
        ProbeEvent::Probed(r) => r is Err,
        ProbeEvent::DirsClosed => false,
    }
}

/// The one setup that a run asks for is that of the backend that it was begun with.
pub proof fn law_the_chosen_backend_is_set_up(
    run: MultiFileState,
    chroot_dir: Seq<u8>,
    isolation: Isolation,
    events: Seq<ProbeEvent>,
)
    requires
        is_start(run, chroot_dir, isolation),
        is_history(run, events),
    ensures
        asked_after(run, events) matches ProbeMove::RunSetup(chosen) ==> chosen == isolation
            && events.len() == 5,
        events.len() == 5 && !(asked_after(run, events) is Fail) ==> asked_after(run, events)
            == ProbeMove::RunSetup(isolation),
{
    lemma_run_so_far(run, chroot_dir, isolation, events);
    if events.len() > 0 {
        lemma_run_so_far(run, chroot_dir, isolation, events.drop_last());
    }
}

/// The fixtures are staged in the jail that the run was begun in, in this order: the kernel image,
/// the root file system, the directory `run`, the named pipe and the log in it. Nothing else is
/// ever written, created or made.
pub proof fn law_fixtures_are_staged_in_the_jail(
    run: MultiFileState,
    chroot_dir: Seq<u8>,
    isolation: Isolation,
    events: Seq<ProbeEvent>,
)
    requires
        is_start(run, chroot_dir, isolation),
        is_history(run, events),
    ensures
        ({
            let run_dir = staged(chroot_dir, "run"@);
            match asked_after(run, events) {
                ProbeMove::WriteFile(path, contents) => {
                    ||| events.len() == 0 && path == staged(chroot_dir, "kernel.img"@) && contents
                        == "pretend-kernel-image"@
                    ||| events.len() == 1 && path == staged(chroot_dir, "rootfs.ext4"@) && contents
                        == "pretend-rootfs-image"@
                    ||| events.len() == 4 && path == staged(run_dir, "firecracker.log"@)
                        && contents == ""@
                },
                ProbeMove::CreateDir(path) => events.len() == 2 && path == run_dir,
                ProbeMove::MakeFifo(path) => events.len() == 3 && path == staged(
                    run_dir,
                    "metrics.fifo"@,
                ) && !path.contains(0),
                _ => events.len() != 0 && events.len() != 1 && events.len() != 2 && events.len()
                    != 4 || asked_after(run, events) is Fail,
            }
        }),
{
    lemma_run_so_far(run, chroot_dir, isolation, events);
    if events.len() > 0 {
        lemma_run_so_far(run, chroot_dir, isolation, events.drop_last());
    }
}

/// What is opened is what was staged, as the isolated process sees it: the base directory that
/// the setup gave and `run` in it are opened, then each fixture by its name in the directory that
/// it was staged in, and after the directories are closed the two devices.
pub proof fn law_what_was_staged_is_opened(
    run: MultiFileState,
    chroot_dir: Seq<u8>,
    isolation: Isolation,
    events: Seq<ProbeEvent>,
)
    requires
        is_start(run, chroot_dir, isolation),
        is_history(run, events),
        events.len() > 5,
    ensures
        !(asked_after(run, events) is Fail) ==> {
            &&& events[5] matches ProbeEvent::SetUp(Ok(done))
            &&& asked_after(run, events) == if events.len() == 6 {
                ProbeMove::OpenDir(ProbeDir::Base, done.1@)
            } else if events.len() == 7 {
                ProbeMove::OpenDir(ProbeDir::Run, staged(done.1@, "run"@))
            } else if events.len() == 8 {
                ProbeMove::ProbeAt(ProbeDir::Base, "kernel.img"@)
            } else if events.len() == 9 {
                ProbeMove::ProbeAt(ProbeDir::Base, "rootfs.ext4"@)
            } else if events.len() == 10 {
                ProbeMove::ProbeAt(ProbeDir::Run, "metrics.fifo"@)
            } else if events.len() == 11 {
                ProbeMove::ProbeAt(ProbeDir::Run, "firecracker.log"@)
            } else if events.len() == 12 {
                ProbeMove::CloseDirs
            } else if events.len() == 13 {
                ProbeMove::ProbePath("/dev/kvm"@)
            } else if events.len() == 14 {
                ProbeMove::ProbePath("/dev/net/tun"@)
            } else {
                asked_after(run, events)
            }
        },
{
    lemma_run_so_far(run, chroot_dir, isolation, events);
    lemma_run_so_far(run, chroot_dir, isolation, events.drop_last());
}

/// A path with a zero is never handed to the C side: no named pipe is made and no directory opened
/// at such a path, and the run fails with that path instead.
pub proof fn law_zeros_stay_on_this_side(
    run: MultiFileState,
    chroot_dir: Seq<u8>,
    isolation: Isolation,
    events: Seq<ProbeEvent>,
)
    requires
        is_start(run, chroot_dir, isolation),
        is_history(run, events),
    ensures
        asked_after(run, events) matches ProbeMove::MakeFifo(path) ==> !path.contains(0),
        asked_after(run, events) matches ProbeMove::OpenDir(_, path) ==> !path.contains(0),
        asked_after(run, events) matches ProbeMove::Fail(_, ProbeFailure::Nul(path)) ==> {
            &&& path.contains(0)
            &&& events.len() == 3 || events.len() == 6 || events.len() == 7
            &&& events.len() == 3 ==> path == staged(staged(chroot_dir, "run"@), "metrics.fifo"@)
            &&& events.len() == 6 ==> (events[5] matches ProbeEvent::SetUp(Ok(done)) && path
                == done.1@)
            &&& events.len() == 7 ==> (events[5] matches ProbeEvent::SetUp(Ok(done)) && path
                == staged(done.1@, "run"@))
        },
{
    lemma_run_so_far(run, chroot_dir, isolation, events);
    if events.len() > 0 {
        lemma_run_so_far(run, chroot_dir, isolation, events.drop_last());
    }
}

/// The path that an action is about, where an action is about one. What is opened by its name in
/// a directory stands in that directory.
pub open spec fn path_of(asked: ProbeMove, base_dir: Seq<u8>) -> Seq<u8> {
    match asked {
        ProbeMove::WriteFile(path, _) => path,
        ProbeMove::CreateDir(path) => path,
        ProbeMove::MakeFifo(path) => path,
        ProbeMove::OpenDir(_, path) => path,
        ProbeMove::ProbeAt(ProbeDir::Base, name) => joined(base_dir, encode_utf8(name)),
        ProbeMove::ProbeAt(ProbeDir::Run, name) => joined(
            joined(base_dir, encode_utf8("run"@)),
            encode_utf8(name),
        ),
        ProbeMove::ProbePath(path) => encode_utf8(path),
        _ => base_dir,
    }
}

/// A failure names the path of the action that failed and its cause, and says what kind of action
/// it was; a failed setup is handed on as it is. Both directories are closed where both are open,
/// which is while files are opened by their names.
pub proof fn law_failures_name_what_failed(
    run: MultiFileState,
    chroot_dir: Seq<u8>,
    isolation: Isolation,
    events: Seq<ProbeEvent>,
)
    requires
        is_start(run, chroot_dir, isolation),
        is_history(run, events),
        events.len() > 0,
    ensures
        ({
            let before = events.drop_last();
            let asked = asked_after(run, before);
            let path = path_of(asked, state_after(run, before).base_dir);
            let open = asked is ProbeAt;
            let next = asked_after(run, events);
            match events.last() {
                ProbeEvent::FileWritten(Err(FixtureError::NotCreated(cause))) => asked is WriteFile
                    && next == ProbeMove::Fail(open, ProbeFailure::FileOpen(path, cause@)),
                ProbeEvent::FileWritten(Err(FixtureError::NotFilled(cause))) => asked is WriteFile
                    && next == ProbeMove::Fail(open, ProbeFailure::Write(path, cause@)),
                ProbeEvent::DirCreated(Err(cause)) => asked is CreateDir && next
                    == ProbeMove::Fail(open, ProbeFailure::CreateDir(path, cause@)),
                ProbeEvent::FifoMade(Err(cause)) => asked is MakeFifo && next == ProbeMove::Fail(
                    open,
                    ProbeFailure::FileOpen(path, cause@),
                ),
                ProbeEvent::DirOpened(Err(cause)) => asked is OpenDir && next == ProbeMove::Fail(
                    open,
                    ProbeFailure::FileOpen(path, cause@),
                ),
                ProbeEvent::Probed(Err(cause)) => (asked is ProbeAt || asked is ProbePath) && next
                    == ProbeMove::Fail(open, ProbeFailure::FileOpen(path, cause@)),
                ProbeEvent::SetUp(Err(error)) => asked is RunSetup && next == ProbeMove::Fail(
                    false,
                    ProbeFailure::Setup(error),
                ),
                _ => next matches ProbeMove::Fail(close, failure) ==> !close && (failure matches
                    ProbeFailure::Nul(at) && at.contains(0)),
            }
        }),
{
    lemma_run_so_far(run, chroot_dir, isolation, events.drop_last());
    lemma_run_so_far(run, chroot_dir, isolation, events);
}

/// What a probe took.
pub open spec fn time_of(event: ProbeEvent) -> u128 {
    match event {
        ProbeEvent::Probed(Ok(ns)) => ns,
        _ => 0,
    }
}

/// The times of the probes of a run that has come to its report are those that were measured,
/// each under its own name, and the timings are those of the setup.
proof fn lemma_times_so_far(
    run: MultiFileState,
    chroot_dir: Seq<u8>,
    isolation: Isolation,
    events: Seq<ProbeEvent>,
)
    requires
        is_start(run, chroot_dir, isolation),
        is_history(run, events),
        state_after(run, events).stage != Stage::Over,
    ensures
        ({
            let n = events.len() as int;
            let opens = state_after(run, events).opens;
            &&& opens.len() == if n <= 8 {
                0
            } else if n <= 12 {
                n - 8
            } else if n == 13 {
                4
            } else {
                n - 9
            }
            &&& n > 8 ==> opens[0] == ("kernel.img"@, time_of(events[8]))
            &&& n > 9 ==> opens[1] == ("rootfs.ext4"@, time_of(events[9]))
            &&& n > 10 ==> opens[2] == ("metrics.fifo"@, time_of(events[10]))
            &&& n > 11 ==> opens[3] == ("firecracker.log"@, time_of(events[11]))
            &&& n > 13 ==> opens[4] == ("/dev/kvm"@, time_of(events[13]))
            &&& n > 14 ==> opens[5] == ("/dev/net/tun"@, time_of(events[14]))
        }),
    decreases events.len(),
{
    lemma_run_so_far(run, chroot_dir, isolation, events);
    if events.len() > 0 {
        let before = events.drop_last();
        lemma_run_so_far(run, chroot_dir, isolation, before);
        assert(state_after(run, before).stage != Stage::Over);
        lemma_times_so_far(run, chroot_dir, isolation, before);
        assert forall|i: int| 0 <= i < before.len() implies events[i] == #[trigger] before[i] by {}
    }
}

/// The report says what was measured: the timings that the setup gave, and for each file, in the
/// order of the opens, the time that opening it took.
pub proof fn law_the_report_says_what_was_measured(
    run: MultiFileState,
    chroot_dir: Seq<u8>,
    isolation: Isolation,
    events: Seq<ProbeEvent>,
)
    requires
        is_start(run, chroot_dir, isolation),
        is_history(run, events),
        events.len() > 0,
    ensures
        asked_after(run, events) matches ProbeMove::Print(report) ==> {
            &&& events.len() == 15
            &&& events[5] matches ProbeEvent::SetUp(Ok(done))
            &&& report == multi_file_report(
                done.0,
                seq![
                    ("kernel.img"@, time_of(events[8])),
                    ("rootfs.ext4"@, time_of(events[9])),
                    ("metrics.fifo"@, time_of(events[10])),
                    ("firecracker.log"@, time_of(events[11])),
                    ("/dev/kvm"@, time_of(events[13])),
                    ("/dev/net/tun"@, time_of(events[14])),
                ],
            )
        },
        events.len() == 15 && !(asked_after(run, events) is Fail) ==> asked_after(
            run,
            events,
        ) is Print,
{
    lemma_run_so_far(run, chroot_dir, isolation, events);
    lemma_run_so_far(run, chroot_dir, isolation, events.drop_last());
    let state = state_after(run, events);
    if asked_after(run, events) is Print {
        assert(state.stage != Stage::Over);
        lemma_times_so_far(run, chroot_dir, isolation, events);
        assert(state.opens =~= seq![
            ("kernel.img"@, time_of(events[8])),
            ("rootfs.ext4"@, time_of(events[9])),
            ("metrics.fifo"@, time_of(events[10])),
            ("firecracker.log"@, time_of(events[11])),
            ("/dev/kvm"@, time_of(events[13])),
            ("/dev/net/tun"@, time_of(events[14])),
        ]);
    }
}

/// An action asks for what it holds, with the flags and the mode that belong to it: a directory
/// is opened as one, a file is opened without waiting, and no descriptor outlives an executed
/// program.
pub proof fn law_actions_say_what_they_ask_for(action: ProbeAction, asked: ProbeMove)
    requires
        asks(action, asked),
    ensures
        match action {
            ProbeAction::WriteFile(path, contents) => asked == ProbeMove::WriteFile(
                path@,
                contents@,
            ),
            ProbeAction::CreateDir(path) => asked == ProbeMove::CreateDir(path@),
            ProbeAction::MakeFifo(path, mode) => asked == ProbeMove::MakeFifo(path@) && mode
                == 0o600,
            ProbeAction::RunSetup(isolation) => asked == ProbeMove::RunSetup(isolation),
            ProbeAction::OpenDir(dir, path, flags) => asked == ProbeMove::OpenDir(dir, path@)
                && flags == (ProbeFlags {
                directory: true,
                nonblocking: false,
                close_on_exec: true,
            }),
            ProbeAction::ProbeAt(dir, name, flags) => asked == ProbeMove::ProbeAt(dir, name@)
                && flags == (ProbeFlags {
                directory: false,
                nonblocking: true,
                close_on_exec: true,
            }),
            ProbeAction::CloseDirs => asked == ProbeMove::CloseDirs,
            ProbeAction::ProbePath(path, flags) => asked == ProbeMove::ProbePath(path@) && flags
                == (ProbeFlags { directory: false, nonblocking: true, close_on_exec: true }),
            ProbeAction::Print(text) => asked == ProbeMove::Print(text@),
            ProbeAction::Fail { close_dirs, error } => asked matches ProbeMove::Fail(close, failure)
                && close == close_dirs && match error {
                JailerError::FileOpen(path, cause) => failure == ProbeFailure::FileOpen(
                    path@,
                    cause@,
                ) || failure == ProbeFailure::Setup(error),
                JailerError::Write(path, cause) => failure == ProbeFailure::Write(path@, cause@)
                    || failure == ProbeFailure::Setup(error),
                JailerError::CreateDir(path, cause) => failure == ProbeFailure::CreateDir(
                    path@,
                    cause@,
                ) || failure == ProbeFailure::Setup(error),
                JailerError::CStringParsing(nul) => failure == ProbeFailure::Nul(nul.bytes@)
                    || failure == ProbeFailure::Setup(error),
                _ => failure == ProbeFailure::Setup(error),
            },
        },
{
}

} // verus!
