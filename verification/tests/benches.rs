//! The setup benchmark and the fleet-churn benchmark.

use jailer::error::{JailerError, NulError};
use jailer::fleet::{
    parse_args, spawn_jailer, start_fleet, teardown, usage_error, wait_for_socket, Args,
    FleetAction, FleetEvent, FleetPhase, FleetStep, Stream, TeardownAction, TeardownEvent,
    WaitAction, WaitEvent, WaitFailure, USAGE_STATUS,
};
use jailer::multi_file::{
    run_multi_file_open_mode, FixtureError, MultiFileRun, ProbeAction, ProbeDir, ProbeEvent,
    ProbeFlags, Stage,
};
use jailer::orchestration::Isolation;
use jailer::path::HostPath;
use jailer::setup_bench::{
    multi_file_json, run, BenchAction, BenchEvent, BenchLine, BenchRequest, BenchTimings,
};
use serde_json::Value;

fn path(text: &str) -> HostPath {
    HostPath::from_text(text)
}

fn text(text: &str) -> String {
    text.to_string()
}

fn timings() -> BenchTimings {
    BenchTimings {
        condition: text("landlock"),
        total_setup_ns: 1234,
        phases: vec![(text("ruleset"), 34), (text("restrict"), 1200)],
    }
}

fn bench_line(isolation: Option<&str>, mode: Option<&str>) -> BenchEvent {
    BenchEvent::Parsed(Ok(BenchLine {
        help: false,
        version: false,
        isolation: isolation.map(text),
        mode: mode.map(text),
        formatted_help: text("HELP"),
    }))
}

#[test]
fn reports_are_one_line_of_json() {
    assert_eq!(
        multi_file_json(&timings(), &[(text("kernel.img"), 7), (text("/dev/kvm"), 0)]),
        "{\"condition\":\"landlock\",\"total_setup_ns\":1234,\"phases\":{\"ruleset\":34,\
         \"restrict\":1200},\"file_opens_ns\":{\"kernel.img\":7,\"/dev/kvm\":0}}"
    );
    assert!(!multi_file_json(&timings(), &[(text("kernel.img"), 7)]).contains('\n'));
    let empty = BenchTimings {
        condition: text("chroot"),
        total_setup_ns: u128::MAX,
        phases: vec![],
    };
    assert_eq!(
        multi_file_json(&empty, &[]),
        "{\"condition\":\"chroot\",\"total_setup_ns\":340282366920938463463374607431768211455,\
         \"phases\":{},\"file_opens_ns\":{}}"
    );
}

#[test]
fn reports_read_back() {
    let line = multi_file_json(&timings(), &[(text("kernel.img"), 7), (text("{a},:1"), 10)]);
    let report: Value = serde_json::from_str(&line).unwrap();
    assert_eq!(report["condition"], "landlock");
    assert_eq!(report["total_setup_ns"], 1234);
    assert_eq!(report["phases"]["ruleset"], 34);
    assert_eq!(report["phases"]["restrict"], 1200);
    assert_eq!(report["file_opens_ns"]["kernel.img"], 7);
    assert_eq!(report["file_opens_ns"]["{a},:1"], 10);
    assert_eq!(report.as_object().unwrap().len(), 4);
}

#[test]
fn the_setup_benchmark_takes_its_course() {
    assert_eq!(run("1.0", BenchEvent::Begin), BenchAction::ParseArgs);
    assert_eq!(
        run("1.0", BenchEvent::Parsed(Err(text("bad")))),
        BenchAction::Finish(Err(JailerError::ArgumentParsing(text("bad"))))
    );
    assert_eq!(
        run("1.0", bench_line(Some("chroot"), None)),
        BenchAction::Prepare(BenchRequest { isolation: Isolation::Chroot, mode: text("setup") })
    );
    assert_eq!(
        run("1.0", bench_line(Some("landlock"), Some("x"))),
        BenchAction::Prepare(BenchRequest { isolation: Isolation::Landlock, mode: text("x") })
    );
    let prepared = |mode: &str| {
        BenchEvent::Prepared(
            BenchRequest { isolation: Isolation::Landlock, mode: text(mode) },
            Ok(()),
        )
    };
    assert_eq!(
        run("1.0", prepared("setup")),
        BenchAction::RunSetupMode(Isolation::Landlock)
    );
    assert_eq!(
        run("1.0", prepared("multi-file-open")),
        BenchAction::RunMultiFileOpenMode(Isolation::Landlock)
    );
    assert_eq!(run("1.0", BenchEvent::Ran(Ok(()))), BenchAction::Finish(Ok(())));
    assert_eq!(
        run(
            "1.0",
            BenchEvent::Prepared(
                BenchRequest { isolation: Isolation::Chroot, mode: text("setup") },
                Err(JailerError::NoNewPrivs),
            )
        ),
        BenchAction::Finish(Err(JailerError::NoNewPrivs))
    );
}

#[test]
fn the_setup_benchmark_prints_its_help() {
    let event = BenchEvent::Parsed(Ok(BenchLine {
        help: true,
        version: true,
        isolation: None,
        mode: None,
        formatted_help: text("HELP"),
    }));
    assert_eq!(
        run("1.0", event),
        BenchAction::Print(text("setup-bench v1.0\n\nHELP\n\n"))
    );
}

#[test]
fn the_setup_benchmark_prints_its_version() {
    let event = BenchEvent::Parsed(Ok(BenchLine {
        help: false,
        version: true,
        isolation: None,
        mode: None,
        formatted_help: text("HELP"),
    }));
    assert_eq!(run("1.0", event), BenchAction::Print(text("setup-bench v1.0\n\n")));
}

#[test]
fn unknown_backends_and_modes_are_rejected() {
    assert_eq!(
        run("1.0", bench_line(Some("x\"y"), None)),
        BenchAction::Reject(
            text("--isolation must be \"chroot\" or \"landlock\", got Some(\"x\\\"y\")\n"),
            2
        )
    );
    assert_eq!(
        run("1.0", bench_line(None, None)),
        BenchAction::Reject(
            text("--isolation must be \"chroot\" or \"landlock\", got None\n"),
            2
        )
    );
    let event = BenchEvent::Prepared(
        BenchRequest { isolation: Isolation::Chroot, mode: text("both") },
        Ok(()),
    );
    assert_eq!(
        run("1.0", event),
        BenchAction::Reject(
            text("--mode must be \"setup\" or \"multi-file-open\", got \"both\"\n"),
            2
        )
    );
}

const DIR: ProbeFlags = ProbeFlags { directory: true, nonblocking: false, close_on_exec: true };
const FILE: ProbeFlags = ProbeFlags { directory: false, nonblocking: true, close_on_exec: true };

fn staged() -> MultiFileRun {
    let (mut multi, _) = run_multi_file_open_mode(&path("/srv/root"), Isolation::Landlock);
    multi.step(ProbeEvent::FileWritten(Ok(())));
    multi.step(ProbeEvent::FileWritten(Ok(())));
    multi.step(ProbeEvent::DirCreated(Ok(())));
    multi.step(ProbeEvent::FifoMade(Ok(())));
    multi.step(ProbeEvent::FileWritten(Ok(())));
    multi
}

#[test]
fn a_multi_file_run_takes_its_course() {
    let (mut multi, first) = run_multi_file_open_mode(&path("/srv/root"), Isolation::Landlock);
    assert_eq!(
        first,
        ProbeAction::WriteFile(path("/srv/root/kernel.img"), "pretend-kernel-image")
    );
    assert_eq!(
        multi.step(ProbeEvent::FileWritten(Ok(()))),
        ProbeAction::WriteFile(path("/srv/root/rootfs.ext4"), "pretend-rootfs-image")
    );
    assert_eq!(
        multi.step(ProbeEvent::FileWritten(Ok(()))),
        ProbeAction::CreateDir(path("/srv/root/run"))
    );
    assert_eq!(
        multi.step(ProbeEvent::DirCreated(Ok(()))),
        ProbeAction::MakeFifo(path("/srv/root/run/metrics.fifo"), 0o600)
    );
    assert_eq!(
        multi.step(ProbeEvent::FifoMade(Ok(()))),
        ProbeAction::WriteFile(path("/srv/root/run/firecracker.log"), "")
    );
    assert_eq!(
        multi.step(ProbeEvent::FileWritten(Ok(()))),
        ProbeAction::RunSetup(Isolation::Landlock)
    );
    assert_eq!(
        multi.step(ProbeEvent::SetUp(Ok((timings(), path("/"))))),
        ProbeAction::OpenDir(ProbeDir::Base, path("/"), DIR)
    );
    assert_eq!(
        multi.step(ProbeEvent::DirOpened(Ok(()))),
        ProbeAction::OpenDir(ProbeDir::Run, path("/run"), DIR)
    );
    assert_eq!(
        multi.step(ProbeEvent::DirOpened(Ok(()))),
        ProbeAction::ProbeAt(ProbeDir::Base, "kernel.img", FILE)
    );
    assert_eq!(
        multi.step(ProbeEvent::Probed(Ok(1))),
        ProbeAction::ProbeAt(ProbeDir::Base, "rootfs.ext4", FILE)
    );
    assert_eq!(
        multi.step(ProbeEvent::Probed(Ok(2))),
        ProbeAction::ProbeAt(ProbeDir::Run, "metrics.fifo", FILE)
    );
    assert_eq!(
        multi.step(ProbeEvent::Probed(Ok(3))),
        ProbeAction::ProbeAt(ProbeDir::Run, "firecracker.log", FILE)
    );
    assert_eq!(multi.step(ProbeEvent::Probed(Ok(4))), ProbeAction::CloseDirs);
    assert_eq!(multi.step(ProbeEvent::DirsClosed), ProbeAction::ProbePath("/dev/kvm", FILE));
    assert_eq!(multi.step(ProbeEvent::Probed(Ok(5))), ProbeAction::ProbePath("/dev/net/tun", FILE));
    assert_eq!(
        multi.step(ProbeEvent::Probed(Ok(6))),
        ProbeAction::Print(text(
            "{\"condition\":\"landlock\",\"total_setup_ns\":1234,\"phases\":{\"ruleset\":34,\
             \"restrict\":1200},\"file_opens_ns\":{\"kernel.img\":1,\"rootfs.ext4\":2,\
             \"metrics.fifo\":3,\"firecracker.log\":4,\"/dev/kvm\":5,\"/dev/net/tun\":6}}"
        ))
    );
    assert_eq!(multi.stage, Stage::Report);
}

fn fails(error: JailerError) -> ProbeAction {
    ProbeAction::Fail { close_dirs: false, error }
}

#[test]
fn fixtures_that_cannot_be_staged_end_a_run() {
    let start = || run_multi_file_open_mode(&path("/j"), Isolation::Chroot).0;
    let mut multi = start();
    assert_eq!(
        multi.step(ProbeEvent::FileWritten(Err(FixtureError::NotCreated(text("no"))))),
        fails(JailerError::FileOpen(path("/j/kernel.img"), text("no")))
    );
    assert_eq!(multi.stage, Stage::Over);
    let mut multi = start();
    multi.step(ProbeEvent::FileWritten(Ok(())));
    assert_eq!(
        multi.step(ProbeEvent::FileWritten(Err(FixtureError::NotFilled(text("full"))))),
        fails(JailerError::Write(path("/j/rootfs.ext4"), text("full")))
    );
    let mut multi = start();
    multi.step(ProbeEvent::FileWritten(Ok(())));
    multi.step(ProbeEvent::FileWritten(Ok(())));
    assert_eq!(
        multi.step(ProbeEvent::DirCreated(Err(text("no")))),
        fails(JailerError::CreateDir(path("/j/run"), text("no")))
    );
    let mut multi = start();
    multi.step(ProbeEvent::FileWritten(Ok(())));
    multi.step(ProbeEvent::FileWritten(Ok(())));
    multi.step(ProbeEvent::DirCreated(Ok(())));
    assert_eq!(
        multi.step(ProbeEvent::FifoMade(Err(text("no")))),
        fails(JailerError::FileOpen(path("/j/run/metrics.fifo"), text("no")))
    );
}

#[test]
fn a_zero_in_a_path_ends_a_run() {
    let mut multi = run_multi_file_open_mode(&path("j\0"), Isolation::Chroot).0;
    multi.step(ProbeEvent::FileWritten(Ok(())));
    multi.step(ProbeEvent::FileWritten(Ok(())));
    assert_eq!(
        multi.step(ProbeEvent::DirCreated(Ok(()))),
        fails(JailerError::CStringParsing(NulError {
            position: 1,
            bytes: b"j\0/run/metrics.fifo".to_vec(),
        }))
    );
    assert_eq!(multi.stage, Stage::Over);
    let mut multi = staged();
    assert_eq!(
        multi.step(ProbeEvent::SetUp(Ok((timings(), path("\0"))))),
        fails(JailerError::CStringParsing(NulError { position: 0, bytes: vec![0] }))
    );
}

#[test]
fn a_path_that_is_no_text_can_still_fail_early() {
    let odd = HostPath::from_bytes(&[47, 255]);
    let (mut multi, first) = run_multi_file_open_mode(&odd, Isolation::Chroot);
    let kernel = odd.join_text("kernel.img");
    assert_eq!(first, ProbeAction::WriteFile(kernel.clone(), "pretend-kernel-image"));
    assert_eq!(
        multi.step(ProbeEvent::FileWritten(Err(FixtureError::NotCreated(text("no"))))),
        fails(JailerError::FileOpen(kernel, text("no")))
    );
}

#[test]
fn a_setup_that_fails_ends_a_run() {
    let mut multi = staged();
    assert_eq!(
        multi.step(ProbeEvent::SetUp(Err(JailerError::NoNewPrivs))),
        fails(JailerError::NoNewPrivs)
    );
}

#[test]
fn a_probe_that_fails_closes_what_is_open() {
    let mut multi = staged();
    multi.step(ProbeEvent::SetUp(Ok((timings(), path("/srv/root")))));
    multi.step(ProbeEvent::DirOpened(Ok(())));
    multi.step(ProbeEvent::DirOpened(Ok(())));
    multi.step(ProbeEvent::Probed(Ok(1)));
    multi.step(ProbeEvent::Probed(Ok(1)));
    assert_eq!(
        multi.step(ProbeEvent::Probed(Err(text("EACCES")))),
        ProbeAction::Fail {
            close_dirs: true,
            error: JailerError::FileOpen(path("/srv/root/run/metrics.fifo"), text("EACCES")),
        }
    );
    let mut multi = staged();
    multi.step(ProbeEvent::SetUp(Ok((timings(), path("/srv/root")))));
    multi.step(ProbeEvent::DirOpened(Ok(())));
    assert_eq!(
        multi.step(ProbeEvent::DirOpened(Err(text("ENOENT")))),
        fails(JailerError::FileOpen(path("/srv/root/run"), text("ENOENT")))
    );
    let mut multi = staged();
    multi.step(ProbeEvent::SetUp(Ok((timings(), path("/srv/root")))));
    multi.step(ProbeEvent::DirOpened(Ok(())));
    multi.step(ProbeEvent::DirOpened(Ok(())));
    for _ in 0..4 {
        multi.step(ProbeEvent::Probed(Ok(1)));
    }
    multi.step(ProbeEvent::DirsClosed);
    assert_eq!(
        multi.step(ProbeEvent::Probed(Err(text("ENOENT")))),
        fails(JailerError::FileOpen(path("/dev/kvm"), text("ENOENT")))
    );
}

fn words(line: &str) -> Vec<String> {
    line.split_whitespace().map(text).collect()
}

const COMPLETE: &str = "--jailer-bin /usr/bin/jailer --condition chroot --exec-file /opt/firecracker \
                        --uid 123 --gid 100 --chroot-base-dir /srv/jailer-bench";

fn complete() -> Args {
    parse_args(&words(COMPLETE)).unwrap()
}

#[test]
fn a_complete_command_line_is_read() {
    assert_eq!(
        complete(),
        Args {
            jailer_bin: path("/usr/bin/jailer"),
            condition: text("chroot"),
            exec_file: path("/opt/firecracker"),
            uid: text("123"),
            gid: text("100"),
            chroot_base_dir: path("/srv/jailer-bench"),
            cycles: 100,
            timeout_ms: 2000,
        }
    );
    let mut line = words(COMPLETE);
    line.extend(words("--cycles +7 --timeout-ms 18446744073709551615"));
    let args = parse_args(&line).unwrap();
    assert_eq!(args.cycles, 7);
    assert_eq!(args.timeout_ms, u64::MAX);
}

#[test]
fn every_flag_is_read() {
    let line = words(
        "--timeout-ms 9 --cycles 8 --chroot-base-dir /c --gid 7 --uid 6 --exec-file /e \
         --condition k --jailer-bin /j",
    );
    assert_eq!(
        parse_args(&line),
        Ok(Args {
            jailer_bin: path("/j"),
            condition: text("k"),
            exec_file: path("/e"),
            uid: text("6"),
            gid: text("7"),
            chroot_base_dir: path("/c"),
            cycles: 8,
            timeout_ms: 9,
        })
    );
}

#[test]
fn the_order_of_the_flags_does_not_matter() {
    let one = words("--uid 1 --cycles 3 --gid 2 --uid 4 --cycles 5");
    let other = words("--gid 2 --cycles 3 --cycles 5 --uid 1 --uid 4");
    let rest = words("--jailer-bin j --condition c --exec-file e --chroot-base-dir d");
    let read = |start: Vec<String>| parse_args(&[start, rest.clone()].concat());
    assert_eq!(read(one.clone()), read(other));
    let args = read(one).unwrap();
    assert_eq!((args.uid, args.gid, args.cycles), (text("4"), text("2"), 5));
}

#[test]
fn later_values_hold() {
    let mut line = words(COMPLETE);
    line.extend(words("--uid 1 --cycles 3 --cycles 4"));
    let args = parse_args(&line).unwrap();
    assert_eq!(args.uid, "1");
    assert_eq!(args.cycles, 4);
}

#[test]
fn bad_command_lines_are_refused() {
    let complaint = |line: &str| parse_args(&words(line)).unwrap_err();
    assert_eq!(complaint(""), "--jailer-bin required");
    assert_eq!(complaint("--jailer-bin j"), "--condition required");
    assert_eq!(complaint("--jailer-bin j --condition c"), "--exec-file required");
    assert_eq!(
        complaint("--jailer-bin j --condition c --exec-file e"),
        "--uid required"
    );
    assert_eq!(
        complaint("--jailer-bin j --condition c --exec-file e --uid 1"),
        "--gid required"
    );
    assert_eq!(
        complaint("--jailer-bin j --condition c --exec-file e --uid 1 --gid 1"),
        "--chroot-base-dir required"
    );
    assert_eq!(complaint("--uid"), "missing value for --uid");
    assert_eq!(complaint("--verbose"), "unknown flag --verbose");
    assert_eq!(complaint("--cycles 4294967296"), "bad --cycles");
    assert_eq!(complaint("--cycles -1"), "bad --cycles");
    assert_eq!(complaint("--timeout-ms 1s"), "bad --timeout-ms");
    assert_eq!(complaint("--cycles x --verbose"), "bad --cycles");
}

#[test]
fn complaints_come_with_the_usage() {
    assert_eq!(
        usage_error("bad --cycles"),
        "bad --cycles\nusage: fleet-churn-bench --jailer-bin <path> --condition <label> \
         --exec-file <path> --uid <uid> --gid <gid> --chroot-base-dir <dir> \
         [--cycles N] [--timeout-ms N]\n"
    );
    assert_eq!(USAGE_STATUS, 2);
}

#[test]
fn a_jailer_is_started_with_its_arguments() {
    let started = spawn_jailer(&complete(), "fleet-9-0");
    assert_eq!(started.program, path("/usr/bin/jailer"));
    assert_eq!(
        (started.stdin, started.stdout, started.stderr),
        (Stream::Null, Stream::Null, Stream::Null)
    );
    assert_eq!(
        started.arguments,
        vec![
            path("--id"),
            path("fleet-9-0"),
            path("--exec-file"),
            path("/opt/firecracker"),
            path("--uid"),
            path("123"),
            path("--gid"),
            path("100"),
            path("--chroot-base-dir"),
            path("/srv/jailer-bench"),
            path("--"),
            path("--api-sock"),
            path("/run/api.sock"),
        ]
    );
}

fn failure(msg: &str, ended: bool) -> WaitFailure {
    WaitFailure { msg: text(msg), ended }
}

#[test]
fn a_socket_is_waited_for() {
    assert_eq!(wait_for_socket(2, WaitEvent::Awake), WaitAction::ReadClock);
    assert_eq!(wait_for_socket(2, WaitEvent::Clock(2_000_000)), WaitAction::PollChild);
    assert_eq!(
        wait_for_socket(2, WaitEvent::Clock(2_000_001)),
        WaitAction::GiveUp(failure("timed out waiting for socket", false))
    );
    assert_eq!(
        wait_for_socket(2, WaitEvent::Child(Some(text("exit status: 1")))),
        WaitAction::GiveUp(failure("jailer exited early with exit status: 1", true))
    );
    assert_eq!(wait_for_socket(2, WaitEvent::Child(None)), WaitAction::Connect);
    assert_eq!(wait_for_socket(2, WaitEvent::Connected(None)), WaitAction::Sleep(200));
    assert_eq!(wait_for_socket(2, WaitEvent::Connected(Some(5))), WaitAction::Ready(5));
}

#[test]
fn a_jailer_that_does_not_terminate_is_killed() {
    assert_eq!(teardown(TeardownEvent::Begin { ended: false }), TeardownAction::SendTerm);
    assert_eq!(teardown(TeardownEvent::Awake), TeardownAction::Poll);
    assert_eq!(teardown(TeardownEvent::Polled(true)), TeardownAction::Done);
    assert_eq!(teardown(TeardownEvent::Polled(false)), TeardownAction::ReadClock);
    assert_eq!(teardown(TeardownEvent::Clock(200_000_000)), TeardownAction::Sleep(10));
    assert_eq!(teardown(TeardownEvent::Clock(200_000_001)), TeardownAction::KillAndWait);
}

#[test]
fn a_jailer_that_has_ended_gets_no_signal() {
    assert_eq!(teardown(TeardownEvent::Begin { ended: true }), TeardownAction::Done);
    let (mut fleet, _) = start_fleet(complete(), 9).unwrap();
    fleet.step(FleetEvent::Spawned(Ok(())));
    let WaitAction::GiveUp(seen) =
        wait_for_socket(2000, WaitEvent::Child(Some(text("exit status: 1"))))
    else {
        panic!("the wait goes on");
    };
    assert_eq!(
        fleet.step(FleetEvent::Waited(Err(seen))),
        FleetStep {
            line: Some(text(
                "{\"condition\":\"chroot\",\"error\":\"jailer exited early with exit status: 1\"}"
            )),
            action: FleetAction::TearDown { ended: true },
        }
    );
    assert_eq!(fleet.phase, FleetPhase::TearingDown { ended: true });
}

#[test]
fn every_cycle_prints_one_line_and_cleans_up() {
    let mut args = complete();
    args.cycles = 3;
    let (mut fleet, first) = start_fleet(args, 9).unwrap();
    assert!(matches!(&first, FleetAction::Spawn(started) if started.arguments[1] == path("fleet-9-0")));
    assert_eq!(
        fleet.step(FleetEvent::Spawned(Ok(()))),
        FleetStep {
            line: None,
            action: FleetAction::WaitForSocket(
                path("/srv/jailer-bench/firecracker/fleet-9-0/root/run/api.sock"),
                2000
            ),
        }
    );
    assert_eq!(
        fleet.step(FleetEvent::Waited(Ok(777))),
        FleetStep {
            line: Some(text("{\"condition\":\"chroot\",\"socket_ready_ns\":777}")),
            action: FleetAction::TearDown { ended: false },
        }
    );
    assert_eq!(
        fleet.step(FleetEvent::TornDown),
        FleetStep {
            line: None,
            action: FleetAction::RemoveDir(path("/srv/jailer-bench/firecracker/fleet-9-0")),
        }
    );
    let next = fleet.step(FleetEvent::Removed);
    assert_eq!(next.line, None);
    assert!(matches!(&next.action, FleetAction::Spawn(started) if started.arguments[1] == path("fleet-9-1")));
    let next = fleet.step(FleetEvent::Spawned(Err(text("ENOENT"))));
    assert_eq!(
        next.line,
        Some(text("{\"condition\":\"chroot\",\"error\":\"spawn failed: ENOENT\"}"))
    );
    assert!(matches!(&next.action, FleetAction::Spawn(started) if started.arguments[1] == path("fleet-9-2")));
    fleet.step(FleetEvent::Spawned(Ok(())));
    assert_eq!(
        fleet.step(FleetEvent::Waited(Err(failure("timed out waiting for socket", false)))),
        FleetStep {
            line: Some(text(
                "{\"condition\":\"chroot\",\"error\":\"timed out waiting for socket\"}"
            )),
            action: FleetAction::TearDown { ended: false },
        }
    );
    fleet.step(FleetEvent::TornDown);
    assert_eq!(
        fleet.step(FleetEvent::Removed),
        FleetStep { line: None, action: FleetAction::Stop }
    );
    assert_eq!(fleet.phase, FleetPhase::Over);
    assert_eq!(fleet.cycle, 3);
}

#[test]
fn fleet_lines_read_back() {
    let mut args = complete();
    args.cycles = 2;
    let (mut fleet, _) = start_fleet(args, 9).unwrap();
    fleet.step(FleetEvent::Spawned(Ok(())));
    let line = fleet.step(FleetEvent::Waited(Ok(777))).line.unwrap();
    let ready: Value = serde_json::from_str(&line).unwrap();
    assert_eq!(ready["condition"], "chroot");
    assert_eq!(ready["socket_ready_ns"], 777);
    fleet.step(FleetEvent::TornDown);
    fleet.step(FleetEvent::Removed);
    let line = fleet.step(FleetEvent::Spawned(Err(text("ENOENT")))).line.unwrap();
    let error: Value = serde_json::from_str(&line).unwrap();
    assert_eq!(error["condition"], "chroot");
    assert_eq!(error["error"], "spawn failed: ENOENT");
}

#[test]
fn a_run_of_no_cycles_is_over_at_once() {
    let mut args = complete();
    args.cycles = 0;
    let (_, first) = start_fleet(args, 9).unwrap();
    assert_eq!(first, FleetAction::Stop);
}

#[test]
fn an_exec_file_needs_a_name() {
    let mut args = complete();
    args.exec_file = path("/opt/..");
    assert_eq!(
        start_fleet(args, 9).unwrap_err(),
        "--exec-file has no filename"
    );
}
