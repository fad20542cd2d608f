//! Paths, special files, and the course of a jailer process.

use jailer::args::{build_arg_parser, build_parser, Argument};
use jailer::error::{JailerError, NulError};
use jailer::orchestration::{
    main_exec, prepare_jail, run, CommandLine, Isolation, MainAction, MainEvent, PrepareAction,
    PrepareEvent, FOLDER_PERMISSIONS,
};
use jailer::path::HostPath;
use jailer::process::{
    clean_env_vars, close_fds_by_close_range, close_inherited_fds, close_range_outcome,
    inherited_fds, sanitize_process, FdRange, SanitizeAction, SanitizeEvent,
};
use jailer::special::{
    readln_special, to_cstring, writeln_special, OpenMode, ReadAction, ReadEvent, WriteAction,
    WriteEvent,
};

fn path(text: &str) -> HostPath {
    HostPath::from_text(text)
}

fn text(text: &str) -> String {
    text.to_string()
}

#[test]
fn test_to_cstring() {
    let some_path = path("some_path");
    let cstring_path = to_cstring(&some_path).unwrap();
    assert_eq!(cstring_path, b"some_path".to_vec());
    let path_with_nul = path("some_path_with_nul\0");
    assert_eq!(
        to_cstring(&path_with_nul).unwrap_err().message(),
        "Encountered interior \\0 while parsing a string"
    );
}

#[test]
fn a_c_string_error_tells_where_the_first_zero_is() {
    assert_eq!(
        to_cstring(&path("a\0b\0")),
        Err(JailerError::CStringParsing(NulError { position: 1, bytes: vec![97, 0, 98, 0] }))
    );
}

#[test]
fn a_path_that_is_no_text_is_no_c_string() {
    let odd = HostPath::from_bytes(&[97, 0, 255]);
    assert_eq!(
        to_cstring(&odd),
        Err(JailerError::OsStringParsing(odd.clone(), vec![97, 0, 255]))
    );
}

#[test]
fn paths_join_as_lookups_do() {
    assert_eq!(path("/srv").join_text("jailer"), path("/srv/jailer"));
    assert_eq!(path("/srv/").join_text("jailer"), path("/srv/jailer"));
    assert_eq!(path("/srv").join_text("/abs"), path("/abs"));
    assert_eq!(path("").join_text("rel"), path("rel"));
    assert_eq!(path("/srv").join_text(""), path("/srv/"));
}

#[test]
fn file_names_are_last_steps() {
    assert_eq!(path("/usr/bin/firecracker").file_name(), Some(path("firecracker")));
    assert_eq!(path("tmp/foo/./").file_name(), Some(path("foo")));
    assert_eq!(path("foo.txt/..").file_name(), None);
    assert_eq!(path("/").file_name(), None);
    assert_eq!(path("").file_name(), None);
    assert_eq!(path(".").file_name(), None);
}

#[test]
fn paths_are_shown() {
    assert_eq!(path("/a\tb").show(), "\"/a\\tb\"");
    assert_eq!(path("/a\tb").display(), "/a\tb");
    assert_eq!(HostPath::from_bytes(&[97, 255]).display(), "a\u{fffd}");
}

#[test]
fn everything_but_the_standard_streams_is_closed() {
    assert_eq!(inherited_fds(), FdRange { first: 3, last: u32::MAX, unshare: true });
    assert_eq!(close_fds_by_close_range(0), Ok(()));
    assert_eq!(close_fds_by_close_range(7), Ok(()));
    assert!(matches!(close_fds_by_close_range(-1), Err(JailerError::CloseRange(_))));
    assert_eq!(close_range_outcome(Ok(())), Ok(()));
    assert_eq!(
        close_range_outcome(Err(text("EPERM"))),
        Err(JailerError::CloseRange(text("EPERM")))
    );
    assert_eq!(close_inherited_fds(0), Ok(()));
    assert!(matches!(close_inherited_fds(-1), Err(JailerError::CloseRange(_))));
}

#[test]
fn the_process_is_sanitized_in_order() {
    assert_eq!(
        sanitize_process(SanitizeEvent::Begin),
        SanitizeAction::CloseFds(FdRange { first: 3, last: u32::MAX, unshare: true })
    );
    assert_eq!(sanitize_process(SanitizeEvent::Closed(Ok(()))), SanitizeAction::ReadVars);
    assert_eq!(
        sanitize_process(SanitizeEvent::Closed(Err(JailerError::CloseRange(text("EPERM"))))),
        SanitizeAction::Finish(Err(JailerError::CloseRange(text("EPERM"))))
    );
    assert_eq!(
        sanitize_process(SanitizeEvent::Vars(vec![
            (b"FOO".to_vec(), b"bar".to_vec()),
            (b"PATH".to_vec(), b"/bin".to_vec()),
        ])),
        SanitizeAction::RemoveVars(vec![b"FOO".to_vec(), b"PATH".to_vec()])
    );
    assert_eq!(sanitize_process(SanitizeEvent::Removed), SanitizeAction::Finish(Ok(())));
}

#[test]
fn every_variable_is_removed() {
    assert_eq!(clean_env_vars(&[]), Vec::<Vec<u8>>::new());
    assert_eq!(clean_env_vars(&[(b"FOO".to_vec(), b"bar".to_vec())]), vec![b"FOO".to_vec()]);
    // Names and values need not be texts.
    assert_eq!(clean_env_vars(&[(vec![70, 255], vec![254])]), vec![vec![70, 255]]);
}

#[test]
fn a_special_line_is_written() {
    let file = path("/sys/fs/cgroup/tasks");
    assert_eq!(
        writeln_special(&file, "42", WriteEvent::Begin),
        WriteAction::Open(OpenMode {
            read: false,
            write: true,
            create: true,
            truncate: true,
            follow: false,
        })
    );
    assert_eq!(
        writeln_special(&file, "42", WriteEvent::Opened(Ok(()))),
        WriteAction::WriteAll(text("42\n"))
    );
    assert_eq!(
        writeln_special(&file, "42", WriteEvent::Written(Ok(()))),
        WriteAction::Finish(Ok(()))
    );
    for event in [WriteEvent::Opened(Err(text("no"))), WriteEvent::Written(Err(text("no")))] {
        assert_eq!(
            writeln_special(&file, "42", event),
            WriteAction::Finish(Err(JailerError::Write(file.clone(), text("no"))))
        );
    }
}

#[test]
fn a_special_line_is_read() {
    let file = path("/sys/fs/cgroup/tasks");
    assert_eq!(
        readln_special(&file, ReadEvent::Begin),
        ReadAction::Open(OpenMode {
            read: true,
            write: false,
            create: false,
            truncate: false,
            follow: false,
        })
    );
    assert_eq!(readln_special(&file, ReadEvent::Opened(Ok(()))), ReadAction::ReadAll);
    assert_eq!(
        readln_special(&file, ReadEvent::Contents(Ok(text("0-3\n")))),
        ReadAction::Finish(Ok(text("0-3")))
    );
    // Only a newline goes, and only one; an empty file holds an empty line.
    assert_eq!(
        readln_special(&file, ReadEvent::Contents(Ok(text("0-3")))),
        ReadAction::Finish(Ok(text("0-3")))
    );
    assert_eq!(
        readln_special(&file, ReadEvent::Contents(Ok(text("0-3\n\n")))),
        ReadAction::Finish(Ok(text("0-3\n")))
    );
    assert_eq!(
        readln_special(&file, ReadEvent::Contents(Ok(text("")))),
        ReadAction::Finish(Ok(text("")))
    );
    for event in [ReadEvent::Opened(Err(text("no"))), ReadEvent::Contents(Err(text("no")))] {
        assert_eq!(
            readln_special(&file, event),
            ReadAction::Finish(Err(JailerError::ReadToString(file.clone(), text("no"))))
        );
    }
}

#[test]
fn a_written_line_reads_back() {
    let file = path("/f");
    for value in ["", "x", "one\ntwo", "\u{20ac}"] {
        let WriteAction::WriteAll(written) =
            writeln_special(&file, value, WriteEvent::Opened(Ok(())))
        else {
            panic!("nothing was written");
        };
        assert_eq!(
            readln_special(&file, ReadEvent::Contents(Ok(written))),
            ReadAction::Finish(Ok(text(value)))
        );
    }
}

fn names(arguments: &[Argument]) -> Vec<&'static str> {
    arguments.iter().map(|argument| argument.name).collect()
}

#[test]
fn the_jailer_takes_its_arguments() {
    let parser = build_arg_parser();
    assert_eq!(
        names(&parser.arguments),
        vec![
            "id",
            "exec-file",
            "uid",
            "gid",
            "chroot-base-dir",
            "netns",
            "daemonize",
            "new-pid-ns",
            "cgroup",
            "resource-limit",
            "cgroup-version",
            "parent-cgroup",
            "version",
        ]
    );
    let required: Vec<&Argument> = parser.arguments.iter().filter(|a| a.required).collect();
    assert_eq!(required.len(), 4);
    assert_eq!(parser.arguments[0].help, "Jail ID.");
    assert!(parser.arguments[0].takes_value);
    assert_eq!(parser.arguments[4].default_value, Some("/srv/jailer"));
    assert_eq!(parser.arguments[10].default_value, Some("1"));
    assert!(!parser.arguments[6].takes_value);
    assert!(parser.arguments[8].allow_multiple && parser.arguments[9].allow_multiple);
    assert_eq!(
        parser.arguments[9].help,
        "Resource limit values to be set by the jailer. It must follow this format: \
         <resource>=<value> (e.g no-file=1024). This argument can be used multiple times to \
         add multiple resource limits. Current available resource values are:\n\t\tfsize: The \
         maximum size in bytes for files created by the process.\n\t\tno-file: Specifies a \
         value one greater than the maximum file descriptor number that can be opened by this \
         process."
    );
}

#[test]
fn the_setup_benchmark_adds_two_arguments() {
    let own = build_arg_parser();
    let bench = build_parser();
    let n = own.arguments.len();
    assert_eq!(bench.arguments[..n], own.arguments[..]);
    assert_eq!(names(&bench.arguments[n..]), vec!["isolation", "mode"]);
    assert!(bench.arguments[n].required);
    assert_eq!(bench.arguments[n + 1].default_value, Some("setup"));
    assert_eq!(
        bench.arguments[n].help,
        "Which isolation backend to benchmark: \"chroot\" or \"landlock\"."
    );
}

#[test]
fn argument_names_are_distinct() {
    let bench = build_parser();
    let mut all = names(&bench.arguments);
    all.sort();
    all.dedup();
    assert_eq!(all.len(), bench.arguments.len());
}

#[test]
fn the_jail_directory_is_prepared() {
    let dir = path("/srv/jailer/firecracker/1/root");
    assert_eq!(
        prepare_jail(PrepareEvent::EnvBuilt(Ok(dir.clone()))),
        PrepareAction::CreateDir(dir.clone())
    );
    assert_eq!(
        prepare_jail(PrepareEvent::EnvBuilt(Err(JailerError::Uid(text("x"))))),
        PrepareAction::Finish(Err(JailerError::Uid(text("x"))))
    );
    assert_eq!(
        prepare_jail(PrepareEvent::DirCreated(dir.clone(), Ok(()))),
        PrepareAction::SetMode(dir.clone(), 0o700)
    );
    assert_eq!(FOLDER_PERMISSIONS, 448);
    assert_eq!(
        prepare_jail(PrepareEvent::DirCreated(dir.clone(), Err(text("no")))),
        PrepareAction::Finish(Err(JailerError::CreateDir(dir.clone(), text("no"))))
    );
    assert_eq!(
        prepare_jail(PrepareEvent::ModeSet(dir.clone(), Ok(()))),
        PrepareAction::Finish(Ok(()))
    );
    assert_eq!(
        prepare_jail(PrepareEvent::ModeSet(dir.clone(), Err(text("no")))),
        PrepareAction::Finish(Err(JailerError::Chmod(dir, text("no"))))
    );
}

fn line(help: bool, version: bool) -> CommandLine {
    CommandLine { help, version, formatted_help: text("HELP") }
}

fn jailer_step(event: MainEvent) -> MainAction {
    main_exec(Isolation::Chroot, "Jailer", "1.2.3", event)
}

#[test]
fn a_jailer_takes_its_course() {
    assert_eq!(jailer_step(MainEvent::Begin), MainAction::Sanitize);
    assert_eq!(jailer_step(MainEvent::Sanitized(Ok(()))), MainAction::ParseArgs);
    assert_eq!(
        jailer_step(MainEvent::Parsed(Ok(line(false, false)))),
        MainAction::Prepare
    );
    assert_eq!(
        jailer_step(MainEvent::Prepared(Ok(()))),
        MainAction::Run(Isolation::Chroot)
    );
    assert_eq!(jailer_step(MainEvent::Ran(Ok(()))), MainAction::Finish(Ok(())));
}

#[test]
fn a_jailer_that_cannot_be_sanitized_panics() {
    assert_eq!(
        jailer_step(MainEvent::Sanitized(Err(JailerError::CloseRange(text("EPERM"))))),
        MainAction::Panic(text(
            "Failed to sanitize the Jailer process: Failed to call close range syscall: EPERM"
        ))
    );
}

#[test]
fn help_comes_before_version() {
    assert_eq!(
        jailer_step(MainEvent::Parsed(Ok(line(true, true)))),
        MainAction::Print(text(
            "Jailer v1.2.3\n\nHELP\n\nAny arguments after the -- separator will be supplied \
             to the jailed binary.\n\n"
        ))
    );
    assert_eq!(
        jailer_step(MainEvent::Parsed(Ok(line(false, true)))),
        MainAction::Print(text("Jailer v1.2.3\n\n"))
    );
}

#[test]
fn failures_are_told_and_returned() {
    let step = run(
        Isolation::Landlock,
        "Landlock Jailer",
        "1.2.3",
        MainEvent::Parsed(Err(text("bad flag"))),
    );
    assert_eq!(step.complaint, Some(text("Failed to parse arguments: bad flag\n")));
    assert_eq!(
        step.action,
        MainAction::Finish(Err(JailerError::ArgumentParsing(text("bad flag"))))
    );
    let step = run(Isolation::Landlock, "L", "1", MainEvent::Ran(Err(JailerError::NoNewPrivs)));
    assert_eq!(
        step.complaint,
        Some(text("Failed to confirm PR_SET_NO_NEW_PRIVS was set by Landlock\n"))
    );
    assert_eq!(step.action, MainAction::Finish(Err(JailerError::NoNewPrivs)));
    let step = run(Isolation::Landlock, "L", "1", MainEvent::Ran(Ok(())));
    assert_eq!(step.complaint, None);
    let step = run(
        Isolation::Landlock,
        "L",
        "1",
        MainEvent::Prepared(Err(JailerError::NoNewPrivs)),
    );
    assert_eq!(step.action, MainAction::Finish(Err(JailerError::NoNewPrivs)));
}

#[test]
fn the_two_jailers_differ_in_the_backend_alone() {
    let events = || {
        vec![
            MainEvent::Begin,
            MainEvent::Sanitized(Ok(())),
            MainEvent::Parsed(Ok(line(false, true))),
            MainEvent::Parsed(Ok(line(false, false))),
            MainEvent::Prepared(Err(JailerError::NoNewPrivs)),
            MainEvent::Ran(Ok(())),
        ]
    };
    for (a, b) in events().into_iter().zip(events()) {
        assert_eq!(
            main_exec(Isolation::Chroot, "J", "1", a),
            main_exec(Isolation::Landlock, "J", "1", b)
        );
    }
    assert_eq!(
        main_exec(Isolation::Landlock, "J", "1", MainEvent::Prepared(Ok(()))),
        MainAction::Run(Isolation::Landlock)
    );
}
