//! What holds of the course of a jailer process: its cleaning, its command line, its special files
//! and its directory.

use vstd::prelude::*;
use vstd::utf8::*;

use crate::args::{bench_arguments, jailer_arguments, Argument};
use crate::error::{message_of, JailerError};
use crate::fleet::{is_jailer_for, path_views, Args, Invocation};
use crate::orchestration::{
    is_complaint, is_next_action, prepare_action, Isolation, MainAction, MainEvent, PrepareAction,
    PrepareEvent,
};
use crate::path::HostPath;
use crate::process::{
    is_close_outcome, is_sanitize_action, names_of, SanitizeAction, SanitizeEvent,
};
use crate::special::{
    is_c_string, is_nul_error, is_read_action, is_text_error, is_write_action, OpenMode,
    ReadAction, ReadEvent, WriteAction, WriteEvent,
};
use crate::text::views;

verus! {

/// Cleaning closes every descriptor but the three standard ones, and takes every variable out of
/// the environment; the environment is touched only once the descriptors are closed, and a
/// failure to close them is handed on as it is.
pub proof fn law_cleaning_leaves_nothing(event: SanitizeEvent, action: SanitizeAction)
    requires
        is_sanitize_action(event, action),
    ensures
        action matches SanitizeAction::CloseFds(range) ==> event == SanitizeEvent::Begin
            && range.unshare && forall|fd: u32| range.covers(fd) <==> fd != 0 && fd != 1 && fd != 2,
        event == SanitizeEvent::Begin ==> action is CloseFds,
        action == SanitizeAction::ReadVars <==> (event matches SanitizeEvent::Closed(closed)
            && closed is Ok),
        event matches SanitizeEvent::Vars(vars) ==> {
            &&& action matches SanitizeAction::RemoveVars(names)
            &&& names@.len() == vars@.len()
            &&& forall|i: int| 0 <= i < vars@.len() ==> (#[trigger] names@[i])@ == vars@[i].0@
        },
        action matches SanitizeAction::Finish(result) ==> match result {
            Ok(_) => event == SanitizeEvent::Removed,
            Err(error) => event matches SanitizeEvent::Closed(Err(cause)) && cause == error,
        },
        event == SanitizeEvent::Removed ==> (action matches SanitizeAction::Finish(result)
            && result is Ok),
{
    if let SanitizeEvent::Vars(vars) = event {
        if let SanitizeAction::RemoveVars(names) = action {
            assert(views(names@).len() == names@.len());
            assert(names_of(vars@).len() == vars@.len());
            assert forall|i: int| 0 <= i < vars@.len() implies (#[trigger] names@[i])@
                == vars@[i].0@ by {
                assert(views(names@)[i] == names@[i]@);
                assert(names_of(vars@)[i] == vars@[i].0@);
            }
        }
    }
}

/// What is read back from a special file that held just what was written to it is the value; it
/// does not matter which file it is.
pub proof fn law_special_values_read_back(
    path: Seq<u8>,
    other: Seq<u8>,
    value: Seq<char>,
    opened: WriteEvent,
    written: String,
    read: ReadAction,
)
    requires
        opened matches WriteEvent::Opened(Ok(_)),
        is_write_action(path, value, opened, WriteAction::WriteAll(written)),
        is_read_action(other, ReadEvent::Contents(Ok(written)), read),
    ensures
        read matches ReadAction::Finish(Ok(line)) && line@ == value,
        written@ == value + seq!['\n'],
{
    assert(value.push('\n').drop_last() =~= value);
    assert(value.push('\n') =~= value + seq!['\n']);
}

/// A special file that ends without a newline is read as it is, and one that ends with many loses
/// one of them.
pub proof fn law_one_newline_goes(path: Seq<u8>, text: String, read: ReadAction)
    requires
        is_read_action(path, ReadEvent::Contents(Ok(text)), read),
    ensures
        read matches ReadAction::Finish(Ok(line)) && (line@ == text@ || line@ + seq!['\n']
            == text@),
        text@.len() > 0 && text@.last() == '\n' ==> (read matches ReadAction::Finish(Ok(line))
            && line@.len() == text@.len() - 1),
        text@.len() == 0 || text@.last() != '\n' ==> (read matches ReadAction::Finish(Ok(line))
            && line@ == text@),
{
    if text@.len() > 0 {
        assert(text@.drop_last() + seq![text@.last()] =~= text@);
    }
}

/// Special files are opened without following links; one that is written is created or emptied,
/// and one that is read is left as it is. Whatever fails is told with the path and the cause.
pub proof fn law_special_files(
    path: HostPath,
    value: Seq<char>,
    written: WriteEvent,
    write: WriteAction,
    event: ReadEvent,
    read: ReadAction,
)
    requires
        is_write_action(path@, value, written, write),
        is_read_action(path@, event, read),
    ensures
        written == WriteEvent::Begin <==> write == WriteAction::Open(
            OpenMode { read: false, write: true, create: true, truncate: true, follow: false },
        ),
        event == ReadEvent::Begin <==> read == ReadAction::Open(
            OpenMode { read: true, write: false, create: false, truncate: false, follow: false },
        ),
        write matches WriteAction::Finish(result) ==> match written {
            WriteEvent::Opened(Err(cause)) => result matches Err(error) && (error matches
                JailerError::Write(at, why) && at@ == path@ && why@ == cause@),
            WriteEvent::Written(Err(cause)) => result matches Err(error) && (error matches
                JailerError::Write(at, why) && at@ == path@ && why@ == cause@),
            WriteEvent::Written(Ok(_)) => result is Ok,
            _ => false,
        },
        read matches ReadAction::Finish(result) ==> match event {
            ReadEvent::Opened(Err(cause)) => result matches Err(error) && (error matches
                JailerError::ReadToString(at, why) && at@ == path@ && why@ == cause@),
            ReadEvent::Contents(Err(cause)) => result matches Err(error) && (error matches
                JailerError::ReadToString(at, why) && at@ == path@ && why@ == cause@),
            ReadEvent::Contents(Ok(_)) => result is Ok,
            _ => false,
        },
{
}

/// A text that cannot go to the C side is told with its bytes, and with the place of the first
/// zero where that is the reason.
pub proof fn law_c_side_errors(error: JailerError, bytes: Seq<u8>)
    ensures
        is_nul_error(error, bytes) ==> bytes.contains(0) && (error matches
            JailerError::CStringParsing(nul) && nul.bytes@ == bytes && bytes[nul.position as int]
            == 0 && !bytes.take(nul.position as int).contains(0)),
        is_text_error(error, bytes) ==> (error matches JailerError::OsStringParsing(path, raw)
            && path@ == bytes && raw@ == bytes),
        !(is_nul_error(error, bytes) && is_text_error(error, bytes)),
{
    if is_nul_error(error, bytes) {
        if let JailerError::CStringParsing(nul) = error {
            let n = nul.position as int;
            assert(bytes.contains(bytes[n]));
            if bytes.take(n).contains(0) {
                let i = choose|i: int| 0 <= i < bytes.take(n).len() && bytes.take(n)[i] == 0;
                assert(bytes[i] == 0);
            }
        }
    }
}

/// A path becomes a C string exactly where it is a text without a zero, and is not changed then. A
/// path that is no text is refused for that, also where it holds a zero.
pub proof fn law_paths_become_c_strings(path: Seq<u8>, r: Result<Vec<u8>, JailerError>)
    requires
        is_c_string(path, r),
    ensures
        r is Ok <==> valid_utf8(path) && !path.contains(0),
        r matches Ok(bytes) ==> bytes@ == path,
        r matches Err(error) ==> if valid_utf8(path) {
            error matches JailerError::CStringParsing(nul) && nul.bytes@ == path
                && path[nul.position as int] == 0 && !path.take(nul.position as int).contains(0)
        } else {
            error is OsStringParsing
        },
{
    if let Err(error) = r {
        law_c_side_errors(error, path);
    }
}

/// Closing the descriptors fails exactly where the system says so, and with the cause that it
/// gives.
pub proof fn law_closing_tells_the_cause(
    outcome: Result<(), String>,
    r: Result<(), JailerError>,
)
    requires
        is_close_outcome(outcome, r),
    ensures
        r is Ok <==> outcome is Ok,
        outcome matches Err(cause) ==> (r matches Err(JailerError::CloseRange(told)) && told
            == cause),
{
}

/// Something is printed on standard error exactly where a jailer ends with a failure: the message
/// of the failure, on a line of its own.
pub proof fn law_only_failures_are_complained_about(
    action: MainAction,
    complaint: Option<String>,
    error: JailerError,
)
    requires
        is_complaint(action, complaint),
    ensures
        complaint is Some <==> (action matches MainAction::Finish(result) && result is Err),
        action == MainAction::Finish(Err(error)) ==> (complaint matches Some(text) && text@
            == message_of(error) + seq!['\n']),
{
}

/// Preparing a jail creates the directory that the environment names, and no other, and gives it
/// to its owner alone. What fails is told with that directory, and what failed before is handed
/// on as it is.
pub proof fn law_the_jail_directory_is_prepared(dir: HostPath, cause: String, error: JailerError)
    ensures
        prepare_action(PrepareEvent::EnvBuilt(Ok(dir))) == PrepareAction::CreateDir(dir),
        prepare_action(PrepareEvent::DirCreated(dir, Ok(()))) == PrepareAction::SetMode(dir, 448),
        prepare_action(PrepareEvent::ModeSet(dir, Ok(()))) == PrepareAction::Finish(Ok(())),
        prepare_action(PrepareEvent::EnvBuilt(Err(error))) == PrepareAction::Finish(Err(error)),
        prepare_action(PrepareEvent::DirCreated(dir, Err(cause))) == PrepareAction::Finish(
            Err(JailerError::CreateDir(dir, cause)),
        ),
        prepare_action(PrepareEvent::ModeSet(dir, Err(cause))) == PrepareAction::Finish(
            Err(JailerError::Chmod(dir, cause)),
        ),
{
}

/// A jailer takes each step only after the one before it has succeeded: it is cleaned first, then
/// reads its command line, then prepares its jail, and then runs it with the backend that it was
/// given. It ends well only where the run did, and every failure is handed on as it is; but where
/// it cannot be cleaned, it panics and says why.
pub proof fn law_a_jailer_goes_step_by_step(
    isolation: Isolation,
    label: Seq<char>,
    version: Seq<char>,
    event: MainEvent,
    action: MainAction,
)
    requires
        is_next_action(isolation, label, version, event, action),
    ensures
        action == MainAction::Sanitize <==> event == MainEvent::Begin,
        action == MainAction::ParseArgs <==> (event matches MainEvent::Sanitized(r) && r is Ok),
        action == MainAction::Prepare <==> (event matches MainEvent::Parsed(Ok(line)) && !line.help
            && !line.version),
        action matches MainAction::Run(chosen) ==> chosen == isolation && (event matches
            MainEvent::Prepared(r) && r is Ok),
        event matches MainEvent::Prepared(Ok(_)) ==> action == MainAction::Run(isolation),
        action matches MainAction::Finish(Ok(_)) ==> (event matches MainEvent::Ran(r) && r is Ok),
        action matches MainAction::Finish(Err(error)) ==> match event {
            MainEvent::Parsed(Err(cause)) => error == JailerError::ArgumentParsing(cause),
            MainEvent::Prepared(Err(cause)) => error == cause,
            MainEvent::Ran(Err(cause)) => error == cause,
            _ => false,
        },
        event matches MainEvent::Parsed(Err(_)) ==> action is Finish,
        event matches MainEvent::Prepared(Err(_)) ==> action is Finish,
        event matches MainEvent::Ran(_) ==> action is Finish,
        action matches MainAction::Panic(text) ==> (event matches MainEvent::Sanitized(Err(error))
            && text@ == "Failed to sanitize the Jailer process: "@ + message_of(error)),
        event matches MainEvent::Sanitized(Err(_)) ==> action is Panic,
{
}

/// A jailer that is asked for help prints its name, its version and the description of its
/// arguments, and one that is asked for its version prints its name and its version; help comes
/// first. It does nothing else then.
pub proof fn law_help_and_version(
    isolation: Isolation,
    label: Seq<char>,
    version: Seq<char>,
    event: MainEvent,
    action: MainAction,
)
    requires
        is_next_action(isolation, label, version, event, action),
    ensures
        action is Print <==> (event matches MainEvent::Parsed(Ok(line)) && (line.help
            || line.version)),
        action matches MainAction::Print(text) ==> (event matches MainEvent::Parsed(Ok(line))
            && text@ == if line.help {
            label + " v"@ + version + "\n\n"@ + line.formatted_help@ + "\n\n"@
                + "Any arguments after the -- separator will be supplied to the jailed binary.\n\n"@
        } else {
            label + " v"@ + version + "\n\n"@
        }),
{
}

/// Whether a table holds an argument of this name with these properties, whatever its help.
pub open spec fn declares(
    table: Seq<Argument>,
    name: Seq<char>,
    required: bool,
    takes_value: bool,
    allow_multiple: bool,
    default_value: Option<Seq<char>>,
) -> bool {
    exists|i: int|
        0 <= i < table.len() && (#[trigger] table[i]).name@ == name && table[i].required == required
            && table[i].takes_value == takes_value && table[i].allow_multiple == allow_multiple
            && match table[i].default_value {
            Some(text) => default_value == Some(text@),
            None => default_value is None,
        }
}

/// A jail needs a name, a file to execute and the ids to switch to; everything else can be left
/// out. A default is given for what is always needed. The benchmark needs a backend as well.
pub proof fn law_what_the_command_lines_ask_for()
    ensures
        jailer_arguments().len() == 13,
        declares(jailer_arguments(), "id"@, true, true, false, None),
        declares(jailer_arguments(), "exec-file"@, true, true, false, None),
        declares(jailer_arguments(), "uid"@, true, true, false, None),
        declares(jailer_arguments(), "gid"@, true, true, false, None),
        declares(
            jailer_arguments(),
            "chroot-base-dir"@,
            false,
            true,
            false,
            Some("/srv/jailer"@),
        ),
        declares(jailer_arguments(), "netns"@, false, true, false, None),
        declares(jailer_arguments(), "daemonize"@, false, false, false, None),
        declares(jailer_arguments(), "new-pid-ns"@, false, false, false, None),
        declares(jailer_arguments(), "cgroup"@, false, false, true, None),
        declares(jailer_arguments(), "resource-limit"@, false, false, true, None),
        declares(jailer_arguments(), "cgroup-version"@, false, true, false, Some("1"@)),
        declares(jailer_arguments(), "parent-cgroup"@, false, true, false, None),
        declares(jailer_arguments(), "version"@, false, false, false, None),
        bench_arguments().len() == 2,
        declares(bench_arguments(), "isolation"@, true, true, false, None),
        declares(bench_arguments(), "mode"@, false, true, false, Some("setup"@)),
{
    let table = jailer_arguments();
    let bench = bench_arguments();
    assert(table[0].name@ == "id"@);
    assert(table[1].name@ == "exec-file"@);
    assert(table[2].name@ == "uid"@);
    assert(table[3].name@ == "gid"@);
    assert(table[4].name@ == "chroot-base-dir"@);
    assert(table[5].name@ == "netns"@);
    assert(table[6].name@ == "daemonize"@);
    assert(table[7].name@ == "new-pid-ns"@);
    assert(table[8].name@ == "cgroup"@);
    assert(table[9].name@ == "resource-limit"@);
    assert(table[10].name@ == "cgroup-version"@);
    assert(table[11].name@ == "parent-cgroup"@);
    assert(table[12].name@ == "version"@);
    assert(bench[0].name@ == "isolation"@);
    assert(bench[1].name@ == "mode"@);
}

/// Every argument is described to the user.
pub proof fn law_arguments_are_described()
    ensures
        jailer_arguments()[0].help@ == "Jail ID."@,
        jailer_arguments()[1].help@ == "File path to exec into."@,
        jailer_arguments()[2].help@ == "The user identifier the jailer switches to after exec."@,
        jailer_arguments()[3].help@ == "The group identifier the jailer switches to after exec."@,
        jailer_arguments()[4].help@ == "The base folder where chroot jails are located."@,
        jailer_arguments()[5].help@ == "Path to the network namespace this microVM should join."@,
        jailer_arguments()[6].help@ == "\
    Daemonize the jailer before exec, by invoking setsid(), and redirecting the standard \
    I/O file descriptors to /dev/null."@,
        jailer_arguments()[7].help@ == "Exec into a new PID namespace."@,
        jailer_arguments()[8].help@ == "\
    Cgroup and value to be set by the jailer. It must follow this format: \
    <cgroup_file>=<value> (e.g cpu.shares=10). This argument can be used multiple times to \
    add multiple cgroups."@,
        jailer_arguments()[9].help@ == "\
    Resource limit values to be set by the jailer. It must follow this format: \
    <resource>=<value> (e.g no-file=1024). This argument can be used multiple times to add \
    multiple resource limits. Current available resource values are:\n\t\tfsize: The \
    maximum size in bytes for files created by the process.\n\t\tno-file: Specifies a value \
    one greater than the maximum file descriptor number that can be opened by this process."@,
        jailer_arguments()[10].help@ == "Select the cgroup version used by the jailer."@,
        jailer_arguments()[11].help@
            == "Parent cgroup in which the cgroup of this microvm will be placed."@,
        jailer_arguments()[12].help@ == "Print the binary version number."@,
        bench_arguments()[0].help@
            == "Which isolation backend to benchmark: \"chroot\" or \"landlock\"."@,
        bench_arguments()[1].help@ == "\
    Which benchmark to run: \"setup\" (isolation setup/teardown phase timing only, the \
    default) or \"multi-file-open\" (setup, then open a realistic set of files -- kernel \
    image, rootfs, metrics FIFO, log, /dev/kvm, /dev/net/tun -- from inside the \
    now-restricted process, timing each open individually)."@,
{
}

/// Whether a word names an argument that the jailer takes, and with a value.
pub open spec fn names_an_argument(word: Seq<u8>) -> bool {
    exists|i: int|
        0 <= i < jailer_arguments().len() && (#[trigger] jailer_arguments()[i]).takes_value && word
            == encode_utf8("--"@ + jailer_arguments()[i].name@)
}

/// The fleet benchmark and the jailer agree: every other word before the separator names an
/// argument that the jailer takes with a value, and every argument that it requires is named.
pub proof fn law_the_jailer_takes_what_it_is_told(jailer: Invocation, args: Args, id: Seq<char>)
    requires
        is_jailer_for(jailer, args, id),
    ensures
        forall|k: int|
            0 <= k < 5 ==> names_an_argument(#[trigger] path_views(jailer.arguments@)[2 * k]),
        forall|i: int|
            0 <= i < jailer_arguments().len() && (#[trigger] jailer_arguments()[i]).required
                ==> path_views(jailer.arguments@).contains(
                encode_utf8("--"@ + jailer_arguments()[i].name@),
            ),
{
    let table = jailer_arguments();
    let words = path_views(jailer.arguments@);
    reveal_strlit("--");
    reveal_strlit("id");
    reveal_strlit("--id");
    reveal_strlit("exec-file");
    reveal_strlit("--exec-file");
    reveal_strlit("uid");
    reveal_strlit("--uid");
    reveal_strlit("gid");
    reveal_strlit("--gid");
    reveal_strlit("chroot-base-dir");
    reveal_strlit("--chroot-base-dir");
    assert("--"@ + table[0].name@ =~= "--id"@);
    assert("--"@ + table[1].name@ =~= "--exec-file"@);
    assert("--"@ + table[2].name@ =~= "--uid"@);
    assert("--"@ + table[3].name@ =~= "--gid"@);
    assert("--"@ + table[4].name@ =~= "--chroot-base-dir"@);
    assert(words[0] == encode_utf8("--"@ + table[0].name@));
    assert(words[2] == encode_utf8("--"@ + table[1].name@));
    assert(words[4] == encode_utf8("--"@ + table[2].name@));
    assert(words[6] == encode_utf8("--"@ + table[3].name@));
    assert(words[8] == encode_utf8("--"@ + table[4].name@));
    assert forall|k: int| 0 <= k < 5 implies names_an_argument(#[trigger] words[2 * k]) by {
        assert(table[k].takes_value);
        assert(words[2 * k] == encode_utf8("--"@ + table[k].name@));
    }
    assert forall|i: int| 0 <= i < table.len() && (#[trigger] table[i]).required implies
        words.contains(encode_utf8("--"@ + table[i].name@)) by {
        assert(i < 4);
        assert(words[2 * i] == encode_utf8("--"@ + table[i].name@));
    }
}

} // verus!
