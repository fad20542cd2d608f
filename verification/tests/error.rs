//! The message of every failure.

use jailer::error::{JailerError, NulError};
use jailer::landlock_jail::RulesetStatus;
use jailer::path::HostPath;

fn path(text: &str) -> HostPath {
    HostPath::from_text(text)
}

fn text(text: &str) -> String {
    text.to_string()
}

fn check(error: JailerError, message: &str) {
    assert_eq!(error.message(), message);
}

#[test]
fn every_failure_has_its_message() {
    check(
        JailerError::ArgumentParsing(text("io")),
        "Failed to parse arguments: io",
    );
    check(
        JailerError::Canonicalize(path("/a/b"), text("io")),
        "Failed to canonicalize path /a/b: io",
    );
    check(
        JailerError::CgroupInheritFromParent(path("/a/b"), text("cpus")),
        "Failed to inherit cgroups configurations from file cpus in path /a/b",
    );
    check(
        JailerError::CgroupLineNotFound(text("/proc/mounts"), text("cpuset")),
        "cpuset configurations not found in /proc/mounts",
    );
    check(
        JailerError::CgroupInvalidFile(text("x")),
        "Cgroup invalid file: x",
    );
    check(
        JailerError::CgroupFormat(text("x")),
        "Invalid format for cgroups: x",
    );
    check(
        JailerError::CgroupHierarchyMissing(text("x")),
        "Hierarchy not found: x",
    );
    check(
        JailerError::CgroupControllerUnavailable(text("x")),
        "Controller x is unavailable",
    );
    check(
        JailerError::CgroupInvalidVersion(text("3")),
        "3 is an invalid cgroup version specifier",
    );
    check(
        JailerError::CgroupInvalidParentPath(),
        "Parent cgroup path is invalid. Path should not be absolute or contain '..' or '.'",
    );
    check(
        JailerError::CgroupMove(path("/a/b"), text("io")),
        "Failed to move process to cgroup (/a/b): io.\nHint: If you intended to create a child cgroup under /a/b, pass any --cgroup parameters.",
    );
    check(
        JailerError::ChangeFileOwner(path("/a/b"), text("io")),
        "Failed to change owner for /a/b: io",
    );
    check(
        JailerError::ChdirNewRoot(text("io")),
        "Failed to chdir into chroot directory: io",
    );
    check(
        JailerError::Chmod(path("/a/b"), text("io")),
        "Failed to change permissions on /a/b: io",
    );
    check(
        JailerError::Clone(text("io")),
        "Failed cloning into a new child process: io",
    );
    check(
        JailerError::CloseNetNsFd(text("io")),
        "Failed to close netns fd: io",
    );
    check(
        JailerError::CloseDevNullFd(text("io")),
        "Failed to close /dev/null fd: io",
    );
    check(
        JailerError::CloseRange(text("io")),
        "Failed to call close range syscall: io",
    );
    check(
        JailerError::Copy(path("/a/b"), path("/c"), text("io")),
        "Failed to copy /a/b to /c: io",
    );
    check(
        JailerError::CreateDir(path("/a/b"), text("io")),
        "Failed to create directory /a/b: io",
    );
    check(
        JailerError::CStringParsing(NulError { position: 1, bytes: vec![97, 0] }),
        "Encountered interior \\0 while parsing a string",
    );
    check(
        JailerError::Daemonize(text("io")),
        "Failed to daemonize: io",
    );
    check(
        JailerError::DirOpen(text("/d"), text("io")),
        "Failed to open directory /d: io",
    );
    check(
        JailerError::Dup2(text("io")),
        "Failed to duplicate fd: io",
    );
    check(
        JailerError::Exec(text("io")),
        "Failed to exec into Firecracker: io",
    );
    check(
        JailerError::ExtractFileName(path("/a/b")),
        "Failed to extract filename from path /a/b",
    );
    check(
        JailerError::FileOpen(path("/a/b"), text("io")),
        "Failed to open file /a/b: io",
    );
    check(
        JailerError::FromBytesWithNul(text("io")),
        "Failed to decode string from byte array: io",
    );
    check(
        JailerError::GetOldFdFlags(text("io")),
        "Failed to get flags from fd: io",
    );
    check(
        JailerError::GetPid(text("io")),
        "Failed to get PID (getpid): io",
    );
    check(
        JailerError::GetSid(text("io")),
        "Failed to get SID (getsid): io",
    );
    check(
        JailerError::Gid(text("x")),
        "Invalid gid: x",
    );
    check(
        JailerError::HardLink(path("/a/b")),
        "Detected hard link at: /a/b",
    );
    check(
        JailerError::InvalidInstanceId(text("x")),
        "Invalid instance ID: x",
    );
    check(
        JailerError::LandlockAddRule(path("/a/b"), text("io")),
        "Failed to add Landlock rule for /a/b: io",
    );
    check(
        JailerError::LandlockNotEnforced(RulesetStatus::PartiallyEnforced),
        "Landlock ruleset was not fully enforced (status: PartiallyEnforced); refusing to run unsandboxed",
    );
    check(
        JailerError::LandlockRestrictSelf(text("io")),
        "Failed to restrict self with Landlock ruleset: io",
    );
    check(
        JailerError::LandlockRulesetCreate(text("io")),
        "Failed to create Landlock ruleset: io",
    );
    check(
        JailerError::Metadata(path("/a/b"), text("io")),
        "Cannot get metadata for a file: /a/b: io",
    );
    check(
        JailerError::MissingParent(path("/a/b")),
        "File /a/b doesn't have a parent",
    );
    check(
        JailerError::MkdirOldRoot(text("io")),
        "Failed to create the jail root directory before pivoting root: io",
    );
    check(
        JailerError::MknodDev(text("io"), text("/dev/kvm")),
        "Failed to create /dev/kvm via mknod inside the jail: io",
    );
    check(
        JailerError::MountBind(text("io")),
        "Failed to bind mount the jail root directory: io",
    );
    check(
        JailerError::MountPropagationSlave(text("io")),
        "Failed to change the propagation type to slave: io",
    );
    check(
        JailerError::NotAFile(path("/a/b")),
        "/a/b is not a file",
    );
    check(
        JailerError::NotADirectory(path("/a/b")),
        "/a/b is not a directory",
    );
    check(
        JailerError::NoNewPrivs,
        "Failed to confirm PR_SET_NO_NEW_PRIVS was set by Landlock",
    );
    check(
        JailerError::Open(path("/a/b"), text("io")),
        "Failed to open /a/b: io",
    );
    check(
        JailerError::OsStringParsing(HostPath::from_bytes(&[97, 255]), vec![97, 255]),
        "Failed to parse path a\\xFF into an OsString",
    );
    check(
        JailerError::PivotRoot(text("io")),
        "Failed to pivot root: io",
    );
    check(
        JailerError::ReadLine(path("/a/b"), text("io")),
        "Failed to read line from /a/b: io",
    );
    check(
        JailerError::ReadToString(path("/a/b"), text("io")),
        "Failed to read file /a/b into a string: io",
    );
    check(
        JailerError::RegEx(text("x")),
        "Regex failed: x",
    );
    check(
        JailerError::ResLimitArgument(text("x")),
        "Invalid resource argument: x",
    );
    check(
        JailerError::ResLimitFormat(text("x")),
        "Invalid format for resources limits: x",
    );
    check(
        JailerError::ResLimitValue(text("x"), text("y")),
        "Invalid limit value for resource: x: y",
    );
    check(
        JailerError::RmOldRootDir(text("io")),
        "Failed to remove old jail root directory: io",
    );
    check(
        JailerError::SetCurrentDir(text("io")),
        "Failed to change current directory: io",
    );
    check(
        JailerError::SetNetNs(text("io")),
        "Failed to join network namespace: netns: io",
    );
    check(
        JailerError::Setrlimit(text("x")),
        "Failed to set limit for resource: x",
    );
    check(
        JailerError::SetSid(text("io")),
        "Failed to daemonize: setsid: io",
    );
    check(
        JailerError::Uid(text("x")),
        "Invalid uid: x",
    );
    check(
        JailerError::UmountOldRoot(text("io")),
        "Failed to unmount the old jail root: io",
    );
    check(
        JailerError::UnexpectedListenerFd(-7),
        "Unexpected value for the socket listener fd: -7",
    );
    check(
        JailerError::UnshareNewNs(text("io")),
        "Failed to unshare into new mount namespace: io",
    );
    check(
        JailerError::UnsetCloexec(text("io")),
        "Failed to unset the O_CLOEXEC flag on the socket fd: io",
    );
    check(
        JailerError::UTF8Parsing(text("x")),
        "Slice contains invalid UTF-8 data : x",
    );
    check(
        JailerError::Write(path("/a/b"), text("io")),
        "Failed to write to /a/b: io",
    );
}

#[test]
fn quoted_messages_lose_their_quotes() {
    // A quoted path loses its quotes, and so does the cause; an escaped quote leaves its
    // backslash behind.
    check(
        JailerError::FileOpen(path("a\"b"), text("\"why\"")),
        "Failed to open file a\\b: why",
    );
    // A path that is shown plainly keeps them.
    check(
        JailerError::Chmod(path("a\"b"), text("\"why\"")),
        "Failed to change permissions on a\"b: \"why\"",
    );
}

#[test]
fn paths_that_are_no_text_are_shown_too() {
    let odd = HostPath::from_bytes(&[47, 97, 200, 98, 10]);
    check(JailerError::NotAFile(odd.clone()), "/a\\xC8b\\n is not a file");
    check(
        JailerError::HardLink(odd),
        "Detected hard link at: /a\u{fffd}b\n",
    );
}
