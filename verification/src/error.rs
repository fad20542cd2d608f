//! The ways in which the jailer can fail, and the message of each.

use vstd::prelude::*;
use vstd::string::*;

use crate::landlock_jail::{RulesetStatus, status_name};
use crate::path::{HostPath, lossy, shown};
use crate::text::{signed_decimal, signed_decimal_text};

verus! {

/// Where a text that was meant for the C side holds its first zero byte.
#[derive(Debug, PartialEq, Eq)]
pub struct NulError {
    pub position: usize,
    pub bytes: Vec<u8>,
}

/// A failure of the jailer. The causes that the system, the argument parser or a library
/// gives are kept as the texts that describe them.
#[derive(Debug, PartialEq, Eq)]
pub enum JailerError {
    /// The command line was refused.
    ArgumentParsing(String),
    /// A path has no canonical form.
    Canonicalize(HostPath, String),
    /// A cgroup file could not be filled from the parent cgroup.
    CgroupInheritFromParent(HostPath, String),
    /// A configuration is absent from a cgroup file.
    CgroupLineNotFound(String, String),
    /// A name is no cgroup file.
    CgroupInvalidFile(String),
    /// A cgroup argument is malformed.
    CgroupFormat(String),
    /// No hierarchy of that name is mounted.
    CgroupHierarchyMissing(String),
    /// The controller is not available.
    CgroupControllerUnavailable(String),
    /// No such cgroup version.
    CgroupInvalidVersion(String),
    /// The parent cgroup is absolute or has dot components.
    CgroupInvalidParentPath(),
    /// The process could not be moved to a cgroup.
    CgroupMove(HostPath, String),
    /// The owner of a file could not be changed.
    ChangeFileOwner(HostPath, String),
    /// The chroot directory could not be entered.
    ChdirNewRoot(String),
    /// The mode of a file could not be changed.
    Chmod(HostPath, String),
    /// The child process could not be cloned.
    Clone(String),
    /// The descriptor of the network namespace could not be closed.
    CloseNetNsFd(String),
    /// The descriptor of /dev/null could not be closed.
    CloseDevNullFd(String),
    /// The inherited descriptors could not be closed.
    CloseRange(String),
    /// A file could not be copied.
    Copy(HostPath, HostPath, String),
    /// A directory could not be created.
    CreateDir(HostPath, String),
    /// A text for the C side holds a zero byte.
    CStringParsing(NulError),
    /// The process could not be daemonized.
    Daemonize(String),
    /// A directory could not be opened.
    DirOpen(String, String),
    /// A descriptor could not be duplicated.
    Dup2(String),
    /// Firecracker could not be executed.
    Exec(String),
    /// A path has no file name.
    ExtractFileName(HostPath),
    /// A file could not be opened.
    FileOpen(HostPath, String),
    /// Bytes are no C string.
    FromBytesWithNul(String),
    /// The flags of a descriptor could not be read.
    GetOldFdFlags(String),
    /// The process id could not be read.
    GetPid(String),
    /// The session id could not be read.
    GetSid(String),
    /// The group id is no number.
    Gid(String),
    /// A file has more than one link.
    HardLink(HostPath),
    /// The jail id is refused.
    InvalidInstanceId(String),
    /// A Landlock rule could not be added.
    LandlockAddRule(HostPath, String),
    /// The kernel does not enforce the whole ruleset.
    LandlockNotEnforced(RulesetStatus),
    /// The ruleset could not be put in force.
    LandlockRestrictSelf(String),
    /// The ruleset could not be created.
    LandlockRulesetCreate(String),
    /// The metadata of a file could not be read.
    Metadata(HostPath, String),
    /// A path has no parent.
    MissingParent(HostPath),
    /// The directory for the old root could not be created.
    MkdirOldRoot(String),
    /// A device node could not be created.
    MknodDev(String, String),
    /// The jail root could not be bind mounted.
    MountBind(String),
    /// The propagation type could not be changed.
    MountPropagationSlave(String),
    /// A path denotes no file.
    NotAFile(HostPath),
    /// A path denotes no directory.
    NotADirectory(HostPath),
    /// The process may still gain privileges.
    NoNewPrivs,
    /// A file could not be opened.
    Open(HostPath, String),
    /// A path is no text.
    OsStringParsing(HostPath, Vec<u8>),
    /// The root could not be pivoted.
    PivotRoot(String),
    /// A line could not be read.
    ReadLine(HostPath, String),
    /// A file could not be read.
    ReadToString(HostPath, String),
    /// A regular expression was refused.
    RegEx(String),
    /// A resource is unknown.
    ResLimitArgument(String),
    /// A resource limit is malformed.
    ResLimitFormat(String),
    /// The value of a resource limit is no number.
    ResLimitValue(String, String),
    /// The directory of the old root could not be removed.
    RmOldRootDir(String),
    /// The working directory could not be changed.
    SetCurrentDir(String),
    /// The network namespace could not be joined.
    SetNetNs(String),
    /// A resource limit could not be set.
    Setrlimit(String),
    /// The session could not be created.
    SetSid(String),
    /// The user id is no number.
    Uid(String),
    /// The old root could not be unmounted.
    UmountOldRoot(String),
    /// The listener has another descriptor than expected.
    UnexpectedListenerFd(i32),
    /// The mount namespace could not be unshared.
    UnshareNewNs(String),
    /// The close-on-exec flag could not be cleared.
    UnsetCloexec(String),
    /// Bytes are no UTF-8.
    UTF8Parsing(String),
    /// A file could not be written.
    Write(HostPath, String),
}

/// `text` without its double quotes.
pub open spec fn unquoted(text: Seq<char>) -> Seq<char>
    decreases text.len(),
{
    if text.len() == 0 {
        text
    } else if text.last() == '"' {
        unquoted(text.drop_last())
    } else {
        unquoted(text.drop_last()).push(text.last())
    }
}

/// Removes the double quotes from `text`.
fn unquote(text: &str) -> (r: String)
    ensures
        r@ == unquoted(text@),
{
    let mut out = String::new();
    for c in it: text.chars()
        invariant
            out@ == unquoted(it.seq().take(it.index() as int)),
            it.seq() == text@,
    {
        assert(text@.take(it.index() + 1).drop_last() =~= text@.take(it.index() as int));
        if c != '"' {
            out.push(c);
        }
    }
    assert(text@.take(text@.len() as int) =~= text@);
    out
}

/// A failure at a path, which is shown as it is, and its cause.
pub open spec fn told_at(what: Seq<char>, path: Seq<u8>, cause: Seq<char>) -> Seq<char> {
    what + lossy(path) + ": "@ + cause
}

/// A failure at a path, which is shown with its special characters escaped, and its cause.
pub open spec fn shown_at(what: Seq<char>, path: Seq<u8>, cause: Seq<char>) -> Seq<char> {
    unquoted(what + shown(path) + ": "@ + cause)
}

fn tell(what: &str, cause: &str) -> (r: String)
    ensures
        r@ == what@ + cause@,
{
    what.to_owned().concat(cause)
}

fn tell_at(what: &str, path: &HostPath, cause: &str) -> (r: String)
    ensures
        r@ == told_at(what@, path@, cause@),
{
    what.to_owned().concat(path.display().as_str()).concat(": ").concat(cause)
}

fn show_at(what: &str, path: &HostPath, cause: &str) -> (r: String)
    ensures
        r@ == shown_at(what@, path@, cause@),
{
    unquote(what.to_owned().concat(path.show().as_str()).concat(": ").concat(cause).as_str())
}

/// The message of a failure.
pub open spec fn message_of(error: JailerError) -> Seq<char> {
    match error {
        JailerError::ArgumentParsing(cause) => "Failed to parse arguments: "@ + cause@,
        JailerError::Canonicalize(path, cause) => {
            shown_at("Failed to canonicalize path "@, path@, cause@)
        },
        JailerError::CgroupInheritFromParent(path, file) => {
            unquoted(
                "Failed to inherit cgroups configurations from file "@
                    + file@
                    + " in path "@
                    + shown(path@),
            )
        },
        JailerError::CgroupLineNotFound(first, second) => {
            second@ + " configurations not found in "@ + first@
        },
        JailerError::CgroupInvalidFile(cause) => "Cgroup invalid file: "@ + cause@,
        JailerError::CgroupFormat(cause) => "Invalid format for cgroups: "@ + cause@,
        JailerError::CgroupHierarchyMissing(cause) => "Hierarchy not found: "@ + cause@,
        JailerError::CgroupControllerUnavailable(cause) => {
            "Controller "@ + cause@ + " is unavailable"@
        },
        JailerError::CgroupInvalidVersion(cause) => {
            cause@ + " is an invalid cgroup version specifier"@
        },
        JailerError::CgroupInvalidParentPath() => {
            "Parent cgroup path is invalid. Path should not be absolute or contain '..' or '.'"@
        },
        JailerError::CgroupMove(path, cause) => {
            "Failed to move process to cgroup ("@
                + lossy(path@)
                + "): "@
                + cause@
                + ".\nHint: If you intended to create a child cgroup under "@
                + lossy(path@)
                + ", pass any --cgroup parameters."@
        },
        JailerError::ChangeFileOwner(path, cause) => {
            told_at("Failed to change owner for "@, path@, cause@)
        },
        JailerError::ChdirNewRoot(cause) => "Failed to chdir into chroot directory: "@ + cause@,
        JailerError::Chmod(path, cause) => {
            told_at("Failed to change permissions on "@, path@, cause@)
        },
        JailerError::Clone(cause) => "Failed cloning into a new child process: "@ + cause@,
        JailerError::CloseNetNsFd(cause) => "Failed to close netns fd: "@ + cause@,
        JailerError::CloseDevNullFd(cause) => "Failed to close /dev/null fd: "@ + cause@,
        JailerError::CloseRange(cause) => "Failed to call close range syscall: "@ + cause@,
        JailerError::Copy(path, to, cause) => {
            unquoted("Failed to copy "@ + shown(path@) + " to "@ + shown(to@) + ": "@ + cause@)
        },
        JailerError::CreateDir(path, cause) => {
            shown_at("Failed to create directory "@, path@, cause@)
        },
        JailerError::CStringParsing(_nul) => "Encountered interior \\0 while parsing a string"@,
        JailerError::Daemonize(cause) => "Failed to daemonize: "@ + cause@,
        JailerError::DirOpen(first, second) => {
            "Failed to open directory "@ + first@ + ": "@ + second@
        },
        JailerError::Dup2(cause) => "Failed to duplicate fd: "@ + cause@,
        JailerError::Exec(cause) => "Failed to exec into Firecracker: "@ + cause@,
        JailerError::ExtractFileName(path) => {
            unquoted("Failed to extract filename from path "@ + shown(path@))
        },
        JailerError::FileOpen(path, cause) => shown_at("Failed to open file "@, path@, cause@),
        JailerError::FromBytesWithNul(cause) => {
            "Failed to decode string from byte array: "@ + cause@
        },
        JailerError::GetOldFdFlags(cause) => "Failed to get flags from fd: "@ + cause@,
        JailerError::GetPid(cause) => "Failed to get PID (getpid): "@ + cause@,
        JailerError::GetSid(cause) => "Failed to get SID (getsid): "@ + cause@,
        JailerError::Gid(cause) => "Invalid gid: "@ + cause@,
        JailerError::HardLink(path) => "Detected hard link at: "@ + lossy(path@),
        JailerError::InvalidInstanceId(cause) => "Invalid instance ID: "@ + cause@,
        JailerError::LandlockAddRule(path, cause) => {
            told_at("Failed to add Landlock rule for "@, path@, cause@)
        },
        JailerError::LandlockNotEnforced(status) => {
            "Landlock ruleset was not fully enforced (status: "@
                + status_name(status)
                + "); refusing to run unsandboxed"@
        },
        JailerError::LandlockRestrictSelf(cause) => {
            "Failed to restrict self with Landlock ruleset: "@ + cause@
        },
        JailerError::LandlockRulesetCreate(cause) => {
            "Failed to create Landlock ruleset: "@ + cause@
        },
        JailerError::Metadata(path, cause) => {
            told_at("Cannot get metadata for a file: "@, path@, cause@)
        },
        JailerError::MissingParent(path) => {
            unquoted("File "@ + shown(path@) + " doesn't have a parent"@)
        },
        JailerError::MkdirOldRoot(cause) => {
            "Failed to create the jail root directory before pivoting root: "@ + cause@
        },
        JailerError::MknodDev(first, second) => {
            "Failed to create "@ + second@ + " via mknod inside the jail: "@ + first@
        },
        JailerError::MountBind(cause) => "Failed to bind mount the jail root directory: "@ + cause@,
        JailerError::MountPropagationSlave(cause) => {
            "Failed to change the propagation type to slave: "@ + cause@
        },
        JailerError::NotAFile(path) => unquoted(shown(path@) + " is not a file"@),
        JailerError::NotADirectory(path) => unquoted(shown(path@) + " is not a directory"@),
        JailerError::NoNewPrivs => "Failed to confirm PR_SET_NO_NEW_PRIVS was set by Landlock"@,
        JailerError::Open(path, cause) => told_at("Failed to open "@, path@, cause@),
        JailerError::OsStringParsing(path, _bytes) => {
            unquoted("Failed to parse path "@ + shown(path@) + " into an OsString"@)
        },
        JailerError::PivotRoot(cause) => "Failed to pivot root: "@ + cause@,
        JailerError::ReadLine(path, cause) => shown_at("Failed to read line from "@, path@, cause@),
        JailerError::ReadToString(path, cause) => {
            unquoted("Failed to read file "@ + shown(path@) + " into a string: "@ + cause@)
        },
        JailerError::RegEx(cause) => "Regex failed: "@ + cause@,
        JailerError::ResLimitArgument(cause) => "Invalid resource argument: "@ + cause@,
        JailerError::ResLimitFormat(cause) => "Invalid format for resources limits: "@ + cause@,
        JailerError::ResLimitValue(first, second) => {
            "Invalid limit value for resource: "@ + first@ + ": "@ + second@
        },
        JailerError::RmOldRootDir(cause) => "Failed to remove old jail root directory: "@ + cause@,
        JailerError::SetCurrentDir(cause) => "Failed to change current directory: "@ + cause@,
        JailerError::SetNetNs(cause) => "Failed to join network namespace: netns: "@ + cause@,
        JailerError::Setrlimit(cause) => "Failed to set limit for resource: "@ + cause@,
        JailerError::SetSid(cause) => "Failed to daemonize: setsid: "@ + cause@,
        JailerError::Uid(cause) => "Invalid uid: "@ + cause@,
        JailerError::UmountOldRoot(cause) => "Failed to unmount the old jail root: "@ + cause@,
        JailerError::UnexpectedListenerFd(fd) => {
            "Unexpected value for the socket listener fd: "@ + signed_decimal(fd as int)
        },
        JailerError::UnshareNewNs(cause) => {
            "Failed to unshare into new mount namespace: "@ + cause@
        },
        JailerError::UnsetCloexec(cause) => {
            "Failed to unset the O_CLOEXEC flag on the socket fd: "@ + cause@
        },
        JailerError::UTF8Parsing(cause) => "Slice contains invalid UTF-8 data : "@ + cause@,
        JailerError::Write(path, cause) => shown_at("Failed to write to "@, path@, cause@),
    }
}

impl JailerError {
    /// The message that tells the user what failed.
    pub fn message(&self) -> (r: String)
        ensures
            r@ == message_of(*self),
    {
        match self {
            JailerError::ArgumentParsing(cause) => tell("Failed to parse arguments: ", cause),
            JailerError::Canonicalize(path, cause) => {
                show_at("Failed to canonicalize path ", path, cause)
            },
            JailerError::CgroupInheritFromParent(path, file) => {
                unquote(
                    "Failed to inherit cgroups configurations from file ".to_owned()
                        .concat(file.as_str())
                        .concat(" in path ")
                        .concat(path.show().as_str())
                        .as_str(),
                )
            },
            JailerError::CgroupLineNotFound(first, second) => {
                second.clone().concat(" configurations not found in ").concat(first.as_str())
            },
            JailerError::CgroupInvalidFile(cause) => tell("Cgroup invalid file: ", cause),
            JailerError::CgroupFormat(cause) => tell("Invalid format for cgroups: ", cause),
            JailerError::CgroupHierarchyMissing(cause) => tell("Hierarchy not found: ", cause),
            JailerError::CgroupControllerUnavailable(cause) => {
                "Controller ".to_owned().concat(cause.as_str()).concat(" is unavailable")
            },
            JailerError::CgroupInvalidVersion(cause) => {
                cause.clone().concat(" is an invalid cgroup version specifier")
            },
            JailerError::CgroupInvalidParentPath() => {
                "Parent cgroup path is invalid. Path should not be absolute or contain '..' or '.'".to_owned()
            },
            JailerError::CgroupMove(path, cause) => {
                "Failed to move process to cgroup (".to_owned()
                    .concat(path.display().as_str())
                    .concat("): ")
                    .concat(cause.as_str())
                    .concat(".\nHint: If you intended to create a child cgroup under ")
                    .concat(path.display().as_str())
                    .concat(", pass any --cgroup parameters.")
            },
            JailerError::ChangeFileOwner(path, cause) => {
                tell_at("Failed to change owner for ", path, cause)
            },
            JailerError::ChdirNewRoot(cause) => {
                tell("Failed to chdir into chroot directory: ", cause)
            },
            JailerError::Chmod(path, cause) => {
                tell_at("Failed to change permissions on ", path, cause)
            },
            JailerError::Clone(cause) => tell("Failed cloning into a new child process: ", cause),
            JailerError::CloseNetNsFd(cause) => tell("Failed to close netns fd: ", cause),
            JailerError::CloseDevNullFd(cause) => tell("Failed to close /dev/null fd: ", cause),
            JailerError::CloseRange(cause) => tell("Failed to call close range syscall: ", cause),
            JailerError::Copy(path, to, cause) => {
                unquote(
                    "Failed to copy ".to_owned()
                        .concat(path.show().as_str())
                        .concat(" to ")
                        .concat(to.show().as_str())
                        .concat(": ")
                        .concat(cause.as_str())
                        .as_str(),
                )
            },
            JailerError::CreateDir(path, cause) => {
                show_at("Failed to create directory ", path, cause)
            },
            JailerError::CStringParsing(_nul) => {
                "Encountered interior \\0 while parsing a string".to_owned()
            },
            JailerError::Daemonize(cause) => tell("Failed to daemonize: ", cause),
            JailerError::DirOpen(first, second) => {
                "Failed to open directory ".to_owned()
                    .concat(first.as_str())
                    .concat(": ")
                    .concat(second.as_str())
            },
            JailerError::Dup2(cause) => tell("Failed to duplicate fd: ", cause),
            JailerError::Exec(cause) => tell("Failed to exec into Firecracker: ", cause),
            JailerError::ExtractFileName(path) => {
                unquote(
                    "Failed to extract filename from path ".to_owned()
                        .concat(path.show().as_str())
                        .as_str(),
                )
            },
            JailerError::FileOpen(path, cause) => show_at("Failed to open file ", path, cause),
            JailerError::FromBytesWithNul(cause) => {
                tell("Failed to decode string from byte array: ", cause)
            },
            JailerError::GetOldFdFlags(cause) => tell("Failed to get flags from fd: ", cause),
            JailerError::GetPid(cause) => tell("Failed to get PID (getpid): ", cause),
            JailerError::GetSid(cause) => tell("Failed to get SID (getsid): ", cause),
            JailerError::Gid(cause) => tell("Invalid gid: ", cause),
            JailerError::HardLink(path) => {
                "Detected hard link at: ".to_owned().concat(path.display().as_str())
            },
            JailerError::InvalidInstanceId(cause) => tell("Invalid instance ID: ", cause),
            JailerError::LandlockAddRule(path, cause) => {
                tell_at("Failed to add Landlock rule for ", path, cause)
            },
            JailerError::LandlockNotEnforced(status) => {
                "Landlock ruleset was not fully enforced (status: ".to_owned()
                    .concat(status.name())
                    .concat("); refusing to run unsandboxed")
            },
            JailerError::LandlockRestrictSelf(cause) => {
                tell("Failed to restrict self with Landlock ruleset: ", cause)
            },
            JailerError::LandlockRulesetCreate(cause) => {
                tell("Failed to create Landlock ruleset: ", cause)
            },
            JailerError::Metadata(path, cause) => {
                tell_at("Cannot get metadata for a file: ", path, cause)
            },
            JailerError::MissingParent(path) => {
                unquote(
                    "File ".to_owned()
                        .concat(path.show().as_str())
                        .concat(" doesn't have a parent")
                        .as_str(),
                )
            },
            JailerError::MkdirOldRoot(cause) => {
                tell("Failed to create the jail root directory before pivoting root: ", cause)
            },
            JailerError::MknodDev(first, second) => {
                "Failed to create ".to_owned()
                    .concat(second.as_str())
                    .concat(" via mknod inside the jail: ")
                    .concat(first.as_str())
            },
            JailerError::MountBind(cause) => {
                tell("Failed to bind mount the jail root directory: ", cause)
            },
            JailerError::MountPropagationSlave(cause) => {
                tell("Failed to change the propagation type to slave: ", cause)
            },
            JailerError::NotAFile(path) => unquote(path.show().concat(" is not a file").as_str()),
            JailerError::NotADirectory(path) => {
                unquote(path.show().concat(" is not a directory").as_str())
            },
            JailerError::NoNewPrivs => {
                "Failed to confirm PR_SET_NO_NEW_PRIVS was set by Landlock".to_owned()
            },
            JailerError::Open(path, cause) => tell_at("Failed to open ", path, cause),
            JailerError::OsStringParsing(path, _bytes) => {
                unquote(
                    "Failed to parse path ".to_owned()
                        .concat(path.show().as_str())
                        .concat(" into an OsString")
                        .as_str(),
                )
            },
            JailerError::PivotRoot(cause) => tell("Failed to pivot root: ", cause),
            JailerError::ReadLine(path, cause) => show_at("Failed to read line from ", path, cause),
            JailerError::ReadToString(path, cause) => {
                unquote(
                    "Failed to read file ".to_owned()
                        .concat(path.show().as_str())
                        .concat(" into a string: ")
                        .concat(cause.as_str())
                        .as_str(),
                )
            },
            JailerError::RegEx(cause) => tell("Regex failed: ", cause),
            JailerError::ResLimitArgument(cause) => tell("Invalid resource argument: ", cause),
            JailerError::ResLimitFormat(cause) => {
                tell("Invalid format for resources limits: ", cause)
            },
            JailerError::ResLimitValue(first, second) => {
                "Invalid limit value for resource: ".to_owned()
                    .concat(first.as_str())
                    .concat(": ")
                    .concat(second.as_str())
            },
            JailerError::RmOldRootDir(cause) => {
                tell("Failed to remove old jail root directory: ", cause)
            },
            JailerError::SetCurrentDir(cause) => {
                tell("Failed to change current directory: ", cause)
            },
            JailerError::SetNetNs(cause) => {
                tell("Failed to join network namespace: netns: ", cause)
            },
            JailerError::Setrlimit(cause) => tell("Failed to set limit for resource: ", cause),
            JailerError::SetSid(cause) => tell("Failed to daemonize: setsid: ", cause),
            JailerError::Uid(cause) => tell("Invalid uid: ", cause),
            JailerError::UmountOldRoot(cause) => {
                tell("Failed to unmount the old jail root: ", cause)
            },
            JailerError::UnexpectedListenerFd(fd) => {
                "Unexpected value for the socket listener fd: ".to_owned()
                    .concat(signed_decimal_text(*fd).as_str())
            },
            JailerError::UnshareNewNs(cause) => {
                tell("Failed to unshare into new mount namespace: ", cause)
            },
            JailerError::UnsetCloexec(cause) => {
                tell("Failed to unset the O_CLOEXEC flag on the socket fd: ", cause)
            },
            JailerError::UTF8Parsing(cause) => tell("Slice contains invalid UTF-8 data : ", cause),
            JailerError::Write(path, cause) => show_at("Failed to write to ", path, cause),
        }
    }
}

} // verus!
