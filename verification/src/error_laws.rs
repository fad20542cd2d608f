//! What holds of the messages of all failures: a message is the same text for every failure of
//! its kind, and then what the failure is about and its cause.

use vstd::prelude::*;

use crate::error::{message_of, unquoted, JailerError, NulError};
use crate::landlock_jail::{status_name, RulesetStatus};
use crate::path::{lossy, shown, HostPath};
use crate::text::signed_decimal;

verus! {

/// Whether two messages begin with the same text, and end with their own ends after it.
pub open spec fn begin_alike(
    one: Seq<char>,
    one_end: Seq<char>,
    other: Seq<char>,
    other_end: Seq<char>,
) -> bool {
    let n = one.len() - one_end.len();
    &&& n >= 0
    &&& n == other.len() - other_end.len()
    &&& one.take(n) == other.take(n)
    &&& one.skip(n) == one_end
    &&& other.skip(n) == other_end
}

proof fn lemma_begin_alike(start: Seq<char>, one_end: Seq<char>, other_end: Seq<char>)
    ensures
        begin_alike(start + one_end, one_end, start + other_end, other_end),
{
    let n = start.len() as int;
    assert((start + one_end).take(n) =~= start);
    assert((start + other_end).take(n) =~= start);
    assert((start + one_end).skip(n) =~= one_end);
    assert((start + other_end).skip(n) =~= other_end);
}

/// Taking the quotes out of two texts one after the other is taking them out of both together.
pub proof fn law_quotes_go_one_by_one(one: Seq<char>, other: Seq<char>)
    ensures
        unquoted(one + other) == unquoted(one) + unquoted(other),
    decreases other.len(),
{
    if other.len() == 0 {
        assert(one + other =~= one);
        assert(unquoted(one) + unquoted(other) =~= unquoted(one));
    } else {
        law_quotes_go_one_by_one(one, other.drop_last());
        assert((one + other).drop_last() =~= one + other.drop_last());
        assert((one + other).last() == other.last());
        assert(unquoted(one + other) =~= unquoted(one) + unquoted(other));
    }
}

/// A quote goes, and a text without quotes stays as it is.
pub proof fn law_only_quotes_go(text: Seq<char>)
    ensures
        unquoted(seq!['"']) == Seq::<char>::empty(),
        !text.contains('"') ==> unquoted(text) == text,
        !unquoted(text).contains('"'),
    decreases text.len(),
{
    assert(seq!['"'].drop_last() =~= Seq::<char>::empty());
    assert(unquoted(seq!['"']) == unquoted(seq!['"'].drop_last()));
    assert(unquoted(Seq::<char>::empty()) == Seq::<char>::empty());
    if text.len() > 0 {
        let before = text.drop_last();
        law_only_quotes_go(before);
        assert(before.push(text.last()) =~= text);
        if !text.contains('"') {
            assert(text.contains(text.last()));
            if before.contains('"') {
                let i = choose|i: int| 0 <= i < before.len() && before[i] == '"';
                assert(text[i] == '"');
            }
        }
        if unquoted(text).contains('"') {
            let i = choose|i: int| 0 <= i < unquoted(text).len() && unquoted(text)[i] == '"';
            if text.last() != '"' {
                assert(i < unquoted(before).len());
                assert(unquoted(before)[i] == '"');
            }
        }
    }
}

/// A failure with a cause alone is told by the text of its kind and then the cause.
pub proof fn law_causes_end_the_message(one: String, other: String)
    ensures
        begin_alike(
            message_of(JailerError::ArgumentParsing(one)),
            one@,
            message_of(JailerError::ArgumentParsing(other)),
            other@,
        ),
        begin_alike(
            message_of(JailerError::CgroupInvalidFile(one)),
            one@,
            message_of(JailerError::CgroupInvalidFile(other)),
            other@,
        ),
        begin_alike(
            message_of(JailerError::CgroupFormat(one)),
            one@,
            message_of(JailerError::CgroupFormat(other)),
            other@,
        ),
        begin_alike(
            message_of(JailerError::CgroupHierarchyMissing(one)),
            one@,
            message_of(JailerError::CgroupHierarchyMissing(other)),
            other@,
        ),
        begin_alike(
            message_of(JailerError::ChdirNewRoot(one)),
            one@,
            message_of(JailerError::ChdirNewRoot(other)),
            other@,
        ),
        begin_alike(
            message_of(JailerError::Clone(one)),
            one@,
            message_of(JailerError::Clone(other)),
            other@,
        ),
        begin_alike(
            message_of(JailerError::CloseNetNsFd(one)),
            one@,
            message_of(JailerError::CloseNetNsFd(other)),
            other@,
        ),
        begin_alike(
            message_of(JailerError::CloseDevNullFd(one)),
            one@,
            message_of(JailerError::CloseDevNullFd(other)),
            other@,
        ),
        begin_alike(
            message_of(JailerError::CloseRange(one)),
            one@,
            message_of(JailerError::CloseRange(other)),
            other@,
        ),
        begin_alike(
            message_of(JailerError::Daemonize(one)),
            one@,
            message_of(JailerError::Daemonize(other)),
            other@,
        ),
        begin_alike(
            message_of(JailerError::Dup2(one)),
            one@,
            message_of(JailerError::Dup2(other)),
            other@,
        ),
        begin_alike(
            message_of(JailerError::Exec(one)),
            one@,
            message_of(JailerError::Exec(other)),
            other@,
        ),
        begin_alike(
            message_of(JailerError::FromBytesWithNul(one)),
            one@,
            message_of(JailerError::FromBytesWithNul(other)),
            other@,
        ),
        begin_alike(
            message_of(JailerError::GetOldFdFlags(one)),
            one@,
            message_of(JailerError::GetOldFdFlags(other)),
            other@,
        ),
        begin_alike(
            message_of(JailerError::GetPid(one)),
            one@,
            message_of(JailerError::GetPid(other)),
            other@,
        ),
        begin_alike(
            message_of(JailerError::GetSid(one)),
            one@,
            message_of(JailerError::GetSid(other)),
            other@,
        ),
        begin_alike(
            message_of(JailerError::Gid(one)),
            one@,
            message_of(JailerError::Gid(other)),
            other@,
        ),
        begin_alike(
            message_of(JailerError::InvalidInstanceId(one)),
            one@,
            message_of(JailerError::InvalidInstanceId(other)),
            other@,
        ),
        begin_alike(
            message_of(JailerError::LandlockRestrictSelf(one)),
            one@,
            message_of(JailerError::LandlockRestrictSelf(other)),
            other@,
        ),
        begin_alike(
            message_of(JailerError::LandlockRulesetCreate(one)),
            one@,
            message_of(JailerError::LandlockRulesetCreate(other)),
            other@,
        ),
        begin_alike(
            message_of(JailerError::MkdirOldRoot(one)),
            one@,
            message_of(JailerError::MkdirOldRoot(other)),
            other@,
        ),
        begin_alike(
            message_of(JailerError::MountBind(one)),
            one@,
            message_of(JailerError::MountBind(other)),
            other@,
        ),
        begin_alike(
            message_of(JailerError::MountPropagationSlave(one)),
            one@,
            message_of(JailerError::MountPropagationSlave(other)),
            other@,
        ),
        begin_alike(
            message_of(JailerError::PivotRoot(one)),
            one@,
            message_of(JailerError::PivotRoot(other)),
            other@,
        ),
        begin_alike(
            message_of(JailerError::RegEx(one)),
            one@,
            message_of(JailerError::RegEx(other)),
            other@,
        ),
        begin_alike(
            message_of(JailerError::ResLimitArgument(one)),
            one@,
            message_of(JailerError::ResLimitArgument(other)),
            other@,
        ),
        begin_alike(
            message_of(JailerError::ResLimitFormat(one)),
            one@,
            message_of(JailerError::ResLimitFormat(other)),
            other@,
        ),
        begin_alike(
            message_of(JailerError::RmOldRootDir(one)),
            one@,
            message_of(JailerError::RmOldRootDir(other)),
            other@,
        ),
        begin_alike(
            message_of(JailerError::SetCurrentDir(one)),
            one@,
            message_of(JailerError::SetCurrentDir(other)),
            other@,
        ),
        begin_alike(
            message_of(JailerError::SetNetNs(one)),
            one@,
            message_of(JailerError::SetNetNs(other)),
            other@,
        ),
        begin_alike(
            message_of(JailerError::Setrlimit(one)),
            one@,
            message_of(JailerError::Setrlimit(other)),
            other@,
        ),
        begin_alike(
            message_of(JailerError::SetSid(one)),
            one@,
            message_of(JailerError::SetSid(other)),
            other@,
        ),
        begin_alike(
            message_of(JailerError::Uid(one)),
            one@,
            message_of(JailerError::Uid(other)),
            other@,
        ),
        begin_alike(
            message_of(JailerError::UmountOldRoot(one)),
            one@,
            message_of(JailerError::UmountOldRoot(other)),
            other@,
        ),
        begin_alike(
            message_of(JailerError::UnshareNewNs(one)),
            one@,
            message_of(JailerError::UnshareNewNs(other)),
            other@,
        ),
        begin_alike(
            message_of(JailerError::UnsetCloexec(one)),
            one@,
            message_of(JailerError::UnsetCloexec(other)),
            other@,
        ),
        begin_alike(
            message_of(JailerError::UTF8Parsing(one)),
            one@,
            message_of(JailerError::UTF8Parsing(other)),
            other@,
        ),
{
    lemma_begin_alike("Failed to parse arguments: "@, one@, other@);
    lemma_begin_alike("Cgroup invalid file: "@, one@, other@);
    lemma_begin_alike("Invalid format for cgroups: "@, one@, other@);
    lemma_begin_alike("Hierarchy not found: "@, one@, other@);
    lemma_begin_alike("Failed to chdir into chroot directory: "@, one@, other@);
    lemma_begin_alike("Failed cloning into a new child process: "@, one@, other@);
    lemma_begin_alike("Failed to close netns fd: "@, one@, other@);
    lemma_begin_alike("Failed to close /dev/null fd: "@, one@, other@);
    lemma_begin_alike("Failed to call close range syscall: "@, one@, other@);
    lemma_begin_alike("Failed to daemonize: "@, one@, other@);
    lemma_begin_alike("Failed to duplicate fd: "@, one@, other@);
    lemma_begin_alike("Failed to exec into Firecracker: "@, one@, other@);
    lemma_begin_alike("Failed to decode string from byte array: "@, one@, other@);
    lemma_begin_alike("Failed to get flags from fd: "@, one@, other@);
    lemma_begin_alike("Failed to get PID (getpid): "@, one@, other@);
    lemma_begin_alike("Failed to get SID (getsid): "@, one@, other@);
    lemma_begin_alike("Invalid gid: "@, one@, other@);
    lemma_begin_alike("Invalid instance ID: "@, one@, other@);
    lemma_begin_alike("Failed to restrict self with Landlock ruleset: "@, one@, other@);
    lemma_begin_alike("Failed to create Landlock ruleset: "@, one@, other@);
    lemma_begin_alike(
        "Failed to create the jail root directory before pivoting root: "@,
        one@,
        other@,
    );
    lemma_begin_alike("Failed to bind mount the jail root directory: "@, one@, other@);
    lemma_begin_alike("Failed to change the propagation type to slave: "@, one@, other@);
    lemma_begin_alike("Failed to pivot root: "@, one@, other@);
    lemma_begin_alike("Regex failed: "@, one@, other@);
    lemma_begin_alike("Invalid resource argument: "@, one@, other@);
    lemma_begin_alike("Invalid format for resources limits: "@, one@, other@);
    lemma_begin_alike("Failed to remove old jail root directory: "@, one@, other@);
    lemma_begin_alike("Failed to change current directory: "@, one@, other@);
    lemma_begin_alike("Failed to join network namespace: netns: "@, one@, other@);
    lemma_begin_alike("Failed to set limit for resource: "@, one@, other@);
    lemma_begin_alike("Failed to daemonize: setsid: "@, one@, other@);
    lemma_begin_alike("Invalid uid: "@, one@, other@);
    lemma_begin_alike("Failed to unmount the old jail root: "@, one@, other@);
    lemma_begin_alike("Failed to unshare into new mount namespace: "@, one@, other@);
    lemma_begin_alike("Failed to unset the O_CLOEXEC flag on the socket fd: "@, one@, other@);
    lemma_begin_alike("Slice contains invalid UTF-8 data : "@, one@, other@);
}

/// A failure with two texts is told by the text of its kind and then both of them.
pub proof fn law_texts_end_the_message(a: String, b: String, c: String, d: String)
    ensures
        begin_alike(
            message_of(JailerError::CgroupControllerUnavailable(a)),
            a@ + " is unavailable"@,
            message_of(JailerError::CgroupControllerUnavailable(c)),
            c@ + " is unavailable"@,
        ),
        begin_alike(
            message_of(JailerError::CgroupInvalidVersion(a)),
            a@ + " is an invalid cgroup version specifier"@,
            message_of(JailerError::CgroupInvalidVersion(c)),
            c@ + " is an invalid cgroup version specifier"@,
        ),
        begin_alike(
            message_of(JailerError::CgroupLineNotFound(a, b)),
            b@ + " configurations not found in "@ + a@,
            message_of(JailerError::CgroupLineNotFound(c, d)),
            d@ + " configurations not found in "@ + c@,
        ),
        begin_alike(
            message_of(JailerError::DirOpen(a, b)),
            a@ + ": "@ + b@,
            message_of(JailerError::DirOpen(c, d)),
            c@ + ": "@ + d@,
        ),
        begin_alike(
            message_of(JailerError::MknodDev(a, b)),
            b@ + " via mknod inside the jail: "@ + a@,
            message_of(JailerError::MknodDev(c, d)),
            d@ + " via mknod inside the jail: "@ + c@,
        ),
        begin_alike(
            message_of(JailerError::ResLimitValue(a, b)),
            a@ + ": "@ + b@,
            message_of(JailerError::ResLimitValue(c, d)),
            c@ + ": "@ + d@,
        ),
{
    lemma_begin_alike("Controller "@, a@ + " is unavailable"@, c@ + " is unavailable"@);
    assert("Controller "@ + (a@ + " is unavailable"@) =~= "Controller "@ + a@ + " is unavailable"@);
    assert("Controller "@ + (c@ + " is unavailable"@) =~= "Controller "@ + c@ + " is unavailable"@);
    lemma_begin_alike(
        Seq::<char>::empty(),
        a@ + " is an invalid cgroup version specifier"@,
        c@ + " is an invalid cgroup version specifier"@,
    );
    assert(Seq::<char>::empty() + (a@ + " is an invalid cgroup version specifier"@)
        =~= a@ + " is an invalid cgroup version specifier"@);
    assert(Seq::<char>::empty() + (c@ + " is an invalid cgroup version specifier"@)
        =~= c@ + " is an invalid cgroup version specifier"@);
    lemma_begin_alike(
        Seq::<char>::empty(),
        b@ + " configurations not found in "@ + a@,
        d@ + " configurations not found in "@ + c@,
    );
    assert(Seq::<char>::empty() + (b@ + " configurations not found in "@ + a@)
        =~= b@ + " configurations not found in "@ + a@);
    assert(Seq::<char>::empty() + (d@ + " configurations not found in "@ + c@)
        =~= d@ + " configurations not found in "@ + c@);
    lemma_begin_alike("Failed to open directory "@, a@ + ": "@ + b@, c@ + ": "@ + d@);
    assert("Failed to open directory "@ + (a@ + ": "@ + b@)
        =~= "Failed to open directory "@ + a@ + ": "@ + b@);
    assert("Failed to open directory "@ + (c@ + ": "@ + d@)
        =~= "Failed to open directory "@ + c@ + ": "@ + d@);
    lemma_begin_alike(
        "Failed to create "@,
        b@ + " via mknod inside the jail: "@ + a@,
        d@ + " via mknod inside the jail: "@ + c@,
    );
    assert("Failed to create "@ + (b@ + " via mknod inside the jail: "@ + a@)
        =~= "Failed to create "@ + b@ + " via mknod inside the jail: "@ + a@);
    assert("Failed to create "@ + (d@ + " via mknod inside the jail: "@ + c@)
        =~= "Failed to create "@ + d@ + " via mknod inside the jail: "@ + c@);
    lemma_begin_alike("Invalid limit value for resource: "@, a@ + ": "@ + b@, c@ + ": "@ + d@);
    assert("Invalid limit value for resource: "@ + (a@ + ": "@ + b@)
        =~= "Invalid limit value for resource: "@ + a@ + ": "@ + b@);
    assert("Invalid limit value for resource: "@ + (c@ + ": "@ + d@)
        =~= "Invalid limit value for resource: "@ + c@ + ": "@ + d@);
}

/// A failure at a path is told by the text of its kind, the path and the cause.
pub proof fn law_paths_end_the_message(p: HostPath, q: HostPath, a: String, b: String)
    ensures
        begin_alike(
            message_of(JailerError::ChangeFileOwner(p, a)),
            lossy(p@) + ": "@ + a@,
            message_of(JailerError::ChangeFileOwner(q, b)),
            lossy(q@) + ": "@ + b@,
        ),
        begin_alike(
            message_of(JailerError::Chmod(p, a)),
            lossy(p@) + ": "@ + a@,
            message_of(JailerError::Chmod(q, b)),
            lossy(q@) + ": "@ + b@,
        ),
        begin_alike(
            message_of(JailerError::LandlockAddRule(p, a)),
            lossy(p@) + ": "@ + a@,
            message_of(JailerError::LandlockAddRule(q, b)),
            lossy(q@) + ": "@ + b@,
        ),
        begin_alike(
            message_of(JailerError::Metadata(p, a)),
            lossy(p@) + ": "@ + a@,
            message_of(JailerError::Metadata(q, b)),
            lossy(q@) + ": "@ + b@,
        ),
        begin_alike(
            message_of(JailerError::Open(p, a)),
            lossy(p@) + ": "@ + a@,
            message_of(JailerError::Open(q, b)),
            lossy(q@) + ": "@ + b@,
        ),
        begin_alike(
            message_of(JailerError::HardLink(p)),
            lossy(p@),
            message_of(JailerError::HardLink(q)),
            lossy(q@),
        ),
{
    lemma_begin_alike(
        "Failed to change owner for "@,
        lossy(p@) + ": "@ + a@,
        lossy(q@) + ": "@ + b@,
    );
    assert("Failed to change owner for "@ + (lossy(p@) + ": "@ + a@)
        =~= "Failed to change owner for "@ + lossy(p@) + ": "@ + a@);
    assert("Failed to change owner for "@ + (lossy(q@) + ": "@ + b@)
        =~= "Failed to change owner for "@ + lossy(q@) + ": "@ + b@);
    lemma_begin_alike(
        "Failed to change permissions on "@,
        lossy(p@) + ": "@ + a@,
        lossy(q@) + ": "@ + b@,
    );
    assert("Failed to change permissions on "@ + (lossy(p@) + ": "@ + a@)
        =~= "Failed to change permissions on "@ + lossy(p@) + ": "@ + a@);
    assert("Failed to change permissions on "@ + (lossy(q@) + ": "@ + b@)
        =~= "Failed to change permissions on "@ + lossy(q@) + ": "@ + b@);
    lemma_begin_alike(
        "Failed to add Landlock rule for "@,
        lossy(p@) + ": "@ + a@,
        lossy(q@) + ": "@ + b@,
    );
    assert("Failed to add Landlock rule for "@ + (lossy(p@) + ": "@ + a@)
        =~= "Failed to add Landlock rule for "@ + lossy(p@) + ": "@ + a@);
    assert("Failed to add Landlock rule for "@ + (lossy(q@) + ": "@ + b@)
        =~= "Failed to add Landlock rule for "@ + lossy(q@) + ": "@ + b@);
    lemma_begin_alike(
        "Cannot get metadata for a file: "@,
        lossy(p@) + ": "@ + a@,
        lossy(q@) + ": "@ + b@,
    );
    assert("Cannot get metadata for a file: "@ + (lossy(p@) + ": "@ + a@)
        =~= "Cannot get metadata for a file: "@ + lossy(p@) + ": "@ + a@);
    assert("Cannot get metadata for a file: "@ + (lossy(q@) + ": "@ + b@)
        =~= "Cannot get metadata for a file: "@ + lossy(q@) + ": "@ + b@);
    lemma_begin_alike("Failed to open "@, lossy(p@) + ": "@ + a@, lossy(q@) + ": "@ + b@);
    assert("Failed to open "@ + (lossy(p@) + ": "@ + a@)
        =~= "Failed to open "@ + lossy(p@) + ": "@ + a@);
    assert("Failed to open "@ + (lossy(q@) + ": "@ + b@)
        =~= "Failed to open "@ + lossy(q@) + ": "@ + b@);
    lemma_begin_alike("Detected hard link at: "@, lossy(p@), lossy(q@));
    assert("Detected hard link at: "@ + (lossy(p@)) =~= "Detected hard link at: "@ + lossy(p@));
    assert("Detected hard link at: "@ + (lossy(q@)) =~= "Detected hard link at: "@ + lossy(q@));
}

/// How the message about a process that could not be moved goes on after its beginning.
spec fn moved_end(path: Seq<char>, cause: Seq<char>) -> Seq<char> {
    path + ("): "@ + (cause + (".\nHint: If you intended to create a child cgroup under "@ + (path
        + ", pass any --cgroup parameters."@))))
}

proof fn lemma_moved(p: HostPath, a: String)
    ensures
        message_of(JailerError::CgroupMove(p, a)) == "Failed to move process to cgroup ("@
            + moved_end(lossy(p@), a@),
{
    let start = "Failed to move process to cgroup ("@;
    let path = lossy(p@);
    let colon = "): "@;
    let hint = ".\nHint: If you intended to create a child cgroup under "@;
    let end = ", pass any --cgroup parameters."@;
    let e4 = path + end;
    let e3 = hint + e4;
    let e2 = a@ + e3;
    let e1 = colon + e2;
    assert(start + (path + e1) =~= start + path + e1);
    assert(start + path + e1 =~= start + path + colon + e2);
    assert(start + path + colon + e2 =~= start + path + colon + a@ + e3);
    assert(start + path + colon + a@ + e3 =~= start + path + colon + a@ + hint + e4);
    assert(start + path + colon + a@ + hint + e4 =~= start + path + colon + a@ + hint + path + end);
}

/// A process that could not be moved to a cgroup is told with the path, the cause, and the path
/// once more in the hint.
pub proof fn law_moves_are_told(p: HostPath, q: HostPath, a: String, b: String)
    ensures
        begin_alike(
            message_of(JailerError::CgroupMove(p, a)),
            lossy(p@) + ("): "@ + (a@ + (".\nHint: If you intended to create a child cgroup under "@ + (
            lossy(p@) + ", pass any --cgroup parameters."@)))),
            message_of(JailerError::CgroupMove(q, b)),
            lossy(q@) + ("): "@ + (b@ + (".\nHint: If you intended to create a child cgroup under "@ + (
            lossy(q@) + ", pass any --cgroup parameters."@)))),
        ),
{
    lemma_moved(p, a);
    lemma_moved(q, b);
    lemma_begin_alike(
        "Failed to move process to cgroup ("@,
        moved_end(lossy(p@), a@),
        moved_end(lossy(q@), b@),
    );
}

proof fn lemma_quoted_alike(start: Seq<char>, one_end: Seq<char>, other_end: Seq<char>)
    ensures
        begin_alike(
            unquoted(start + one_end),
            unquoted(one_end),
            unquoted(start + other_end),
            unquoted(other_end),
        ),
{
    law_quotes_go_one_by_one(start, one_end);
    law_quotes_go_one_by_one(start, other_end);
    lemma_begin_alike(unquoted(start), unquoted(one_end), unquoted(other_end));
}

/// A failure at a path that is shown with escapes is told by the text of its kind, the path and
/// the cause, all without quotes.
pub proof fn law_shown_paths_end_the_message(p: HostPath, q: HostPath, a: String, b: String)
    ensures
        begin_alike(
            message_of(JailerError::Canonicalize(p, a)),
            unquoted(shown(p@) + ": "@ + a@),
            message_of(JailerError::Canonicalize(q, b)),
            unquoted(shown(q@) + ": "@ + b@),
        ),
        begin_alike(
            message_of(JailerError::CreateDir(p, a)),
            unquoted(shown(p@) + ": "@ + a@),
            message_of(JailerError::CreateDir(q, b)),
            unquoted(shown(q@) + ": "@ + b@),
        ),
        begin_alike(
            message_of(JailerError::FileOpen(p, a)),
            unquoted(shown(p@) + ": "@ + a@),
            message_of(JailerError::FileOpen(q, b)),
            unquoted(shown(q@) + ": "@ + b@),
        ),
        begin_alike(
            message_of(JailerError::ReadLine(p, a)),
            unquoted(shown(p@) + ": "@ + a@),
            message_of(JailerError::ReadLine(q, b)),
            unquoted(shown(q@) + ": "@ + b@),
        ),
        begin_alike(
            message_of(JailerError::Write(p, a)),
            unquoted(shown(p@) + ": "@ + a@),
            message_of(JailerError::Write(q, b)),
            unquoted(shown(q@) + ": "@ + b@),
        ),
        begin_alike(
            message_of(JailerError::ReadToString(p, a)),
            unquoted(shown(p@) + " into a string: "@ + a@),
            message_of(JailerError::ReadToString(q, b)),
            unquoted(shown(q@) + " into a string: "@ + b@),
        ),
        begin_alike(
            message_of(JailerError::CgroupInheritFromParent(p, a)),
            unquoted(a@ + " in path "@ + shown(p@)),
            message_of(JailerError::CgroupInheritFromParent(q, b)),
            unquoted(b@ + " in path "@ + shown(q@)),
        ),
        begin_alike(
            message_of(JailerError::Copy(p, q, a)),
            unquoted(shown(p@) + " to "@ + shown(q@) + ": "@ + a@),
            message_of(JailerError::Copy(q, p, b)),
            unquoted(shown(q@) + " to "@ + shown(p@) + ": "@ + b@),
        ),
{
    lemma_quoted_alike(
        "Failed to canonicalize path "@,
        shown(p@) + ": "@ + a@,
        shown(q@) + ": "@ + b@,
    );
    assert("Failed to canonicalize path "@ + (shown(p@) + ": "@ + a@)
        =~= "Failed to canonicalize path "@ + shown(p@) + ": "@ + a@);
    assert("Failed to canonicalize path "@ + (shown(q@) + ": "@ + b@)
        =~= "Failed to canonicalize path "@ + shown(q@) + ": "@ + b@);
    lemma_quoted_alike(
        "Failed to create directory "@,
        shown(p@) + ": "@ + a@,
        shown(q@) + ": "@ + b@,
    );
    assert("Failed to create directory "@ + (shown(p@) + ": "@ + a@)
        =~= "Failed to create directory "@ + shown(p@) + ": "@ + a@);
    assert("Failed to create directory "@ + (shown(q@) + ": "@ + b@)
        =~= "Failed to create directory "@ + shown(q@) + ": "@ + b@);
    lemma_quoted_alike("Failed to open file "@, shown(p@) + ": "@ + a@, shown(q@) + ": "@ + b@);
    assert("Failed to open file "@ + (shown(p@) + ": "@ + a@)
        =~= "Failed to open file "@ + shown(p@) + ": "@ + a@);
    assert("Failed to open file "@ + (shown(q@) + ": "@ + b@)
        =~= "Failed to open file "@ + shown(q@) + ": "@ + b@);
    lemma_quoted_alike(
        "Failed to read line from "@,
        shown(p@) + ": "@ + a@,
        shown(q@) + ": "@ + b@,
    );
    assert("Failed to read line from "@ + (shown(p@) + ": "@ + a@)
        =~= "Failed to read line from "@ + shown(p@) + ": "@ + a@);
    assert("Failed to read line from "@ + (shown(q@) + ": "@ + b@)
        =~= "Failed to read line from "@ + shown(q@) + ": "@ + b@);
    lemma_quoted_alike("Failed to write to "@, shown(p@) + ": "@ + a@, shown(q@) + ": "@ + b@);
    assert("Failed to write to "@ + (shown(p@) + ": "@ + a@)
        =~= "Failed to write to "@ + shown(p@) + ": "@ + a@);
    assert("Failed to write to "@ + (shown(q@) + ": "@ + b@)
        =~= "Failed to write to "@ + shown(q@) + ": "@ + b@);
    lemma_quoted_alike(
        "Failed to read file "@,
        shown(p@) + " into a string: "@ + a@,
        shown(q@) + " into a string: "@ + b@,
    );
    assert("Failed to read file "@ + (shown(p@) + " into a string: "@ + a@)
        =~= "Failed to read file "@ + shown(p@) + " into a string: "@ + a@);
    assert("Failed to read file "@ + (shown(q@) + " into a string: "@ + b@)
        =~= "Failed to read file "@ + shown(q@) + " into a string: "@ + b@);
    lemma_quoted_alike(
        "Failed to inherit cgroups configurations from file "@,
        a@ + " in path "@ + shown(p@),
        b@ + " in path "@ + shown(q@),
    );
    assert("Failed to inherit cgroups configurations from file "@ + (a@ + " in path "@ + shown(p@))
        =~= "Failed to inherit cgroups configurations from file "@ + a@ + " in path "@ + shown(p@));
    assert("Failed to inherit cgroups configurations from file "@ + (b@ + " in path "@ + shown(q@))
        =~= "Failed to inherit cgroups configurations from file "@ + b@ + " in path "@ + shown(q@));
    lemma_quoted_alike(
        "Failed to copy "@,
        shown(p@) + " to "@ + shown(q@) + ": "@ + a@,
        shown(q@) + " to "@ + shown(p@) + ": "@ + b@,
    );
    assert("Failed to copy "@ + (shown(p@) + " to "@ + shown(q@) + ": "@ + a@)
        =~= "Failed to copy "@ + shown(p@) + " to "@ + shown(q@) + ": "@ + a@);
    assert("Failed to copy "@ + (shown(q@) + " to "@ + shown(p@) + ": "@ + b@)
        =~= "Failed to copy "@ + shown(q@) + " to "@ + shown(p@) + ": "@ + b@);
}

/// A failure that is about a path alone is told by the path, without quotes, in the text of its
/// kind.
pub proof fn law_shown_paths_are_told(p: HostPath, q: HostPath, x: Vec<u8>, y: Vec<u8>)
    ensures
        begin_alike(
            message_of(JailerError::ExtractFileName(p)),
            unquoted(shown(p@)),
            message_of(JailerError::ExtractFileName(q)),
            unquoted(shown(q@)),
        ),
        begin_alike(
            message_of(JailerError::MissingParent(p)),
            unquoted(shown(p@) + " doesn't have a parent"@),
            message_of(JailerError::MissingParent(q)),
            unquoted(shown(q@) + " doesn't have a parent"@),
        ),
        begin_alike(
            message_of(JailerError::NotAFile(p)),
            unquoted(shown(p@) + " is not a file"@),
            message_of(JailerError::NotAFile(q)),
            unquoted(shown(q@) + " is not a file"@),
        ),
        begin_alike(
            message_of(JailerError::NotADirectory(p)),
            unquoted(shown(p@) + " is not a directory"@),
            message_of(JailerError::NotADirectory(q)),
            unquoted(shown(q@) + " is not a directory"@),
        ),
        begin_alike(
            message_of(JailerError::OsStringParsing(p, x)),
            unquoted(shown(p@) + " into an OsString"@),
            message_of(JailerError::OsStringParsing(q, y)),
            unquoted(shown(q@) + " into an OsString"@),
        ),
{
    lemma_quoted_alike("Failed to extract filename from path "@, shown(p@), shown(q@));
    assert("Failed to extract filename from path "@ + (shown(p@))
        =~= "Failed to extract filename from path "@ + shown(p@));
    assert("Failed to extract filename from path "@ + (shown(q@))
        =~= "Failed to extract filename from path "@ + shown(q@));
    lemma_quoted_alike(
        "File "@,
        shown(p@) + " doesn't have a parent"@,
        shown(q@) + " doesn't have a parent"@,
    );
    assert("File "@ + (shown(p@) + " doesn't have a parent"@)
        =~= "File "@ + shown(p@) + " doesn't have a parent"@);
    assert("File "@ + (shown(q@) + " doesn't have a parent"@)
        =~= "File "@ + shown(q@) + " doesn't have a parent"@);
    lemma_quoted_alike(
        Seq::<char>::empty(),
        shown(p@) + " is not a file"@,
        shown(q@) + " is not a file"@,
    );
    assert(Seq::<char>::empty() + (shown(p@) + " is not a file"@)
        =~= shown(p@) + " is not a file"@);
    assert(Seq::<char>::empty() + (shown(q@) + " is not a file"@)
        =~= shown(q@) + " is not a file"@);
    lemma_quoted_alike(
        Seq::<char>::empty(),
        shown(p@) + " is not a directory"@,
        shown(q@) + " is not a directory"@,
    );
    assert(Seq::<char>::empty() + (shown(p@) + " is not a directory"@)
        =~= shown(p@) + " is not a directory"@);
    assert(Seq::<char>::empty() + (shown(q@) + " is not a directory"@)
        =~= shown(q@) + " is not a directory"@);
    lemma_quoted_alike(
        "Failed to parse path "@,
        shown(p@) + " into an OsString"@,
        shown(q@) + " into an OsString"@,
    );
    assert("Failed to parse path "@ + (shown(p@) + " into an OsString"@)
        =~= "Failed to parse path "@ + shown(p@) + " into an OsString"@);
    assert("Failed to parse path "@ + (shown(q@) + " into an OsString"@)
        =~= "Failed to parse path "@ + shown(q@) + " into an OsString"@);
}

/// A status and a number are told in the text of their kind, and it does not matter where a zero
/// stood.
pub proof fn law_other_messages(
    s: RulesetStatus,
    t: RulesetStatus,
    m: i32,
    n: i32,
    x: NulError,
    y: NulError,
)
    ensures
        begin_alike(
            message_of(JailerError::LandlockNotEnforced(s)),
            status_name(s) + "); refusing to run unsandboxed"@,
            message_of(JailerError::LandlockNotEnforced(t)),
            status_name(t) + "); refusing to run unsandboxed"@,
        ),
        begin_alike(
            message_of(JailerError::UnexpectedListenerFd(m)),
            signed_decimal(m as int),
            message_of(JailerError::UnexpectedListenerFd(n)),
            signed_decimal(n as int),
        ),
        message_of(JailerError::CStringParsing(x)) == message_of(JailerError::CStringParsing(y)),
{
    lemma_begin_alike(
        "Landlock ruleset was not fully enforced (status: "@,
        status_name(s) + "); refusing to run unsandboxed"@,
        status_name(t) + "); refusing to run unsandboxed"@,
    );
    assert("Landlock ruleset was not fully enforced (status: "@ + (status_name(s)
        + "); refusing to run unsandboxed"@) =~= "Landlock ruleset was not fully enforced (status: "@
        + status_name(s) + "); refusing to run unsandboxed"@);
    assert("Landlock ruleset was not fully enforced (status: "@ + (status_name(t)
        + "); refusing to run unsandboxed"@) =~= "Landlock ruleset was not fully enforced (status: "@
        + status_name(t) + "); refusing to run unsandboxed"@);
    lemma_begin_alike(
        "Unexpected value for the socket listener fd: "@,
        signed_decimal(m as int),
        signed_decimal(n as int),
    );
    assert("Unexpected value for the socket listener fd: "@ + (signed_decimal(m as int))
        =~= "Unexpected value for the socket listener fd: "@ + signed_decimal(m as int));
    assert("Unexpected value for the socket listener fd: "@ + (signed_decimal(n as int))
        =~= "Unexpected value for the socket listener fd: "@ + signed_decimal(n as int));
}

} // verus!
