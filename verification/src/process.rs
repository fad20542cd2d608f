//! Cleaning the process that the jailer was started in: no inherited file descriptors but the
//! standard ones, no environment variables.

use vmm_sys_util::syscall::SyscallReturnCode;
use vstd::prelude::*;
use vstd::slice::slice_to_vec;
use vstd::string::*;

use crate::error::JailerError;
use crate::text::views;

verus! {

/// An error of the operating system.
#[verifier::external_type_specification]
#[verifier::external_body]
pub struct ExIoError(std::io::Error);

/// `SyscallReturnCode::into_empty_result` of the vmm-sys-util crate: a system call failed
/// exactly where it returned -1. Which error comes then is the last one that the operating
/// system recorded, and nothing is claimed of it.
#[verifier::external_body]
fn syscall_outcome(ret: i64) -> (r: Result<(), std::io::Error>)
    ensures
        r is Err <==> ret == -1,
{
    SyscallReturnCode(ret).into_empty_result()
}

/// A range of file descriptors, both ends included.
#[derive(Debug, Clone, Copy, PartialEq, Eq, Structural)]
pub struct FdRange {
    pub first: u32,
    pub last: u32,
    /// Whether the table of descriptors is made the caller's own before anything is closed.
    pub unshare: bool,
}

impl FdRange {
    /// Whether the range holds a descriptor.
    pub open spec fn covers(self, fd: u32) -> bool {
        self.first <= fd <= self.last
    }
}

/// The descriptors that are closed: all but standard input, output and error.
pub fn inherited_fds() -> (r: FdRange)
    ensures
        forall|fd: u32| r.covers(fd) <==> fd > 2,
        r == (FdRange { first: 3, last: u32::MAX, unshare: true }),
{
    FdRange { first: 3, last: u32::MAX, unshare: true }
}

/// Whether `error` says that the inherited descriptors could not be closed.
pub open spec fn is_close_range(error: JailerError) -> bool {
    error is CloseRange
}

/// Whether `r` is what closing the inherited descriptors came to, given what the system reports of
/// it.
pub open spec fn is_close_outcome(
    outcome: Result<(), String>,
    r: Result<(), JailerError>,
) -> bool {
    match outcome {
        Ok(_) => r is Ok,
        Err(cause) => r == Err::<(), JailerError>(JailerError::CloseRange(cause)),
    }
}

/// What closing the inherited descriptors came to, given what the system reports of it.
pub fn close_range_outcome(outcome: Result<(), String>) -> (r: Result<(), JailerError>)
    ensures
        is_close_outcome(outcome, r),
{
    match outcome {
        Ok(_) => Ok(()),
        Err(cause) => Err(JailerError::CloseRange(cause)),
    }
}

/// What the `close_range` system call on `inherited_fds()` came to, given what it returned. It
/// must be asked before anything else changes the recorded system error: that error is the
/// cause that is reported.
pub fn close_fds_by_close_range(ret: i64) -> (r: Result<(), JailerError>)
    ensures
        r is Ok <==> ret != -1,
        r matches Err(error) ==> is_close_range(error),
{
    let outcome = match syscall_outcome(ret) {
        Ok(_) => Ok(()),
        Err(cause) => Err(cause.to_string()),
    };
    close_range_outcome(outcome)
}

/// What closing the inherited descriptors came to. The `close_range` system call is the one
/// way in which it is done.
pub fn close_inherited_fds(ret: i64) -> (r: Result<(), JailerError>)
    ensures
        r is Ok <==> ret != -1,
        r matches Err(error) ==> is_close_range(error),
{
    close_fds_by_close_range(ret)
}

/// The names of environment variables.
pub open spec fn names_of(vars: Seq<(Vec<u8>, Vec<u8>)>) -> Seq<Seq<u8>> {
    vars.map_values(|var: (Vec<u8>, Vec<u8>)| var.0@)
}

/// The names of the environment variables to remove: all of them, whatever bytes they hold.
pub fn clean_env_vars(vars: &[(Vec<u8>, Vec<u8>)]) -> (r: Vec<Vec<u8>>)
    ensures
        views(r@) == names_of(vars@),
{
    let mut names: Vec<Vec<u8>> = Vec::new();
    let mut i: usize = 0;
    while i < vars.len()
        invariant
            i <= vars.len(),
            views(names@) == names_of(vars@.take(i as int)),
        decreases vars.len() - i,
    {
        let name = slice_to_vec(vars[i].0.as_slice());
        let ghost before = views(names@);
        names.push(name);
        assert(views(names@) =~= before.push(name@));
        i += 1;
        assert(names_of(vars@.take(i as int)) =~= before.push(name@));
    }
    assert(vars@.take(vars@.len() as int) =~= vars@);
    names
}

/// What came of an action of `sanitize_process`.
#[derive(Debug, PartialEq, Eq)]
pub enum SanitizeEvent {
    /// Nothing has been done yet.
    Begin,
    /// The descriptors were closed, or could not be: what `close_inherited_fds` makes of it.
    Closed(Result<(), JailerError>),
    /// The environment holds these variables.
    Vars(Vec<(Vec<u8>, Vec<u8>)>),
    /// The variables are removed.
    Removed,
}

/// What `sanitize_process` asks for.
#[derive(Debug, PartialEq, Eq)]
pub enum SanitizeAction {
    /// Close the descriptors in this range, and ask `close_inherited_fds` what it came to.
    CloseFds(FdRange),
    /// Read the environment.
    ReadVars,
    /// Remove these variables.
    RemoveVars(Vec<Vec<u8>>),
    /// The process is clean, or could not be cleaned.
    Finish(Result<(), JailerError>),
}

/// Whether `action` is what cleaning the process asks for after an event.
pub open spec fn is_sanitize_action(event: SanitizeEvent, action: SanitizeAction) -> bool {
    match event {
        SanitizeEvent::Begin => action == SanitizeAction::CloseFds(
            FdRange { first: 3, last: u32::MAX, unshare: true },
        ),
        SanitizeEvent::Closed(Ok(_)) => action == SanitizeAction::ReadVars,
        SanitizeEvent::Closed(Err(error)) => action == SanitizeAction::Finish(Err(error)),
        SanitizeEvent::Vars(vars) => action matches SanitizeAction::RemoveVars(names) && views(
            names@,
        ) == names_of(vars@),
        SanitizeEvent::Removed => action == SanitizeAction::Finish(Ok(())),
    }
}

/// Cleans the process, one action after the other: first the descriptors, and only where they
/// could be closed the environment.
pub fn sanitize_process(event: SanitizeEvent) -> (r: SanitizeAction)
    ensures
        is_sanitize_action(event, r),
{
    match event {
        SanitizeEvent::Begin => SanitizeAction::CloseFds(inherited_fds()),
        SanitizeEvent::Closed(Ok(_)) => SanitizeAction::ReadVars,
        SanitizeEvent::Closed(Err(error)) => SanitizeAction::Finish(Err(error)),
        SanitizeEvent::Vars(vars) => SanitizeAction::RemoveVars(clean_env_vars(vars.as_slice())),
        SanitizeEvent::Removed => SanitizeAction::Finish(Ok(())),
    }
}

} // verus!
