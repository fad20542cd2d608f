//! The course of a jailer process: clean the process, read the command line, prepare the jail,
//! and hand over to the chosen isolation backend. Everything but that choice is the same for
//! both jailer binaries.

use vstd::prelude::*;
use vstd::string::*;

use crate::error::{message_of, JailerError};
use crate::path::HostPath;

verus! {

/// How the file system is isolated.
#[derive(Debug, Clone, Copy, PartialEq, Eq, Structural)]
pub enum Isolation {
    /// With a new root.
    Chroot,
    /// With Landlock rules.
    Landlock,
}

/// The mode of the jail's directory: all rights for its owner, none for others.
pub const FOLDER_PERMISSIONS: u32 = 0o700;

/// What came of an action of `prepare_jail`.
#[derive(Debug, PartialEq, Eq)]
pub enum PrepareEvent {
    /// The environment of the jail was built, with this directory, or could not be.
    EnvBuilt(Result<HostPath, JailerError>),
    /// The directory was created, or could not be.
    DirCreated(HostPath, Result<(), String>),
    /// The mode of the directory was set, or could not be.
    ModeSet(HostPath, Result<(), String>),
}

/// What `prepare_jail` asks for.
#[derive(Debug, PartialEq, Eq)]
pub enum PrepareAction {
    /// Create this directory and its parents.
    CreateDir(HostPath),
    /// Give this directory this mode.
    SetMode(HostPath, u32),
    /// The directory is there, or could not be prepared.
    Finish(Result<(), JailerError>),
}

/// What the preparation of a jail asks for after an event.
pub open spec fn prepare_action(event: PrepareEvent) -> PrepareAction {
    match event {
        PrepareEvent::EnvBuilt(Ok(dir)) => PrepareAction::CreateDir(dir),
        PrepareEvent::EnvBuilt(Err(error)) => PrepareAction::Finish(Err(error)),
        PrepareEvent::DirCreated(dir, Ok(_)) => PrepareAction::SetMode(dir, FOLDER_PERMISSIONS),
        PrepareEvent::DirCreated(dir, Err(cause)) => PrepareAction::Finish(
            Err(JailerError::CreateDir(dir, cause)),
        ),
        PrepareEvent::ModeSet(_, Ok(_)) => PrepareAction::Finish(Ok(())),
        PrepareEvent::ModeSet(dir, Err(cause)) => PrepareAction::Finish(
            Err(JailerError::Chmod(dir, cause)),
        ),
    }
}

/// Prepares the directory of a jail, one action after the other.
pub fn prepare_jail(event: PrepareEvent) -> (r: PrepareAction)
    ensures
        r == prepare_action(event),
{
    match event {
        PrepareEvent::EnvBuilt(Ok(dir)) => PrepareAction::CreateDir(dir),
        PrepareEvent::EnvBuilt(Err(error)) => PrepareAction::Finish(Err(error)),
        PrepareEvent::DirCreated(dir, Ok(_)) => PrepareAction::SetMode(dir, FOLDER_PERMISSIONS),
        PrepareEvent::DirCreated(dir, Err(cause)) => PrepareAction::Finish(
            Err(JailerError::CreateDir(dir, cause)),
        ),
        PrepareEvent::ModeSet(_, Ok(_)) => PrepareAction::Finish(Ok(())),
        PrepareEvent::ModeSet(dir, Err(cause)) => PrepareAction::Finish(
            Err(JailerError::Chmod(dir, cause)),
        ),
    }
}

/// What the command line of a jailer asks for.
#[derive(Debug, PartialEq, Eq)]
pub struct CommandLine {
    pub help: bool,
    pub version: bool,
    /// The description of all arguments.
    pub formatted_help: String,
}

/// What came of an action of `main_exec`.
#[derive(Debug, PartialEq, Eq)]
pub enum MainEvent {
    /// Nothing has been done yet.
    Begin,
    /// The process was cleaned, or could not be.
    Sanitized(Result<(), JailerError>),
    /// The command line was read, or was refused.
    Parsed(Result<CommandLine, String>),
    /// The jail was prepared, or could not be.
    Prepared(Result<(), JailerError>),
    /// The isolation backend has returned.
    Ran(Result<(), JailerError>),
}

/// What `main_exec` asks for.
#[derive(Debug, PartialEq, Eq)]
pub enum MainAction {
    /// Clean the process.
    Sanitize,
    /// Panic with this message.
    Panic(String),
    /// Read the command line.
    ParseArgs,
    /// Print this text; there is nothing else to do.
    Print(String),
    /// Build the environment of the jail and prepare its directory.
    Prepare,
    /// Run the jail with this backend.
    Run(Isolation),
    /// The process is over.
    Finish(Result<(), JailerError>),
}

/// The line that names a program and its version, and an empty line.
pub open spec fn version_text(label: Seq<char>, version: Seq<char>) -> Seq<char> {
    label + " v"@ + version + "\n\n"@
}

/// The help of a jailer.
pub open spec fn help_text(label: Seq<char>, version: Seq<char>, help: Seq<char>) -> Seq<char> {
    version_text(label, version) + help + "\n\n"@
        + "Any arguments after the -- separator will be supplied to the jailed binary.\n\n"@
}

/// Names a program and its version.
pub(crate) fn print_version(label: &str, version: &str) -> (r: String)
    ensures
        r@ == version_text(label@, version@),
{
    label.to_owned().concat(" v").concat(version).concat("\n\n")
}

/// What a jailer does after an event.
pub open spec fn is_next_action(
    isolation: Isolation,
    label: Seq<char>,
    version: Seq<char>,
    event: MainEvent,
    action: MainAction,
) -> bool {
    match event {
        MainEvent::Begin => action == MainAction::Sanitize,
        MainEvent::Sanitized(Ok(_)) => action == MainAction::ParseArgs,
        MainEvent::Sanitized(Err(error)) => action matches MainAction::Panic(text) && text@
            == "Failed to sanitize the Jailer process: "@ + message_of(error),
        MainEvent::Parsed(Err(cause)) => action == MainAction::Finish(
            Err(JailerError::ArgumentParsing(cause)),
        ),
        MainEvent::Parsed(Ok(line)) => if line.help {
            action matches MainAction::Print(text) && text@ == help_text(
                label,
                version,
                line.formatted_help@,
            )
        } else if line.version {
            action matches MainAction::Print(text) && text@ == version_text(label, version)
        } else {
            action == MainAction::Prepare
        },
        MainEvent::Prepared(Ok(_)) => action == MainAction::Run(isolation),
        MainEvent::Prepared(Err(error)) => action == MainAction::Finish(Err(error)),
        MainEvent::Ran(result) => action == MainAction::Finish(result),
    }
}

/// The course of a jailer, one action after the other. `label` is used in the output alone, and
/// `isolation` in the last action alone.
pub fn main_exec(isolation: Isolation, label: &str, version: &str, event: MainEvent) -> (r:
    MainAction)
    ensures
        is_next_action(isolation, label@, version@, event, r),
{
    match event {
        MainEvent::Begin => MainAction::Sanitize,
        MainEvent::Sanitized(Ok(_)) => MainAction::ParseArgs,
        MainEvent::Sanitized(Err(error)) => MainAction::Panic(
            "Failed to sanitize the Jailer process: ".to_owned().concat(error.message().as_str()),
        ),
        MainEvent::Parsed(Err(cause)) => MainAction::Finish(
            Err(JailerError::ArgumentParsing(cause)),
        ),
        MainEvent::Parsed(Ok(line)) => if line.help {
            MainAction::Print(
                print_version(label, version).concat(line.formatted_help.as_str()).concat(
                    "\n\n",
                ).concat(
                    "Any arguments after the -- separator will be supplied to the jailed binary.\n\n",
                ),
            )
        } else if line.version {
            MainAction::Print(print_version(label, version))
        } else {
            MainAction::Prepare
        },
        MainEvent::Prepared(Ok(_)) => MainAction::Run(isolation),
        MainEvent::Prepared(Err(error)) => MainAction::Finish(Err(error)),
        MainEvent::Ran(result) => MainAction::Finish(result),
    }
}

/// The two jailers differ in nothing but the backend that they run once the jail is prepared.
pub proof fn law_backends_share_everything_else(
    one: Isolation,
    other: Isolation,
    label: Seq<char>,
    version: Seq<char>,
    event: MainEvent,
    action: MainAction,
)
    ensures
        match event {
            MainEvent::Prepared(Ok(_)) => is_next_action(one, label, version, event, action)
                ==> action == MainAction::Run(one),
            _ => is_next_action(one, label, version, event, action) == is_next_action(
                other,
                label,
                version,
                event,
                action,
            ),
        },
{
}

/// An action, and what to print on standard error before it.
#[derive(Debug, PartialEq, Eq)]
pub struct RunStep {
    pub complaint: Option<String>,
    pub action: MainAction,
}

/// Whether `complaint` is what is printed on standard error before an action: the message of the
/// failure, where the action ends with one.
pub open spec fn is_complaint(action: MainAction, complaint: Option<String>) -> bool {
    match action {
        MainAction::Finish(Err(error)) => complaint matches Some(text) && text@ == message_of(
            error,
        ).push('\n'),
        _ => complaint is None,
    }
}

/// The one entry point of both jailers: `main_exec`, with the message of the failure on
/// standard error where it fails.
pub fn run(isolation: Isolation, label: &str, version: &str, event: MainEvent) -> (r: RunStep)
    ensures
        is_next_action(isolation, label@, version@, event, r.action),
        is_complaint(r.action, r.complaint),
{
    let action = main_exec(isolation, label, version, event);
    let complaint = match &action {
        MainAction::Finish(Err(error)) => {
            let mut text = error.message();
            text.push('\n');
            Some(text)
        },
        _ => None,
    };
    RunStep { complaint, action }
}

} // verus!
