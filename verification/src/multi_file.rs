//! The multi-file mode of the setup benchmark: stage the files of a microVM, isolate the
//! process, then open each file and time it.
//!
//! Every fixture is staged before the process is isolated. Creating the named pipe, for one,
//! needs a right that no rule of a jail grants: in a deployment the pipe is there before the
//! jailed process runs.

use vstd::prelude::*;
use vstd::slice::slice_to_vec;
use vstd::string::*;
use vstd::utf8::*;

use crate::error::{JailerError, NulError};
use crate::orchestration::Isolation;
use crate::path::{joined, HostPath};
use crate::setup_bench::{multi_file_json, multi_file_report, pair_views, BenchTimings};
use crate::special::{find_nul, is_nul_error};

verus! {

/// Why a fixture file could not be written.
#[derive(Debug, PartialEq, Eq)]
pub enum FixtureError {
    /// It could not be created.
    NotCreated(String),
    /// It could not be filled.
    NotFilled(String),
}

/// A directory that is open for the probes.
#[derive(Debug, Clone, Copy, PartialEq, Eq, Structural)]
pub enum ProbeDir {
    /// The directory that the jail sees as its base.
    Base,
    /// The directory `run` in it.
    Run,
}

/// How a directory or a probed file is opened: for reading, and with these flags.
#[derive(Debug, Clone, Copy, PartialEq, Eq, Structural)]
pub struct ProbeFlags {
    /// Refuse anything but a directory.
    pub directory: bool,
    /// Do not wait for the other end of a named pipe.
    pub nonblocking: bool,
    /// Do not hand the descriptor on to an executed program.
    pub close_on_exec: bool,
}

/// How a directory is opened.
#[verifier::allow_in_spec]
pub fn dir_flags() -> ProbeFlags
    returns
        (ProbeFlags {
            directory: true,
            nonblocking: false,
            close_on_exec: true,
        }),
{
    ProbeFlags {
        directory: true,
        nonblocking: false,
        close_on_exec: true,
    }
}

/// How a file is opened when it is probed. A named pipe without a writer would block, and the
/// other files are opened in the same way.
#[verifier::allow_in_spec]
pub fn file_flags() -> ProbeFlags
    returns
        (ProbeFlags {
            directory: false,
            nonblocking: true,
            close_on_exec: true,
        }),
{
    ProbeFlags {
        directory: false,
        nonblocking: true,
        close_on_exec: true,
    }
}

/// The mode of the named pipe: its owner can read and write it.
pub const FIFO_MODE: u32 = 0o600;

/// What came of an action of a multi-file run.
#[derive(Debug, PartialEq, Eq)]
pub enum ProbeEvent {
    /// A fixture file was written, or could not be.
    FileWritten(Result<(), FixtureError>),
    /// A directory was created, or could not be.
    DirCreated(Result<(), String>),
    /// A named pipe was made, or could not be.
    FifoMade(Result<(), String>),
    /// The process is isolated, with these timings and this base directory, or could not be.
    SetUp(Result<(BenchTimings, HostPath), JailerError>),
    /// A directory was opened, or could not be.
    DirOpened(Result<(), String>),
    /// Opening a file took this long, or failed.
    Probed(Result<u128, String>),
    /// The two directories are closed.
    DirsClosed,
}

/// What a multi-file run asks for.
#[derive(Debug, PartialEq, Eq)]
pub enum ProbeAction {
    /// Write a file with these contents.
    WriteFile(HostPath, &'static str),
    /// Create a directory and its parents.
    CreateDir(HostPath),
    /// Make a named pipe with this mode.
    MakeFifo(HostPath, u32),
    /// Run the setup phase of this backend.
    RunSetup(Isolation),
    /// Open a directory.
    OpenDir(ProbeDir, HostPath, ProbeFlags),
    /// Open a file by its name in an open directory, time it and close it.
    ProbeAt(ProbeDir, &'static str, ProbeFlags),
    /// Close both directories.
    CloseDirs,
    /// Open a file by its path, time it and close it.
    ProbePath(&'static str, ProbeFlags),
    /// Print this line; the run is over.
    Print(String),
    /// The run has failed; both directories are to be closed first where it says so.
    Fail { close_dirs: bool, error: JailerError },
}

/// What an action asks for.
pub enum ProbeMove {
    WriteFile(Seq<u8>, Seq<char>),
    CreateDir(Seq<u8>),
    MakeFifo(Seq<u8>),
    RunSetup(Isolation),
    OpenDir(ProbeDir, Seq<u8>),
    ProbeAt(ProbeDir, Seq<char>),
    CloseDirs,
    ProbePath(Seq<char>),
    Print(Seq<char>),
    Fail(bool, ProbeFailure),
}

/// Why a multi-file run failed.
pub enum ProbeFailure {
    FileOpen(Seq<u8>, Seq<char>),
    Write(Seq<u8>, Seq<char>),
    CreateDir(Seq<u8>, Seq<char>),
    /// A path holds a zero byte.
    Nul(Seq<u8>),
    /// The setup phase failed.
    Setup(JailerError),
}

/// Whether `error` reports `failure`.
pub open spec fn reports(error: JailerError, failure: ProbeFailure) -> bool {
    match failure {
        ProbeFailure::FileOpen(path, cause) => error matches JailerError::FileOpen(at, why) && at@
            == path && why@ == cause,
        ProbeFailure::Write(path, cause) => error matches JailerError::Write(at, why) && at@
            == path && why@ == cause,
        ProbeFailure::CreateDir(path, cause) => error matches JailerError::CreateDir(at, why)
            && at@ == path && why@ == cause,
        ProbeFailure::Nul(path) => is_nul_error(error, path),
        ProbeFailure::Setup(cause) => error == cause,
    }
}

/// Whether `action` asks for `asked`.
pub open spec fn asks(action: ProbeAction, asked: ProbeMove) -> bool {
    match asked {
        ProbeMove::WriteFile(path, contents) => action matches ProbeAction::WriteFile(at, what)
            && at@ == path && what@ == contents,
        ProbeMove::CreateDir(path) => action matches ProbeAction::CreateDir(at) && at@ == path,
        ProbeMove::MakeFifo(path) => action matches ProbeAction::MakeFifo(at, mode) && at@ == path
            && mode == FIFO_MODE,
        ProbeMove::RunSetup(isolation) => action == ProbeAction::RunSetup(isolation),
        ProbeMove::OpenDir(dir, path) => action matches ProbeAction::OpenDir(which, at, flags)
            && which == dir && at@ == path && flags == dir_flags(),
        ProbeMove::ProbeAt(dir, name) => action matches ProbeAction::ProbeAt(which, what, flags)
            && which == dir && what@ == name && flags == file_flags(),
        ProbeMove::CloseDirs => action == ProbeAction::CloseDirs,
        ProbeMove::ProbePath(path) => action matches ProbeAction::ProbePath(what, flags)
            && what@ == path && flags == file_flags(),
        ProbeMove::Print(text) => action matches ProbeAction::Print(what) && what@ == text,
        ProbeMove::Fail(close, failure) => action matches ProbeAction::Fail { close_dirs, error }
            && close_dirs == close && reports(error, failure),
    }
}

/// Where a multi-file run stands: the stages follow each other in this order.
#[derive(Debug, Clone, Copy, PartialEq, Eq, Structural)]
pub enum Stage {
    Kernel,
    Rootfs,
    RunDir,
    Fifo,
    Log,
    Setup,
    OpenBase,
    OpenRun,
    ProbeKernel,
    ProbeRootfs,
    ProbeFifo,
    ProbeLog,
    Close,
    ProbeKvm,
    ProbeTun,
    Report,
    Over,
}

impl Stage {
    /// The place of a stage in the order.
    pub open spec fn place(self) -> nat {
        match self {
            Stage::Kernel => 0,
            Stage::Rootfs => 1,
            Stage::RunDir => 2,
            Stage::Fifo => 3,
            Stage::Log => 4,
            Stage::Setup => 5,
            Stage::OpenBase => 6,
            Stage::OpenRun => 7,
            Stage::ProbeKernel => 8,
            Stage::ProbeRootfs => 9,
            Stage::ProbeFifo => 10,
            Stage::ProbeLog => 11,
            Stage::Close => 12,
            Stage::ProbeKvm => 13,
            Stage::ProbeTun => 14,
            Stage::Report => 15,
            Stage::Over => 16,
        }
    }

    /// The stage after this one.
    pub open spec fn following(self) -> Stage {
        match self {
            Stage::Kernel => Stage::Rootfs,
            Stage::Rootfs => Stage::RunDir,
            Stage::RunDir => Stage::Fifo,
            Stage::Fifo => Stage::Log,
            Stage::Log => Stage::Setup,
            Stage::Setup => Stage::OpenBase,
            Stage::OpenBase => Stage::OpenRun,
            Stage::OpenRun => Stage::ProbeKernel,
            Stage::ProbeKernel => Stage::ProbeRootfs,
            Stage::ProbeRootfs => Stage::ProbeFifo,
            Stage::ProbeFifo => Stage::ProbeLog,
            Stage::ProbeLog => Stage::Close,
            Stage::Close => Stage::ProbeKvm,
            Stage::ProbeKvm => Stage::ProbeTun,
            Stage::ProbeTun => Stage::Report,
            Stage::Report => Stage::Over,
            Stage::Over => Stage::Over,
        }
    }

    fn next(&self) -> (r: Stage)
        ensures
            r == self.following(),
    {
        match self {
            Stage::Kernel => Stage::Rootfs,
            Stage::Rootfs => Stage::RunDir,
            Stage::RunDir => Stage::Fifo,
            Stage::Fifo => Stage::Log,
            Stage::Log => Stage::Setup,
            Stage::Setup => Stage::OpenBase,
            Stage::OpenBase => Stage::OpenRun,
            Stage::OpenRun => Stage::ProbeKernel,
            Stage::ProbeKernel => Stage::ProbeRootfs,
            Stage::ProbeRootfs => Stage::ProbeFifo,
            Stage::ProbeFifo => Stage::ProbeLog,
            Stage::ProbeLog => Stage::Close,
            Stage::Close => Stage::ProbeKvm,
            Stage::ProbeKvm => Stage::ProbeTun,
            Stage::ProbeTun => Stage::Report,
            Stage::Report => Stage::Over,
            Stage::Over => Stage::Over,
        }
    }

    /// What is opened at a probe stage, as the report names it.
    pub open spec fn probed_name(self) -> Seq<char> {
        match self {
            Stage::ProbeKernel => "kernel.img"@,
            Stage::ProbeRootfs => "rootfs.ext4"@,
            Stage::ProbeFifo => "metrics.fifo"@,
            Stage::ProbeLog => "firecracker.log"@,
            Stage::ProbeKvm => "/dev/kvm"@,
            Stage::ProbeTun => "/dev/net/tun"@,
            _ => ""@,
        }
    }

    fn name(&self) -> (r: &'static str)
        ensures
            r@ == self.probed_name(),
    {
        match self {
            Stage::ProbeKernel => "kernel.img",
            Stage::ProbeRootfs => "rootfs.ext4",
            Stage::ProbeFifo => "metrics.fifo",
            Stage::ProbeLog => "firecracker.log",
            Stage::ProbeKvm => "/dev/kvm",
            Stage::ProbeTun => "/dev/net/tun",
            _ => "",
        }
    }

    /// Whether a file is opened by its name in a directory at this stage.
    pub open spec fn probes_in_dir(self) -> bool {
        Stage::ProbeKernel.place() <= self.place() <= Stage::ProbeLog.place()
    }

    /// Whether a file is opened and timed at this stage.
    pub open spec fn probes(self) -> bool {
        self.probes_in_dir() || self == Stage::ProbeKvm || self == Stage::ProbeTun
    }
}

/// A multi-file run.
#[derive(Debug, PartialEq, Eq)]
pub struct MultiFileRun {
    pub chroot_dir: HostPath,
    pub isolation: Isolation,
    pub stage: Stage,
    pub base_dir: HostPath,
    pub timings: BenchTimings,
    pub per_file_ns: Vec<(String, u128)>,
}

/// The state of a multi-file run.
#[verifier::ext_equal]
pub struct MultiFileState {
    pub chroot_dir: Seq<u8>,
    pub isolation: Isolation,
    pub stage: Stage,
    pub base_dir: Seq<u8>,
    pub timings: BenchTimings,
    pub opens: Seq<(Seq<char>, u128)>,
}

impl View for MultiFileRun {
    type V = MultiFileState;

    open spec fn view(&self) -> MultiFileState {
        MultiFileState {
            chroot_dir: self.chroot_dir@,
            isolation: self.isolation,
            stage: self.stage,
            base_dir: self.base_dir@,
            timings: self.timings,
            opens: pair_views(self.per_file_ns@),
        }
    }
}

impl MultiFileState {
    /// The path of the fixture or of the directory that the current stage is about.
    pub open spec fn path(self) -> Seq<u8> {
        let staged_run = joined(self.chroot_dir, encode_utf8("run"@));
        let run = joined(self.base_dir, encode_utf8("run"@));
        match self.stage {
            Stage::Kernel => joined(self.chroot_dir, encode_utf8("kernel.img"@)),
            Stage::Rootfs => joined(self.chroot_dir, encode_utf8("rootfs.ext4"@)),
            Stage::RunDir => staged_run,
            Stage::Fifo => joined(staged_run, encode_utf8("metrics.fifo"@)),
            Stage::Log => joined(staged_run, encode_utf8("firecracker.log"@)),
            Stage::OpenBase => self.base_dir,
            Stage::OpenRun => run,
            Stage::ProbeKernel | Stage::ProbeRootfs => joined(
                self.base_dir,
                encode_utf8(self.stage.probed_name()),
            ),
            Stage::ProbeFifo | Stage::ProbeLog => joined(
                run,
                encode_utf8(self.stage.probed_name()),
            ),
            _ => encode_utf8(self.stage.probed_name()),
        }
    }

    /// What the current stage asks for. A path that goes to the C side must not hold a zero.
    pub open spec fn asked(self) -> ProbeMove {
        let path = self.path();
        match self.stage {
            Stage::Kernel => ProbeMove::WriteFile(path, "pretend-kernel-image"@),
            Stage::Rootfs => ProbeMove::WriteFile(path, "pretend-rootfs-image"@),
            Stage::RunDir => ProbeMove::CreateDir(path),
            Stage::Fifo => if path.contains(0) {
                ProbeMove::Fail(false, ProbeFailure::Nul(path))
            } else {
                ProbeMove::MakeFifo(path)
            },
            Stage::Log => ProbeMove::WriteFile(path, ""@),
            Stage::Setup => ProbeMove::RunSetup(self.isolation),
            Stage::OpenBase => if path.contains(0) {
                ProbeMove::Fail(false, ProbeFailure::Nul(path))
            } else {
                ProbeMove::OpenDir(ProbeDir::Base, path)
            },
            Stage::OpenRun => if path.contains(0) {
                ProbeMove::Fail(false, ProbeFailure::Nul(path))
            } else {
                ProbeMove::OpenDir(ProbeDir::Run, path)
            },
            Stage::ProbeKernel | Stage::ProbeRootfs => ProbeMove::ProbeAt(
                ProbeDir::Base,
                self.stage.probed_name(),
            ),
            Stage::ProbeFifo | Stage::ProbeLog => ProbeMove::ProbeAt(
                ProbeDir::Run,
                self.stage.probed_name(),
            ),
            Stage::Close => ProbeMove::CloseDirs,
            Stage::ProbeKvm | Stage::ProbeTun => ProbeMove::ProbePath(self.stage.probed_name()),
            Stage::Report | Stage::Over => ProbeMove::Print(
                multi_file_report(self.timings, self.opens),
            ),
        }
    }

    /// Whether the event is the one that the run waits for.
    pub open spec fn expects(self, event: ProbeEvent) -> bool {
        match event {
            ProbeEvent::FileWritten(_) => self.stage == Stage::Kernel || self.stage
                == Stage::Rootfs || self.stage == Stage::Log,
            ProbeEvent::DirCreated(_) => self.stage == Stage::RunDir,
            ProbeEvent::FifoMade(_) => self.stage == Stage::Fifo,
            ProbeEvent::SetUp(_) => self.stage == Stage::Setup,
            ProbeEvent::DirOpened(_) => self.stage == Stage::OpenBase || self.stage
                == Stage::OpenRun,
            ProbeEvent::Probed(_) => self.stage.probes(),
            ProbeEvent::DirsClosed => self.stage == Stage::Close,
        }
    }

    /// Goes on with the next stage; a run whose path cannot go to the C side is over.
    pub open spec fn advanced(self) -> (MultiFileState, ProbeMove) {
        let state = MultiFileState { stage: self.stage.following(), ..self };
        match state.asked() {
            ProbeMove::Fail(..) => (MultiFileState { stage: Stage::Over, ..self }, state.asked()),
            _ => (state, state.asked()),
        }
    }

    /// Ends with a failure.
    pub open spec fn failed(self, failure: ProbeFailure) -> (MultiFileState, ProbeMove) {
        (
            MultiFileState { stage: Stage::Over, ..self },
            ProbeMove::Fail(self.stage.probes_in_dir(), failure),
        )
    }

    /// The state after an event, and what is to be done then.
    pub open spec fn after(self, event: ProbeEvent) -> (MultiFileState, ProbeMove) {
        match event {
            ProbeEvent::FileWritten(Ok(_)) | ProbeEvent::DirCreated(Ok(_)) | ProbeEvent::FifoMade(
                Ok(_),
            ) | ProbeEvent::DirOpened(Ok(_)) | ProbeEvent::DirsClosed => self.advanced(),
            ProbeEvent::SetUp(Ok((timings, base_dir))) => (MultiFileState {
                timings,
                base_dir: base_dir@,
                ..self
            }).advanced(),
            ProbeEvent::Probed(Ok(ns)) => (MultiFileState {
                opens: self.opens.push((self.stage.probed_name(), ns)),
                ..self
            }).advanced(),
            ProbeEvent::FileWritten(Err(FixtureError::NotCreated(cause))) => self.failed(
                ProbeFailure::FileOpen(self.path(), cause@),
            ),
            ProbeEvent::FileWritten(Err(FixtureError::NotFilled(cause))) => self.failed(
                ProbeFailure::Write(self.path(), cause@),
            ),
            ProbeEvent::DirCreated(Err(cause)) => self.failed(
                ProbeFailure::CreateDir(self.path(), cause@),
            ),
            ProbeEvent::FifoMade(Err(cause)) | ProbeEvent::DirOpened(Err(cause))
            | ProbeEvent::Probed(Err(cause)) => self.failed(
                ProbeFailure::FileOpen(self.path(), cause@),
            ),
            ProbeEvent::SetUp(Err(error)) => self.failed(ProbeFailure::Setup(error)),
        }
    }
}

/// A run that was begun in the jail at `chroot_dir` with `isolation`, and has done nothing yet.
pub open spec fn is_start(run: MultiFileState, chroot_dir: Seq<u8>, isolation: Isolation) -> bool {
    &&& run.chroot_dir == chroot_dir
    &&& run.isolation == isolation
    &&& run.stage == Stage::Kernel
    &&& run.opens == Seq::<(Seq<char>, u128)>::empty()
}

/// Begins a multi-file run in the jail at `chroot_dir`. The first action is to stage the
/// kernel image; every later one is what `MultiFileRun::step` answers to the outcome of the
/// one before it.
pub fn run_multi_file_open_mode(chroot_dir: &HostPath, isolation: Isolation) -> (r: (
    MultiFileRun,
    ProbeAction,
))
    ensures
        is_start(r.0@, chroot_dir@, isolation),
        asks(r.1, r.0@.asked()),
{
    let run = MultiFileRun {
        chroot_dir: chroot_dir.clone(),
        isolation,
        stage: Stage::Kernel,
        base_dir: HostPath::from_text(""),
        timings: BenchTimings {
            condition: String::new(),
            total_setup_ns: 0,
            phases: Vec::new(),
        },
        per_file_ns: Vec::new(),
    };
    assert(pair_views(run.per_file_ns@) =~= Seq::<(Seq<char>, u128)>::empty());
    let action = ProbeAction::WriteFile(run.path(), "pretend-kernel-image");
    (run, action)
}

impl MultiFileRun {
    /// The path of the fixture or of the directory that the current stage is about.
    fn path(&self) -> (r: HostPath)
        ensures
            r@ == self@.path(),
    {
        match self.stage {
            Stage::Kernel => self.chroot_dir.join_text("kernel.img"),
            Stage::Rootfs => self.chroot_dir.join_text("rootfs.ext4"),
            Stage::RunDir => self.chroot_dir.join_text("run"),
            Stage::Fifo => self.chroot_dir.join_text("run").join_text("metrics.fifo"),
            Stage::Log => self.chroot_dir.join_text("run").join_text("firecracker.log"),
            Stage::OpenBase => self.base_dir.clone(),
            Stage::OpenRun => self.base_dir.join_text("run"),
            Stage::ProbeKernel | Stage::ProbeRootfs => self.base_dir.join_text(self.stage.name()),
            Stage::ProbeFifo | Stage::ProbeLog => self.base_dir.join_text("run").join_text(
                self.stage.name(),
            ),
            _ => HostPath::from_text(self.stage.name()),
        }
    }

    /// An action on a path that goes to the C side, or the end of the run where the path holds
    /// a zero.
    fn unless_nul(&mut self, path: &HostPath, action: ProbeAction) -> (r: ProbeAction)
        ensures
            if path@.contains(0) {
                &&& final(self)@ == (MultiFileState { stage: Stage::Over, ..old(self)@ })
                &&& asks(r, ProbeMove::Fail(false, ProbeFailure::Nul(path@)))
            } else {
                *final(self) == *old(self) && r == action
            },
    {
        match find_nul(path.bytes.as_slice()) {
            Some(position) => {
                assert(path@.contains(path@[position as int]));
                self.stage = Stage::Over;
                ProbeAction::Fail {
                    close_dirs: false,
                    error: JailerError::CStringParsing(
                        NulError { position, bytes: slice_to_vec(path.bytes.as_slice()) },
                    ),
                }
            },
            None => action,
        }
    }

    /// Goes on with the next stage.
    fn advance(&mut self) -> (r: ProbeAction)
        ensures
            final(self)@ == old(self)@.advanced().0,
            asks(r, old(self)@.advanced().1),
    {
        self.stage = self.stage.next();
        let path = self.path();
        match self.stage {
            Stage::Kernel => ProbeAction::WriteFile(path, "pretend-kernel-image"),
            Stage::Rootfs => ProbeAction::WriteFile(path, "pretend-rootfs-image"),
            Stage::RunDir => ProbeAction::CreateDir(path),
            Stage::Fifo => self.unless_nul(
                &path,
                ProbeAction::MakeFifo(path.clone(), FIFO_MODE),
            ),
            Stage::Log => ProbeAction::WriteFile(path, ""),
            Stage::Setup => ProbeAction::RunSetup(self.isolation),
            Stage::OpenBase => self.unless_nul(
                &path,
                ProbeAction::OpenDir(ProbeDir::Base, path.clone(), dir_flags()),
            ),
            Stage::OpenRun => self.unless_nul(
                &path,
                ProbeAction::OpenDir(ProbeDir::Run, path.clone(), dir_flags()),
            ),
            Stage::ProbeKernel | Stage::ProbeRootfs => ProbeAction::ProbeAt(
                ProbeDir::Base,
                self.stage.name(),
                file_flags(),
            ),
            Stage::ProbeFifo | Stage::ProbeLog => ProbeAction::ProbeAt(
                ProbeDir::Run,
                self.stage.name(),
                file_flags(),
            ),
            Stage::Close => ProbeAction::CloseDirs,
            Stage::ProbeKvm | Stage::ProbeTun => ProbeAction::ProbePath(
                self.stage.name(),
                file_flags(),
            ),
            Stage::Report | Stage::Over => ProbeAction::Print(
                multi_file_json(&self.timings, self.per_file_ns.as_slice()),
            ),
        }
    }

    /// Ends with a failure.
    fn fail(&mut self, error: JailerError) -> (r: ProbeAction)
        ensures
            final(self)@ == (MultiFileState { stage: Stage::Over, ..old(self)@ }),
            r == (ProbeAction::Fail { close_dirs: old(self).stage.probes_in_dir(), error }),
    {
        let close_dirs = match self.stage {
            Stage::ProbeKernel | Stage::ProbeRootfs | Stage::ProbeFifo | Stage::ProbeLog => true,
            _ => false,
        };
        self.stage = Stage::Over;
        ProbeAction::Fail { close_dirs, error }
    }

    /// Takes the outcome of the last action and tells the next one. The paths of the named pipe
    /// and of the directories that are opened must be texts; no other action asks for that.
    pub fn step(&mut self, event: ProbeEvent) -> (r: ProbeAction)
        requires
            old(self)@.expects(event),
            event matches ProbeEvent::DirCreated(Ok(_)) ==> valid_utf8(old(self)@.chroot_dir),
            event matches ProbeEvent::SetUp(Ok(done)) ==> valid_utf8(done.1@),
        ensures
            final(self)@ == old(self)@.after(event).0,
            asks(r, old(self)@.after(event).1),
    {
        match event {
            ProbeEvent::FileWritten(Ok(_)) | ProbeEvent::DirCreated(Ok(_)) | ProbeEvent::FifoMade(
                Ok(_),
            ) | ProbeEvent::DirOpened(Ok(_)) | ProbeEvent::DirsClosed => self.advance(),
            ProbeEvent::SetUp(Ok((timings, base_dir))) => {
                self.timings = timings;
                self.base_dir = base_dir;
                self.advance()
            },
            ProbeEvent::Probed(Ok(ns)) => {
                let name = self.stage.name().to_owned();
                let ghost before = pair_views(self.per_file_ns@);
                self.per_file_ns.push((name, ns));
                assert(pair_views(self.per_file_ns@) =~= before.push((name@, ns)));
                self.advance()
            },
            ProbeEvent::FileWritten(Err(FixtureError::NotCreated(cause))) => {
                let path = self.path();
                self.fail(JailerError::FileOpen(path, cause))
            },
            ProbeEvent::FileWritten(Err(FixtureError::NotFilled(cause))) => {
                let path = self.path();
                self.fail(JailerError::Write(path, cause))
            },
            ProbeEvent::DirCreated(Err(cause)) => {
                let path = self.path();
                self.fail(JailerError::CreateDir(path, cause))
            },
            ProbeEvent::FifoMade(Err(cause)) | ProbeEvent::DirOpened(Err(cause))
            | ProbeEvent::Probed(Err(cause)) => {
                let path = self.path();
                self.fail(JailerError::FileOpen(path, cause))
            },
            ProbeEvent::SetUp(Err(error)) => self.fail(error),
        }
    }
}

/// The state of a run after a row of events.
pub open spec fn state_after(run: MultiFileState, events: Seq<ProbeEvent>) -> MultiFileState
    decreases events.len(),
{
    if events.len() == 0 {
        run
    } else {
        state_after(run, events.drop_last()).after(events.last()).0
    }
}

/// Whether every event of the row is the one that the run waits for.
pub open spec fn is_history(run: MultiFileState, events: Seq<ProbeEvent>) -> bool
    decreases events.len(),
{
    events.len() > 0 ==> is_history(run, events.drop_last()) && state_after(
        run,
        events.drop_last(),
    ).expects(events.last())
}

/// The names of what has been opened before a stage.
pub open spec fn opened_before(stage: Stage) -> Seq<Seq<char>> {
    let all = seq![
        "kernel.img"@,
        "rootfs.ext4"@,
        "metrics.fifo"@,
        "firecracker.log"@,
        "/dev/kvm"@,
        "/dev/net/tun"@,
    ];
    if stage.place() <= Stage::ProbeKernel.place() {
        all.take(0)
    } else if stage.place() <= Stage::Close.place() {
        all.take(stage.place() - Stage::ProbeKernel.place())
    } else if stage.place() <= Stage::Report.place() {
        all.take(stage.place() - Stage::ProbeKernel.place() - 1)
    } else {
        all
    }
}

/// Every fixture is staged before the process is isolated, and every probe comes after that.
pub proof fn law_fixtures_precede_isolation(state: MultiFileState)
    ensures
        match state.asked() {
            ProbeMove::WriteFile(..) | ProbeMove::CreateDir(_) | ProbeMove::MakeFifo(_) => {
                state.stage.place() < Stage::Setup.place()
            },
            ProbeMove::RunSetup(_) => state.stage == Stage::Setup,
            ProbeMove::OpenDir(..) | ProbeMove::ProbeAt(..) | ProbeMove::ProbePath(_)
            | ProbeMove::CloseDirs | ProbeMove::Print(_) => {
                state.stage.place() > Stage::Setup.place()
            },
            ProbeMove::Fail(..) => true,
        },
{
}

/// A run goes through its stages one by one, and its report names the files that it has opened,
/// in the order in which they were opened: at the end the four files of the jail, and then the
/// two devices.
pub proof fn law_report_names_every_probe(run: MultiFileState, events: Seq<ProbeEvent>)
    requires
        run.stage == Stage::Kernel,
        run.opens.len() == 0,
        is_history(run, events),
        state_after(run, events).stage != Stage::Over,
    ensures
        state_after(run, events).stage.place() == events.len(),
        state_after(run, events).opens.map_values(|open: (Seq<char>, u128)| open.0)
            == opened_before(state_after(run, events).stage),
    decreases events.len(),
{
    let names = |open: (Seq<char>, u128)| open.0;
    let state = state_after(run, events);
    if events.len() == 0 {
        assert(run.opens.map_values(names) =~= opened_before(Stage::Kernel));
    } else {
        let before = state_after(run, events.drop_last());
        law_report_names_every_probe(run, events.drop_last());
        match events.last() {
            ProbeEvent::Probed(Ok(ns)) => {
                let name = before.stage.probed_name();
                assert(before.opens.push((name, ns)).map_values(names)
                    =~= before.opens.map_values(names).push(name));
                assert(opened_before(before.stage).push(name) =~= opened_before(state.stage));
            },
            _ => {},
        }
    }
}

} // verus!
