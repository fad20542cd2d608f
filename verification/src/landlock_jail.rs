//! File system isolation with Landlock.
//!
//! No mount namespace and no new root are involved: the rules are attached to the calling
//! thread, survive `execve()` and are inherited by every thread that Firecracker spawns. So
//! every path that Firecracker is given must be a host path beneath one of the rules.
//!
//! The kernel does the work; what is decided here is which rights are handled, which rules are
//! added in which order, and what each outcome leads to.

use landlock::Access;
use vstd::prelude::*;
use vstd::string::*;
use vstd::utf8::*;

use crate::error::JailerError;
use crate::path::{lossy, HostPath};

verus! {

/// A right over files that Landlock mediates.
#[derive(Debug, Clone, Copy, PartialEq, Eq, Structural)]
pub enum AccessFs {
    /// Execute a file.
    Execute,
    /// Open a file for writing.
    WriteFile,
    /// Open a file for reading.
    ReadFile,
    /// Open or list a directory.
    ReadDir,
    /// Remove or rename an empty directory.
    RemoveDir,
    /// Unlink or rename a file.
    RemoveFile,
    /// Create a character device.
    MakeChar,
    /// Create a directory.
    MakeDir,
    /// Create a regular file.
    MakeReg,
    /// Create a UNIX domain socket.
    MakeSock,
    /// Create a named pipe.
    MakeFifo,
    /// Create a block device.
    MakeBlock,
    /// Create a symbolic link.
    MakeSym,
    /// Link or rename a file across directories.
    Refer,
    /// Truncate a file.
    Truncate,
    /// Send commands to a device file.
    IoctlDev,
}

/// The place of a right in the kernel's bit masks.
pub open spec fn right_index(right: AccessFs) -> u64 {
    match right {
        AccessFs::Execute => 0,
        AccessFs::WriteFile => 1,
        AccessFs::ReadFile => 2,
        AccessFs::ReadDir => 3,
        AccessFs::RemoveDir => 4,
        AccessFs::RemoveFile => 5,
        AccessFs::MakeChar => 6,
        AccessFs::MakeDir => 7,
        AccessFs::MakeReg => 8,
        AccessFs::MakeSock => 9,
        AccessFs::MakeFifo => 10,
        AccessFs::MakeBlock => 11,
        AccessFs::MakeSym => 12,
        AccessFs::Refer => 13,
        AccessFs::Truncate => 14,
        AccessFs::IoctlDev => 15,
    }
}

impl AccessFs {
    /// The bit of this right in the kernel's masks.
    pub fn bit(&self) -> (r: u64)
        ensures
            r == 1u64 << right_index(*self),
    {
        let index: u64 = match self {
            AccessFs::Execute => 0,
            AccessFs::WriteFile => 1,
            AccessFs::ReadFile => 2,
            AccessFs::ReadDir => 3,
            AccessFs::RemoveDir => 4,
            AccessFs::RemoveFile => 5,
            AccessFs::MakeChar => 6,
            AccessFs::MakeDir => 7,
            AccessFs::MakeReg => 8,
            AccessFs::MakeSock => 9,
            AccessFs::MakeFifo => 10,
            AccessFs::MakeBlock => 11,
            AccessFs::MakeSym => 12,
            AccessFs::Refer => 13,
            AccessFs::Truncate => 14,
            AccessFs::IoctlDev => 15,
        };
        1u64 << index
    }
}

/// A set of rights, as the kernel's bit mask.
#[derive(Debug, Clone, Copy, PartialEq, Eq, Structural)]
pub struct AccessSet {
    pub bits: u64,
}

impl View for AccessSet {
    type V = Set<AccessFs>;

    open spec fn view(&self) -> Set<AccessFs> {
        let bits = self.bits;
        Set::new(|right: AccessFs| bits & (1u64 << right_index(right)) != 0)
    }
}

impl AccessSet {
    /// Whether the mask has no bit but those of the sixteen rights.
    pub open spec fn valid(self) -> bool {
        self.bits <= 0xffff
    }

    /// The set that holds one right.
    pub fn of(right: AccessFs) -> (r: Self)
        ensures
            r.valid(),
            r@ == set![right],
            r.bits == 0u64 | (1u64 << right_index(right)),
    {
        let empty = AccessSet { bits: 0 };
        proof {
            assert forall|other: AccessFs| !empty@.contains(other) by {
                let i = right_index(other);
                assert(0u64 & (1u64 << i) == 0) by (bit_vector);
            }
            assert(empty@ =~= Set::empty());
        }
        empty.and(right)
    }

    /// This set with one right more.
    pub fn and(&self, right: AccessFs) -> (r: Self)
        ensures
            r@ == self@.insert(right),
            self.valid() ==> r.valid(),
            r.bits == self.bits | (1u64 << right_index(right)),
    {
        let r = AccessSet { bits: self.bits | right.bit() };
        proof {
            let bits = self.bits;
            let i = right_index(right);
            assert forall|other: AccessFs| r@.contains(other) == self@.insert(right).contains(
                other,
            ) by {
                let j = right_index(other);
                assert(((bits | (1u64 << i)) & (1u64 << j) != 0) == (bits & (1u64 << j) != 0 || i
                    == j)) by (bit_vector)
                    requires
                        i < 16,
                        j < 16,
                ;
            }
            assert(r@ =~= self@.insert(right));
            if self.valid() {
                assert(bits | (1u64 << i) <= 0xffff) by (bit_vector)
                    requires
                        i < 16,
                        bits <= 0xffff,
                ;
            }
        }
        r
    }
}

/// `AccessFs::from_all(ABI::V7)` of the landlock crate: the mask of all sixteen rights that
/// the seventh version of the kernel interface knows.
#[verifier::external_body]
fn all_rights() -> (r: u64)
    ensures
        r == 0xffff,
{
    landlock::AccessFs::from_all(landlock::ABI::V7).bits()
}

/// The rights that the ruleset handles: everywhere, and not only beneath the listed paths,
/// they are denied unless a rule grants them.
pub fn handled_access() -> (r: AccessSet)
    ensures
        forall|right: AccessFs| r@.contains(right),
        r.bits == 0xffff,
{
    let r = AccessSet { bits: all_rights() };
    proof {
        assert forall|right: AccessFs| r@.contains(right) by {
            let i = right_index(right);
            assert(0xffffu64 & (1u64 << i) != 0) by (bit_vector)
                requires
                    i < 16,
            ;
        }
    }
    r
}

/// One rule: grant `access` on the subtree rooted at `path`.
#[derive(Debug, PartialEq, Eq)]
pub struct RuleSpec {
    pub path: HostPath,
    pub access: AccessSet,
    /// Whether a path that does not exist on this host is skipped instead of being a failure.
    pub optional: bool,
}

/// What a rule says.
#[verifier::ext_equal]
pub struct Rule {
    pub path: Seq<u8>,
    pub access: Set<AccessFs>,
    pub optional: bool,
}

impl View for RuleSpec {
    type V = Rule;

    open spec fn view(&self) -> Rule {
        Rule { path: self.path@, access: self.access@, optional: self.optional }
    }
}

impl RuleSpec {
    /// A rule whose path must exist.
    pub fn required(path: HostPath, access: AccessSet) -> (r: Self)
        ensures
            r@ == (Rule { path: path@, access: access@, optional: false }),
            r.access == access,
    {
        RuleSpec { path, access, optional: false }
    }

    /// A rule whose path may be absent.
    pub fn optional(path: HostPath, access: AccessSet) -> (r: Self)
        ensures
            r@ == (Rule { path: path@, access: access@, optional: true }),
            r.access == access,
    {
        RuleSpec { path, access, optional: true }
    }
}

/// What the rules of a table say.
pub open spec fn rules_of(rules: Seq<RuleSpec>) -> Seq<Rule> {
    rules.map_values(|rule: RuleSpec| rule@)
}

/// Whether the masks of all rules have no bit but those of the sixteen rights.
pub open spec fn masks_are_valid(rules: Seq<RuleSpec>) -> bool {
    forall|i: int| 0 <= i < rules.len() ==> (#[trigger] rules[i]).access.valid()
}

/// Further paths that tracing the chroot jailer and Firecracker has turned up: none so far.
pub fn strace_discovered_rules() -> (r: Vec<RuleSpec>)
    ensures
        rules_of(r@) == Seq::<Rule>::empty(),
{
    let r: Vec<RuleSpec> = Vec::new();
    assert(rules_of(r@) =~= Seq::<Rule>::empty());
    r
}

/// The rules of a jail.
pub open spec fn rule_table(
    jail_root: Seq<u8>,
    exec_file: Seq<u8>,
    api_sock_dir: Option<Seq<u8>>,
) -> Seq<Rule> {
    let fixed = seq![
        Rule {
            path: jail_root,
            access: set![
                AccessFs::ReadFile,
                AccessFs::WriteFile,
                AccessFs::Truncate,
                AccessFs::ReadDir,
                AccessFs::MakeReg,
                AccessFs::MakeDir,
                AccessFs::RemoveFile,
            ],
            optional: false,
        },
        Rule {
            path: exec_file,
            access: set![AccessFs::ReadFile, AccessFs::Execute],
            optional: false,
        },
        Rule {
            path: encode_utf8("/dev/kvm"@),
            access: set![AccessFs::ReadFile, AccessFs::WriteFile, AccessFs::IoctlDev],
            optional: false,
        },
        Rule {
            path: encode_utf8("/dev/net/tun"@),
            access: set![AccessFs::ReadFile, AccessFs::WriteFile, AccessFs::IoctlDev],
            optional: false,
        },
        Rule {
            path: encode_utf8("/dev/urandom"@),
            access: set![AccessFs::ReadFile],
            optional: true,
        },
        Rule {
            path: encode_utf8("/dev/userfaultfd"@),
            access: set![AccessFs::ReadFile, AccessFs::WriteFile],
            optional: true,
        },
    ];
    match api_sock_dir {
        Some(dir) => fixed.push(
            Rule {
                path: dir,
                access: set![AccessFs::MakeSock, AccessFs::ReadFile, AccessFs::WriteFile],
                optional: false,
            },
        ),
        None => fixed,
    }
}

/// The view of an optional path.
pub open spec fn path_view(path: Option<&HostPath>) -> Option<Seq<u8>> {
    match path {
        Some(path) => Some(path@),
        None => None,
    }
}

/// Builds the rules of a jail.
///
/// * `jail_root`: everything that Firecracker reads or writes for its microVM.
/// * `exec_file`: the Firecracker binary, which is not copied into the jail.
/// * `api_sock_dir`: the directory in which the API socket is created, if there is one.
pub fn base_rules(
    jail_root: &HostPath,
    exec_file: &HostPath,
    api_sock_dir: Option<&HostPath>,
) -> (r: Vec<RuleSpec>)
    ensures
        rules_of(r@) == rule_table(jail_root@, exec_file@, path_view(api_sock_dir)),
        masks_are_valid(r@),
{
    let read_write = AccessSet::of(AccessFs::ReadFile).and(AccessFs::WriteFile);
    // Every command to a device is denied unless it is granted here: without this right
    // Firecracker starts, and fails as soon as it creates a virtual CPU.
    let device = read_write.and(AccessFs::IoctlDev);
    let mut rules: Vec<RuleSpec> = Vec::new();
    rules.push(
        RuleSpec::required(
            jail_root.clone(),
            read_write.and(AccessFs::Truncate).and(AccessFs::ReadDir).and(AccessFs::MakeReg).and(
                AccessFs::MakeDir,
            ).and(AccessFs::RemoveFile),
        ),
    );
    rules.push(
        RuleSpec::required(
            exec_file.clone(),
            AccessSet::of(AccessFs::ReadFile).and(AccessFs::Execute),
        ),
    );
    rules.push(RuleSpec::required(HostPath::from_text("/dev/kvm"), device));
    rules.push(RuleSpec::required(HostPath::from_text("/dev/net/tun"), device));
    rules.push(
        RuleSpec::optional(HostPath::from_text("/dev/urandom"), AccessSet::of(AccessFs::ReadFile)),
    );
    rules.push(RuleSpec::optional(HostPath::from_text("/dev/userfaultfd"), read_write));
    if let Some(dir) = api_sock_dir {
        rules.push(
            RuleSpec::required(
                dir.clone(),
                AccessSet::of(AccessFs::MakeSock).and(AccessFs::ReadFile).and(AccessFs::WriteFile),
            ),
        );
    }
    let ghost base = rules_of(rules@);
    let mut discovered = strace_discovered_rules();
    assert(rules_of(discovered@).len() == 0);
    rules.append(&mut discovered);
    proof {
        assert(rules_of(rules@) =~= base);
        let table = rule_table(jail_root@, exec_file@, path_view(api_sock_dir));
        assert(base.len() == table.len());
        assert(base[0].access =~= table[0].access);
        assert(base[1].access =~= table[1].access);
        assert(base[2].access =~= table[2].access);
        assert(base[3].access =~= table[3].access);
        assert(base[4].access =~= table[4].access);
        assert(base[5].access =~= table[5].access);
        if api_sock_dir is Some {
            assert(base[6].access =~= table[6].access);
        }
        assert(base =~= table);
    }
    rules
}

/// How far the kernel enforces a ruleset.
#[derive(Debug, Clone, Copy, PartialEq, Eq, Structural)]
pub enum RulesetStatus {
    /// Every requested restriction is in force.
    FullyEnforced,
    /// Some of the requested restrictions are in force.
    PartiallyEnforced,
    /// No requested restriction is in force.
    NotEnforced,
}

/// The name of a status.
pub open spec fn status_name(status: RulesetStatus) -> Seq<char> {
    match status {
        RulesetStatus::FullyEnforced => "FullyEnforced"@,
        RulesetStatus::PartiallyEnforced => "PartiallyEnforced"@,
        RulesetStatus::NotEnforced => "NotEnforced"@,
    }
}

impl RulesetStatus {
    /// The name of this status.
    pub fn name(&self) -> (r: &'static str)
        ensures
            r@ == status_name(*self),
    {
        match self {
            RulesetStatus::FullyEnforced => "FullyEnforced",
            RulesetStatus::PartiallyEnforced => "PartiallyEnforced",
            RulesetStatus::NotEnforced => "NotEnforced",
        }
    }
}

/// What the kernel reports of a process that has restricted itself.
#[derive(Debug, Clone, Copy, PartialEq, Eq, Structural)]
pub struct RestrictionStatus {
    pub ruleset: RulesetStatus,
    /// Whether the process can no longer gain privileges.
    pub no_new_privs: bool,
}

/// How long the three phases of `apply_landlock` took, in nanoseconds.
#[derive(Debug, Clone, Copy, PartialEq, Eq, Structural)]
pub struct LandlockTimings {
    pub ruleset_create_ns: u128,
    pub add_rules_ns: u128,
    pub restrict_self_ns: u128,
}

/// What came of an action of a run. `at_ns` is the clock reading at which it ended.
#[derive(Debug, PartialEq, Eq)]
pub enum LandlockEvent {
    /// The ruleset was created, or could not be.
    Created { started_ns: u128, at_ns: u128, outcome: Result<(), String> },
    /// The path of the current rule was opened, or could not be.
    Opened { at_ns: u128, outcome: Result<(), String> },
    /// The current rule was added, or could not be.
    Added { at_ns: u128, outcome: Result<(), String> },
    /// The ruleset was put in force, or could not be.
    Restricted { at_ns: u128, reported: Result<RestrictionStatus, String> },
}

/// What is to be done next.
#[derive(Debug, PartialEq, Eq)]
pub enum LandlockAction {
    /// Create a ruleset that handles these rights.
    CreateRuleset(AccessSet),
    /// Open this path.
    OpenPath(HostPath),
    /// Add a rule that grants these rights beneath the path that was opened last.
    AddRule(AccessSet),
    /// Put the ruleset in force for the calling thread.
    RestrictSelf,
    /// The run is over.
    Finish(Result<LandlockTimings, JailerError>),
}

/// An action, and the warning to print before it.
#[derive(Debug, PartialEq, Eq)]
pub struct LandlockStep {
    pub warning: Option<String>,
    pub action: LandlockAction,
}

/// The event that a run waits for.
#[derive(Debug, Clone, Copy, PartialEq, Eq, Structural)]
pub enum LandlockPhase {
    Creating,
    Opening,
    Adding,
    Restricting,
    Finished,
}

/// A run that attaches the rules of a jail to the calling thread.
#[derive(Debug, PartialEq, Eq)]
pub struct LandlockRun {
    pub rules: Vec<RuleSpec>,
    pub next: usize,
    pub phase: LandlockPhase,
    pub started_ns: u128,
    pub created_ns: u128,
    pub added_ns: u128,
}

/// The state of a run: its rules, how many of them are done, and three clock readings.
pub struct RunState {
    pub rules: Seq<Rule>,
    pub next: nat,
    pub phase: LandlockPhase,
    pub started_ns: u128,
    pub created_ns: u128,
    pub added_ns: u128,
}

impl View for LandlockRun {
    type V = RunState;

    open spec fn view(&self) -> RunState {
        RunState {
            rules: rules_of(self.rules@),
            next: self.next as nat,
            phase: self.phase,
            started_ns: self.started_ns,
            created_ns: self.created_ns,
            added_ns: self.added_ns,
        }
    }
}

/// Why a run failed.
pub enum LandlockFailure {
    RulesetCreate(Seq<char>),
    AddRule(Seq<u8>, Seq<char>),
    RestrictSelf(Seq<char>),
    NoNewPrivs,
    NotEnforced(RulesetStatus),
}

/// The failure that an error reports, if it is one of a run.
pub open spec fn failure_of(error: JailerError) -> Option<LandlockFailure> {
    match error {
        JailerError::LandlockRulesetCreate(cause) => Some(
            LandlockFailure::RulesetCreate(cause@),
        ),
        JailerError::LandlockAddRule(path, cause) => Some(
            LandlockFailure::AddRule(path@, cause@),
        ),
        JailerError::LandlockRestrictSelf(cause) => Some(LandlockFailure::RestrictSelf(cause@)),
        JailerError::NoNewPrivs => Some(LandlockFailure::NoNewPrivs),
        JailerError::LandlockNotEnforced(status) => Some(LandlockFailure::NotEnforced(status)),
        _ => None,
    }
}

/// What an action asks for.
pub enum LandlockMove {
    Create(Set<AccessFs>),
    Open(Seq<u8>),
    Add(Set<AccessFs>),
    Restrict,
    Done(LandlockTimings),
    Fail(LandlockFailure),
}

/// What `action` asks for.
pub open spec fn move_of(action: LandlockAction) -> Option<LandlockMove> {
    match action {
        LandlockAction::CreateRuleset(access) => Some(LandlockMove::Create(access@)),
        LandlockAction::OpenPath(path) => Some(LandlockMove::Open(path@)),
        LandlockAction::AddRule(access) => Some(LandlockMove::Add(access@)),
        LandlockAction::RestrictSelf => Some(LandlockMove::Restrict),
        LandlockAction::Finish(Ok(timings)) => Some(LandlockMove::Done(timings)),
        LandlockAction::Finish(Err(error)) => match failure_of(error) {
            Some(failure) => Some(LandlockMove::Fail(failure)),
            None => None,
        },
    }
}

/// The time between two clock readings.
pub open spec fn between(from_ns: u128, to_ns: u128) -> u128 {
    if from_ns <= to_ns {
        (to_ns - from_ns) as u128
    } else {
        0
    }
}

fn elapsed(from_ns: u128, to_ns: u128) -> (r: u128)
    ensures
        r == between(from_ns, to_ns),
{
    if from_ns <= to_ns {
        to_ns - from_ns
    } else {
        0
    }
}

/// The warning about an optional path that cannot be opened.
pub open spec fn skip_warning(path: Seq<u8>, cause: Seq<char>) -> Seq<char> {
    "Warning! Landlock: skipping optional path "@ + lossy(path) + ": "@ + cause
        + ". Related functionality may be unavailable."@
}

impl RunState {
    /// Whether the event is the one that the run waits for.
    pub open spec fn expects(self, event: LandlockEvent) -> bool {
        match event {
            LandlockEvent::Created { .. } => self.phase == LandlockPhase::Creating,
            LandlockEvent::Opened { .. } => self.phase == LandlockPhase::Opening,
            LandlockEvent::Added { .. } => self.phase == LandlockPhase::Adding,
            LandlockEvent::Restricted { .. } => self.phase == LandlockPhase::Restricting,
        }
    }

    /// Whether there is a current rule wherever one is being opened or added.
    pub open spec fn valid(self) -> bool {
        &&& self.next <= self.rules.len()
        &&& self.phase == LandlockPhase::Opening || self.phase == LandlockPhase::Adding
            ==> self.next < self.rules.len()
        &&& self.phase == LandlockPhase::Restricting ==> self.next == self.rules.len()
    }

    /// Goes on with the next rule, or with the restriction once all rules are done.
    pub open spec fn resumed(self, at_ns: u128) -> (RunState, LandlockMove) {
        if self.next < self.rules.len() {
            (
                RunState { phase: LandlockPhase::Opening, ..self },
                LandlockMove::Open(self.rules[self.next as int].path),
            )
        } else {
            (
                RunState { phase: LandlockPhase::Restricting, added_ns: at_ns, ..self },
                LandlockMove::Restrict,
            )
        }
    }

    /// Ends with a failure.
    pub open spec fn failed(self, failure: LandlockFailure) -> (RunState, LandlockMove) {
        (RunState { phase: LandlockPhase::Finished, ..self }, LandlockMove::Fail(failure))
    }

    /// The state after an event, and what is to be done then.
    pub open spec fn after(self, event: LandlockEvent) -> (RunState, LandlockMove) {
        let rule = self.rules[self.next as int];
        let done = RunState { next: self.next + 1, ..self };
        match event {
            LandlockEvent::Created { started_ns, at_ns, outcome } => match outcome {
                Ok(_) => (RunState { started_ns, created_ns: at_ns, ..self }).resumed(at_ns),
                Err(cause) => self.failed(LandlockFailure::RulesetCreate(cause@)),
            },
            LandlockEvent::Opened { at_ns, outcome } => match outcome {
                Ok(_) => (
                    RunState { phase: LandlockPhase::Adding, ..self },
                    LandlockMove::Add(rule.access),
                ),
                Err(cause) => if rule.optional {
                    done.resumed(at_ns)
                } else {
                    self.failed(LandlockFailure::AddRule(rule.path, cause@))
                },
            },
            LandlockEvent::Added { at_ns, outcome } => match outcome {
                Ok(_) => done.resumed(at_ns),
                Err(cause) => self.failed(LandlockFailure::AddRule(rule.path, cause@)),
            },
            LandlockEvent::Restricted { at_ns, reported } => match reported {
                Ok(status) => if !status.no_new_privs {
                    self.failed(LandlockFailure::NoNewPrivs)
                } else if status.ruleset != RulesetStatus::FullyEnforced {
                    self.failed(LandlockFailure::NotEnforced(status.ruleset))
                } else {
                    (
                        RunState { phase: LandlockPhase::Finished, ..self },
                        LandlockMove::Done(
                            LandlockTimings {
                                ruleset_create_ns: between(self.started_ns, self.created_ns),
                                add_rules_ns: between(self.created_ns, self.added_ns),
                                restrict_self_ns: between(self.added_ns, at_ns),
                            },
                        ),
                    )
                },
                Err(cause) => self.failed(LandlockFailure::RestrictSelf(cause@)),
            },
        }
    }

    /// The warning that an event gives rise to.
    pub open spec fn warning(self, event: LandlockEvent) -> Option<Seq<char>> {
        let rule = self.rules[self.next as int];
        match event {
            LandlockEvent::Opened { at_ns: _, outcome: Err(cause) } => if rule.optional {
                Some(skip_warning(rule.path, cause@))
            } else {
                None
            },
            _ => None,
        }
    }
}

/// The view of an optional text.
pub open spec fn text_view(text: Option<String>) -> Option<Seq<char>> {
    match text {
        Some(text) => Some(text@),
        None => None,
    }
}

/// Begins to attach the rules of a jail to the calling thread. The first action is to create
/// the ruleset; every later one is what `LandlockRun::step` answers to the outcome of the one
/// before it.
///
/// The run must end before the user and group are dropped. `jail_root` must exist: its rule is
/// not optional.
pub fn apply_landlock(
    jail_root: &HostPath,
    exec_file: &HostPath,
    api_sock_dir: Option<&HostPath>,
) -> (r: (LandlockRun, LandlockAction))
    ensures
        r.0@ == start_state(jail_root@, exec_file@, path_view(api_sock_dir)),
        r.0@.valid(),
        masks_are_valid(r.0.rules@),
        r.1 matches LandlockAction::CreateRuleset(access) && access.bits == 0xffff && (forall|
            right: AccessFs,
        |
            access@.contains(right)),
{
    let run = LandlockRun {
        rules: base_rules(jail_root, exec_file, api_sock_dir),
        next: 0,
        phase: LandlockPhase::Creating,
        started_ns: 0,
        created_ns: 0,
        added_ns: 0,
    };
    (run, LandlockAction::CreateRuleset(handled_access()))
}

/// The state in which a run begins.
pub open spec fn start_state(
    jail_root: Seq<u8>,
    exec_file: Seq<u8>,
    api_sock_dir: Option<Seq<u8>>,
) -> RunState {
    RunState {
        rules: rule_table(jail_root, exec_file, api_sock_dir),
        next: 0,
        phase: LandlockPhase::Creating,
        started_ns: 0,
        created_ns: 0,
        added_ns: 0,
    }
}

impl LandlockRun {
    /// Goes on with the next rule, or with the restriction once all rules are done.
    fn resume(&mut self, at_ns: u128) -> (r: LandlockAction)
        requires
            old(self).next <= old(self).rules.len(),
        ensures
            (final(self)@, move_of(r)->0) == old(self)@.resumed(at_ns),
            move_of(r) is Some,
            final(self).rules@ == old(self).rules@,
    {
        let next = self.next;
        if next < self.rules.len() {
            self.phase = LandlockPhase::Opening;
            LandlockAction::OpenPath(self.rules[next].path.clone())
        } else {
            self.phase = LandlockPhase::Restricting;
            self.added_ns = at_ns;
            LandlockAction::RestrictSelf
        }
    }

    /// Ends with a failure.
    fn fail(&mut self, error: JailerError) -> (r: LandlockAction)
        requires
            failure_of(error) is Some,
        ensures
            (final(self)@, move_of(r)->0) == old(self)@.failed(failure_of(error)->0),
            move_of(r) is Some,
            final(self).rules@ == old(self).rules@,
    {
        self.phase = LandlockPhase::Finished;
        LandlockAction::Finish(Err(error))
    }

    /// Takes the outcome of the last action and tells the next one.
    pub fn step(&mut self, event: LandlockEvent) -> (r: LandlockStep)
        requires
            old(self)@.valid(),
            old(self)@.expects(event),
        ensures
            (final(self)@, move_of(r.action)->0) == old(self)@.after(event),
            move_of(r.action) is Some,
            text_view(r.warning) == old(self)@.warning(event),
            final(self)@.valid(),
            final(self).rules@ == old(self).rules@,
            r.action matches LandlockAction::AddRule(access) ==> access
                == old(self).rules@[old(self).next as int].access,
    {
        let next = self.next;
        let total = self.rules.len();
        assert(next <= total);
        let mut warning: Option<String> = None;
        let action = match event {
            LandlockEvent::Created { started_ns, at_ns, outcome } => match outcome {
                Ok(_) => {
                    self.started_ns = started_ns;
                    self.created_ns = at_ns;
                    self.resume(at_ns)
                },
                Err(cause) => self.fail(JailerError::LandlockRulesetCreate(cause)),
            },
            LandlockEvent::Opened { at_ns, outcome } => match outcome {
                Ok(_) => {
                    self.phase = LandlockPhase::Adding;
                    LandlockAction::AddRule(self.rules[next].access)
                },
                Err(cause) => {
                    let path = self.rules[next].path.clone();
                    if self.rules[next].optional {
                        warning = Some(
                            "Warning! Landlock: skipping optional path ".to_owned().concat(
                                path.display().as_str(),
                            ).concat(": ").concat(cause.as_str()).concat(
                                ". Related functionality may be unavailable.",
                            ),
                        );
                        self.next = next + 1;
                        self.resume(at_ns)
                    } else {
                        self.fail(JailerError::LandlockAddRule(path, cause))
                    }
                },
            },
            LandlockEvent::Added { at_ns, outcome } => match outcome {
                Ok(_) => {
                    self.next = next + 1;
                    self.resume(at_ns)
                },
                Err(cause) => {
                    let path = self.rules[next].path.clone();
                    self.fail(JailerError::LandlockAddRule(path, cause))
                },
            },
            LandlockEvent::Restricted { at_ns, reported } => match reported {
                Ok(status) => if !status.no_new_privs {
                    self.fail(JailerError::NoNewPrivs)
                } else if status.ruleset != RulesetStatus::FullyEnforced {
                    // A weaker jail than the caller asked for is refused.
                    self.fail(JailerError::LandlockNotEnforced(status.ruleset))
                } else {
                    self.phase = LandlockPhase::Finished;
                    LandlockAction::Finish(
                        Ok(
                            LandlockTimings {
                                ruleset_create_ns: elapsed(self.started_ns, self.created_ns),
                                add_rules_ns: elapsed(self.created_ns, self.added_ns),
                                restrict_self_ns: elapsed(self.added_ns, at_ns),
                            },
                        ),
                    )
                },
                Err(cause) => self.fail(JailerError::LandlockRestrictSelf(cause)),
            },
        };
        LandlockStep { warning, action }
    }
}

} // verus!
