//! What holds of every rule table and of every run of `landlock_jail`.

use vstd::prelude::*;
use vstd::utf8::*;

use crate::error::JailerError;
use crate::landlock_jail::{
    failure_of, move_of, path_view, right_index, rule_table, rules_of, start_state, status_name,
    AccessFs, AccessSet, LandlockAction, LandlockEvent, LandlockFailure, LandlockMove,
    LandlockPhase, LandlockTimings, Rule, RuleSpec, RulesetStatus, RunState,
};
use crate::path::{lossy, HostPath};

verus! {

/// Two masks with the same rights agree in the bit of every right.
proof fn lemma_same_bit(a: AccessSet, b: AccessSet, right: AccessFs)
    requires
        a@ == b@,
    ensures
        (a.bits & (1u64 << right_index(right)) != 0) == (b.bits & (1u64 << right_index(right))
            != 0),
{
    assert(a@.contains(right) == (a.bits & (1u64 << right_index(right)) != 0));
    assert(b@.contains(right) == (b.bits & (1u64 << right_index(right)) != 0));
}

/// The rights of a valid mask fix its bits: two masks with the same rights are the same.
pub proof fn law_rights_fix_the_mask(a: AccessSet, b: AccessSet)
    requires
        a.valid(),
        b.valid(),
        a@ == b@,
    ensures
        a == b,
{
    let x = a.bits;
    let y = b.bits;
    let i0 = right_index(AccessFs::Execute);
    lemma_same_bit(a, b, AccessFs::Execute);
    let i1 = right_index(AccessFs::WriteFile);
    lemma_same_bit(a, b, AccessFs::WriteFile);
    let i2 = right_index(AccessFs::ReadFile);
    lemma_same_bit(a, b, AccessFs::ReadFile);
    let i3 = right_index(AccessFs::ReadDir);
    lemma_same_bit(a, b, AccessFs::ReadDir);
    let i4 = right_index(AccessFs::RemoveDir);
    lemma_same_bit(a, b, AccessFs::RemoveDir);
    let i5 = right_index(AccessFs::RemoveFile);
    lemma_same_bit(a, b, AccessFs::RemoveFile);
    let i6 = right_index(AccessFs::MakeChar);
    lemma_same_bit(a, b, AccessFs::MakeChar);
    let i7 = right_index(AccessFs::MakeDir);
    lemma_same_bit(a, b, AccessFs::MakeDir);
    let i8 = right_index(AccessFs::MakeReg);
    lemma_same_bit(a, b, AccessFs::MakeReg);
    let i9 = right_index(AccessFs::MakeSock);
    lemma_same_bit(a, b, AccessFs::MakeSock);
    let i10 = right_index(AccessFs::MakeFifo);
    lemma_same_bit(a, b, AccessFs::MakeFifo);
    let i11 = right_index(AccessFs::MakeBlock);
    lemma_same_bit(a, b, AccessFs::MakeBlock);
    let i12 = right_index(AccessFs::MakeSym);
    lemma_same_bit(a, b, AccessFs::MakeSym);
    let i13 = right_index(AccessFs::Refer);
    lemma_same_bit(a, b, AccessFs::Refer);
    let i14 = right_index(AccessFs::Truncate);
    lemma_same_bit(a, b, AccessFs::Truncate);
    let i15 = right_index(AccessFs::IoctlDev);
    lemma_same_bit(a, b, AccessFs::IoctlDev);
    assert(x == y) by (bit_vector)
        requires
            x <= 0xffff,
            y <= 0xffff,
            i0 == 0 && (x & (1u64 << i0) != 0) == (y & (1u64 << i0) != 0),
            i1 == 1 && (x & (1u64 << i1) != 0) == (y & (1u64 << i1) != 0),
            i2 == 2 && (x & (1u64 << i2) != 0) == (y & (1u64 << i2) != 0),
            i3 == 3 && (x & (1u64 << i3) != 0) == (y & (1u64 << i3) != 0),
            i4 == 4 && (x & (1u64 << i4) != 0) == (y & (1u64 << i4) != 0),
            i5 == 5 && (x & (1u64 << i5) != 0) == (y & (1u64 << i5) != 0),
            i6 == 6 && (x & (1u64 << i6) != 0) == (y & (1u64 << i6) != 0),
            i7 == 7 && (x & (1u64 << i7) != 0) == (y & (1u64 << i7) != 0),
            i8 == 8 && (x & (1u64 << i8) != 0) == (y & (1u64 << i8) != 0),
            i9 == 9 && (x & (1u64 << i9) != 0) == (y & (1u64 << i9) != 0),
            i10 == 10 && (x & (1u64 << i10) != 0) == (y & (1u64 << i10) != 0),
            i11 == 11 && (x & (1u64 << i11) != 0) == (y & (1u64 << i11) != 0),
            i12 == 12 && (x & (1u64 << i12) != 0) == (y & (1u64 << i12) != 0),
            i13 == 13 && (x & (1u64 << i13) != 0) == (y & (1u64 << i13) != 0),
            i14 == 14 && (x & (1u64 << i14) != 0) == (y & (1u64 << i14) != 0),
            i15 == 15 && (x & (1u64 << i15) != 0) == (y & (1u64 << i15) != 0),
    ;
}

/// No jail grants a right outside the path that needs it: commands go to `/dev/kvm` and
/// `/dev/net/tun` alone, sockets are created in the directory of the API socket alone, nothing
/// but the executable can be executed, and no rule lets the jailed process create a named pipe,
/// a device or a symbolic link, remove a directory or move files between directories.
pub proof fn law_rights_are_scoped(
    jail_root: Seq<u8>,
    exec_file: Seq<u8>,
    api_sock_dir: Option<Seq<u8>>,
    i: int,
)
    requires
        0 <= i < rule_table(jail_root, exec_file, api_sock_dir).len(),
    ensures
        ({
            let rule = rule_table(jail_root, exec_file, api_sock_dir)[i];
            &&& rule.access.contains(AccessFs::IoctlDev) ==> rule.path == encode_utf8("/dev/kvm"@)
                || rule.path == encode_utf8("/dev/net/tun"@)
            &&& rule.access.contains(AccessFs::MakeSock) ==> Some(rule.path) == api_sock_dir
            &&& rule.access.contains(AccessFs::Execute) ==> rule.path == exec_file
            &&& rule.access.contains(AccessFs::MakeReg) ==> rule.path == jail_root
            &&& rule.access.contains(AccessFs::RemoveFile) ==> rule.path == jail_root
            &&& !rule.access.contains(AccessFs::MakeFifo)
            &&& !rule.access.contains(AccessFs::MakeChar)
            &&& !rule.access.contains(AccessFs::MakeBlock)
            &&& !rule.access.contains(AccessFs::MakeSym)
            &&& !rule.access.contains(AccessFs::RemoveDir)
            &&& !rule.access.contains(AccessFs::Refer)
        }),
{
}

/// Every jail grants what a microVM needs, and just that, whether it exposes an API socket or
/// not: its own directory, the executable, the two devices with their commands, and, where they
/// exist, the two devices that it can do without.
pub proof fn law_every_jail_grants_what_is_needed(
    jail_root: Seq<u8>,
    exec_file: Seq<u8>,
    api_sock_dir: Option<Seq<u8>>,
)
    ensures
        ({
            let table = rule_table(jail_root, exec_file, api_sock_dir);
            &&& table.contains(
                Rule {
                    path: jail_root,
                    access: set![
                        AccessFs::MakeDir,
                        AccessFs::MakeReg,
                        AccessFs::ReadDir,
                        AccessFs::ReadFile,
                        AccessFs::RemoveFile,
                        AccessFs::Truncate,
                        AccessFs::WriteFile,
                    ],
                    optional: false,
                },
            )
            &&& table.contains(
                Rule {
                    path: exec_file,
                    access: set![AccessFs::Execute, AccessFs::ReadFile],
                    optional: false,
                },
            )
            &&& table.contains(
                Rule {
                    path: encode_utf8("/dev/kvm"@),
                    access: set![AccessFs::IoctlDev, AccessFs::ReadFile, AccessFs::WriteFile],
                    optional: false,
                },
            )
            &&& table.contains(
                Rule {
                    path: encode_utf8("/dev/net/tun"@),
                    access: set![AccessFs::IoctlDev, AccessFs::ReadFile, AccessFs::WriteFile],
                    optional: false,
                },
            )
            &&& table.contains(
                Rule {
                    path: encode_utf8("/dev/urandom"@),
                    access: set![AccessFs::ReadFile],
                    optional: true,
                },
            )
            &&& table.contains(
                Rule {
                    path: encode_utf8("/dev/userfaultfd"@),
                    access: set![AccessFs::ReadFile, AccessFs::WriteFile],
                    optional: true,
                },
            )
        }),
{
    let table = rule_table(jail_root, exec_file, api_sock_dir);
    assert(table[0].access =~= set![
        AccessFs::MakeDir,
        AccessFs::MakeReg,
        AccessFs::ReadDir,
        AccessFs::ReadFile,
        AccessFs::RemoveFile,
        AccessFs::Truncate,
        AccessFs::WriteFile,
    ]);
    assert(table[1].access =~= set![AccessFs::Execute, AccessFs::ReadFile]);
    assert(table[2].access =~= set![AccessFs::IoctlDev, AccessFs::ReadFile, AccessFs::WriteFile]);
    assert(table[3].access =~= set![AccessFs::IoctlDev, AccessFs::ReadFile, AccessFs::WriteFile]);
    assert(table.contains(table[0]) && table.contains(table[1]) && table.contains(table[2]));
    assert(table.contains(table[3]) && table.contains(table[4]) && table.contains(table[5]));
}

/// A directory for the API socket adds one rule, which lets the socket be created there, and
/// changes no other.
pub proof fn law_the_socket_adds_one_rule(
    jail_root: Seq<u8>,
    exec_file: Seq<u8>,
    dir: Seq<u8>,
)
    ensures
        rule_table(jail_root, exec_file, None).len() == 6,
        rule_table(jail_root, exec_file, Some(dir)) == rule_table(jail_root, exec_file, None).push(
            Rule {
                path: dir,
                access: set![AccessFs::ReadFile, AccessFs::WriteFile, AccessFs::MakeSock],
                optional: false,
            },
        ),
        rule_table(jail_root, exec_file, Some(dir)).take(6) == rule_table(
            jail_root,
            exec_file,
            None,
        ),
{
    let table = rule_table(jail_root, exec_file, None);
    let longer = rule_table(jail_root, exec_file, Some(dir));
    assert(longer.last().access =~= set![
        AccessFs::ReadFile,
        AccessFs::WriteFile,
        AccessFs::MakeSock,
    ]);
    assert(longer.take(6) =~= table);
}

/// Only the two devices that a microVM can do without are optional: the others must exist, as
/// must the jail, the executable and the directory of the API socket.
pub proof fn law_optional_paths(
    jail_root: Seq<u8>,
    exec_file: Seq<u8>,
    api_sock_dir: Option<Seq<u8>>,
    i: int,
)
    requires
        0 <= i < rule_table(jail_root, exec_file, api_sock_dir).len(),
        rule_table(jail_root, exec_file, api_sock_dir)[i].optional,
    ensures
        ({
            let rule = rule_table(jail_root, exec_file, api_sock_dir)[i];
            rule.path == encode_utf8("/dev/urandom"@) || rule.path == encode_utf8(
                "/dev/userfaultfd"@,
            )
        }),
{
}

/// The state of a run after a row of events.
pub open spec fn state_after(run: RunState, events: Seq<LandlockEvent>) -> RunState
    decreases events.len(),
{
    if events.len() == 0 {
        run
    } else {
        state_after(run, events.drop_last()).after(events.last()).0
    }
}

/// What is to be done after a row of events.
pub open spec fn move_after(run: RunState, events: Seq<LandlockEvent>) -> LandlockMove {
    state_after(run, events.drop_last()).after(events.last()).1
}

/// Whether every event of the row is the one that the run waits for.
pub open spec fn is_history(run: RunState, events: Seq<LandlockEvent>) -> bool
    decreases events.len(),
{
    events.len() > 0 ==> is_history(run, events.drop_last()) && state_after(
        run,
        events.drop_last(),
    ).expects(events.last())
}

/// The rules that the kernel has accepted in the course of a row of events.
pub open spec fn granted(run: RunState, events: Seq<LandlockEvent>) -> Seq<Rule>
    decreases events.len(),
{
    if events.len() == 0 {
        Seq::empty()
    } else {
        let before = granted(run, events.drop_last());
        let state = state_after(run, events.drop_last());
        match events.last() {
            LandlockEvent::Added { at_ns: _, outcome: Ok(_) } => before.push(
                state.rules[state.next as int],
            ),
            _ => before,
        }
    }
}

/// For each rule whose path was tried in the course of a row of events, in the order of the
/// table, whether it could be opened.
pub open spec fn opens(events: Seq<LandlockEvent>) -> Seq<bool>
    decreases events.len(),
{
    if events.len() == 0 {
        Seq::empty()
    } else {
        let before = opens(events.drop_last());
        match events.last() {
            LandlockEvent::Opened { at_ns: _, outcome } => before.push(outcome is Ok),
            _ => before,
        }
    }
}

/// The rules whose mark is set, in their order.
pub open spec fn marked(rules: Seq<Rule>, marks: Seq<bool>) -> Seq<Rule>
    decreases rules.len(),
{
    if rules.len() == 0 {
        rules
    } else {
        let before = marked(rules.drop_last(), marks.drop_last());
        if marks.last() {
            before.push(rules.last())
        } else {
            before
        }
    }
}

/// Whether `chosen` is what is to be granted of `rules`, where `opened` tells which of their
/// paths could be opened: a rule is missing exactly where its path could not be opened, and only
/// an optional rule may be.
pub open spec fn grants(chosen: Seq<Rule>, rules: Seq<Rule>, opened: Seq<bool>) -> bool {
    &&& opened.len() == rules.len()
    &&& chosen == marked(rules, opened)
    &&& forall|i: int| 0 <= i < rules.len() && !opened[i] ==> (#[trigger] rules[i]).optional
}

/// At every point of a run, the accepted rules are the rules that are done and whose path could
/// be opened.
proof fn lemma_granted_so_far(run: RunState, events: Seq<LandlockEvent>)
    requires
        run.phase == LandlockPhase::Creating,
        run.next == 0,
        is_history(run, events),
    ensures
        ({
            let state = state_after(run, events);
            let opened = opens(events);
            let done = run.rules.take(state.next as int);
            &&& state.valid()
            &&& state.rules == run.rules
            &&& match state.phase {
                LandlockPhase::Adding => {
                    &&& opened.len() == state.next + 1
                    &&& opened.last()
                    &&& grants(granted(run, events), done, opened.drop_last())
                },
                LandlockPhase::Finished => true,
                _ => grants(granted(run, events), done, opened),
            }
        }),
    decreases events.len(),
{
    if events.len() == 0 {
        assert(run.rules.take(0) =~= Seq::empty());
    } else {
        lemma_granted_so_far(run, events.drop_last());
        let before = state_after(run, events.drop_last());
        let state = state_after(run, events);
        let opened = opens(events);
        let earlier = opens(events.drop_last());
        if events.last() is Opened {
            assert(opened.drop_last() =~= earlier);
        }
        if state.next == before.next + 1 {
            let n = before.next as int;
            let done = run.rules.take(n + 1);
            assert(done.drop_last() =~= run.rules.take(n));
            assert(done.last() == run.rules[n]);
            assert(granted(run, events) == marked(done, opened));
            assert forall|i: int| 0 <= i < done.len() && !opened[i] implies (
            #[trigger] done[i]).optional by {
                if i < n {
                    assert(run.rules.take(n)[i] == done[i]);
                    assert(opened.drop_last()[i] == opened[i]);
                }
            }
        }
    }
}

/// Whether a run has ended well: the kernel reports that the whole ruleset is in force and that
/// no privileges can be gained.
pub open spec fn fully_enforced(event: LandlockEvent) -> bool {
    event matches LandlockEvent::Restricted { at_ns: _, reported: Ok(status) }
        && status.no_new_privs && status.ruleset == RulesetStatus::FullyEnforced
}

/// A run succeeds exactly where the kernel reports that the whole ruleset is in force and that
/// no privileges can be gained. The kernel has then accepted the rules of the table in their
/// order, but for those whose path could not be opened, and these are optional.
pub proof fn law_success_is_full_enforcement(
    jail_root: Seq<u8>,
    exec_file: Seq<u8>,
    api_sock_dir: Option<Seq<u8>>,
    events: Seq<LandlockEvent>,
)
    requires
        events.len() > 0,
        is_history(start_state(jail_root, exec_file, api_sock_dir), events),
    ensures
        move_after(start_state(jail_root, exec_file, api_sock_dir), events) is Done
            <==> fully_enforced(events.last()),
        fully_enforced(events.last()) ==> grants(
            granted(start_state(jail_root, exec_file, api_sock_dir), events),
            rule_table(jail_root, exec_file, api_sock_dir),
            opens(events),
        ),
{
    let run = start_state(jail_root, exec_file, api_sock_dir);
    lemma_granted_so_far(run, events.drop_last());
    assert(run.rules.take(run.rules.len() as int) =~= run.rules);
}

/// The restriction is asked for only once every rule of the table is done: each was accepted, or
/// it is optional and its path could not be opened.
pub proof fn law_restriction_comes_last(
    jail_root: Seq<u8>,
    exec_file: Seq<u8>,
    api_sock_dir: Option<Seq<u8>>,
    events: Seq<LandlockEvent>,
)
    requires
        events.len() > 0,
        is_history(start_state(jail_root, exec_file, api_sock_dir), events),
    ensures
        move_after(start_state(jail_root, exec_file, api_sock_dir), events) is Restrict ==> grants(
            granted(start_state(jail_root, exec_file, api_sock_dir), events),
            rule_table(jail_root, exec_file, api_sock_dir),
            opens(events),
        ),
{
    let run = start_state(jail_root, exec_file, api_sock_dir);
    lemma_granted_so_far(run, events.drop_last());
    lemma_granted_so_far(run, events);
    assert(run.rules.take(run.rules.len() as int) =~= run.rules);
}

/// The rules of a table are what its rules say, in their order, and a path that is not given is
/// none.
pub proof fn law_rules_say_what_they_hold(rules: Seq<RuleSpec>, i: int, path: HostPath)
    requires
        0 <= i < rules.len(),
    ensures
        rules_of(rules).len() == rules.len(),
        rules_of(rules)[i].path == rules[i].path@,
        rules_of(rules)[i].access == rules[i].access@,
        rules_of(rules)[i].optional == rules[i].optional,
        path_view(Some(&path)) == Some(path@),
        path_view(None) is None,
{
}

/// A mask holds a right exactly where the bit of the right is set in it.
pub proof fn law_masks_hold_their_bits(mask: AccessSet, right: AccessFs)
    ensures
        mask@.contains(right) <==> mask.bits & (1u64 << right_index(right)) != 0,
        right_index(right) < 16,
{
}

/// An action asks for what it holds.
pub proof fn law_actions_ask_for_what_they_hold(
    access: AccessSet,
    path: HostPath,
    timings: LandlockTimings,
    error: JailerError,
)
    ensures
        move_of(LandlockAction::CreateRuleset(access)) == Some(LandlockMove::Create(access@)),
        move_of(LandlockAction::OpenPath(path)) == Some(LandlockMove::Open(path@)),
        move_of(LandlockAction::AddRule(access)) == Some(LandlockMove::Add(access@)),
        move_of(LandlockAction::RestrictSelf) == Some(LandlockMove::Restrict),
        move_of(LandlockAction::Finish(Ok(timings))) == Some(LandlockMove::Done(timings)),
        move_of(LandlockAction::Finish(Err(error))) matches Some(asked) ==> (asked matches
            LandlockMove::Fail(failure) && failure_of(error) == Some(failure)),
{
}

/// A run goes through the table in its order: the path that it asks to open is that of the first
/// rule that was not tried yet, and the rights that it asks to grant are those of the rule whose
/// path was opened just before.
pub proof fn law_runs_follow_the_table(
    jail_root: Seq<u8>,
    exec_file: Seq<u8>,
    api_sock_dir: Option<Seq<u8>>,
    events: Seq<LandlockEvent>,
)
    requires
        events.len() > 0,
        is_history(start_state(jail_root, exec_file, api_sock_dir), events),
    ensures
        ({
            let table = rule_table(jail_root, exec_file, api_sock_dir);
            let tried = opens(events).len() as int;
            match move_after(start_state(jail_root, exec_file, api_sock_dir), events) {
                LandlockMove::Open(path) => tried < table.len() && path == table[tried].path,
                LandlockMove::Add(access) => events.last() is Opened && opens(events).last()
                    && access == table[tried - 1].access,
                LandlockMove::Restrict => tried == table.len(),
                LandlockMove::Create(_) => false,
                _ => true,
            }
        }),
{
    let run = start_state(jail_root, exec_file, api_sock_dir);
    lemma_granted_so_far(run, events.drop_last());
    lemma_granted_so_far(run, events);
}

/// A run fails exactly where something failed that it cannot do without, and the failure names
/// the path of the rule that was tried last and the cause as it was reported. A ruleset that is
/// not wholly in force is refused with its status, unless privileges can still be gained: that
/// is told first.
pub proof fn law_failures_tell_the_cause(
    jail_root: Seq<u8>,
    exec_file: Seq<u8>,
    api_sock_dir: Option<Seq<u8>>,
    events: Seq<LandlockEvent>,
)
    requires
        events.len() > 0,
        is_history(start_state(jail_root, exec_file, api_sock_dir), events),
    ensures
        ({
            let run = start_state(jail_root, exec_file, api_sock_dir);
            let table = rule_table(jail_root, exec_file, api_sock_dir);
            let tried = table[opens(events).len() - 1];
            let asked = move_after(run, events);
            match events.last() {
                LandlockEvent::Created { started_ns: _, at_ns: _, outcome: Err(cause) } => {
                    asked == LandlockMove::Fail(LandlockFailure::RulesetCreate(cause@))
                },
                LandlockEvent::Opened { at_ns: _, outcome: Err(cause) } => if tried.optional {
                    asked is Open || asked is Restrict
                } else {
                    asked == LandlockMove::Fail(LandlockFailure::AddRule(tried.path, cause@))
                },
                LandlockEvent::Added { at_ns: _, outcome: Err(cause) } => asked
                    == LandlockMove::Fail(LandlockFailure::AddRule(tried.path, cause@)),
                LandlockEvent::Restricted { at_ns: _, reported: Err(cause) } => asked
                    == LandlockMove::Fail(LandlockFailure::RestrictSelf(cause@)),
                LandlockEvent::Restricted { at_ns: _, reported: Ok(status) } => {
                    if !status.no_new_privs {
                        asked == LandlockMove::Fail(LandlockFailure::NoNewPrivs)
                    } else if status.ruleset == RulesetStatus::FullyEnforced {
                        asked is Done
                    } else {
                        asked == LandlockMove::Fail(LandlockFailure::NotEnforced(status.ruleset))
                    }
                },
                _ => !(asked is Fail),
            }
        }),
{
    let run = start_state(jail_root, exec_file, api_sock_dir);
    lemma_granted_so_far(run, events.drop_last());
    lemma_granted_so_far(run, events);
}

/// An error tells what failed, and two failures that differ are told by two errors that differ.
pub proof fn law_errors_tell_the_failure(path: HostPath, cause: String, status: RulesetStatus)
    ensures
        failure_of(JailerError::LandlockRulesetCreate(cause)) == Some(
            LandlockFailure::RulesetCreate(cause@),
        ),
        failure_of(JailerError::LandlockAddRule(path, cause)) == Some(
            LandlockFailure::AddRule(path@, cause@),
        ),
        failure_of(JailerError::LandlockRestrictSelf(cause)) == Some(
            LandlockFailure::RestrictSelf(cause@),
        ),
        failure_of(JailerError::NoNewPrivs) == Some(LandlockFailure::NoNewPrivs),
        failure_of(JailerError::LandlockNotEnforced(status)) == Some(
            LandlockFailure::NotEnforced(status),
        ),
{
}

/// A warning comes exactly where a path could not be opened and the run goes on all the same. It
/// names the path of that rule and the cause.
pub proof fn law_skipped_paths_are_told(
    jail_root: Seq<u8>,
    exec_file: Seq<u8>,
    api_sock_dir: Option<Seq<u8>>,
    events: Seq<LandlockEvent>,
)
    requires
        events.len() > 0,
        is_history(start_state(jail_root, exec_file, api_sock_dir), events),
    ensures
        ({
            let run = start_state(jail_root, exec_file, api_sock_dir);
            let table = rule_table(jail_root, exec_file, api_sock_dir);
            let tried = table[opens(events).len() - 1];
            let warning = state_after(run, events.drop_last()).warning(events.last());
            match events.last() {
                LandlockEvent::Opened { at_ns: _, outcome: Err(cause) } => if move_after(
                    run,
                    events,
                ) is Fail {
                    warning is None
                } else {
                    warning == Some(
                        "Warning! Landlock: skipping optional path "@ + lossy(tried.path) + ": "@
                            + cause@ + ". Related functionality may be unavailable."@,
                    )
                },
                _ => warning is None,
            }
        }),
{
    let run = start_state(jail_root, exec_file, api_sock_dir);
    lemma_granted_so_far(run, events.drop_last());
}

/// The clock reading at which what an event tells of had ended.
pub open spec fn ended_at(event: LandlockEvent) -> u128 {
    match event {
        LandlockEvent::Created { started_ns: _, at_ns, outcome: _ } => at_ns,
        LandlockEvent::Opened { at_ns, outcome: _ } => at_ns,
        LandlockEvent::Added { at_ns, outcome: _ } => at_ns,
        LandlockEvent::Restricted { at_ns, reported: _ } => at_ns,
    }
}

/// Whether the clock did not go back between the readings of a row of events.
pub open spec fn clock_goes_on(events: Seq<LandlockEvent>) -> bool {
    &&& events[0] matches LandlockEvent::Created { started_ns, at_ns, outcome: _ } && started_ns
        <= at_ns
    &&& forall|i: int, j: int|
        0 <= i <= j < events.len() ==> ended_at(#[trigger] events[i]) <= ended_at(
            #[trigger] events[j],
        )
}

/// A run keeps the clock readings of its first event, and of the event before the restriction.
proof fn lemma_clock_readings(run: RunState, events: Seq<LandlockEvent>)
    requires
        run.phase == LandlockPhase::Creating,
        run.next == 0,
        is_history(run, events),
    ensures
        ({
            let state = state_after(run, events);
            &&& state.phase == LandlockPhase::Creating ==> events.len() == 0
            &&& state.phase == LandlockPhase::Opening || state.phase == LandlockPhase::Adding
                || state.phase == LandlockPhase::Restricting ==> {
                &&& events.len() > 0
                &&& events[0] matches LandlockEvent::Created { started_ns, at_ns, outcome: _ }
                    && state.started_ns == started_ns && state.created_ns == at_ns
                &&& state.phase == LandlockPhase::Restricting ==> state.added_ns == ended_at(
                    events.last(),
                )
            }
        }),
    decreases events.len(),
{
    if events.len() > 0 {
        lemma_clock_readings(run, events.drop_last());
        if events.len() > 1 {
            assert(events[0] == events.drop_last()[0]);
        }
    }
}

/// The three timings of a run that succeeds follow each other: the first ends when the ruleset is
/// created, the second with the last rule, and the third with the restriction. Together they are
/// the time from the start to the end.
pub proof fn law_timings_follow_each_other(
    jail_root: Seq<u8>,
    exec_file: Seq<u8>,
    api_sock_dir: Option<Seq<u8>>,
    events: Seq<LandlockEvent>,
)
    requires
        events.len() > 0,
        is_history(start_state(jail_root, exec_file, api_sock_dir), events),
        clock_goes_on(events),
    ensures
        move_after(start_state(jail_root, exec_file, api_sock_dir), events) matches
            LandlockMove::Done(timings) ==> {
            &&& events.len() > 1
            &&& events[0] matches LandlockEvent::Created { started_ns, at_ns, outcome: _ }
            &&& timings.ruleset_create_ns == at_ns - started_ns
            &&& timings.add_rules_ns == ended_at(events[events.len() - 2]) - at_ns
            &&& timings.restrict_self_ns == ended_at(events.last()) - ended_at(
                events[events.len() - 2],
            )
            &&& timings.ruleset_create_ns + timings.add_rules_ns + timings.restrict_self_ns
                == ended_at(events.last()) - started_ns
        },
{
    let run = start_state(jail_root, exec_file, api_sock_dir);
    let before = events.drop_last();
    lemma_clock_readings(run, before);
    if move_after(run, events) is Done {
        assert(before[0] == events[0]);
        assert(before.last() == events[events.len() - 2]);
        assert(ended_at(events[0]) <= ended_at(events[events.len() - 2]));
        assert(ended_at(events[events.len() - 2]) <= ended_at(events[events.len() - 1]));
    }
}

/// A status is named as it is called.
pub proof fn law_statuses_have_their_names(status: RulesetStatus)
    ensures
        status_name(status) == if status == RulesetStatus::FullyEnforced {
            "FullyEnforced"@
        } else if status == RulesetStatus::NotEnforced {
            "NotEnforced"@
        } else {
            "PartiallyEnforced"@
        },
{
}

/// How many events a run in a given state can have had at most.
spec fn most_events(state: RunState) -> nat {
    match state.phase {
        LandlockPhase::Creating => 0,
        LandlockPhase::Opening => 1 + 2 * state.next,
        LandlockPhase::Adding => 2 + 2 * state.next,
        LandlockPhase::Restricting => 1 + 2 * state.next,
        LandlockPhase::Finished => 2 + 2 * state.rules.len(),
    }
}

/// Every run ends: it has no more than two events for each rule and two others.
pub proof fn law_runs_end(
    jail_root: Seq<u8>,
    exec_file: Seq<u8>,
    api_sock_dir: Option<Seq<u8>>,
    events: Seq<LandlockEvent>,
)
    requires
        is_history(start_state(jail_root, exec_file, api_sock_dir), events),
    ensures
        events.len() <= 2 * rule_table(jail_root, exec_file, api_sock_dir).len() + 2,
{
    let run = start_state(jail_root, exec_file, api_sock_dir);
    lemma_most_events(run, events);
    lemma_granted_so_far(run, events);
}

proof fn lemma_most_events(run: RunState, events: Seq<LandlockEvent>)
    requires
        run.phase == LandlockPhase::Creating,
        run.next == 0,
        is_history(run, events),
    ensures
        events.len() <= most_events(state_after(run, events)),
    decreases events.len(),
{
    if events.len() > 0 {
        lemma_most_events(run, events.drop_last());
        lemma_granted_so_far(run, events.drop_last());
        lemma_granted_so_far(run, events);
    }
}

} // verus!
