use jailer::error::JailerError;
use jailer::landlock_jail::{
    apply_landlock, base_rules, handled_access, strace_discovered_rules, AccessFs, AccessSet, LandlockAction,
    LandlockEvent, LandlockRun, LandlockTimings, RestrictionStatus, RulesetStatus,
};
use jailer::path::HostPath;
use landlock::{Access, AccessFs as F};

fn bits(flags: landlock::BitFlags<landlock::AccessFs>) -> u64 {
    flags.bits()
}

#[test]
fn rights_have_the_bits_of_the_kernel() {
    let pairs = [
        (AccessFs::Execute, landlock::AccessFs::Execute),
        (AccessFs::WriteFile, landlock::AccessFs::WriteFile),
        (AccessFs::ReadFile, landlock::AccessFs::ReadFile),
        (AccessFs::ReadDir, landlock::AccessFs::ReadDir),
        (AccessFs::RemoveDir, landlock::AccessFs::RemoveDir),
        (AccessFs::RemoveFile, landlock::AccessFs::RemoveFile),
        (AccessFs::MakeChar, landlock::AccessFs::MakeChar),
        (AccessFs::MakeDir, landlock::AccessFs::MakeDir),
        (AccessFs::MakeReg, landlock::AccessFs::MakeReg),
        (AccessFs::MakeSock, landlock::AccessFs::MakeSock),
        (AccessFs::MakeFifo, landlock::AccessFs::MakeFifo),
        (AccessFs::MakeBlock, landlock::AccessFs::MakeBlock),
        (AccessFs::MakeSym, landlock::AccessFs::MakeSym),
        (AccessFs::Refer, landlock::AccessFs::Refer),
        (AccessFs::Truncate, landlock::AccessFs::Truncate),
        (AccessFs::IoctlDev, landlock::AccessFs::IoctlDev),
    ];
    let mut all = 0;
    for (right, flag) in pairs {
        assert_eq!(right.bit(), bits(flag.into()));
        all |= right.bit();
    }
    assert_eq!(handled_access().bits, all);
    assert_eq!(all, bits(landlock::AccessFs::from_all(landlock::ABI::V7)));
}

#[test]
fn base_rules_of_a_jail() {
    let rules = base_rules(
        &HostPath::from_text("/srv/jail"),
        &HostPath::from_text("/bin/fc"),
        Some(&HostPath::from_text("/srv/jail/run")),
    );
    let expected: [(&str, landlock::BitFlags<F>, bool); 7] = [
        (
            "/srv/jail",
            F::ReadFile
                | F::WriteFile
                | F::Truncate
                | F::ReadDir
                | F::MakeReg
                | F::MakeDir
                | F::RemoveFile,
            false,
        ),
        ("/bin/fc", F::ReadFile | F::Execute, false),
        ("/dev/kvm", F::ReadFile | F::WriteFile | F::IoctlDev, false),
        ("/dev/net/tun", F::ReadFile | F::WriteFile | F::IoctlDev, false),
        ("/dev/urandom", F::ReadFile.into(), true),
        ("/dev/userfaultfd", F::ReadFile | F::WriteFile, true),
        ("/srv/jail/run", F::MakeSock | F::ReadFile | F::WriteFile, false),
    ];
    assert_eq!(rules.len(), expected.len());
    for (rule, (path, access, optional)) in rules.iter().zip(expected) {
        assert_eq!(rule.path, HostPath::from_text(path));
        assert_eq!(rule.access.bits, bits(access));
        assert_eq!(rule.optional, optional);
    }
    let root = HostPath::from_text("/r");
    assert_eq!(base_rules(&root, &root, None).len(), 6);
    assert!(strace_discovered_rules().is_empty());
}

fn start() -> LandlockRun {
    let (run, action) =
        apply_landlock(&HostPath::from_text("/jail"), &HostPath::from_text("/fc"), None);
    assert_eq!(action, LandlockAction::CreateRuleset(handled_access()));
    run
}

fn created(run: &mut LandlockRun) -> LandlockAction {
    run.step(LandlockEvent::Created { started_ns: 100, at_ns: 150, outcome: Ok(()) }).action
}

/// Opens and adds rules until the ruleset is to be put in force.
fn drive(run: &mut LandlockRun) -> Vec<HostPath> {
    let mut opened = Vec::new();
    let mut at_ns = 150;
    let mut action = created(run);
    loop {
        at_ns += 10;
        action = match action {
            LandlockAction::OpenPath(path) => {
                opened.push(path);
                run.step(LandlockEvent::Opened { at_ns, outcome: Ok(()) }).action
            }
            LandlockAction::AddRule(_) => {
                run.step(LandlockEvent::Added { at_ns, outcome: Ok(()) }).action
            }
            LandlockAction::RestrictSelf => return opened,
            other => panic!("unexpected {other:?}"),
        };
    }
}

fn restricted(ruleset: RulesetStatus, no_new_privs: bool) -> LandlockAction {
    let mut run = start();
    drive(&mut run);
    let status = RestrictionStatus { ruleset, no_new_privs };
    run.step(LandlockEvent::Restricted { at_ns: 1000, reported: Ok(status) }).action
}

#[test]
fn run_with_every_rule() {
    let mut run = start();
    let opened = drive(&mut run);
    let expected = ["/jail", "/fc", "/dev/kvm", "/dev/net/tun", "/dev/urandom", "/dev/userfaultfd"];
    assert_eq!(opened, expected.map(HostPath::from_text).to_vec());
    assert_eq!(
        restricted(RulesetStatus::FullyEnforced, true),
        LandlockAction::Finish(Ok(LandlockTimings {
            ruleset_create_ns: 50,
            add_rules_ns: 120,
            restrict_self_ns: 730,
        }))
    );
}

#[test]
fn weak_enforcement_is_refused() {
    assert_eq!(
        restricted(RulesetStatus::FullyEnforced, false),
        LandlockAction::Finish(Err(JailerError::NoNewPrivs))
    );
    for status in [RulesetStatus::PartiallyEnforced, RulesetStatus::NotEnforced] {
        assert_eq!(
            restricted(status, true),
            LandlockAction::Finish(Err(JailerError::LandlockNotEnforced(status)))
        );
    }
    assert_eq!(
        JailerError::LandlockNotEnforced(RulesetStatus::PartiallyEnforced).message(),
        "Landlock ruleset was not fully enforced (status: PartiallyEnforced); refusing to run \
         unsandboxed"
    );
}

#[test]
fn absent_paths() {
    let mut run = start();
    created(&mut run);
    let gone = || Err("gone".to_string());
    let step = run.step(LandlockEvent::Opened { at_ns: 0, outcome: gone() });
    assert_eq!(step.warning, None);
    assert_eq!(
        step.action,
        LandlockAction::Finish(Err(JailerError::LandlockAddRule(
            HostPath::from_text("/jail"),
            "gone".to_string()
        )))
    );

    let mut run = start();
    created(&mut run);
    for _ in 0..4 {
        run.step(LandlockEvent::Opened { at_ns: 0, outcome: Ok(()) });
        run.step(LandlockEvent::Added { at_ns: 0, outcome: Ok(()) });
    }
    let step = run.step(LandlockEvent::Opened { at_ns: 0, outcome: gone() });
    assert_eq!(
        step.warning.unwrap(),
        "Warning! Landlock: skipping optional path /dev/urandom: gone. Related functionality \
         may be unavailable."
    );
    assert_eq!(
        step.action,
        LandlockAction::OpenPath(HostPath::from_text("/dev/userfaultfd"))
    );
    let step = run.step(LandlockEvent::Opened { at_ns: 7, outcome: gone() });
    assert_eq!(step.action, LandlockAction::RestrictSelf);
}

#[test]
fn kernel_failures() {
    let failed = || Err("no".to_string());
    let mut run = start();
    assert_eq!(
        run.step(LandlockEvent::Created { started_ns: 0, at_ns: 0, outcome: failed() }).action,
        LandlockAction::Finish(Err(JailerError::LandlockRulesetCreate("no".to_string())))
    );
    let mut run = start();
    created(&mut run);
    run.step(LandlockEvent::Opened { at_ns: 0, outcome: Ok(()) });
    assert_eq!(
        run.step(LandlockEvent::Added { at_ns: 0, outcome: failed() }).action,
        LandlockAction::Finish(Err(JailerError::LandlockAddRule(
            HostPath::from_text("/jail"),
            "no".to_string()
        )))
    );
    let mut run = start();
    drive(&mut run);
    assert_eq!(
        run.step(LandlockEvent::Restricted { at_ns: 0, reported: Err("no".to_string()) }).action,
        LandlockAction::Finish(Err(JailerError::LandlockRestrictSelf("no".to_string())))
    );
}

#[test]
fn masks_hold_the_sixteen_rights_alone() {
    let root = HostPath::from_text("/r");
    let (run, first) = apply_landlock(&root, &root, None);
    assert_eq!(first, LandlockAction::CreateRuleset(AccessSet { bits: 0xffff }));
    assert!(run.rules.iter().all(|rule| rule.access.bits <= 0xffff));
    assert_eq!(
        AccessSet::of(AccessFs::ReadFile).and(AccessFs::IoctlDev),
        AccessSet::of(AccessFs::IoctlDev).and(AccessFs::ReadFile)
    );
    assert_eq!(AccessSet::of(AccessFs::IoctlDev).bits, 0x8000);
}
