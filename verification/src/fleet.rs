//! The fleet-churn benchmark: it starts one microVM after another through a jailer binary,
//! measures how long each takes until its API socket can be connected to, and tears it down.

use vstd::prelude::*;
use vstd::string::*;
use vstd::utf8::*;

use crate::json::{
    after, is_plain, lemma_after, lemma_number_is_read, lemma_string_is_read, read_number,
    read_string,
};
use crate::path::{file_name_of, joined, HostPath};
use crate::text::{
    all_digits, chars_of, decimal, decimal_text, is_digit, is_one_line, lemma_decimal_denotes,
    number, parse_number, same_text, strip_plus,
};

verus! {

/// What the benchmark is told on its command line.
#[derive(Debug, PartialEq, Eq)]
pub struct Args {
    pub jailer_bin: HostPath,
    /// A label for the report.
    pub condition: String,
    pub exec_file: HostPath,
    pub uid: String,
    pub gid: String,
    pub chroot_base_dir: HostPath,
    pub cycles: u32,
    pub timeout_ms: u64,
}

/// What the flags of a command line say so far.
#[verifier::ext_equal]
pub struct Flags {
    pub jailer_bin: Option<Seq<char>>,
    pub condition: Option<Seq<char>>,
    pub exec_file: Option<Seq<char>>,
    pub uid: Option<Seq<char>>,
    pub gid: Option<Seq<char>>,
    pub chroot_base_dir: Option<Seq<char>>,
    pub cycles: u32,
    pub timeout_ms: u64,
}

/// What holds where no flag is given.
pub open spec fn no_flags() -> Flags {
    Flags {
        jailer_bin: None,
        condition: None,
        exec_file: None,
        uid: None,
        gid: None,
        chroot_base_dir: None,
        cycles: 100,
        timeout_ms: 2000,
    }
}

/// Whether the benchmark knows a flag. Every flag takes a value.
pub open spec fn is_flag(flag: Seq<char>) -> bool {
    ||| flag == "--jailer-bin"@
    ||| flag == "--condition"@
    ||| flag == "--exec-file"@
    ||| flag == "--uid"@
    ||| flag == "--gid"@
    ||| flag == "--chroot-base-dir"@
    ||| flag == "--cycles"@
    ||| flag == "--timeout-ms"@
}

/// Takes one flag with its value, or tells what is wrong with the value.
pub open spec fn with_flag(flags: Flags, flag: Seq<char>, value: Seq<char>) -> Result<
    Flags,
    Seq<char>,
> {
    if flag == "--jailer-bin"@ {
        Ok(Flags { jailer_bin: Some(value), ..flags })
    } else if flag == "--condition"@ {
        Ok(Flags { condition: Some(value), ..flags })
    } else if flag == "--exec-file"@ {
        Ok(Flags { exec_file: Some(value), ..flags })
    } else if flag == "--uid"@ {
        Ok(Flags { uid: Some(value), ..flags })
    } else if flag == "--gid"@ {
        Ok(Flags { gid: Some(value), ..flags })
    } else if flag == "--chroot-base-dir"@ {
        Ok(Flags { chroot_base_dir: Some(value), ..flags })
    } else if flag == "--cycles"@ {
        match number(value, u32::MAX as nat) {
            Some(n) => Ok(Flags { cycles: n as u32, ..flags }),
            None => Err("bad --cycles"@),
        }
    } else {
        match number(value, u64::MAX as nat) {
            Some(n) => Ok(Flags { timeout_ms: n as u64, ..flags }),
            None => Err("bad --timeout-ms"@),
        }
    }
}

/// Takes the flags of a command line from its start to its end, or tells what is wrong with
/// the first one that is wrong.
pub open spec fn scanned(flags: Flags, words: Seq<Seq<char>>) -> Result<Flags, Seq<char>>
    decreases words.len(),
{
    if words.len() == 0 {
        Ok(flags)
    } else if !is_flag(words[0]) {
        Err("unknown flag "@ + words[0])
    } else if words.len() == 1 {
        Err("missing value for "@ + words[0])
    } else {
        match with_flag(flags, words[0], words[1]) {
            Ok(next) => scanned(next, words.skip(2)),
            Err(complaint) => Err(complaint),
        }
    }
}

/// The complaint about the first flag that is missing, if one is.
pub open spec fn missing_flag(flags: Flags) -> Option<Seq<char>> {
    if flags.jailer_bin is None {
        Some("--jailer-bin required"@)
    } else if flags.condition is None {
        Some("--condition required"@)
    } else if flags.exec_file is None {
        Some("--exec-file required"@)
    } else if flags.uid is None {
        Some("--uid required"@)
    } else if flags.gid is None {
        Some("--gid required"@)
    } else if flags.chroot_base_dir is None {
        Some("--chroot-base-dir required"@)
    } else {
        None
    }
}

/// What a whole command line says, or what is wrong with it.
pub open spec fn read_flags(words: Seq<Seq<char>>) -> Result<Flags, Seq<char>> {
    match scanned(no_flags(), words) {
        Ok(flags) => match missing_flag(flags) {
            None => Ok(flags),
            Some(missing) => Err(missing),
        },
        Err(wrong) => Err(wrong),
    }
}

/// The texts of a row of words.
pub open spec fn word_views(words: Seq<String>) -> Seq<Seq<char>> {
    words.map_values(|word: String| word@)
}

/// Whether `args` is what complete flags say.
pub open spec fn says(flags: Flags, args: Args) -> bool {
    &&& flags.jailer_bin matches Some(text) && args.jailer_bin@ == encode_utf8(text)
    &&& flags.condition matches Some(text) && args.condition@ == text
    &&& flags.exec_file matches Some(text) && args.exec_file@ == encode_utf8(text)
    &&& flags.uid matches Some(text) && args.uid@ == text
    &&& flags.gid matches Some(text) && args.gid@ == text
    &&& flags.chroot_base_dir matches Some(text) && args.chroot_base_dir@ == encode_utf8(text)
    &&& flags.cycles == args.cycles
    &&& flags.timeout_ms == args.timeout_ms
}

/// The flags while they are collected.
struct Collected {
    jailer_bin: Option<String>,
    condition: Option<String>,
    exec_file: Option<String>,
    uid: Option<String>,
    gid: Option<String>,
    chroot_base_dir: Option<String>,
    cycles: u32,
    timeout_ms: u64,
}

spec fn text_of_option(text: Option<String>) -> Option<Seq<char>> {
    match text {
        Some(text) => Some(text@),
        None => None,
    }
}

impl View for Collected {
    type V = Flags;

    closed spec fn view(&self) -> Flags {
        Flags {
            jailer_bin: text_of_option(self.jailer_bin),
            condition: text_of_option(self.condition),
            exec_file: text_of_option(self.exec_file),
            uid: text_of_option(self.uid),
            gid: text_of_option(self.gid),
            chroot_base_dir: text_of_option(self.chroot_base_dir),
            cycles: self.cycles,
            timeout_ms: self.timeout_ms,
        }
    }
}

fn known_flag(flag: &str) -> (r: bool)
    ensures
        r == is_flag(flag@),
{
    same_text(flag, "--jailer-bin") || same_text(flag, "--condition") || same_text(
        flag,
        "--exec-file",
    ) || same_text(flag, "--uid") || same_text(flag, "--gid") || same_text(
        flag,
        "--chroot-base-dir",
    ) || same_text(flag, "--cycles") || same_text(flag, "--timeout-ms")
}

impl Collected {
    /// Takes one flag with its value.
    fn take(&mut self, flag: &str, value: &str) -> (r: Result<(), String>)
        requires
            is_flag(flag@),
        ensures
            match r {
                Ok(_) => with_flag(old(self)@, flag@, value@) == Ok::<Flags, Seq<char>>(
                    final(self)@,
                ),
                Err(complaint) => with_flag(old(self)@, flag@, value@) == Err::<Flags, Seq<char>>(
                    complaint@,
                ),
            },
    {
        if same_text(flag, "--jailer-bin") {
            self.jailer_bin = Some(value.to_owned());
        } else if same_text(flag, "--condition") {
            self.condition = Some(value.to_owned());
        } else if same_text(flag, "--exec-file") {
            self.exec_file = Some(value.to_owned());
        } else if same_text(flag, "--uid") {
            self.uid = Some(value.to_owned());
        } else if same_text(flag, "--gid") {
            self.gid = Some(value.to_owned());
        } else if same_text(flag, "--chroot-base-dir") {
            self.chroot_base_dir = Some(value.to_owned());
        } else if same_text(flag, "--cycles") {
            match parse_number(chars_of(value).as_slice(), u32::MAX as u64) {
                Some(n) => {
                    self.cycles = n as u32;
                },
                None => {
                    return Err("bad --cycles".to_owned());
                },
            }
        } else {
            match parse_number(chars_of(value).as_slice(), u64::MAX) {
                Some(n) => {
                    self.timeout_ms = n;
                },
                None => {
                    return Err("bad --timeout-ms".to_owned());
                },
            }
        }
        Ok(())
    }

    /// The arguments, where no required flag is missing.
    fn finish(self) -> (r: Result<Args, String>)
        ensures
            match r {
                Ok(args) => missing_flag(self@) is None && says(self@, args),
                Err(complaint) => missing_flag(self@) == Some(complaint@),
            },
    {
        let jailer_bin = match self.jailer_bin {
            Some(text) => HostPath::from_text(text.as_str()),
            None => return Err("--jailer-bin required".to_owned()),
        };
        let condition = match self.condition {
            Some(text) => text,
            None => return Err("--condition required".to_owned()),
        };
        let exec_file = match self.exec_file {
            Some(text) => HostPath::from_text(text.as_str()),
            None => return Err("--exec-file required".to_owned()),
        };
        let uid = match self.uid {
            Some(text) => text,
            None => return Err("--uid required".to_owned()),
        };
        let gid = match self.gid {
            Some(text) => text,
            None => return Err("--gid required".to_owned()),
        };
        let chroot_base_dir = match self.chroot_base_dir {
            Some(text) => HostPath::from_text(text.as_str()),
            None => return Err("--chroot-base-dir required".to_owned()),
        };
        Ok(
            Args {
                jailer_bin,
                condition,
                exec_file,
                uid,
                gid,
                chroot_base_dir,
                cycles: self.cycles,
                timeout_ms: self.timeout_ms,
            },
        )
    }
}

/// Reads the command line, without the name of the program. An error is the complaint that
/// `usage_error` is to print.
pub fn parse_args(argv: &[String]) -> (r: Result<Args, String>)
    ensures
        match read_flags(word_views(argv@)) {
            Ok(flags) => r matches Ok(args) && says(flags, args),
            Err(wrong) => r matches Err(complaint) && complaint@ == wrong,
        },
{
    let mut flags = Collected {
        jailer_bin: None,
        condition: None,
        exec_file: None,
        uid: None,
        gid: None,
        chroot_base_dir: None,
        cycles: 100,
        timeout_ms: 2000,
    };
    let ghost words = word_views(argv@);
    let total = argv.len();
    let mut i: usize = 0;
    assert(words.skip(0) =~= words);
    while i < total
        invariant
            total == argv@.len(),
            i <= total,
            words == word_views(argv@),
            scanned(flags@, words.skip(i as int)) == scanned(no_flags(), words),
        decreases total - i,
    {
        let flag = argv[i].as_str();
        let ghost rest = words.skip(i as int);
        assert(rest[0] == flag@);
        if !known_flag(flag) {
            return Err("unknown flag ".to_owned().concat(flag));
        }
        if i + 1 == total {
            return Err("missing value for ".to_owned().concat(flag));
        }
        let value = argv[i + 1].as_str();
        assert(rest[1] == value@);
        assert(rest.skip(2) =~= words.skip(i + 2));
        match flags.take(flag, value) {
            Ok(_) => {},
            Err(complaint) => {
                return Err(complaint);
            },
        }
        i += 2;
    }
    assert(words.skip(total as int) =~= Seq::<Seq<char>>::empty());
    flags.finish()
}

/// Where a flag is given again, the later value holds: giving it a value twice in a row is
/// giving it the second value alone.
pub proof fn law_later_value_holds(
    flags: Flags,
    flag: Seq<char>,
    first: Seq<char>,
    second: Seq<char>,
    rest: Seq<Seq<char>>,
)
    requires
        is_flag(flag),
        with_flag(flags, flag, first) is Ok,
    ensures
        scanned(flags, seq![flag, first, flag, second] + rest) == scanned(
            flags,
            seq![flag, second] + rest,
        ),
{
    let long = seq![flag, first, flag, second] + rest;
    let short = seq![flag, second] + rest;
    assert(long.skip(2) =~= short);
    assert(short.skip(2) =~= rest);
    let between = with_flag(flags, flag, first)->Ok_0;
    assert(with_flag(between, flag, second) == with_flag(flags, flag, second));
    assert(scanned(flags, long) == scanned(between, short));
}

/// A flag and its value.
pub type Pair = (Seq<char>, Seq<char>);

/// The words of a row of flags with their values.
pub open spec fn words_of(pairs: Seq<Pair>) -> Seq<Seq<char>>
    decreases pairs.len(),
{
    if pairs.len() == 0 {
        Seq::empty()
    } else {
        seq![pairs[0].0, pairs[0].1] + words_of(pairs.skip(1))
    }
}

/// The values that a row of flags gives one flag, in their order.
pub open spec fn values_of(pairs: Seq<Pair>, flag: Seq<char>) -> Seq<Seq<char>>
    decreases pairs.len(),
{
    if pairs.len() == 0 {
        Seq::empty()
    } else {
        let later = values_of(pairs.skip(1), flag);
        if pairs[0].0 == flag {
            seq![pairs[0].1] + later
        } else {
            later
        }
    }
}

/// Whether a flag is known and its value can be used.
pub open spec fn is_usable(pair: Pair) -> bool {
    is_flag(pair.0) && with_flag(no_flags(), pair.0, pair.1) is Ok
}

/// Whether every flag is known and every value can be used.
pub open spec fn all_usable(pairs: Seq<Pair>) -> bool {
    forall|i: int| 0 <= i < pairs.len() ==> is_usable(#[trigger] pairs[i])
}

/// The last value that a row of flags gives one flag, or else what held before.
pub open spec fn latest(pairs: Seq<Pair>, flag: Seq<char>, before: Option<Seq<char>>) -> Option<
    Seq<char>,
> {
    let values = values_of(pairs, flag);
    if values.len() == 0 {
        before
    } else {
        Some(values.last())
    }
}

/// The last number that a row of flags gives one flag, or else what held before.
pub open spec fn latest_number(
    pairs: Seq<Pair>,
    flag: Seq<char>,
    max: nat,
    before: nat,
) -> nat {
    let values = values_of(pairs, flag);
    if values.len() == 0 {
        before
    } else {
        number(values.last(), max)->0
    }
}

/// What holds after a row of flags: each has its last value.
pub open spec fn last_values(flags: Flags, pairs: Seq<Pair>) -> Flags {
    Flags {
        jailer_bin: latest(pairs, "--jailer-bin"@, flags.jailer_bin),
        condition: latest(pairs, "--condition"@, flags.condition),
        exec_file: latest(pairs, "--exec-file"@, flags.exec_file),
        uid: latest(pairs, "--uid"@, flags.uid),
        gid: latest(pairs, "--gid"@, flags.gid),
        chroot_base_dir: latest(pairs, "--chroot-base-dir"@, flags.chroot_base_dir),
        cycles: latest_number(pairs, "--cycles"@, u32::MAX as nat, flags.cycles as nat) as u32,
        timeout_ms: latest_number(
            pairs,
            "--timeout-ms"@,
            u64::MAX as nat,
            flags.timeout_ms as nat,
        ) as u64,
    }
}

/// No two flags are the same.
pub proof fn lemma_flags_differ()
    ensures
        "--jailer-bin"@ != "--condition"@ && "--jailer-bin"@ != "--exec-file"@,
        "--jailer-bin"@ != "--uid"@ && "--jailer-bin"@ != "--gid"@,
        "--jailer-bin"@ != "--chroot-base-dir"@ && "--jailer-bin"@ != "--cycles"@,
        "--jailer-bin"@ != "--timeout-ms"@,
        "--condition"@ != "--exec-file"@ && "--condition"@ != "--uid"@,
        "--condition"@ != "--gid"@ && "--condition"@ != "--chroot-base-dir"@,
        "--condition"@ != "--cycles"@ && "--condition"@ != "--timeout-ms"@,
        "--exec-file"@ != "--uid"@ && "--exec-file"@ != "--gid"@,
        "--exec-file"@ != "--chroot-base-dir"@ && "--exec-file"@ != "--cycles"@,
        "--exec-file"@ != "--timeout-ms"@,
        "--uid"@ != "--gid"@ && "--uid"@ != "--chroot-base-dir"@,
        "--uid"@ != "--cycles"@ && "--uid"@ != "--timeout-ms"@,
        "--gid"@ != "--chroot-base-dir"@ && "--gid"@ != "--cycles"@,
        "--gid"@ != "--timeout-ms"@,
        "--chroot-base-dir"@ != "--cycles"@ && "--chroot-base-dir"@ != "--timeout-ms"@,
        "--cycles"@ != "--timeout-ms"@,
{
    reveal_strlit("--jailer-bin");
    reveal_strlit("--condition");
    reveal_strlit("--exec-file");
    reveal_strlit("--uid");
    reveal_strlit("--gid");
    reveal_strlit("--chroot-base-dir");
    reveal_strlit("--cycles");
    reveal_strlit("--timeout-ms");
    assert("--jailer-bin"@[2] != "--timeout-ms"@[2]);
    assert("--condition"@[2] != "--exec-file"@[2]);
    assert("--uid"@[2] != "--gid"@[2]);
    assert("--jailer-bin"@.len() == 12);
    assert("--condition"@.len() == 11);
    assert("--exec-file"@.len() == 11);
    assert("--uid"@.len() == 5);
    assert("--gid"@.len() == 5);
    assert("--chroot-base-dir"@.len() == 17);
    assert("--cycles"@.len() == 8);
    assert("--timeout-ms"@.len() == 12);
}

/// Taking the first flag of a row and then the others is taking them all.
proof fn lemma_first_flag(flags: Flags, pairs: Seq<Pair>)
    requires
        pairs.len() > 0,
        is_usable(pairs[0]),
    ensures
        with_flag(flags, pairs[0].0, pairs[0].1) is Ok,
        last_values(with_flag(flags, pairs[0].0, pairs[0].1)->Ok_0, pairs.skip(1)) == last_values(
            flags,
            pairs,
        ),
{
    lemma_flags_differ();
    let rest = pairs.skip(1);
    let next = with_flag(flags, pairs[0].0, pairs[0].1)->Ok_0;
    let all = last_values(flags, pairs);
    let then = last_values(next, rest);
    assert(all.jailer_bin == then.jailer_bin);
    assert(all.condition == then.condition);
    assert(all.exec_file == then.exec_file);
    assert(all.uid == then.uid);
    assert(all.gid == then.gid);
    assert(all.chroot_base_dir == then.chroot_base_dir);
    assert(all.cycles == then.cycles);
    assert(all.timeout_ms == then.timeout_ms);
}

/// A row of flags is accepted exactly where every flag is known and every value can be used, and
/// then each flag has the last value that it is given.
pub proof fn law_last_values_hold(flags: Flags, pairs: Seq<Pair>)
    ensures
        match scanned(flags, words_of(pairs)) {
            Ok(told) => all_usable(pairs) && told == last_values(flags, pairs),
            Err(_) => !all_usable(pairs),
        },
    decreases pairs.len(),
{
    if pairs.len() == 0 {
        assert(last_values(flags, pairs) == flags);
    } else {
        let rest = pairs.skip(1);
        let words = words_of(pairs);
        assert(words.skip(2) =~= words_of(rest));
        assert(words[0] == pairs[0].0 && words[1] == pairs[0].1);
        assert(all_usable(pairs) == (is_usable(pairs[0]) && all_usable(rest))) by {
            assert(forall|i: int| 0 < i < pairs.len() ==> #[trigger] pairs[i] == rest[i - 1]);
            assert(forall|i: int| 0 <= i < rest.len() ==> #[trigger] rest[i] == pairs[i + 1]);
        }
        if is_usable(pairs[0]) {
            lemma_first_flag(flags, pairs);
            law_last_values_hold(with_flag(flags, pairs[0].0, pairs[0].1)->Ok_0, rest);
        }
    }
}

/// A value stands among those of a flag exactly where the row holds the two together.
proof fn lemma_values_of(pairs: Seq<Pair>, flag: Seq<char>, value: Seq<char>)
    ensures
        values_of(pairs, flag).contains(value) == pairs.contains((flag, value)),
    decreases pairs.len(),
{
    if pairs.len() > 0 {
        let rest = pairs.skip(1);
        let later = values_of(rest, flag);
        lemma_values_of(rest, flag, value);
        assert(pairs =~= seq![pairs[0]] + rest);
        assert(pairs.contains((flag, value)) == (pairs[0] == (flag, value) || rest.contains(
            (flag, value),
        ))) by {
            if pairs[0] == (flag, value) {
                assert(pairs.contains(pairs[0]));
            }
            if rest.contains((flag, value)) {
                let i = choose|i: int| 0 <= i < rest.len() && rest[i] == (flag, value);
                assert(pairs[i + 1] == (flag, value));
            }
            if pairs.contains((flag, value)) {
                let i = choose|i: int| 0 <= i < pairs.len() && pairs[i] == (flag, value);
                if i > 0 {
                    assert(rest[i - 1] == (flag, value));
                }
            }
        }
        if pairs[0].0 == flag {
            let all = seq![pairs[0].1] + later;
            assert(all.contains(value) == (pairs[0].1 == value || later.contains(value))) by {
                if pairs[0].1 == value {
                    assert(all[0] == value);
                }
                if later.contains(value) {
                    let i = choose|i: int| 0 <= i < later.len() && later[i] == value;
                    assert(all[i + 1] == value);
                }
                if all.contains(value) {
                    let i = choose|i: int| 0 <= i < all.len() && all[i] == value;
                    if i > 0 {
                        assert(later[i - 1] == value);
                    }
                }
            }
        }
    }
}

/// The order of the flags does not matter, as long as each flag keeps the order of its own
/// values: both rows are accepted and say the same, or neither is accepted.
pub proof fn law_flag_order_does_not_matter(flags: Flags, pairs: Seq<Pair>, others: Seq<Pair>)
    requires
        forall|flag: Seq<char>| #[trigger] values_of(pairs, flag) == values_of(others, flag),
    ensures
        scanned(flags, words_of(pairs)) is Ok == scanned(flags, words_of(others)) is Ok,
        scanned(flags, words_of(pairs)) is Ok ==> scanned(flags, words_of(pairs)) == scanned(
            flags,
            words_of(others),
        ),
{
    law_last_values_hold(flags, pairs);
    law_last_values_hold(flags, others);
    assert forall|i: int| 0 <= i < pairs.len() implies others.contains(#[trigger] pairs[i]) by {
        let pair = pairs[i];
        lemma_values_of(pairs, pair.0, pair.1);
        lemma_values_of(others, pair.0, pair.1);
        assert(pairs.contains(pair));
        assert(values_of(pairs, pair.0) == values_of(others, pair.0));
    }
    assert forall|i: int| 0 <= i < others.len() implies pairs.contains(#[trigger] others[i]) by {
        let pair = others[i];
        lemma_values_of(pairs, pair.0, pair.1);
        lemma_values_of(others, pair.0, pair.1);
        assert(others.contains(pair));
        assert(values_of(pairs, pair.0) == values_of(others, pair.0));
    }
    assert(values_of(pairs, "--jailer-bin"@) == values_of(others, "--jailer-bin"@));
    assert(last_values(flags, pairs) == last_values(flags, others));
}

/// The flags of a command line that gives every flag its value.
pub open spec fn complete_line(flags: Flags) -> Seq<Seq<char>> {
    seq![
        "--jailer-bin"@,
        flags.jailer_bin->0,
        "--condition"@,
        flags.condition->0,
        "--exec-file"@,
        flags.exec_file->0,
        "--uid"@,
        flags.uid->0,
        "--gid"@,
        flags.gid->0,
        "--chroot-base-dir"@,
        flags.chroot_base_dir->0,
        "--cycles"@,
        decimal(flags.cycles as nat),
        "--timeout-ms"@,
        decimal(flags.timeout_ms as nat),
    ]
}

/// Takes the first flag of a line and its value.
proof fn lemma_flag_is_taken(flags: Flags, words: Seq<Seq<char>>, next: Flags)
    requires
        words.len() >= 2,
        is_flag(words[0]),
        with_flag(flags, words[0], words[1]) == Ok::<Flags, Seq<char>>(next),
    ensures
        scanned(flags, words) == scanned(next, words.skip(2)),
{
}

/// A number in decimal notation is read as itself.
proof fn lemma_decimal_is_read(n: nat, max: nat)
    requires
        n <= max,
    ensures
        number(decimal(n), max) == Some(n),
{
    lemma_decimal_denotes(n);
    let text = decimal(n);
    assert(text.len() > 0);
    assert(is_digit(text[0]));
    assert(strip_plus(text) == text);
}

/// A command line that gives every flag its value is accepted, and says just these values.
pub proof fn law_complete_line_is_read(flags: Flags)
    requires
        missing_flag(flags) is None,
    ensures
        scanned(no_flags(), complete_line(flags)) == Ok::<Flags, Seq<char>>(flags),
{
    lemma_flags_differ();
    lemma_decimal_is_read(flags.cycles as nat, u32::MAX as nat);
    lemma_decimal_is_read(flags.timeout_ms as nat, u64::MAX as nat);
    let f0 = no_flags();
    let f1 = Flags { jailer_bin: flags.jailer_bin, ..f0 };
    let f2 = Flags { condition: flags.condition, ..f1 };
    let f3 = Flags { exec_file: flags.exec_file, ..f2 };
    let f4 = Flags { uid: flags.uid, ..f3 };
    let f5 = Flags { gid: flags.gid, ..f4 };
    let f6 = Flags { chroot_base_dir: flags.chroot_base_dir, ..f5 };
    let f7 = Flags { cycles: flags.cycles, ..f6 };
    let w = complete_line(flags);
    lemma_flag_is_taken(f0, w, f1);
    lemma_flag_is_taken(f1, w.skip(2), f2);
    lemma_flag_is_taken(f2, w.skip(2).skip(2), f3);
    lemma_flag_is_taken(f3, w.skip(2).skip(2).skip(2), f4);
    lemma_flag_is_taken(f4, w.skip(2).skip(2).skip(2).skip(2), f5);
    lemma_flag_is_taken(f5, w.skip(2).skip(2).skip(2).skip(2).skip(2), f6);
    lemma_flag_is_taken(f6, w.skip(2).skip(2).skip(2).skip(2).skip(2).skip(2), f7);
    lemma_flag_is_taken(f7, w.skip(2).skip(2).skip(2).skip(2).skip(2).skip(2).skip(2), flags);
}

/// The status that the benchmark exits with after a complaint about its command line.
pub const USAGE_STATUS: i32 = 2;

/// How the benchmark is to be called.
pub const USAGE: &'static str = "usage: fleet-churn-bench --jailer-bin <path> --condition <label> \
    --exec-file <path> --uid <uid> --gid <gid> --chroot-base-dir <dir> [--cycles N] \
    [--timeout-ms N]";

/// What is printed about a command line that cannot be used.
pub open spec fn usage_text(msg: Seq<char>) -> Seq<char> {
    msg + "\n"@ + USAGE@ + "\n"@
}

/// What is printed about a command line that cannot be used: the complaint, and how the
/// benchmark is to be called, each on a line of its own.
pub fn usage_error(msg: &str) -> (r: String)
    ensures
        r@ == usage_text(msg@),
{
    let mut out = msg.to_owned();
    out.append("\n");
    out.append(USAGE);
    out.append("\n");
    out
}

/// The identifier of the microVM of a cycle.
pub open spec fn vm_id(pid: u32, cycle: u32) -> Seq<char> {
    "fleet-"@ + decimal(pid as nat) + "-"@ + decimal(cycle as nat)
}

/// The identifier of the microVM that the process `pid` starts in a cycle.
fn id_of(pid: u32, cycle: u32) -> (r: String)
    ensures
        r@ == vm_id(pid, cycle),
{
    let mut out = "fleet-".to_owned();
    out.append(decimal_text(pid as u128).as_str());
    out.append("-");
    out.append(decimal_text(cycle as u128).as_str());
    out
}

/// The directory of a microVM.
pub open spec fn vm_dir(base: Seq<u8>, exec_name: Seq<u8>, id: Seq<char>) -> Seq<u8> {
    joined(joined(base, exec_name), encode_utf8(id))
}

/// The API socket of a microVM, as it is seen from the host.
pub open spec fn socket_path(dir: Seq<u8>) -> Seq<u8> {
    joined(joined(joined(dir, encode_utf8("root"@)), encode_utf8("run"@)), encode_utf8("api.sock"@))
}

/// Where a standard stream of a program leads.
#[derive(Debug, Clone, Copy, PartialEq, Eq, Structural)]
pub enum Stream {
    /// Where that of the caller leads.
    Inherited,
    /// Nowhere.
    Null,
}

/// A program with its arguments and its standard streams.
#[derive(Debug, PartialEq, Eq)]
pub struct Invocation {
    pub program: HostPath,
    pub arguments: Vec<HostPath>,
    pub stdin: Stream,
    pub stdout: Stream,
    pub stderr: Stream,
}

/// The bytes of a row of paths.
pub open spec fn path_views(paths: Seq<HostPath>) -> Seq<Seq<u8>> {
    paths.map_values(|path: HostPath| path@)
}

/// The arguments that start a jailed microVM.
pub open spec fn jailer_words(args: Args, id: Seq<char>) -> Seq<Seq<u8>> {
    seq![
        encode_utf8("--id"@),
        encode_utf8(id),
        encode_utf8("--exec-file"@),
        args.exec_file@,
        encode_utf8("--uid"@),
        encode_utf8(args.uid@),
        encode_utf8("--gid"@),
        encode_utf8(args.gid@),
        encode_utf8("--chroot-base-dir"@),
        args.chroot_base_dir@,
        encode_utf8("--"@),
        encode_utf8("--api-sock"@),
        encode_utf8("/run/api.sock"@),
    ]
}

/// Whether `jailer` starts the microVM `id`: the jailer binary with its arguments, and with no
/// standard stream that leads anywhere.
pub open spec fn is_jailer_for(jailer: Invocation, args: Args, id: Seq<char>) -> bool {
    &&& jailer.program@ == args.jailer_bin@
    &&& path_views(jailer.arguments@) == jailer_words(args, id)
    &&& jailer.stdin == Stream::Null
    &&& jailer.stdout == Stream::Null
    &&& jailer.stderr == Stream::Null
}

/// How the jailer is to be started for the microVM `id`.
pub fn spawn_jailer(args: &Args, id: &str) -> (r: Invocation)
    ensures
        is_jailer_for(r, *args, id@),
{
    let arguments = vec![
        HostPath::from_text("--id"),
        HostPath::from_text(id),
        HostPath::from_text("--exec-file"),
        args.exec_file.clone(),
        HostPath::from_text("--uid"),
        HostPath::from_text(args.uid.as_str()),
        HostPath::from_text("--gid"),
        HostPath::from_text(args.gid.as_str()),
        HostPath::from_text("--chroot-base-dir"),
        args.chroot_base_dir.clone(),
        HostPath::from_text("--"),
        HostPath::from_text("--api-sock"),
        HostPath::from_text("/run/api.sock"),
    ];
    assert(path_views(arguments@) =~= jailer_words(*args, id@));
    Invocation {
        program: args.jailer_bin.clone(),
        arguments,
        stdin: Stream::Null,
        stdout: Stream::Null,
        stderr: Stream::Null,
    }
}

/// The line that reports a microVM whose socket became ready.
pub open spec fn ready_line(condition: Seq<char>, ns: u128) -> Seq<char> {
    "{\"condition\":\""@ + condition + "\",\"socket_ready_ns\":"@ + decimal(ns as nat) + "}"@
}

/// The line that reports a cycle that failed.
pub open spec fn error_line(condition: Seq<char>, msg: Seq<char>) -> Seq<char> {
    "{\"condition\":\""@ + condition + "\",\"error\":\""@ + msg + "\"}"@
}

fn report_ready(condition: &str, ns: u128) -> (r: String)
    ensures
        r@ == ready_line(condition@, ns),
{
    let mut out = "{\"condition\":\"".to_owned();
    out.append(condition);
    out.append("\",\"socket_ready_ns\":");
    out.append(decimal_text(ns).as_str());
    out.append("}");
    out
}

fn report_error(condition: &str, msg: &str) -> (r: String)
    ensures
        r@ == error_line(condition@, msg@),
{
    let mut out = "{\"condition\":\"".to_owned();
    out.append(condition);
    out.append("\",\"error\":\"");
    out.append(msg);
    out.append("\"}");
    out
}

/// What came of an action of a wait for a socket.
#[derive(Debug, PartialEq, Eq)]
pub enum WaitEvent {
    /// The wait begins, or a pause is over.
    Awake,
    /// The time since the start of the jailer, in nanoseconds.
    Clock(u128),
    /// How the jailer ended, where it is known to have ended.
    Child(Option<String>),
    /// The socket could be connected to, this long after the start of the jailer, or not.
    Connected(Option<u128>),
}

/// Why a wait for a socket was given up.
#[derive(Debug, PartialEq, Eq)]
pub struct WaitFailure {
    pub msg: String,
    /// Whether the jailer was seen to have ended. Its process number is then no longer its own.
    pub ended: bool,
}

/// What a wait for a socket asks for.
#[derive(Debug, PartialEq, Eq)]
pub enum WaitAction {
    /// Tell the time since the start of the jailer.
    ReadClock,
    /// Tell whether the jailer has ended.
    PollChild,
    /// Try to connect to the socket.
    Connect,
    /// Pause for so many microseconds.
    Sleep(u64),
    /// The socket is ready.
    Ready(u128),
    /// The wait is given up.
    GiveUp(WaitFailure),
}

/// Whether `action` is what a wait of at most `timeout_ms` asks for after an event.
pub open spec fn is_wait_action(timeout_ms: u64, event: WaitEvent, action: WaitAction) -> bool {
    match event {
        WaitEvent::Awake => action == WaitAction::ReadClock,
        WaitEvent::Clock(ns) => if ns > timeout_ms * 1_000_000 {
            action matches WaitAction::GiveUp(failure) && failure.msg@
                == "timed out waiting for socket"@ && !failure.ended
        } else {
            action == WaitAction::PollChild
        },
        WaitEvent::Child(Some(status)) => action matches WaitAction::GiveUp(failure)
            && failure.msg@ == "jailer exited early with "@ + status@ && failure.ended,
        WaitEvent::Child(None) => action == WaitAction::Connect,
        WaitEvent::Connected(Some(ns)) => action == WaitAction::Ready(ns),
        WaitEvent::Connected(None) => action == WaitAction::Sleep(200),
    }
}

/// Polls for a socket. The wait is given up once more than `timeout_ms` have passed since the
/// start of the jailer, and as soon as the jailer has ended: a jailer that fails at once is not
/// waited for.
pub fn wait_for_socket(timeout_ms: u64, event: WaitEvent) -> (r: WaitAction)
    ensures
        is_wait_action(timeout_ms, event, r),
{
    match event {
        WaitEvent::Awake => WaitAction::ReadClock,
        WaitEvent::Clock(ns) => if ns > timeout_ms as u128 * 1_000_000 {
            WaitAction::GiveUp(
                WaitFailure { msg: "timed out waiting for socket".to_owned(), ended: false },
            )
        } else {
            WaitAction::PollChild
        },
        WaitEvent::Child(Some(status)) => WaitAction::GiveUp(
            WaitFailure {
                msg: "jailer exited early with ".to_owned().concat(status.as_str()),
                ended: true,
            },
        ),
        WaitEvent::Child(None) => WaitAction::Connect,
        WaitEvent::Connected(Some(ns)) => WaitAction::Ready(ns),
        WaitEvent::Connected(None) => WaitAction::Sleep(200),
    }
}

/// What came of an action of a teardown.
#[derive(Debug, Clone, Copy, PartialEq, Eq, Structural)]
pub enum TeardownEvent {
    /// The teardown begins. Where the jailer was already seen to have ended, its process number
    /// may be another's by now.
    Begin { ended: bool },
    /// The jailer was asked to terminate, or a pause is over.
    Awake,
    /// Whether the jailer is known to have ended.
    Polled(bool),
    /// The time since the jailer was asked to terminate, in nanoseconds.
    Clock(u128),
}

/// What a teardown asks for.
#[derive(Debug, Clone, Copy, PartialEq, Eq, Structural)]
pub enum TeardownAction {
    /// Ask the jailer to terminate.
    SendTerm,
    /// Tell whether the jailer has ended.
    Poll,
    /// Tell the time since the jailer was asked to terminate.
    ReadClock,
    /// Pause for so many milliseconds.
    Sleep(u64),
    /// Kill the jailer and wait for its end; the teardown is over.
    KillAndWait,
    /// The teardown is over.
    Done,
}

/// What a teardown asks for after an event.
pub open spec fn teardown_action(event: TeardownEvent) -> TeardownAction {
    match event {
        TeardownEvent::Begin { ended: true } => TeardownAction::Done,
        TeardownEvent::Begin { ended: false } => TeardownAction::SendTerm,
        TeardownEvent::Awake => TeardownAction::Poll,
        TeardownEvent::Polled(true) => TeardownAction::Done,
        TeardownEvent::Polled(false) => TeardownAction::ReadClock,
        TeardownEvent::Clock(ns) => if ns > 200_000_000 {
            TeardownAction::KillAndWait
        } else {
            TeardownAction::Sleep(10)
        },
    }
}

/// Ends a jailer: it is asked to terminate, and killed if it still runs 200 ms later. A jailer
/// that has ended already is left alone.
pub fn teardown(event: TeardownEvent) -> (r: TeardownAction)
    ensures
        r == teardown_action(event),
{
    match event {
        TeardownEvent::Begin { ended: true } => TeardownAction::Done,
        TeardownEvent::Begin { ended: false } => TeardownAction::SendTerm,
        TeardownEvent::Awake => TeardownAction::Poll,
        TeardownEvent::Polled(true) => TeardownAction::Done,
        TeardownEvent::Polled(false) => TeardownAction::ReadClock,
        TeardownEvent::Clock(ns) => if ns > 200_000_000 {
            TeardownAction::KillAndWait
        } else {
            TeardownAction::Sleep(10)
        },
    }
}

/// Where a benchmark run stands.
#[derive(Debug, Clone, Copy, PartialEq, Eq, Structural)]
pub enum FleetPhase {
    /// A jailer is being started.
    Spawning,
    /// Its socket is being waited for.
    Waiting,
    /// It is being torn down; the wait may have seen that it has ended.
    TearingDown { ended: bool },
    /// The directory of its microVM is being removed.
    Removing,
    /// Every cycle is over.
    Over,
}

/// A benchmark run.
#[derive(Debug, PartialEq, Eq)]
pub struct FleetRun {
    pub args: Args,
    pub exec_file_name: HostPath,
    pub pid: u32,
    pub cycle: u32,
    pub phase: FleetPhase,
}

/// What came of an action of a benchmark run.
#[derive(Debug, PartialEq, Eq)]
pub enum FleetEvent {
    /// The jailer was started, or could not be.
    Spawned(Result<(), String>),
    /// The socket became ready after so many nanoseconds, or the wait was given up.
    Waited(Result<u128, WaitFailure>),
    /// The jailer has ended.
    TornDown,
    /// The directory is removed, as far as it could be.
    Removed,
}

/// What a benchmark run asks for.
#[derive(Debug, PartialEq, Eq)]
pub enum FleetAction {
    /// Start the jailer.
    Spawn(Invocation),
    /// Wait for this socket, for so many milliseconds at most.
    WaitForSocket(HostPath, u64),
    /// Tear the jailer down, which may be known to have ended.
    TearDown { ended: bool },
    /// Remove this directory with all that is in it.
    RemoveDir(HostPath),
    /// The run is over.
    Stop,
}

/// A line to print, if there is one, and what is to be done next.
#[derive(Debug, PartialEq, Eq)]
pub struct FleetStep {
    pub line: Option<String>,
    pub action: FleetAction,
}

/// The state of a benchmark run: the cycle and the phase that it is in.
pub struct FleetState {
    pub cycle: nat,
    pub phase: FleetPhase,
}

impl FleetState {
    /// Whether the event is the one that the run waits for.
    pub open spec fn expects(self, event: FleetEvent) -> bool {
        match event {
            FleetEvent::Spawned(_) => self.phase == FleetPhase::Spawning,
            FleetEvent::Waited(_) => self.phase == FleetPhase::Waiting,
            FleetEvent::TornDown => self.phase is TearingDown,
            FleetEvent::Removed => self.phase == FleetPhase::Removing,
        }
    }

    /// A run of `cycles` cycles that is about to begin this one.
    pub open spec fn at(cycle: nat, cycles: nat) -> FleetState {
        FleetState {
            cycle,
            phase: if cycle < cycles {
                FleetPhase::Spawning
            } else {
                FleetPhase::Over
            },
        }
    }

    /// The state after an event, in a run of `cycles` cycles. A microVM that was started is torn
    /// down and its directory removed before the next cycle begins.
    pub open spec fn after(self, event: FleetEvent, cycles: nat) -> FleetState {
        match event {
            FleetEvent::Spawned(Ok(_)) => FleetState { phase: FleetPhase::Waiting, ..self },
            FleetEvent::Spawned(Err(_)) => FleetState::at(self.cycle + 1, cycles),
            FleetEvent::Waited(Ok(_)) => FleetState {
                phase: FleetPhase::TearingDown { ended: false },
                ..self
            },
            FleetEvent::Waited(Err(failure)) => FleetState {
                phase: FleetPhase::TearingDown { ended: failure.ended },
                ..self
            },
            FleetEvent::TornDown => FleetState { phase: FleetPhase::Removing, ..self },
            FleetEvent::Removed => FleetState::at(self.cycle + 1, cycles),
        }
    }
}

/// The line that an event gives rise to.
pub open spec fn line_for(condition: Seq<char>, event: FleetEvent) -> Option<Seq<char>> {
    match event {
        FleetEvent::Spawned(Err(cause)) => Some(
            error_line(condition, "spawn failed: "@ + cause@),
        ),
        FleetEvent::Waited(Ok(ns)) => Some(ready_line(condition, ns)),
        FleetEvent::Waited(Err(failure)) => Some(error_line(condition, failure.msg@)),
        _ => None,
    }
}

impl FleetRun {
    /// The state of this run.
    pub open spec fn state(self) -> FleetState {
        FleetState { cycle: self.cycle as nat, phase: self.phase }
    }

    /// A run is in one of its cycles until it is over.
    pub open spec fn valid(self) -> bool {
        self.cycle < self.args.cycles || (self.phase == FleetPhase::Over && self.cycle
            == self.args.cycles)
    }

    /// The identifier of the current microVM.
    pub open spec fn id(self) -> Seq<char> {
        vm_id(self.pid, self.cycle)
    }

    /// The directory of the current microVM.
    pub open spec fn dir(self) -> Seq<u8> {
        vm_dir(self.args.chroot_base_dir@, self.exec_file_name@, self.id())
    }

    /// Whether `action` is what the run asks for in its phase.
    pub open spec fn asks(self, action: FleetAction) -> bool {
        match self.phase {
            FleetPhase::Spawning => action matches FleetAction::Spawn(jailer) && is_jailer_for(
                jailer,
                self.args,
                self.id(),
            ),
            FleetPhase::Waiting => action matches FleetAction::WaitForSocket(path, timeout_ms)
                && path@ == socket_path(self.dir()) && timeout_ms == self.args.timeout_ms,
            FleetPhase::TearingDown { ended } => action == (FleetAction::TearDown { ended }),
            FleetPhase::Removing => action matches FleetAction::RemoveDir(path) && path@
                == self.dir(),
            FleetPhase::Over => action == FleetAction::Stop,
        }
    }

    fn vm_path(&self) -> (r: HostPath)
        ensures
            r@ == self.dir(),
    {
        let id = id_of(self.pid, self.cycle);
        self.args.chroot_base_dir.join(&self.exec_file_name).join_text(id.as_str())
    }

    /// What the run asks for in its phase.
    fn action(&self) -> (r: FleetAction)
        ensures
            self.asks(r),
    {
        match self.phase {
            FleetPhase::Spawning => {
                let id = id_of(self.pid, self.cycle);
                FleetAction::Spawn(spawn_jailer(&self.args, id.as_str()))
            },
            FleetPhase::Waiting => FleetAction::WaitForSocket(
                self.vm_path().join_text("root").join_text("run").join_text("api.sock"),
                self.args.timeout_ms,
            ),
            FleetPhase::TearingDown { ended } => FleetAction::TearDown { ended },
            FleetPhase::Removing => FleetAction::RemoveDir(self.vm_path()),
            FleetPhase::Over => FleetAction::Stop,
        }
    }

    /// Leaves the current cycle for the next one.
    fn next_cycle(&mut self)
        requires
            old(self).cycle < old(self).args.cycles,
        ensures
            final(self).args == old(self).args,
            final(self).exec_file_name == old(self).exec_file_name,
            final(self).pid == old(self).pid,
            final(self).valid(),
            final(self).state() == FleetState::at(
                (old(self).cycle + 1) as nat,
                old(self).args.cycles as nat,
            ),
    {
        self.cycle = self.cycle + 1;
        self.phase = if self.cycle < self.args.cycles {
            FleetPhase::Spawning
        } else {
            FleetPhase::Over
        };
    }

    /// Takes the outcome of the last action and tells the next one.
    pub fn step(&mut self, event: FleetEvent) -> (r: FleetStep)
        requires
            old(self).valid(),
            old(self).state().expects(event),
        ensures
            final(self).valid(),
            final(self).args == old(self).args,
            final(self).exec_file_name == old(self).exec_file_name,
            final(self).pid == old(self).pid,
            final(self).state() == old(self).state().after(event, old(self).args.cycles as nat),
            final(self).asks(r.action),
            match line_for(old(self).args.condition@, event) {
                Some(text) => r.line matches Some(line) && line@ == text,
                None => r.line is None,
            },
    {
        let line = match event {
            FleetEvent::Spawned(Ok(_)) => {
                self.phase = FleetPhase::Waiting;
                None
            },
            FleetEvent::Spawned(Err(cause)) => {
                let msg = "spawn failed: ".to_owned().concat(cause.as_str());
                let line = report_error(self.args.condition.as_str(), msg.as_str());
                self.next_cycle();
                Some(line)
            },
            FleetEvent::Waited(Ok(ns)) => {
                self.phase = FleetPhase::TearingDown { ended: false };
                Some(report_ready(self.args.condition.as_str(), ns))
            },
            FleetEvent::Waited(Err(failure)) => {
                self.phase = FleetPhase::TearingDown { ended: failure.ended };
                Some(report_error(self.args.condition.as_str(), failure.msg.as_str()))
            },
            FleetEvent::TornDown => {
                self.phase = FleetPhase::Removing;
                None
            },
            FleetEvent::Removed => {
                self.next_cycle();
                None
            },
        };
        let action = self.action();
        FleetStep { line, action }
    }
}

/// Whether `r` is how a benchmark run begins in the process `pid`.
pub open spec fn is_begun(
    args: Args,
    pid: u32,
    r: Result<(FleetRun, FleetAction), String>,
) -> bool {
    match file_name_of(args.exec_file@) {
        Some(name) => {
            &&& r matches Ok((run, action))
            &&& run.valid()
            &&& run.args == args
            &&& run.pid == pid
            &&& run.exec_file_name@ == name
            &&& run.state() == FleetState::at(0, args.cycles as nat)
            &&& run.asks(action)
        },
        None => r matches Err(complaint) && complaint@ == "--exec-file has no filename"@,
    }
}

/// Begins a benchmark run in the process `pid`. An error is the complaint that `usage_error`
/// is to print; it comes where the file to execute has no name.
pub fn start_fleet(args: Args, pid: u32) -> (r: Result<(FleetRun, FleetAction), String>)
    ensures
        is_begun(args, pid, r),
{
    let exec_file_name = match args.exec_file.file_name() {
        Some(name) => name,
        None => return Err("--exec-file has no filename".to_owned()),
    };
    let phase = if args.cycles > 0 {
        FleetPhase::Spawning
    } else {
        FleetPhase::Over
    };
    let run = FleetRun { args, exec_file_name, pid, cycle: 0, phase };
    let action = run.action();
    Ok((run, action))
}

/// The state of a run of `cycles` cycles after a row of events.
pub open spec fn fleet_after(cycles: nat, events: Seq<FleetEvent>) -> FleetState
    decreases events.len(),
{
    if events.len() == 0 {
        FleetState::at(0, cycles)
    } else {
        fleet_after(cycles, events.drop_last()).after(events.last(), cycles)
    }
}

/// Whether every event of the row is the one that the run waits for.
pub open spec fn is_fleet_history(cycles: nat, events: Seq<FleetEvent>) -> bool
    decreases events.len(),
{
    events.len() > 0 ==> is_fleet_history(cycles, events.drop_last()) && fleet_after(
        cycles,
        events.drop_last(),
    ).expects(events.last())
}

/// The lines that a row of events gives rise to.
pub open spec fn lines_for(condition: Seq<char>, events: Seq<FleetEvent>) -> Seq<Seq<char>>
    decreases events.len(),
{
    if events.len() == 0 {
        Seq::empty()
    } else {
        let before = lines_for(condition, events.drop_last());
        match line_for(condition, events.last()) {
            Some(line) => before.push(line),
            None => before,
        }
    }
}

/// Every cycle prints one line: a run has printed one for each cycle that is over, and one more
/// once the current cycle is being torn down. When the run is over, there are as many lines as
/// cycles.
pub proof fn law_one_line_per_cycle(cycles: nat, condition: Seq<char>, events: Seq<FleetEvent>)
    requires
        is_fleet_history(cycles, events),
    ensures
        ({
            let state = fleet_after(cycles, events);
            let lines = lines_for(condition, events).len();
            match state.phase {
                FleetPhase::Spawning | FleetPhase::Waiting => {
                    lines == state.cycle && state.cycle < cycles
                },
                FleetPhase::TearingDown { .. } | FleetPhase::Removing => {
                    lines == state.cycle + 1 && state.cycle < cycles
                },
                FleetPhase::Over => lines == cycles,
            }
        }),
    decreases events.len(),
{
    if events.len() > 0 {
        law_one_line_per_cycle(cycles, condition, events.drop_last());
    }
}

/// A microVM that was started is torn down, and its directory removed, before the next one is
/// started: after a start that succeeded the run asks for the wait, the teardown and the removal
/// of the same cycle, in this order, whatever the wait came to.
pub proof fn law_started_vms_are_cleaned_up(
    state: FleetState,
    cycles: nat,
    waited: Result<u128, WaitFailure>,
)
    requires
        state.phase == FleetPhase::Spawning,
    ensures
        ({
            let waiting = state.after(FleetEvent::Spawned(Ok(())), cycles);
            let tearing = waiting.after(FleetEvent::Waited(waited), cycles);
            let removing = tearing.after(FleetEvent::TornDown, cycles);
            let next = removing.after(FleetEvent::Removed, cycles);
            &&& waiting == FleetState { cycle: state.cycle, phase: FleetPhase::Waiting }
            &&& tearing.cycle == state.cycle && tearing.phase is TearingDown
            &&& removing == FleetState { cycle: state.cycle, phase: FleetPhase::Removing }
            &&& next == FleetState::at(state.cycle + 1, cycles)
        }),
{
}

/// Whether `event` can be what came of `action`. A teardown that is over has no further event.
pub open spec fn answers(action: TeardownAction, event: TeardownEvent) -> bool {
    match action {
        TeardownAction::SendTerm | TeardownAction::Sleep(_) => event == TeardownEvent::Awake,
        TeardownAction::Poll => event is Polled,
        TeardownAction::ReadClock => event is Clock,
        TeardownAction::KillAndWait | TeardownAction::Done => false,
    }
}

/// Whether a row of events is one of a teardown.
pub open spec fn is_teardown(events: Seq<TeardownEvent>) -> bool {
    &&& events.len() > 0
    &&& events[0] is Begin
    &&& forall|i: int|
        #![trigger events[i]]
        0 < i < events.len() ==> answers(teardown_action(events[i - 1]), events[i])
}

/// Whether an event says that the jailer has ended.
pub open spec fn saw_end(event: TeardownEvent) -> bool {
    event == TeardownEvent::Polled(true) || event == (TeardownEvent::Begin { ended: true })
}

/// No signal goes to a jailer that was seen to have ended: a teardown asks for one at its start
/// at most, and once it knows of the end it is over.
pub proof fn law_no_signal_after_the_end(events: Seq<TeardownEvent>, i: int)
    requires
        is_teardown(events),
        0 <= i < events.len(),
    ensures
        teardown_action(events[i]) == TeardownAction::SendTerm ==> i == 0,
        saw_end(events[i]) ==> teardown_action(events[i]) == TeardownAction::Done && i
            == events.len() - 1,
{
    if i > 0 {
        assert(answers(teardown_action(events[i - 1]), events[i]));
    }
    if i + 1 < events.len() {
        assert(answers(teardown_action(events[i + 1 - 1]), events[i + 1]));
    }
}

/// A jailer that a wait saw to have ended gets no signal at all: the run tears it down as one
/// that has ended, and such a teardown is over at once.
pub proof fn law_an_early_exit_is_left_alone(
    state: FleetState,
    cycles: nat,
    timeout_ms: u64,
    status: String,
    action: WaitAction,
)
    requires
        is_wait_action(timeout_ms, WaitEvent::Child(Some(status)), action),
    ensures
        action matches WaitAction::GiveUp(failure) && state.after(
            FleetEvent::Waited(Err(failure)),
            cycles,
        ).phase == (FleetPhase::TearingDown { ended: true }),
        teardown_action(TeardownEvent::Begin { ended: true }) == TeardownAction::Done,
{
}

/// Every line that is printed is one line, where the label and the messages are.
pub proof fn law_lines_are_single(condition: Seq<char>, event: FleetEvent)
    requires
        is_one_line(condition),
        match event {
            FleetEvent::Spawned(Err(msg)) => is_one_line(msg@),
            FleetEvent::Waited(Err(failure)) => is_one_line(failure.msg@),
            _ => true,
        },
    ensures
        line_for(condition, event) matches Some(line) ==> is_one_line(line),
{
    reveal_strlit("{\"condition\":\"");
    reveal_strlit("\",\"socket_ready_ns\":");
    reveal_strlit("}");
    reveal_strlit("\",\"error\":\"");
    reveal_strlit("\"}");
    reveal_strlit("spawn failed: ");
    if let FleetEvent::Waited(Ok(ns)) = event {
        lemma_decimal_denotes(ns as nat);
    }
}

/// What a line says of a cycle.
pub enum ReadLine {
    /// The label, and the time until the socket was ready.
    Ready(Seq<char>, nat),
    /// The label, and what went wrong.
    Error(Seq<char>, Seq<char>),
}

/// Reads a line after its label: a member with a number or one with a string, and the end.
pub open spec fn read_result(condition: Seq<char>, text: Seq<char>) -> Option<ReadLine> {
    match after(text, ",\"socket_ready_ns\":"@) {
        Some(text) => match read_number(text) {
            Some((ns, text)) => if text == "}"@ {
                Some(ReadLine::Ready(condition, ns))
            } else {
                None
            },
            None => None,
        },
        None => match after(text, ",\"error\":"@) {
            Some(text) => match read_string(text) {
                Some((msg, text)) => if text == "}"@ {
                    Some(ReadLine::Error(condition, msg))
                } else {
                    None
                },
                None => None,
            },
            None => None,
        },
    }
}

/// Reads a line: a JSON object with these two members.
pub open spec fn read_line(text: Seq<char>) -> Option<ReadLine> {
    match after(text, "{\"condition\":"@) {
        Some(text) => match read_string(text) {
            Some((condition, text)) => read_result(condition, text),
            None => None,
        },
        None => None,
    }
}

proof fn lemma_ready_line_is_read(condition: Seq<char>, ns: u128)
    requires
        is_plain(condition),
    ensures
        read_line(ready_line(condition, ns)) == Some(ReadLine::Ready(condition, ns as nat)),
{
    reveal_strlit("{\"condition\":\"");
    reveal_strlit("{\"condition\":");
    reveal_strlit("\",\"socket_ready_ns\":");
    reveal_strlit(",\"socket_ready_ns\":");
    reveal_strlit("}");
    let from_ns = decimal(ns as nat) + "}"@;
    let from_name = ",\"socket_ready_ns\":"@ + from_ns;
    let from_condition = seq!['"'] + condition + seq!['"'] + from_name;
    assert("{\"condition\":\""@ =~= "{\"condition\":"@ + seq!['"']);
    assert("\",\"socket_ready_ns\":"@ =~= seq!['"'] + ",\"socket_ready_ns\":"@);
    assert(ready_line(condition, ns) =~= "{\"condition\":"@ + from_condition);
    lemma_after("{\"condition\":"@, from_condition);
    lemma_string_is_read(condition, from_name);
    lemma_after(",\"socket_ready_ns\":"@, from_ns);
    lemma_number_is_read(ns as nat, "}"@);
}

proof fn lemma_error_line_is_read(condition: Seq<char>, msg: Seq<char>)
    requires
        is_plain(condition),
        is_plain(msg),
    ensures
        read_line(error_line(condition, msg)) == Some(ReadLine::Error(condition, msg)),
{
    reveal_strlit("{\"condition\":\"");
    reveal_strlit("{\"condition\":");
    reveal_strlit("\",\"error\":\"");
    reveal_strlit(",\"error\":");
    reveal_strlit(",\"socket_ready_ns\":");
    reveal_strlit("\"}");
    reveal_strlit("}");
    let from_msg = seq!['"'] + msg + seq!['"'] + "}"@;
    let from_name = ",\"error\":"@ + from_msg;
    let from_condition = seq!['"'] + condition + seq!['"'] + from_name;
    assert("{\"condition\":\""@ =~= "{\"condition\":"@ + seq!['"']);
    assert("\",\"error\":\""@ =~= seq!['"'] + ",\"error\":"@ + seq!['"']);
    assert("\"}"@ =~= seq!['"'] + "}"@);
    assert(error_line(condition, msg) =~= "{\"condition\":"@ + from_condition);
    lemma_after("{\"condition\":"@, from_condition);
    lemma_string_is_read(condition, from_name);
    assert(from_name[2] == 'e');
    let other = ",\"socket_ready_ns\":"@;
    assert(other[2] == 's');
    if after(from_name, other) is Some {
        assert(from_name.take(other.len() as int)[2] == from_name[2]);
    }
    lemma_after(",\"error\":"@, from_msg);
    lemma_string_is_read(msg, "}"@);
}

/// Every line that is printed is a JSON object that says just what came of its cycle, where the
/// label and the messages have no quotes, no backslashes and no control characters.
pub proof fn law_lines_read_back(condition: Seq<char>, event: FleetEvent)
    requires
        is_plain(condition),
        match event {
            FleetEvent::Spawned(Err(msg)) => is_plain(msg@),
            FleetEvent::Waited(Err(failure)) => is_plain(failure.msg@),
            _ => true,
        },
    ensures
        line_for(condition, event) matches Some(line) ==> read_line(line) == match event {
            FleetEvent::Waited(Ok(ns)) => Some(ReadLine::Ready(condition, ns as nat)),
            FleetEvent::Waited(Err(failure)) => Some(ReadLine::Error(condition, failure.msg@)),
            FleetEvent::Spawned(Err(cause)) => Some(
                ReadLine::Error(condition, "spawn failed: "@ + cause@),
            ),
            _ => None,
        },
{
    reveal_strlit("spawn failed: ");
    match event {
        FleetEvent::Waited(Ok(ns)) => lemma_ready_line_is_read(condition, ns),
        FleetEvent::Waited(Err(failure)) => lemma_error_line_is_read(condition, failure.msg@),
        FleetEvent::Spawned(Err(cause)) => {
            lemma_error_line_is_read(condition, "spawn failed: "@ + cause@);
        },
        _ => {},
    }
}

/// Where two rows of digits, each with a dash and something after it, are the same, the digits
/// are the same.
proof fn lemma_first_dash(a: Seq<char>, b: Seq<char>, x: Seq<char>, y: Seq<char>)
    requires
        all_digits(a),
        all_digits(b),
        a + seq!['-'] + x == b + seq!['-'] + y,
    ensures
        a == b,
        x == y,
{
    let s = a + seq!['-'] + x;
    let t = b + seq!['-'] + y;
    assert(s[a.len() as int] == '-');
    assert(t[b.len() as int] == '-');
    if a.len() < b.len() {
        assert(t[a.len() as int] == b[a.len() as int]);
    }
    if b.len() < a.len() {
        assert(s[b.len() as int] == a[b.len() as int]);
    }
    assert(s.take(a.len() as int) =~= a);
    assert(t.take(b.len() as int) =~= b);
    assert(s.skip(a.len() as int + 1) =~= x);
    assert(t.skip(b.len() as int + 1) =~= y);
}

/// The identifiers of the microVMs are fresh: no two cycles of one process share one, nor do
/// the cycles of two processes.
pub proof fn law_ids_are_fresh(pid: u32, cycle: u32, other_pid: u32, other_cycle: u32)
    requires
        pid != other_pid || cycle != other_cycle,
    ensures
        vm_id(pid, cycle) != vm_id(other_pid, other_cycle),
{
    let (a, x) = (decimal(pid as nat), decimal(cycle as nat));
    let (b, y) = (decimal(other_pid as nat), decimal(other_cycle as nat));
    lemma_decimal_denotes(pid as nat);
    lemma_decimal_denotes(cycle as nat);
    lemma_decimal_denotes(other_pid as nat);
    lemma_decimal_denotes(other_cycle as nat);
    reveal_strlit("fleet-");
    reveal_strlit("-");
    if vm_id(pid, cycle) == vm_id(other_pid, other_cycle) {
        assert("-"@ =~= seq!['-']);
        assert(vm_id(pid, cycle).skip(6) =~= a + seq!['-'] + x);
        assert(vm_id(other_pid, other_cycle).skip(6) =~= b + seq!['-'] + y);
        lemma_first_dash(a, b, x, y);
    }
}

} // verus!
