//! The command lines that the jailer and its setup benchmark accept, as tables.

use vstd::prelude::*;

verus! {

/// One command line argument.
#[derive(Debug, Clone, Copy, PartialEq, Eq)]
pub struct Argument {
    pub name: &'static str,
    pub required: bool,
    /// Whether the argument is declared to have one value. An argument that is declared to be
    /// given many times, with a value each time, has the next field set instead of this one.
    pub takes_value: bool,
    /// Whether the argument may be given many times, each time with a value of its own.
    pub allow_multiple: bool,
    pub default_value: Option<&'static str>,
    pub help: &'static str,
}

/// The arguments that a program accepts.
#[derive(Debug, PartialEq, Eq)]
pub struct ArgParser {
    pub arguments: Vec<Argument>,
}

impl View for ArgParser {
    type V = Seq<Argument>;

    open spec fn view(&self) -> Seq<Argument> {
        self.arguments@
    }
}

impl Argument {
    /// An argument that must be given, with a value.
    #[verifier::allow_in_spec]
    pub fn required(name: &'static str, help: &'static str) -> Argument
        returns
            (Argument {
                name,
                required: true,
                takes_value: true,
                allow_multiple: false,
                default_value: None,
                help,
            }),
    {
        Argument {
            name,
            required: true,
            takes_value: true,
            allow_multiple: false,
            default_value: None,
            help,
        }
    }

    /// An argument that has a value where it is given, and maybe also where it is not.
    #[verifier::allow_in_spec]
    pub fn optional(
        name: &'static str,
        default_value: Option<&'static str>,
        help: &'static str,
    ) -> Argument
        returns
            (Argument {
                name,
                required: false,
                takes_value: true,
                allow_multiple: false,
                default_value,
                help,
            }),
    {
        Argument {
            name,
            required: false,
            takes_value: true,
            allow_multiple: false,
            default_value,
            help,
        }
    }

    /// An argument without a value.
    #[verifier::allow_in_spec]
    pub fn flag(name: &'static str, help: &'static str) -> Argument
        returns
            (Argument {
                name,
                required: false,
                takes_value: false,
                allow_multiple: false,
                default_value: None,
                help,
            }),
    {
        Argument {
            name,
            required: false,
            takes_value: false,
            allow_multiple: false,
            default_value: None,
            help,
        }
    }

    /// An argument that may be given many times, each time with a value.
    #[verifier::allow_in_spec]
    pub fn repeated(name: &'static str, help: &'static str) -> Argument
        returns
            (Argument {
                name,
                required: false,
                takes_value: false,
                allow_multiple: true,
                default_value: None,
                help,
            }),
    {
        Argument {
            name,
            required: false,
            takes_value: false,
            allow_multiple: true,
            default_value: None,
            help,
        }
    }
}

/// The help on `daemonize`.
pub const DAEMONIZE_HELP: &'static str = "\
    Daemonize the jailer before exec, by invoking setsid(), and redirecting the standard \
    I/O file descriptors to /dev/null.";

/// The help on `cgroup`.
pub const CGROUP_HELP: &'static str = "\
    Cgroup and value to be set by the jailer. It must follow this format: \
    <cgroup_file>=<value> (e.g cpu.shares=10). This argument can be used multiple times to \
    add multiple cgroups.";

/// The help on `resource-limit`.
pub const RESOURCE_LIMIT_HELP: &'static str = "\
    Resource limit values to be set by the jailer. It must follow this format: \
    <resource>=<value> (e.g no-file=1024). This argument can be used multiple times to add \
    multiple resource limits. Current available resource values are:\n\t\tfsize: The \
    maximum size in bytes for files created by the process.\n\t\tno-file: Specifies a value \
    one greater than the maximum file descriptor number that can be opened by this process.";

/// The help on `mode`.
pub const MODE_HELP: &'static str = "\
    Which benchmark to run: \"setup\" (isolation setup/teardown phase timing only, the \
    default) or \"multi-file-open\" (setup, then open a realistic set of files -- kernel \
    image, rootfs, metrics FIFO, log, /dev/kvm, /dev/net/tun -- from inside the \
    now-restricted process, timing each open individually).";

/// The arguments of the jailer.
pub open spec fn jailer_arguments() -> Seq<Argument> {
    seq![
        Argument::required("id", "Jail ID."),
        Argument::required("exec-file", "File path to exec into."),
        Argument::required("uid", "The user identifier the jailer switches to after exec."),
        Argument::required("gid", "The group identifier the jailer switches to after exec."),
        Argument::optional(
            "chroot-base-dir",
            Some("/srv/jailer"),
            "The base folder where chroot jails are located.",
        ),
        Argument::optional(
            "netns",
            None,
            "Path to the network namespace this microVM should join.",
        ),
        Argument::flag("daemonize", DAEMONIZE_HELP),
        Argument::flag("new-pid-ns", "Exec into a new PID namespace."),
        Argument::repeated("cgroup", CGROUP_HELP),
        Argument::repeated("resource-limit", RESOURCE_LIMIT_HELP),
        Argument::optional(
            "cgroup-version",
            Some("1"),
            "Select the cgroup version used by the jailer.",
        ),
        Argument::optional(
            "parent-cgroup",
            None,
            "Parent cgroup in which the cgroup of this microvm will be placed.",
        ),
        Argument::flag("version", "Print the binary version number."),
    ]
}

/// The table of the arguments that both jailer binaries accept.
pub fn build_arg_parser() -> (r: ArgParser)
    ensures
        r@ == jailer_arguments(),
{
    let mut arguments: Vec<Argument> = Vec::new();
    arguments.push(Argument::required("id", "Jail ID."));
    arguments.push(Argument::required("exec-file", "File path to exec into."));
    arguments.push(
        Argument::required("uid", "The user identifier the jailer switches to after exec."),
    );
    arguments.push(
        Argument::required("gid", "The group identifier the jailer switches to after exec."),
    );
    arguments.push(
        Argument::optional(
            "chroot-base-dir",
            Some("/srv/jailer"),
            "The base folder where chroot jails are located.",
        ),
    );
    arguments.push(
        Argument::optional(
            "netns",
            None,
            "Path to the network namespace this microVM should join.",
        ),
    );
    arguments.push(Argument::flag("daemonize", DAEMONIZE_HELP));
    arguments.push(Argument::flag("new-pid-ns", "Exec into a new PID namespace."));
    arguments.push(Argument::repeated("cgroup", CGROUP_HELP));
    arguments.push(Argument::repeated("resource-limit", RESOURCE_LIMIT_HELP));
    arguments.push(
        Argument::optional(
            "cgroup-version",
            Some("1"),
            "Select the cgroup version used by the jailer.",
        ),
    );
    arguments.push(
        Argument::optional(
            "parent-cgroup",
            None,
            "Parent cgroup in which the cgroup of this microvm will be placed.",
        ),
    );
    arguments.push(Argument::flag("version", "Print the binary version number."));
    ArgParser { arguments }
}

/// The two arguments that the setup benchmark accepts besides those of the jailer.
pub open spec fn bench_arguments() -> Seq<Argument> {
    seq![
        Argument::required(
            "isolation",
            "Which isolation backend to benchmark: \"chroot\" or \"landlock\".",
        ),
        Argument::optional("mode", Some("setup"), MODE_HELP),
    ]
}

/// The table of the arguments that the setup benchmark accepts: those of the jailer, and two
/// of its own.
pub fn build_parser() -> (r: ArgParser)
    ensures
        r@ == jailer_arguments() + bench_arguments(),
{
    let mut parser = build_arg_parser();
    parser.arguments.push(
        Argument::required(
            "isolation",
            "Which isolation backend to benchmark: \"chroot\" or \"landlock\".",
        ),
    );
    parser.arguments.push(Argument::optional("mode", Some("setup"), MODE_HELP));
    parser
}

/// No two arguments have the same name.
pub open spec fn distinct_names(arguments: Seq<Argument>) -> bool {
    forall|i: int, j: int|
        0 <= i < j < arguments.len() ==> #[trigger] arguments[i].name@
            != #[trigger] arguments[j].name@
}

/// No argument of the setup benchmark, and so none of the jailer, hides another.
pub proof fn law_argument_names_are_distinct()
    ensures
        distinct_names(jailer_arguments() + bench_arguments()),
{
    reveal_strlit("id");
    reveal_strlit("exec-file");
    reveal_strlit("uid");
    reveal_strlit("gid");
    reveal_strlit("chroot-base-dir");
    reveal_strlit("netns");
    reveal_strlit("daemonize");
    reveal_strlit("new-pid-ns");
    reveal_strlit("cgroup");
    reveal_strlit("resource-limit");
    reveal_strlit("cgroup-version");
    reveal_strlit("parent-cgroup");
    reveal_strlit("version");
    reveal_strlit("isolation");
    reveal_strlit("mode");
    let all = jailer_arguments() + bench_arguments();
    assert forall|i: int, j: int| 0 <= i < j < all.len() implies #[trigger] all[i].name@
        != #[trigger] all[j].name@ by {
        let a = all[i].name@;
        let b = all[j].name@;
        if a.len() == b.len() {
            assert(a[0] != b[0] || a[1] != b[1]);
        }
    }
}

} // verus!
