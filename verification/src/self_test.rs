//! The shells in which an installation is tested.

use vstd::prelude::*;
use crate::planner::{host_arch, host_os, HostArch, HostOs};
use crate::diagnostics::{diagnostic_text, diagnostic_with_context, ErrorDiagnostic};
use crate::text::{decimal, decimal_text, owned};

verus! {

/// A shell in which Nix should be usable after an install.
#[derive(Clone, Copy, Debug, PartialEq, Eq, Structural)]
pub enum Shell {
    Sh,
    Bash,
    Fish,
    Zsh,
}

/// The name of the executable of a shell.
pub open spec fn shell_executable(shell: Shell) -> Seq<char> {
    match shell {
        Shell::Sh => "sh"@,
        Shell::Bash => "bash"@,
        Shell::Fish => "fish"@,
        Shell::Zsh => "zsh"@,
    }
}

impl Shell {
    /// Every supported shell, in the order in which they are tested.
    pub fn all() -> (r: Vec<Shell>)
        ensures
            r@ == seq![Shell::Sh, Shell::Bash, Shell::Fish, Shell::Zsh],
    {
        vec![Shell::Sh, Shell::Bash, Shell::Fish, Shell::Zsh]
    }

    pub fn executable(&self) -> (r: &'static str)
        ensures
            r@ == shell_executable(*self),
    {
        match self {
            Shell::Sh => "sh",
            Shell::Bash => "bash",
            Shell::Fish => "fish",
            Shell::Zsh => "zsh",
        }
    }
}

impl Shell {
    /// The flag that makes the shell run a command as a login shell (`sh`,
    /// `bash`: on macOS `bash -ic` does not find Nix) or as an interactive
    /// one (`zsh`, `fish`).
    pub fn command_flag(&self) -> (r: &'static str)
        ensures
            r@ == (if *self == Shell::Sh || *self == Shell::Bash { "-lc"@ } else { "-ic"@ }),
    {
        match self {
            Shell::Sh | Shell::Bash => "-lc",
            Shell::Zsh | Shell::Fish => "-ic",
        }
    }
}

/// The Nix system name of a host: `x86_64-linux`, `aarch64-linux`, or
/// `aarch64-darwin`; the self test knows no other.
pub open spec fn system_name(arch: HostArch, os: HostOs) -> Option<Seq<char>> {
    match (arch, os) {
        (HostArch::X86_64, HostOs::Linux) => Some("x86_64-linux"@),
        (HostArch::Aarch64, HostOs::Linux) => Some("aarch64-linux"@),
        (HostArch::Aarch64, HostOs::Macos) => Some("aarch64-darwin"@),
        _ => None,
    }
}

pub fn system_name_of(arch: HostArch, os: HostOs) -> (r: Option<&'static str>)
    ensures
        match r {
            Some(s) => system_name(arch, os) == Some(s@),
            None => system_name(arch, os) is None,
        },
{
    match (arch, os) {
        (HostArch::X86_64, HostOs::Linux) => Some("x86_64-linux"),
        (HostArch::Aarch64, HostOs::Linux) => Some("aarch64-linux"),
        (HostArch::Aarch64, HostOs::Macos) => Some("aarch64-darwin"),
        _ => None,
    }
}

/// The Nix system name of the host the installer was built for: the name
/// of its processor family and operating system, or none when the self test
/// knows no name for them.
pub fn host_system_name() -> (r: Option<&'static str>)
    ensures
        exists|a: HostArch, o: HostOs| match r {
            Some(s) => #[trigger] system_name(a, o) == Some(s@),
            None => system_name(a, o) is None,
        },
{
    let a = host_arch();
    let o = host_os();
    system_name_of(a, o)
}

/// The command a shell runs in the self test: build, without substitutes
/// or hooks, a derivation named after the shell and the time, for the
/// host's system, that only writes `hello`.
pub open spec fn self_test_command_text(executable: Seq<char>, timestamp_millis: u64, system: Seq<char>) -> Seq<char> {
    "exec nix build --option substitute false --option post-build-hook '' --no-link --expr 'derivation { name = \"self-test-"@
        + executable + "-"@ + decimal_text(timestamp_millis as nat) + "\"; system = \""@ + system
        + "\"; builder = \"/bin/sh\"; args = [\"-c\" \"echo hello > \\$out\"]; }'"@
}

pub fn self_test_command(executable: &str, timestamp_millis: u64, system: &str) -> (r: String)
    ensures
        r@ == self_test_command_text(executable@, timestamp_millis, system@),
{
    let mut c = owned("exec nix build --option substitute false --option post-build-hook '' --no-link --expr 'derivation { name = \"self-test-");
    c.append(executable);
    c.append("-");
    let t = decimal(timestamp_millis);
    c.append(t.as_str());
    c.append("\"; system = \"");
    c.append(system);
    c.append("\"; builder = \"/bin/sh\"; args = [\"-c\" \"echo hello > \\$out\"]; }'");
    c
}

/// How running a shell's self test went.
#[derive(Debug)]
pub enum ShellRun {
    /// It did not finish within the time allowed.
    TimedOut,
    /// It could not be started, for the given reason.
    NotStarted(String),
    /// It exited, successfully or not, with this standard error.
    Exited { success: bool, stderr: String },
}

/// Why the self test of a shell failed.
#[derive(Debug)]
pub enum SelfTestError {
    /// The shell ran the command and it failed.
    ShellFailed { shell: Shell, command: String, stderr: String },
    /// The command could not be run.
    Command { shell: Shell, command: String, error: String },
    /// The clock is before the Unix epoch.
    SystemTime,
    /// The command did not finish in time.
    TimedOut { shell: Shell, command: String },
}

/// The verdict on a shell's self test: success when the command exited
/// successfully, the matching error otherwise.
pub fn self_test_outcome(shell: Shell, command: String, run: ShellRun) -> (r: Result<(), SelfTestError>)
    ensures
        match run {
            ShellRun::TimedOut => r matches Err(SelfTestError::TimedOut { shell: s, command: c }) && s == shell
                && c == command,
            ShellRun::NotStarted(e) => r matches Err(SelfTestError::Command { shell: s, command: c, error }) && s
                == shell && c == command && error == e,
            ShellRun::Exited { success, stderr } => if success {
                r is Ok
            } else {
                r matches Err(SelfTestError::ShellFailed { shell: s, command: c, stderr: e }) && s == shell && c
                    == command && e == stderr
            },
        },
{
    match run {
        ShellRun::TimedOut => Err(SelfTestError::TimedOut { shell, command }),
        ShellRun::NotStarted(error) => Err(SelfTestError::Command { shell, command, error }),
        ShellRun::Exited { success, stderr } => if success {
            Ok(())
        } else {
            Err(SelfTestError::ShellFailed { shell, command, stderr })
        },
    }
}

/// The shells to test: those of `Shell::all` that are installed, given in
/// the same order.
pub fn discover(installed: &Vec<bool>) -> (r: Vec<Shell>)
    requires
        installed.len() == 4,
    ensures
        r@ == seq![Shell::Sh, Shell::Bash, Shell::Fish, Shell::Zsh].filter(|s: Shell| installed@[shell_index(s)]),
{
    let all = Shell::all();
    let mut out: Vec<Shell> = Vec::new();
    let mut i: usize = 0;
    while i < all.len()
        invariant
            i <= all.len(),
            all@ == seq![Shell::Sh, Shell::Bash, Shell::Fish, Shell::Zsh],
            installed.len() == 4,
            out@ == all@.take(i as int).filter(|s: Shell| installed@[shell_index(s)]),
        decreases all.len() - i,
    {
        proof {
            reveal(Seq::filter);
            assert(all@.take(i + 1).drop_last() =~= all@.take(i as int));
            assert(shell_index(all@[i as int]) == i);
        }
        if installed[i] {
            out.push(all[i]);
        }
        i = i + 1;
    }
    proof {
        assert(all@.take(4) =~= all@);
    }
    out
}

/// The position of a shell in `Shell::all`.
pub open spec fn shell_index(s: Shell) -> int {
    match s {
        Shell::Sh => 0,
        Shell::Bash => 1,
        Shell::Fish => 2,
        Shell::Zsh => 3,
    }
}

/// The errors among the results, in order.
pub open spec fn failures_of(results: Seq<Result<(), SelfTestError>>) -> Seq<SelfTestError>
    decreases results.len(),
{
    if results.len() == 0 {
        Seq::empty()
    } else {
        let rest = failures_of(results.drop_last());
        match results.last() {
            Ok(()) => rest,
            Err(e) => rest.push(e),
        }
    }
}

/// The result of testing every shell: success when none failed, else the
/// failures in order.
pub fn collect_failures(results: Vec<Result<(), SelfTestError>>) -> (r: Result<(), Vec<SelfTestError>>)
    ensures
        failures_of(results@).len() == 0 ==> r is Ok,
        failures_of(results@).len() > 0 ==> (r matches Err(f) && f@ == failures_of(results@)),
{
    let ghost all = results@;
    let mut results = results;
    let mut failures: Vec<SelfTestError> = Vec::new();
    let mut i: usize = 0;
    let len = results.len();
    while i < len
        invariant
            i <= len,
            len == all.len(),
            results@ == all.skip(i as int),
            failures@ == failures_of(all.take(i as int)),
        decreases len - i,
    {
        let x = results.remove(0);
        proof {
            assert(all.skip(i as int)[0] == all[i as int]);
            assert(all.skip(i as int).remove(0) =~= all.skip(i + 1));
            assert(all.take(i + 1).drop_last() =~= all.take(i as int));
            assert(all.take(i + 1).last() == all[i as int]);
        }
        match x {
            Ok(()) => {},
            Err(e) => {
                failures.push(e);
            },
        }
        i = i + 1;
    }
    proof {
        assert(all.take(len as int) =~= all);
    }
    if failures.len() == 0 {
        Ok(())
    } else {
        Err(failures)
    }
}

/// The diagnostic of a self-test error: its kind and the shell it concerns.
pub open spec fn self_test_diagnostic(e: SelfTestError) -> Seq<char> {
    match e {
        SelfTestError::ShellFailed { shell, .. } => diagnostic_text("ShellFailed"@, seq![shell_executable(shell)]),
        SelfTestError::Command { shell, .. } => diagnostic_text("Command"@, seq![shell_executable(shell)]),
        SelfTestError::SystemTime => diagnostic_text("SystemTime"@, Seq::empty()),
        SelfTestError::TimedOut { shell, .. } => diagnostic_text("TimedOut"@, seq![shell_executable(shell)]),
    }
}

impl ErrorDiagnostic for SelfTestError {
    fn diagnostic(&self) -> (r: String)
        ensures
            r@ == self_test_diagnostic(*self),
    {
        let mut context: Vec<String> = Vec::new();
        let name = match self {
            SelfTestError::ShellFailed { shell, .. } => {
                context.push(owned(shell.executable()));
                "ShellFailed"
            },
            SelfTestError::Command { shell, .. } => {
                context.push(owned(shell.executable()));
                "Command"
            },
            SelfTestError::SystemTime => "SystemTime",
            SelfTestError::TimedOut { shell, .. } => {
                context.push(owned(shell.executable()));
                "TimedOut"
            },
        };
        proof {
            match *self {
                SelfTestError::SystemTime => {
                    assert(crate::text::strs(context@) =~= Seq::<Seq<char>>::empty());
                },
                SelfTestError::ShellFailed { shell, .. } => {
                    assert(crate::text::strs(context@) =~= seq![shell_executable(shell)]);
                },
                SelfTestError::Command { shell, .. } => {
                    assert(crate::text::strs(context@) =~= seq![shell_executable(shell)]);
                },
                SelfTestError::TimedOut { shell, .. } => {
                    assert(crate::text::strs(context@) =~= seq![shell_executable(shell)]);
                },
            }
        }
        diagnostic_with_context(name, &context)
    }
}

} // verus!
