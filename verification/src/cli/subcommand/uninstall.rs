//! Uninstalling Nix: where the uninstaller runs from, what it reports when
//! a receipt cannot be used, and how it finishes.

use vstd::prelude::*;
use rand::Rng;
use crate::cli::subcommand::install::{opt_text, uninstall_command_text};
use crate::plan::{
    ensure_version, parse_version, parses_as_version, version_error_message, version_error_text, version_parse_error, version_verdict,
};
use crate::text::{join_path, owned, path_join, path_starts_with, path_starts_with_exec};

verus! {

/// The arguments of `uninstall`.
pub struct Uninstall {
    /// Run without asking for confirmation.
    pub no_confirm: bool,
    /// Explain the changes before asking.
    pub explain: bool,
    /// The receipt of the install to undo.
    pub receipt: String,
}

/// The uninstaller leaves a working directory under `/nix` (path components
/// compared whole), which it is about to delete.
pub fn must_leave_current_dir(cwd: &str) -> (r: bool)
    ensures
        r == path_starts_with(cwd@, "/nix"@),
{
    path_starts_with_exec(cwd, "/nix")
}

/// An uninstaller that runs from under `/nix` would delete itself: it runs
/// a copy of itself from elsewhere instead.
pub fn must_run_from_copy(exe: &str) -> (r: bool)
    ensures
        r == path_starts_with(exe@, "/nix"@),
{
    path_starts_with_exec(exe, "/nix")
}

/// The characters a copy's random name is made of.
pub open spec fn trailer_charset() -> Seq<char> {
    "ABCDEFGHIJKLMNOPQRSTUVWXYZabcdefghijklmnopqrstuvwxyz0123456789"@
}

/// How many random characters a copy's name ends with.
pub const TRAILER_LEN: usize = 16;

/// The characters of the charset at the given positions.
pub fn trailer_from_indices(indices: &Vec<usize>) -> (r: String)
    requires
        forall|i: int| 0 <= i < indices.len() ==> indices[i] < 62,
    ensures
        r@ == indices@.map_values(|k: usize| trailer_charset()[k as int]),
{
    let charset = "ABCDEFGHIJKLMNOPQRSTUVWXYZabcdefghijklmnopqrstuvwxyz0123456789";
    proof {
        reveal_strlit("ABCDEFGHIJKLMNOPQRSTUVWXYZabcdefghijklmnopqrstuvwxyz0123456789");
    }
    let mut out = String::new();
    let mut i: usize = 0;
    while i < indices.len()
        invariant
            i <= indices.len(),
            charset@ == trailer_charset(),
            charset@.len() == 62,
            forall|j: int| 0 <= j < indices.len() ==> indices[j] < 62,
            out@ == indices@.take(i as int).map_values(|k: usize| trailer_charset()[k as int]),
        decreases indices.len() - i,
    {
        let k = indices[i];
        let piece = charset.substring_char(k, k + 1);
        proof {
            assert(piece@ =~= seq![trailer_charset()[k as int]]);
            assert(indices@.take(i + 1).map_values(|k: usize| trailer_charset()[k as int])
                =~= indices@.take(i as int).map_values(|k: usize| trailer_charset()[k as int]).push(trailer_charset()[k as int]));
        }
        out.append(piece);
        i = i + 1;
    }
    proof {
        assert(indices@.take(indices@.len() as int) =~= indices@);
    }
    out
}

/// Calls `rand::Rng::gen_range` on the thread's generator: a number below `n`.
#[verifier::external_body]
fn random_below(n: usize) -> (r: usize)
    requires
        n > 0,
    ensures
        r < n,
{
    rand::thread_rng().gen_range(0..n)
}

/// A random name ending for the copy: sixteen letters or digits.
pub fn random_trailer() -> (r: String)
    ensures
        r@.len() == TRAILER_LEN,
        forall|i: int| 0 <= i < r@.len() ==> trailer_charset().contains(#[trigger] r@[i]),
{
    let mut indices: Vec<usize> = Vec::new();
    let mut i: usize = 0;
    while i < TRAILER_LEN
        invariant
            i <= TRAILER_LEN,
            indices.len() == i,
            forall|j: int| 0 <= j < indices.len() ==> indices[j] < 62,
        decreases TRAILER_LEN - i,
    {
        indices.push(random_below(62));
        i = i + 1;
    }
    let r = trailer_from_indices(&indices);
    proof {
        reveal_strlit("ABCDEFGHIJKLMNOPQRSTUVWXYZabcdefghijklmnopqrstuvwxyz0123456789");
        assert forall|i: int| 0 <= i < r@.len() implies trailer_charset().contains(#[trigger] r@[i]) by {
            let k = indices@[i] as int;
            assert(r@[i] == trailer_charset()[k]);
        }
    }
    r
}

/// Where the copy of the uninstaller is put: `nix-installer-` and the random
/// ending, in the temporary directory.
pub fn copy_location(temp_dir: &String, trailer: &str) -> (r: String)
    ensures
        r@ == path_join(temp_dir@, "nix-installer-"@ + trailer@),
{
    let mut name = owned("nix-installer-");
    name.append(trailer);
    join_path(temp_dir, name.as_str())
}

/// The message for a receipt that cannot be read as a plan of this
/// installer, when its version can be read.
pub open spec fn unreadable_plan_text(plan_version: Seq<char>, current_version: Seq<char>) -> Seq<char> {
    "Unable to parse plan, this plan was created by `nix-installer` version `"@ + plan_version
        + "`, this is `nix-installer` version `"@ + current_version
        + "`\nTo uninstall, either run  `/nix/nix-installer uninstall` or `"@
        + uninstall_command_text(false, plan_version) + "`"@
}

pub fn unreadable_plan_message(plan_version: &str, current_version: &str) -> (r: String)
    ensures
        r@ == unreadable_plan_text(plan_version@, current_version@),
{
    let mut m = owned("Unable to parse plan, this plan was created by `nix-installer` version `");
    m.append(plan_version);
    m.append("`, this is `nix-installer` version `");
    m.append(current_version);
    m.append("`\nTo uninstall, either run  `/nix/nix-installer uninstall` or `");
    m.append("curl --proto '=https' --tlsv1.2 -sSf -L https://install.determinate.systems/nix/tag/v");
    m.append(plan_version);
    m.append(" | sh -s -- uninstall");
    m.append("`");
    m
}

/// The message for a receipt of an incompatible installer, given the
/// compatibility error and the receipt's version.
pub open spec fn incompatible_receipt_text(error: Seq<char>, version: Seq<char>) -> Seq<char> {
    error
        + "\n\nFound existing plan in `/nix/receipt.json` which was created by a version incompatible `nix-installer`.\n\n\n                    To uninstall, either run `/nix/nix-installer uninstall` or `curl --proto '=https' --tlsv1.2 -sSf -L https://install.determinate.systems/nix/tag/v$"@
        + version + " | sh -s -- uninstall`\n\n"@
}

pub fn incompatible_receipt_message(error: &str, version: &str) -> (r: String)
    ensures
        r@ == incompatible_receipt_text(error@, version@),
{
    let mut m = owned(error);
    m.append("\n\nFound existing plan in `/nix/receipt.json` which was created by a version incompatible `nix-installer`.\n\n\n                    To uninstall, either run `/nix/nix-installer uninstall` or `curl --proto '=https' --tlsv1.2 -sSf -L https://install.determinate.systems/nix/tag/v$");
    m.append(version);
    m.append(" | sh -s -- uninstall`\n\n");
    m
}

/// What the uninstall does with its receipt before reverting anything.
#[derive(Debug)]
pub enum ReceiptVersionStep {
    /// The receipt is a plan this installer is compatible with: go on.
    Proceed,
    /// The receipt is not a plan, but its version reads: stop with this
    /// error, which names both versions.
    Unreadable(String),
    /// The receipt is not a plan and its version does not read either: stop
    /// with the error that reading the plan gave.
    ParseError,
    /// The receipt is a plan this installer is not compatible with: show
    /// this message and fail.
    Incompatible(String),
}

/// The step for the receipt, given whether it reads as a plan and the text
/// of its `version`: a receipt that is not a plan stops the uninstall, with
/// an error naming both versions when its version reads, else with the
/// reading error itself; a plan this installer is not compatible with is
/// reported, with how to uninstall with the right installer, and the
/// uninstall fails; otherwise it goes on. Nothing is reverted or changed in
/// any of the stopping cases.
pub fn receipt_version_step(plan_parses: bool, plan_version: &str, current_version: &str) -> (r: ReceiptVersionStep)
    ensures
        !plan_parses && parses_as_version(plan_version@) ==> (r matches ReceiptVersionStep::Unreadable(m) && m@
            == unreadable_plan_text(plan_version@, current_version@)),
        !plan_parses && !parses_as_version(plan_version@) ==> r is ParseError,
        plan_parses && !parses_as_version(plan_version@) ==> (r matches ReceiptVersionStep::Incompatible(m) && m@
            == incompatible_receipt_text(version_parse_error(plan_version@), plan_version@)),
        plan_parses && parses_as_version(plan_version@) ==> match version_verdict(plan_version@, current_version@) {
            Ok(()) => r is Proceed,
            Err(e) => r matches ReceiptVersionStep::Incompatible(m) && m@ == incompatible_receipt_text(
                version_error_text(e, plan_version@, current_version@),
                plan_version@,
            ),
        },
{
    if !plan_parses {
        if parse_version(plan_version).is_ok() {
            return ReceiptVersionStep::Unreadable(unreadable_plan_message(plan_version, current_version));
        }
        return ReceiptVersionStep::ParseError;
    }
    match ensure_version(plan_version, current_version) {
        Ok(()) => ReceiptVersionStep::Proceed,
        Err(e) => {
            let err = version_error_message(e, plan_version, current_version);
            ReceiptVersionStep::Incompatible(incompatible_receipt_message(err.as_str(), plan_version))
        },
    }
}

/// How a failed uninstall ends.
#[derive(Debug)]
pub enum UninstallFailure {
    /// Show the message and exit unsuccessfully.
    ExitWithMessage(String),
    /// Stop with the error; for failed reverts, after logging that the
    /// uninstall completed with errors.
    Fail { reverts_failed: bool },
}

/// Failed reverts end with the error; otherwise an error users meet is
/// shown and the exit is unsuccessful; any other error ends the command.
pub fn uninstall_failure(reverts_failed: bool, expected: Option<String>) -> (r: UninstallFailure)
    ensures
        reverts_failed ==> r == (UninstallFailure::Fail { reverts_failed: true }),
        !reverts_failed ==> match expected {
            Some(m) => r == UninstallFailure::ExitWithMessage(m),
            None => r == (UninstallFailure::Fail { reverts_failed: false }),
        },
{
    if reverts_failed {
        return UninstallFailure::Fail { reverts_failed: true };
    }
    match expected {
        Some(m) => UninstallFailure::ExitWithMessage(m),
        None => UninstallFailure::Fail { reverts_failed: false },
    }
}

/// Where the receipt of the original install is kept after Determinate Nix
/// was added to it.
pub const ORIGINAL_RECEIPT_LOCATION: &'static str = "/nix/original-receipt.json";

/// Where the original installer is kept after Determinate Nix was added.
pub const ORIGINAL_INSTALLER_BINARY_LOCATION: &'static str = "/nix/original-nix-installer";

/// What follows a successful uninstall.
#[derive(Debug, Clone, Copy, PartialEq, Eq, Structural)]
pub enum AfterUninstall {
    /// Nothing: the uninstall is complete.
    Done,
    /// The original receipt is there but its installer is gone: report how
    /// to fetch it and fail.
    OriginalInstallerMissing,
    /// Put the original installer and receipt back in place and run the
    /// original installer's uninstall with the same arguments.
    RunOriginalUninstaller,
}

/// After Determinate Nix is uninstalled, the Nix it was added to is
/// uninstalled by its original installer, when its receipt was kept.
pub fn after_uninstall(original_receipt_exists: bool, original_installer_exists: bool) -> (r: AfterUninstall)
    ensures
        !original_receipt_exists ==> r == AfterUninstall::Done,
        original_receipt_exists && !original_installer_exists ==> r == AfterUninstall::OriginalInstallerMissing,
        original_receipt_exists && original_installer_exists ==> r == AfterUninstall::RunOriginalUninstaller,
{
    if !original_receipt_exists {
        AfterUninstall::Done
    } else if !original_installer_exists {
        AfterUninstall::OriginalInstallerMissing
    } else {
        AfterUninstall::RunOriginalUninstaller
    }
}

} // verus!
