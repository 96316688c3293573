//! Installing Nix: what the command decides from its arguments, from an
//! earlier receipt, and from the outcome of the install.

use vstd::prelude::*;
use crate::planner::{BuiltinPlanner, CommonSettings};
use crate::json::{members_equal, obj_view, same_members, Json};
use crate::text::{contains_text, has_text, owned};

verus! {

/// Where the receipt of an install is kept.
pub const RECEIPT_LOCATION: &'static str = "/nix/receipt.json";

/// Where the receipt of the first uninstall phase is kept.
pub const PHASE1_RECEIPT_LOCATION: &'static str = "/nix/uninstall-phase1.json";

/// Where the receipt of the second uninstall phase is kept.
pub const PHASE2_RECEIPT_LOCATION: &'static str = "/nix/uninstall-phase2.json";

/// The arguments of `install`.
pub struct Install {
    /// Run without asking for confirmation.
    pub no_confirm: bool,
    pub settings: CommonSettings,
    /// Explain the changes before asking.
    pub explain: bool,
    /// A path to an installer plan to use instead of planning.
    pub plan: Option<String>,
    pub planner: Option<BuiltinPlanner>,
}

/// Why `install` stops with an error.
#[derive(Debug, Clone, Copy, PartialEq, Eq, Structural)]
pub enum InstallError {
    /// Both a plan and a planner were given.
    PlanConflictsWithPlanner,
}

impl InstallError {
    /// The message shown for the error.
    pub fn message(&self) -> (r: String)
        ensures
            r@ == "`--plan` conflicts with passing a planner, a planner creates plans, so passing an existing plan doesn't make sense"@,
    {
        owned("`--plan` conflicts with passing a planner, a planner creates plans, so passing an existing plan doesn't make sense")
    }
}

/// A plan and a planner cannot both be given: a planner makes plans.
pub fn check_plan_source(has_plan: bool, has_planner: bool) -> (r: Result<(), InstallError>)
    ensures
        r is Err <==> has_plan && has_planner,
        r is Err ==> r == Err::<(), InstallError>(InstallError::PlanConflictsWithPlanner),
{
    if has_plan && has_planner {
        Err(InstallError::PlanConflictsWithPlanner)
    } else {
        Ok(())
    }
}

/// The command that uninstalls: the installer copy kept under `/nix` when
/// it exists, otherwise the published installer of this version, fetched.
pub open spec fn uninstall_command_text(installer_in_nix: bool, version: Seq<char>) -> Seq<char> {
    if installer_in_nix {
        "/nix/nix-installer uninstall"@
    } else {
        "curl --proto '=https' --tlsv1.2 -sSf -L https://install.determinate.systems/nix/tag/v"@ + version
            + " | sh -s -- uninstall"@
    }
}

pub fn uninstall_command(installer_in_nix: bool, version: &str) -> (r: String)
    ensures
        r@ == uninstall_command_text(installer_in_nix, version@),
{
    if installer_in_nix {
        owned("/nix/nix-installer uninstall")
    } else {
        let mut s = owned("curl --proto '=https' --tlsv1.2 -sSf -L https://install.determinate.systems/nix/tag/v");
        s.append(version);
        s.append(" | sh -s -- uninstall");
        s
    }
}

/// What to tell users who meet a receipt of an incompatible installer.
pub open spec fn incompatible_guidance() -> Seq<char> {
    "If you are trying to upgrade Nix, try running `sudo -i nix upgrade-nix` instead.\nIf you are trying to install Nix over an existing install (from an incompatible `nix-installer` install), try running `/nix/nix-installer uninstall` then try to install again.\nIf you are using `nix-installer` in an automated curing process and seeing this message, consider pinning the version you use via https://github.com/NixOS/experimental-nix-installer#accessing-other-versions."@
}

/// How `install` ends when a receipt of an earlier install exists: with
/// this message, and successfully or not.
pub struct ReceiptVerdict {
    pub message: String,
    pub success: bool,
}

/// The message and outcome for an existing receipt: an incompatible receipt
/// (its compatibility error given) fails, so does one from another planner or
/// with other settings; one from the same planner with the same settings
/// means the install is already done, which is a success.
pub open spec fn receipt_verdict(
    incompatibility: Option<Seq<char>>,
    same_planner: bool,
    same_settings: bool,
    uninstall: Seq<char>,
) -> (Seq<char>, bool) {
    match incompatibility {
        Some(e) => (
            e + "\n\nFound existing plan in `/nix/receipt.json` which was created by a version incompatible `nix-installer`.\n"@
                + incompatible_guidance() + "\n"@,
            false,
        ),
        None => if !same_planner {
            (
                "Found existing plan in `/nix/receipt.json` which used a different planner, try uninstalling the existing install with `"@
                    + uninstall + "`"@,
                false,
            )
        } else if !same_settings {
            (
                "Found existing plan in `/nix/receipt.json` which used different planner settings, try uninstalling the existing install with `"@
                    + uninstall + "`"@,
                false,
            )
        } else {
            (
                "Found existing plan in `/nix/receipt.json`, with the same settings, already completed. Try uninstalling (`"@
                    + uninstall + "`) and reinstalling if Nix isn't working"@,
                true,
            )
        },
    }
}

pub fn existing_receipt_verdict(
    incompatibility: Option<String>,
    same_planner: bool,
    same_settings: bool,
    uninstall: &str,
) -> (r: ReceiptVerdict)
    ensures
        (r.message@, r.success) == receipt_verdict(
            match incompatibility {
                Some(e) => Some(e@),
                None => None,
            },
            same_planner,
            same_settings,
            uninstall@,
        ),
{
    match incompatibility {
        Some(e) => {
            let mut m = e;
            m.append("\n\nFound existing plan in `/nix/receipt.json` which was created by a version incompatible `nix-installer`.\n");
            m.append("If you are trying to upgrade Nix, try running `sudo -i nix upgrade-nix` instead.\nIf you are trying to install Nix over an existing install (from an incompatible `nix-installer` install), try running `/nix/nix-installer uninstall` then try to install again.\nIf you are using `nix-installer` in an automated curing process and seeing this message, consider pinning the version you use via https://github.com/NixOS/experimental-nix-installer#accessing-other-versions.");
            m.append("\n");
            ReceiptVerdict { message: m, success: false }
        },
        None => {
            if !same_planner {
                let mut m = owned("Found existing plan in `/nix/receipt.json` which used a different planner, try uninstalling the existing install with `");
                m.append(uninstall);
                m.append("`");
                ReceiptVerdict { message: m, success: false }
            } else if !same_settings {
                let mut m = owned("Found existing plan in `/nix/receipt.json` which used different planner settings, try uninstalling the existing install with `");
                m.append(uninstall);
                m.append("`");
                ReceiptVerdict { message: m, success: false }
            } else {
                let mut m = owned("Found existing plan in `/nix/receipt.json`, with the same settings, already completed. Try uninstalling (`");
                m.append(uninstall);
                m.append("`) and reinstalling if Nix isn't working");
                ReceiptVerdict { message: m, success: true }
            }
        },
    }
}

/// The verdict on an existing receipt from what it records of its planner:
/// it agrees with the planner of this install when the planners' names are
/// the same, and their settings are when both have the same members,
/// whatever their order.
pub fn existing_receipt_check(
    incompatibility: Option<String>,
    receipt_planner: &str,
    receipt_settings: &Vec<(String, Json)>,
    planner: &str,
    settings: &Vec<(String, Json)>,
    uninstall: &str,
) -> (r: ReceiptVerdict)
    ensures
        (r.message@, r.success) == receipt_verdict(
            match incompatibility {
                Some(e) => Some(e@),
                None => None,
            },
            receipt_planner@ == planner@,
            same_members(obj_view(receipt_settings@), obj_view(settings@)),
            uninstall@,
        ),
{
    let same_planner = owned(receipt_planner) == owned(planner);
    let same_settings = members_equal(receipt_settings, settings);
    existing_receipt_verdict(incompatibility, same_planner, same_settings, uninstall)
}

/// What happens after the install fails.
#[derive(Debug)]
pub enum FailureStep {
    /// Show the message and exit unsuccessfully.
    ExitWithMessage(String),
    /// Stop with the error, wrapped as an install failure.
    Fail,
    /// Offer to revert what was done, after showing the message, if any,
    /// and logging the error when it was neither expected nor a cancellation.
    OfferRevert { message: Option<String>, log_error: bool },
}

/// The message shown for a failure: the expected-error message when the
/// error is one users meet, else the cancellation message, if any.
pub open spec fn shown_message(expected: Option<String>, cancelled: Option<String>) -> Option<String> {
    match expected {
        Some(m) => Some(m),
        None => cancelled,
    }
}

pub open spec fn opt_text(o: Option<String>) -> Option<Seq<char>> {
    match o {
        Some(s) => Some(s@),
        None => None,
    }
}

/// What to do after the install failed, given whether the user is asked for
/// confirmation, the expected-error message (if the error is one users
/// meet), and, for a cancellation, its message: with confirmation, revert
/// is offered; without, the message ends the command, or the error does.
pub fn install_failure_step(no_confirm: bool, expected: Option<String>, cancelled: Option<String>) -> (r: FailureStep)
    ensures
        !no_confirm ==> r == (FailureStep::OfferRevert {
            message: shown_message(expected, cancelled),
            log_error: expected is None && cancelled is None,
        }),
        no_confirm ==> match shown_message(expected, cancelled) {
            Some(m) => r == FailureStep::ExitWithMessage(m),
            None => r == FailureStep::Fail,
        },
{
    let log_error = expected.is_none() && cancelled.is_none();
    let shown = match expected {
        Some(m) => Some(m),
        None => cancelled,
    };
    if !no_confirm {
        FailureStep::OfferRevert { message: shown, log_error }
    } else {
        match shown {
            Some(m) => FailureStep::ExitWithMessage(m),
            None => FailureStep::Fail,
        }
    }
}

/// How the revert that follows a failed install ends.
#[derive(Debug)]
pub enum RevertEnd {
    /// The partial install was undone.
    Reverted,
    /// Show the message and exit unsuccessfully.
    ExitWithMessage(String),
    /// Stop with the error; when reverting actions failed, with all their
    /// errors gathered.
    Fail { reverts_failed: bool },
}

/// The end of a revert, given whether it succeeded, whether reverting
/// actions failed, the expected-error message, and the cancellation message.
pub fn revert_end(succeeded: bool, reverts_failed: bool, expected: Option<String>, cancelled: Option<String>) -> (r: RevertEnd)
    ensures
        succeeded ==> r is Reverted,
        !succeeded && reverts_failed ==> r == (RevertEnd::Fail { reverts_failed: true }),
        !succeeded && !reverts_failed ==> match shown_message(expected, cancelled) {
            Some(m) => r == RevertEnd::ExitWithMessage(m),
            None => r == (RevertEnd::Fail { reverts_failed: false }),
        },
{
    if succeeded {
        return RevertEnd::Reverted;
    }
    if reverts_failed {
        return RevertEnd::Fail { reverts_failed: true };
    }
    match expected {
        Some(m) => RevertEnd::ExitWithMessage(m),
        None => match cancelled {
            Some(m) => RevertEnd::ExitWithMessage(m),
            None => RevertEnd::Fail { reverts_failed: false },
        },
    }
}

/// The suggestion shown on macOS before installing: the message the
/// feedback service provides, or the default one; nothing elsewhere.
pub open spec fn pkg_suggestion_text(is_macos: bool, provided: Option<Seq<char>>) -> Option<Seq<char>> {
    if !is_macos {
        None
    } else {
        match provided {
            Some(m) => Some(m),
            None => Some("For a more robust Nix installation, use the Determinate package for macOS: https://dtr.mn/determinate-nix"@),
        }
    }
}

pub fn pkg_suggestion(is_macos: bool, provided: Option<String>) -> (r: Option<String>)
    ensures
        opt_text(r) == pkg_suggestion_text(is_macos, opt_text(provided)),
{
    if !is_macos {
        None
    } else {
        match provided {
            Some(m) => Some(m),
            None => Some(owned("For a more robust Nix installation, use the Determinate package for macOS: https://dtr.mn/determinate-nix")),
        }
    }
}

/// The file whose sourcing makes Nix usable in a new shell: the Fish
/// variant when the login shell's path mentions `fish`.
pub open spec fn shell_reminder_text(shell: Option<Seq<char>>) -> Seq<char> {
    match shell {
        Some(s) => if has_text(s, "fish"@) {
            ". /nix/var/nix/profiles/default/etc/profile.d/nix-daemon.fish"@
        } else {
            ". /nix/var/nix/profiles/default/etc/profile.d/nix-daemon.sh"@
        },
        None => ". /nix/var/nix/profiles/default/etc/profile.d/nix-daemon.sh"@,
    }
}

pub fn shell_reminder(shell: Option<String>) -> (r: String)
    ensures
        r@ == shell_reminder_text(opt_text(shell)),
{
    match shell {
        Some(s) => if contains_text(&s, "fish") {
            owned(". /nix/var/nix/profiles/default/etc/profile.d/nix-daemon.fish")
        } else {
            owned(". /nix/var/nix/profiles/default/etc/profile.d/nix-daemon.sh")
        },
        None => owned(". /nix/var/nix/profiles/default/etc/profile.d/nix-daemon.sh"),
    }
}

} // verus!
