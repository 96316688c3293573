//! The errors that an install, an uninstall or a self test ends with, which
//! of them a user is expected to meet, and how each is reported.

use vstd::prelude::*;
use crate::diagnostics::{diagnostic_text, diagnostic_with_context, ErrorDiagnostic};
use crate::planner::PlannerError;
use crate::self_test::{self_test_diagnostic, SelfTestError};
use crate::text::{join_on_char, join_with, owned, strs};

verus! {

/// What the installer reads of an action's error: whether a user is
/// expected to meet it, its diagnostic name, its message and the message of
/// the error behind it, if any.
#[derive(Debug)]
pub struct ActionFailure {
    pub expected: bool,
    pub diagnostic: String,
    pub message: String,
    pub source: Option<String>,
}

/// An error that ends an install, an uninstall or a self test.
#[derive(Debug)]
pub enum NixInstallerError {
    /// An action failed.
    Action(ActionFailure),
    /// A self test failed.
    SelfTest(SelfTestError),
    /// Actions failed while being reverted.
    ActionRevert(Vec<ActionFailure>),
    /// The receipt could not be written to this path.
    RecordingReceipt(String),
    /// The installer could not copy itself into `/nix`.
    CopyingSelf,
    /// The receipt could not be serialized.
    SerializingReceipt,
    /// The user cancelled.
    Cancelled,
    /// A version did not read according to Semantic Versioning.
    SemVer,
    /// The planner failed.
    Planner(PlannerError),
    /// The install settings were refused.
    InstallSettings,
    /// The diagnostics could not be sent.
    Diagnostic,
    /// The plan's version does not read as a requirement.
    InvalidVersionRequirement(String),
    /// The installer's own version does not read as a version.
    InvalidCurrentVersion(String),
    /// The installer's version does not meet the plan's.
    IncompatibleVersion { binary: String, plan: String },
}

/// Whether a planner error is one a user is expected to meet.
pub open spec fn planner_error_expected(e: PlannerError) -> bool {
    match e {
        PlannerError::UnsupportedArchitecture | PlannerError::RosettaDetected
        | PlannerError::NixEnterpriseUnavailable | PlannerError::SelinuxRequirements
        | PlannerError::NixOs | PlannerError::NixExists | PlannerError::Wsl1
        | PlannerError::Linux(_) | PlannerError::Macos(_) => true,
        _ => false,
    }
}

/// Whether an error is one a user is expected to meet (and is shown without
/// a trace): a cancellation, a version mismatch, or an expected error of an
/// action or of the planner.
pub open spec fn error_expected(e: NixInstallerError) -> bool {
    match e {
        NixInstallerError::Action(a) => a.expected,
        NixInstallerError::Cancelled => true,
        NixInstallerError::Planner(p) => planner_error_expected(p),
        NixInstallerError::InvalidVersionRequirement(_) => true,
        NixInstallerError::InvalidCurrentVersion(_) => true,
        NixInstallerError::IncompatibleVersion { .. } => true,
        _ => false,
    }
}

/// The name of an error's variant, as reported in diagnostics.
pub open spec fn error_name(e: NixInstallerError) -> Seq<char> {
    match e {
        NixInstallerError::Action(_) => "Action"@,
        NixInstallerError::SelfTest(_) => "SelfTest"@,
        NixInstallerError::ActionRevert(_) => "ActionRevert"@,
        NixInstallerError::RecordingReceipt(_) => "RecordingReceipt"@,
        NixInstallerError::CopyingSelf => "CopyingSelf"@,
        NixInstallerError::SerializingReceipt => "SerializingReceipt"@,
        NixInstallerError::Cancelled => "Cancelled"@,
        NixInstallerError::SemVer => "SemVer"@,
        NixInstallerError::Planner(_) => "Planner"@,
        NixInstallerError::InstallSettings => "InstallSettings"@,
        NixInstallerError::Diagnostic => "Diagnostic"@,
        NixInstallerError::InvalidVersionRequirement(_) => "InvalidVersionRequirement"@,
        NixInstallerError::InvalidCurrentVersion(_) => "InvalidCurrentVersion"@,
        NixInstallerError::IncompatibleVersion { .. } => "IncompatibleVersion"@,
    }
}

/// The diagnostic names of failed actions, in order.
pub open spec fn failure_diagnostics(v: Seq<ActionFailure>) -> Seq<Seq<char>> {
    v.map_values(|f: ActionFailure| f.diagnostic@)
}

/// The diagnostic of an error: its name, with the diagnostics of the self
/// test or of the actions behind it.
pub open spec fn error_diagnostic(e: NixInstallerError) -> Seq<char> {
    let context = match e {
        NixInstallerError::SelfTest(t) => seq![self_test_diagnostic(t)],
        NixInstallerError::Action(a) => seq![a.diagnostic@],
        NixInstallerError::ActionRevert(v) => failure_diagnostics(v@),
        _ => Seq::<Seq<char>>::empty(),
    };
    diagnostic_text(error_name(e), context)
}

/// How a failed action is listed among the errors of a revert: its
/// message, then the message behind it, each on a line of its own.
pub open spec fn failure_lines(f: ActionFailure) -> Seq<char> {
    match f.source {
        Some(s) => f.message@ + "\n"@ + s@ + "\n"@,
        None => f.message@ + "\n"@,
    }
}

/// The message of an error.
pub open spec fn error_message(e: NixInstallerError) -> Seq<char> {
    match e {
        NixInstallerError::Action(_) => "Error executing action"@,
        NixInstallerError::SelfTest(_) => "Self test"@,
        NixInstallerError::ActionRevert(v) => "Error reverting\n"@
            + join_with(v@.map_values(|f: ActionFailure| failure_lines(f)), "\n"@),
        NixInstallerError::RecordingReceipt(_) => "Recording install receipt"@,
        NixInstallerError::CopyingSelf => "Copying `nix-installer` binary into `/nix`"@,
        NixInstallerError::SerializingReceipt => "Serializing receipt"@,
        NixInstallerError::Cancelled => "Cancelled by user"@,
        NixInstallerError::SemVer => "Semantic Versioning error"@,
        NixInstallerError::Planner(_) => "Planner error"@,
        NixInstallerError::InstallSettings => "Install setting error"@,
        NixInstallerError::Diagnostic => "Diagnostic error"@,
        NixInstallerError::InvalidVersionRequirement(s) => "Could not parse `"@ + s@
            + "` as a version requirement in order to ensure it's compatible"@,
        NixInstallerError::InvalidCurrentVersion(s) => "Could not parse `nix-installer`'s version `"@ + s@
            + "` as a valid version according to Semantic Versioning, therefore the plan version compatibility cannot be checked"@,
        NixInstallerError::IncompatibleVersion { binary, plan } => "`nix-installer` version `"@ + binary@
            + "` is not compatible with this plan's version `"@ + plan@ + "`"@,
    }
}

impl ActionFailure {
    /// Its message, then the message behind it, each ending a line.
    pub fn lines(&self) -> (r: String)
        ensures
            r@ == failure_lines(*self),
    {
        let mut r = self.message.clone();
        r.append("\n");
        match &self.source {
            Some(s) => {
                r.append(s.as_str());
                r.append("\n");
            },
            None => {},
        }
        r
    }
}

impl NixInstallerError {
    /// Whether a user is expected to meet this error.
    pub fn expected(&self) -> (r: bool)
        ensures
            r == error_expected(*self),
    {
        match self {
            NixInstallerError::Action(a) => a.expected,
            NixInstallerError::Cancelled => true,
            NixInstallerError::Planner(p) => p.expected(),
            NixInstallerError::InvalidVersionRequirement(_) => true,
            NixInstallerError::InvalidCurrentVersion(_) => true,
            NixInstallerError::IncompatibleVersion { .. } => true,
            _ => false,
        }
    }

    /// The name of its variant.
    pub fn name(&self) -> (r: &'static str)
        ensures
            r@ == error_name(*self),
    {
        match self {
            NixInstallerError::Action(_) => "Action",
            NixInstallerError::SelfTest(_) => "SelfTest",
            NixInstallerError::ActionRevert(_) => "ActionRevert",
            NixInstallerError::RecordingReceipt(_) => "RecordingReceipt",
            NixInstallerError::CopyingSelf => "CopyingSelf",
            NixInstallerError::SerializingReceipt => "SerializingReceipt",
            NixInstallerError::Cancelled => "Cancelled",
            NixInstallerError::SemVer => "SemVer",
            NixInstallerError::Planner(_) => "Planner",
            NixInstallerError::InstallSettings => "InstallSettings",
            NixInstallerError::Diagnostic => "Diagnostic",
            NixInstallerError::InvalidVersionRequirement(_) => "InvalidVersionRequirement",
            NixInstallerError::InvalidCurrentVersion(_) => "InvalidCurrentVersion",
            NixInstallerError::IncompatibleVersion { .. } => "IncompatibleVersion",
        }
    }

    /// Its message.
    pub fn message(&self) -> (r: String)
        ensures
            r@ == error_message(*self),
    {
        match self {
            NixInstallerError::Action(_) => owned("Error executing action"),
            NixInstallerError::SelfTest(_) => owned("Self test"),
            NixInstallerError::ActionRevert(v) => {
                let mut lines: Vec<String> = Vec::new();
                let mut i: usize = 0;
                while i < v.len()
                    invariant
                        i <= v.len(),
                        strs(lines@) == v@.take(i as int).map_values(|f: ActionFailure| failure_lines(f)),
                    decreases v.len() - i,
                {
                    let l = v[i].lines();
                    proof {
                        assert(v@.take(i + 1).map_values(|f: ActionFailure| failure_lines(f))
                            =~= v@.take(i as int).map_values(|f: ActionFailure| failure_lines(f)).push(l@));
                        assert(strs(lines@.push(l)) =~= strs(lines@).push(l@));
                    }
                    lines.push(l);
                    i = i + 1;
                }
                proof {
                    assert(v@.take(v@.len() as int) =~= v@);
                }
                let mut r = owned("Error reverting\n");
                let joined = join_on_char(&lines, "\n");
                r.append(joined.as_str());
                r
            },
            NixInstallerError::RecordingReceipt(_) => owned("Recording install receipt"),
            NixInstallerError::CopyingSelf => owned("Copying `nix-installer` binary into `/nix`"),
            NixInstallerError::SerializingReceipt => owned("Serializing receipt"),
            NixInstallerError::Cancelled => owned("Cancelled by user"),
            NixInstallerError::SemVer => owned("Semantic Versioning error"),
            NixInstallerError::Planner(_) => owned("Planner error"),
            NixInstallerError::InstallSettings => owned("Install setting error"),
            NixInstallerError::Diagnostic => owned("Diagnostic error"),
            NixInstallerError::InvalidVersionRequirement(s) => {
                let mut r = owned("Could not parse `");
                r.append(s.as_str());
                r.append("` as a version requirement in order to ensure it's compatible");
                r
            },
            NixInstallerError::InvalidCurrentVersion(s) => {
                let mut r = owned("Could not parse `nix-installer`'s version `");
                r.append(s.as_str());
                r.append(
                    "` as a valid version according to Semantic Versioning, therefore the plan version compatibility cannot be checked",
                );
                r
            },
            NixInstallerError::IncompatibleVersion { binary, plan } => {
                let mut r = owned("`nix-installer` version `");
                r.append(binary.as_str());
                r.append("` is not compatible with this plan's version `");
                r.append(plan.as_str());
                r.append("`");
                r
            },
        }
    }
}

impl ErrorDiagnostic for NixInstallerError {
    fn diagnostic(&self) -> (r: String)
        ensures
            r@ == error_diagnostic(*self),
    {
        let mut context: Vec<String> = Vec::new();
        match self {
            NixInstallerError::SelfTest(t) => {
                context.push(t.diagnostic());
            },
            NixInstallerError::Action(a) => {
                context.push(a.diagnostic.clone());
            },
            NixInstallerError::ActionRevert(v) => {
                let mut i: usize = 0;
                while i < v.len()
                    invariant
                        i <= v.len(),
                        strs(context@) == failure_diagnostics(v@.take(i as int)),
                    decreases v.len() - i,
                {
                    let d = v[i].diagnostic.clone();
                    proof {
                        assert(failure_diagnostics(v@.take(i + 1)) =~= failure_diagnostics(v@.take(i as int)).push(d@));
                        assert(strs(context@.push(d)) =~= strs(context@).push(d@));
                    }
                    context.push(d);
                    i = i + 1;
                }
                proof {
                    assert(v@.take(v@.len() as int) =~= v@);
                }
            },
            _ => {},
        }
        proof {
            match *self {
                NixInstallerError::SelfTest(_) => {
                    assert(strs(context@) =~= seq![context@[0]@]);
                },
                NixInstallerError::Action(_) => {
                    assert(strs(context@) =~= seq![context@[0]@]);
                },
                NixInstallerError::ActionRevert(_) => {},
                _ => {
                    assert(strs(context@) =~= Seq::<Seq<char>>::empty());
                },
            }
        }
        diagnostic_with_context(self.name(), &context)
    }
}

} // verus!
