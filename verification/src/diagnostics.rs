//! Reports of what the installer attempted and how it went, for the
//! diagnostics endpoint.

use vstd::prelude::*;
use crate::planner::PlannerError;
use crate::text::{join_with, owned, strs};

verus! {

/// How an attempt went.
#[derive(Debug, Clone, Copy, PartialEq, Eq, Structural)]
pub enum Status {
    Cancelled,
    Success,
    Pending,
    Failure,
}

/// What was attempted.
#[derive(Debug, Clone, Copy, PartialEq, Eq, Structural)]
pub enum Action {
    Plan,
    Install,
    Uninstall,
    SelfTest,
}

/// A report sent to the endpoint.
#[derive(Debug)]
pub struct Report {
    pub action: Action,
    pub status: Status,
    /// The diagnostic names of the failure and of the errors behind it.
    pub failure_chain: Option<Vec<String>>,
}

impl Report {
    /// A report without a failure chain.
    pub fn new(action: Action, status: Status) -> (r: Self)
        ensures
            r.action == action,
            r.status == status,
            r.failure_chain is None,
    {
        Report { action, status, failure_chain: None }
    }

    /// The report with its failure chain: the diagnostic of the error, then
    /// those of the errors behind it that have one, innermost last.
    pub fn set_failure_chain(self, diagnostic: String, sources: Vec<String>) -> (r: Self)
        ensures
            r.action == self.action,
            r.status == self.status,
            r.failure_chain matches Some(c) && strs(c@) == seq![diagnostic@] + strs(sources@),
    {
        let mut chain: Vec<String> = Vec::new();
        chain.push(diagnostic);
        let ghost first = strs(chain@);
        let mut i: usize = 0;
        while i < sources.len()
            invariant
                i <= sources.len(),
                strs(chain@) == first + strs(sources@).take(i as int),
            decreases sources.len() - i,
        {
            let s = sources[i].clone();
            proof {
                assert(strs(sources@).take(i + 1) =~= strs(sources@).take(i as int).push(s@));
                assert(strs(chain@.push(s)) =~= strs(chain@).push(s@));
            }
            chain.push(s);
            i = i + 1;
        }
        proof {
            assert(strs(sources@).take(sources@.len() as int) =~= strs(sources@));
        }
        Report { action: self.action, status: self.status, failure_chain: Some(chain) }
    }
}

/// The diagnostic of an error that carries the diagnostics of inner
/// errors: its name, then the inner ones in quotes, comma-separated, in
/// parentheses.
pub open spec fn diagnostic_text(name: Seq<char>, context: Seq<Seq<char>>) -> Seq<char> {
    name + "("@ + join_with(context.map_values(|c: Seq<char>| "\""@ + c + "\""@), ", "@) + ")"@
}

pub fn diagnostic_with_context(name: &str, context: &Vec<String>) -> (r: String)
    ensures
        r@ == diagnostic_text(name@, strs(context@)),
{
    let mut quoted: Vec<String> = Vec::new();
    let mut i: usize = 0;
    while i < context.len()
        invariant
            i <= context.len(),
            strs(quoted@) == strs(context@).take(i as int).map_values(|c: Seq<char>| "\""@ + c + "\""@),
        decreases context.len() - i,
    {
        let mut q = owned("\"");
        q.append(context[i].as_str());
        q.append("\"");
        proof {
            assert(strs(context@).take(i + 1).map_values(|c: Seq<char>| "\""@ + c + "\""@)
                =~= strs(context@).take(i as int).map_values(|c: Seq<char>| "\""@ + c + "\""@).push(q@));
            assert(strs(quoted@.push(q)) =~= strs(quoted@).push(q@));
        }
        quoted.push(q);
        i = i + 1;
    }
    proof {
        assert(strs(context@).take(context@.len() as int) =~= strs(context@));
    }
    let mut r = owned(name);
    r.append("(");
    let joined = crate::text::join_on_char(&quoted, ", ");
    r.append(joined.as_str());
    r.append(")");
    r
}

/// An error that names itself for diagnostics, without its parameters
/// (which may hold secrets).
pub trait ErrorDiagnostic {
    fn diagnostic(&self) -> String;
}

/// The diagnostic name of a planner error: its kind; errors raised by a
/// particular planner are reported as custom errors.
pub open spec fn planner_error_name(e: PlannerError) -> Seq<char> {
    match e {
        PlannerError::UnsupportedArchitecture => "UnsupportedArchitecture"@,
        PlannerError::RosettaDetected => "RosettaDetected"@,
        PlannerError::NixEnterpriseUnavailable => "NixEnterpriseUnavailable"@,
        PlannerError::SelinuxEnforcing => "Custom"@,
        PlannerError::SelinuxRequirements => "SelinuxRequirements"@,
        PlannerError::Utf8 => "Utf8"@,
        PlannerError::NixOs => "NixOs"@,
        PlannerError::NixExists => "NixExists"@,
        PlannerError::Wsl1 => "Wsl1"@,
        PlannerError::Ec2InstanceStoreRequiresDeterminateNix => "Custom"@,
        PlannerError::Sysctl => "Sysctl"@,
        PlannerError::Linux(_) => "Custom"@,
        PlannerError::Ostree(_) => "Custom"@,
        PlannerError::SteamDeck(_) => "Custom"@,
        PlannerError::Macos(_) => "Custom"@,
    }
}

impl ErrorDiagnostic for PlannerError {
    fn diagnostic(&self) -> (r: String)
        ensures
            r@ == planner_error_name(*self),
    {
        match self {
            PlannerError::UnsupportedArchitecture => owned("UnsupportedArchitecture"),
            PlannerError::RosettaDetected => owned("RosettaDetected"),
            PlannerError::NixEnterpriseUnavailable => owned("NixEnterpriseUnavailable"),
            PlannerError::SelinuxEnforcing => owned("Custom"),
            PlannerError::SelinuxRequirements => owned("SelinuxRequirements"),
            PlannerError::Utf8 => owned("Utf8"),
            PlannerError::NixOs => owned("NixOs"),
            PlannerError::NixExists => owned("NixExists"),
            PlannerError::Wsl1 => owned("Wsl1"),
            PlannerError::Ec2InstanceStoreRequiresDeterminateNix => owned("Custom"),
            PlannerError::Sysctl => owned("Sysctl"),
            PlannerError::Linux(_) => owned("Custom"),
            PlannerError::Ostree(_) => owned("Custom"),
            PlannerError::SteamDeck(_) => owned("Custom"),
            PlannerError::Macos(_) => owned("Custom"),
        }
    }
}

} // verus!
