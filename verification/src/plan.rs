//! An install plan as the user sees it: its description before an install
//! or an uninstall, and the order in which its actions run.

use vstd::prelude::*;
use crate::style::{bold, bold_text, white, white_text};
use crate::error::{ActionFailure, NixInstallerError};
use crate::text::{join_on_char, join_with, owned, strs};
use semver::{Version, VersionReq};

verus! {

#[verifier::external_type_specification]
#[verifier::external_body]
pub struct ExVersion(Version);

#[verifier::external_type_specification]
#[verifier::external_body]
pub struct ExVersionReq(VersionReq);

/// Whether `semver::Version::parse` accepts a text.
pub uninterp spec fn parses_as_version(s: Seq<char>) -> bool;

/// Whether `semver::VersionReq::parse` accepts a text.
pub uninterp spec fn parses_as_requirement(s: Seq<char>) -> bool;

/// Whether semver's `VersionReq::matches` holds of the requirement and the
/// version that these two texts parse as. Both parses and the match depend on
/// the texts alone.
pub uninterp spec fn meets_requirement(requirement: Seq<char>, version: Seq<char>) -> bool;

/// A version read by semver, with the text it was read from.
pub(crate) struct ParsedVersion {
    pub(crate) text: String,
    pub(crate) parsed: Version,
}

/// A version requirement read by semver, with the text it was read from.
struct ParsedRequirement {
    text: String,
    parsed: VersionReq,
}

/// The message of the error that `semver::Version::parse` gives for a text
/// it refuses.
pub uninterp spec fn version_parse_error(s: Seq<char>) -> Seq<char>;

/// Calls `semver::Version::parse`; whether it succeeds is named by
/// `parses_as_version`, the text is kept beside what it gives, and the
/// message of the error it gives otherwise is named by
/// `version_parse_error`.
#[verifier::external_body]
pub(crate) fn parse_version(s: &str) -> (r: Result<ParsedVersion, String>)
    ensures
        r is Ok <==> parses_as_version(s@),
        r matches Ok(v) ==> v.text@ == s@,
        r matches Err(e) ==> e@ == version_parse_error(s@),
{
    match Version::parse(s) {
        Ok(parsed) => Ok(ParsedVersion { text: s.to_string(), parsed }),
        Err(e) => Err(e.to_string()),
    }
}

/// Calls `semver::VersionReq::parse`; whether it succeeds is named by
/// `parses_as_requirement`, and the text is kept beside what it gives.
#[verifier::external_body]
fn parse_requirement(s: &str) -> (r: Option<ParsedRequirement>)
    ensures
        r is Some <==> parses_as_requirement(s@),
        r matches Some(q) ==> q.text@ == s@,
{
    match VersionReq::parse(s) {
        Ok(parsed) => Some(ParsedRequirement { text: s.to_string(), parsed }),
        Err(_) => None,
    }
}

/// Calls `semver::VersionReq::matches` on what the two texts were read as;
/// its answer is named by `meets_requirement` of those texts.
#[verifier::external_body]
fn requirement_matches(req: &ParsedRequirement, version: &ParsedVersion) -> (r: bool)
    ensures
        r == meets_requirement(req.text@, version.text@),
{
    req.parsed.matches(&version.parsed)
}

/// Why a plan's version is refused.
#[derive(Debug, PartialEq, Eq)]
pub enum VersionCheckError {
    /// The plan's version does not read as a version; the message is
    /// semver's.
    InvalidVersion(String),
    /// The plan's version does not read as a requirement.
    InvalidRequirement,
    /// The installer's own version does not read as a version.
    InvalidCurrent,
    /// The installer's version does not meet the requirement.
    Incompatible,
}

/// The verdict on a plan's version that reads as a version: whether it
/// reads as a requirement, whether the installer's own version reads, and
/// whether the installer's version meets the plan's requirement.
pub open spec fn version_verdict(plan_version: Seq<char>, current_version: Seq<char>) -> Result<(), VersionCheckError> {
    if !parses_as_requirement(plan_version) {
        Err(VersionCheckError::InvalidRequirement)
    } else if !parses_as_version(current_version) {
        Err(VersionCheckError::InvalidCurrent)
    } else if meets_requirement(plan_version, current_version) {
        Ok(())
    } else {
        Err(VersionCheckError::Incompatible)
    }
}

/// A plan is accepted by an installer whose version meets the requirement
/// that the plan's version reads as (a caret requirement: compatible
/// according to Semantic Versioning). The plan's version must first read
/// as a full version; semver's message is given when it does not.
pub fn ensure_version(plan_version: &str, current_version: &str) -> (r: Result<(), VersionCheckError>)
    ensures
        !parses_as_version(plan_version@) ==> (r matches Err(VersionCheckError::InvalidVersion(m)) && m@
            == version_parse_error(plan_version@)),
        parses_as_version(plan_version@) ==> r == version_verdict(plan_version@, current_version@),
        r is Ok ==> parses_as_version(plan_version@) && parses_as_requirement(plan_version@) && parses_as_version(
            current_version@,
        ) && meets_requirement(plan_version@, current_version@),
        parses_as_version(plan_version@) && parses_as_requirement(plan_version@) && parses_as_version(current_version@)
            && !meets_requirement(plan_version@, current_version@) ==> r == Err::<(), VersionCheckError>(
            VersionCheckError::Incompatible,
        ),
{
    match parse_version(plan_version) {
        Ok(_) => {},
        Err(m) => return Err(VersionCheckError::InvalidVersion(m)),
    }
    let req = match parse_requirement(plan_version) {
        Some(r) => r,
        None => return Err(VersionCheckError::InvalidRequirement),
    };
    let current = match parse_version(current_version) {
        Ok(v) => v,
        Err(_) => return Err(VersionCheckError::InvalidCurrent),
    };
    if requirement_matches(&req, &current) {
        Ok(())
    } else {
        Err(VersionCheckError::Incompatible)
    }
}

/// Which plans an installer accepts: a plan is accepted only when the
/// installer's own version meets the requirement read from the plan's
/// version (the check runs one way: from the plan's requirement to the
/// installer's version), and when both versions read, a plan whose
/// requirement the installer's version does not meet is refused as
/// incompatible.
pub proof fn lemma_version_check_one_way(plan_version: Seq<char>, current_version: Seq<char>)
    requires
        parses_as_version(plan_version),
    ensures
        version_verdict(plan_version, current_version) is Ok ==> parses_as_requirement(plan_version) && parses_as_version(
            current_version,
        ) && meets_requirement(plan_version, current_version),
        parses_as_requirement(plan_version) && parses_as_version(current_version) ==> (version_verdict(
            plan_version,
            current_version,
        ) is Ok <==> meets_requirement(plan_version, current_version)),
        parses_as_requirement(plan_version) && parses_as_version(current_version) && !meets_requirement(
            plan_version,
            current_version,
        ) ==> version_verdict(plan_version, current_version) == Err::<(), VersionCheckError>(VersionCheckError::Incompatible),
{
}

/// The message for a refused version.
pub open spec fn version_error_text(e: VersionCheckError, plan_version: Seq<char>, current_version: Seq<char>) -> Seq<char> {
    match e {
        VersionCheckError::InvalidVersion(m) => m@,
        VersionCheckError::InvalidRequirement => "Could not parse version `"@ + plan_version
            + "` as a version requirement, please report this"@,
        VersionCheckError::InvalidCurrent => "Could not parse Harmonic's version `"@ + current_version
            + "` as a valid version according to Semantic Versioning, therefore the plan version ("@ + plan_version
            + ") compatibility cannot be checked"@,
        VersionCheckError::Incompatible => "This version of Harmonic ("@ + current_version
            + ") is not compatible with this plan's version ("@ + plan_version
            + "), please use a compatible version (according to Semantic Versioning)"@,
    }
}

pub fn version_error_message(e: VersionCheckError, plan_version: &str, current_version: &str) -> (r: String)
    ensures
        r@ == version_error_text(e, plan_version@, current_version@),
{
    match e {
        VersionCheckError::InvalidVersion(m) => m,
        VersionCheckError::InvalidRequirement => {
            let mut m = owned("Could not parse version `");
            m.append(plan_version);
            m.append("` as a version requirement, please report this");
            m
        },
        VersionCheckError::InvalidCurrent => {
            let mut m = owned("Could not parse Harmonic's version `");
            m.append(current_version);
            m.append("` as a valid version according to Semantic Versioning, therefore the plan version (");
            m.append(plan_version);
            m.append(") compatibility cannot be checked");
            m
        },
        VersionCheckError::Incompatible => {
            let mut m = owned("This version of Harmonic (");
            m.append(current_version);
            m.append(") is not compatible with this plan's version (");
            m.append(plan_version);
            m.append("), please use a compatible version (according to Semantic Versioning)");
            m
        },
    }
}

/// What an action says it does, with an optional longer explanation.
#[derive(Debug)]
pub struct ActionDescription {
    pub description: String,
    pub explanation: Vec<String>,
}

/// The lines of a description: `* ` and the description, then, when
/// explaining, each explanation line indented by two spaces.
pub open spec fn description_text(d: ActionDescription, explain: bool) -> Seq<char> {
    "* "@ + d.description@ + if explain {
        explanation_text(strs(d.explanation@))
    } else {
        Seq::empty()
    }
}

pub open spec fn explanation_text(lines: Seq<Seq<char>>) -> Seq<char>
    decreases lines.len(),
{
    if lines.len() == 0 {
        Seq::empty()
    } else {
        explanation_text(lines.drop_last()) + "\n  "@ + lines.last()
    }
}

/// The descriptions of the actions, action by action: in order for an
/// install, last action first for an uninstall.
pub open spec fn ordered_descriptions(per_action: Seq<Seq<ActionDescription>>, reverse: bool) -> Seq<ActionDescription>
    decreases per_action.len(),
{
    if per_action.len() == 0 {
        Seq::empty()
    } else if reverse {
        per_action.last() + ordered_descriptions(per_action.drop_last(), reverse)
    } else {
        ordered_descriptions(per_action.drop_last(), reverse) + per_action.last()
    }
}

/// A setting as listed: `* `, its name in bold white, `: ` and its value.
pub open spec fn setting_text(s: (String, String)) -> Seq<char> {
    "* "@ + white_text(bold_text(s.0@)) + ": "@ + s.1@
}

/// The description of a plan: the title, the planner, its settings one per
/// line, and the actions' descriptions one per entry, with a hint at
/// `--explain` when not explaining.
pub open spec fn plan_text(
    title: Seq<char>,
    planner: Seq<char>,
    settings: Seq<(String, String)>,
    descriptions: Seq<ActionDescription>,
    explain: bool,
) -> Seq<char> {
    title + "\n\nPlanner: "@ + planner + "\n\nPlanner settings:\n\n"@ + join_with(
        settings.map_values(|s: (String, String)| setting_text(s)),
        "\n"@,
    ) + "\n\nThe following actions will be taken"@ + (if !explain {
        " (`--explain` for more context)"@
    } else {
        Seq::empty()
    }) + ":\n\n"@ + join_with(descriptions.map_values(|d: ActionDescription| description_text(d, explain)), "\n"@)
        + "\n"@
}

fn render_description(d: &ActionDescription, explain: bool) -> (r: String)
    ensures
        r@ == description_text(*d, explain),
{
    let mut s = owned("* ");
    s.append(d.description.as_str());
    if explain {
        let mut i: usize = 0;
        while i < d.explanation.len()
            invariant
                i <= d.explanation.len(),
                s@ == "* "@ + d.description@ + explanation_text(strs(d.explanation@).take(i as int)),
            decreases d.explanation.len() - i,
        {
            proof {
                assert(strs(d.explanation@).take(i + 1).drop_last() =~= strs(d.explanation@).take(i as int));
            }
            s.append("\n  ");
            s.append(d.explanation[i].as_str());
            i = i + 1;
        }
        proof {
            assert(strs(d.explanation@).take(d.explanation@.len() as int) =~= strs(d.explanation@));
        }
    } else {
        proof {
            assert(s@ =~= "* "@ + d.description@ + Seq::<char>::empty());
        }
    }
    s
}

/// Renders the description of a plan; `per_action` holds the descriptions
/// of each action, in the plan's order.
pub fn describe_plan(
    title: &str,
    planner: &str,
    settings: &Vec<(String, String)>,
    per_action: &Vec<Vec<ActionDescription>>,
    reverse: bool,
    explain: bool,
) -> (r: String)
    ensures
        r@ == plan_text(
            title@,
            planner@,
            settings@,
            ordered_descriptions(per_action@.map_values(|v: Vec<ActionDescription>| v@), reverse),
            explain,
        ),
{
    let mut setting_lines: Vec<String> = Vec::new();
    let mut i: usize = 0;
    while i < settings.len()
        invariant
            i <= settings.len(),
            strs(setting_lines@) == settings@.take(i as int).map_values(|s: (String, String)| setting_text(s)),
        decreases settings.len() - i,
    {
        let mut line = owned("* ");
        let k = white(bold(settings[i].0.as_str()).as_str());
        line.append(k.as_str());
        line.append(": ");
        line.append(settings[i].1.as_str());
        proof {
            assert(settings@.take(i + 1).map_values(|s: (String, String)| setting_text(s)) =~= settings@.take(
                i as int,
            ).map_values(|s: (String, String)| setting_text(s)).push(line@));
            assert(strs(setting_lines@.push(line)) =~= strs(setting_lines@).push(line@));
        }
        setting_lines.push(line);
        i = i + 1;
    }
    proof {
        assert(settings@.take(settings@.len() as int) =~= settings@);
    }
    let ghost pa = per_action@.map_values(|v: Vec<ActionDescription>| v@);
    let mut lines: Vec<String> = Vec::new();
    let mut a: usize = 0;
    while a < per_action.len()
        invariant
            a <= per_action.len(),
            pa == per_action@.map_values(|v: Vec<ActionDescription>| v@),
            strs(lines@) == (if reverse {
                ordered_descriptions(pa.subrange(pa.len() - a, pa.len() as int), true)
            } else {
                ordered_descriptions(pa.take(a as int), false)
            }).map_values(|d: ActionDescription| description_text(d, explain)),
        decreases per_action.len() - a,
    {
        let idx = if reverse { per_action.len() - 1 - a } else { a };
        let descs = &per_action[idx];
        let ghost before = strs(lines@);
        let mut j: usize = 0;
        while j < descs.len()
            invariant
                j <= descs.len(),
                strs(lines@) == before + descs@.take(j as int).map_values(|d: ActionDescription| description_text(d, explain)),
            decreases descs.len() - j,
        {
            let line = render_description(&descs[j], explain);
            proof {
                assert(descs@.take(j + 1).map_values(|d: ActionDescription| description_text(d, explain)) =~= descs@.take(
                    j as int,
                ).map_values(|d: ActionDescription| description_text(d, explain)).push(line@));
                assert(strs(lines@.push(line)) =~= strs(lines@).push(line@));
            }
            lines.push(line);
            j = j + 1;
        }
        proof {
            assert(descs@.take(descs@.len() as int) =~= descs@);
            if reverse {
                let lo = pa.len() - a;
                let sub1 = pa.subrange(lo - 1, pa.len() as int);
                assert(sub1.drop_last() =~= pa.subrange(lo - 1, pa.len() - 1));
                lemma_reverse_prepend(pa, lo, explain);
            } else {
                assert(pa.take(a + 1).drop_last() =~= pa.take(a as int));
                assert(pa.take(a + 1).last() == descs@);
                assert(ordered_descriptions(pa.take(a + 1), false) == ordered_descriptions(pa.take(a as int), false) + descs@);
                assert((ordered_descriptions(pa.take(a as int), false) + descs@).map_values(
                    |d: ActionDescription| description_text(d, explain),
                ) =~= ordered_descriptions(pa.take(a as int), false).map_values(
                    |d: ActionDescription| description_text(d, explain),
                ) + descs@.map_values(|d: ActionDescription| description_text(d, explain)));
            }
        }
        a = a + 1;
    }
    proof {
        assert(pa.take(pa.len() as int) =~= pa);
        assert(pa.subrange(0, pa.len() as int) =~= pa);
    }
    let mut s = owned(title);
    s.append("\n\nPlanner: ");
    s.append(planner);
    s.append("\n\nPlanner settings:\n\n");
    let joined_settings = join_on_char(&setting_lines, "\n");
    s.append(joined_settings.as_str());
    s.append("\n\nThe following actions will be taken");
    if !explain {
        s.append(" (`--explain` for more context)");
    }
    s.append(":\n\n");
    let joined_actions = join_on_char(&lines, "\n");
    s.append(joined_actions.as_str());
    s.append("\n");
    proof {
        if explain {
            assert(s@ =~= plan_text(title@, planner@, settings@, ordered_descriptions(pa, reverse), explain));
        }
    }
    s
}

/// Prepending the descriptions of the action before a suffix of the plan,
/// in reverse order.
proof fn lemma_reverse_prepend(pa: Seq<Seq<ActionDescription>>, lo: int, explain: bool)
    requires
        1 <= lo <= pa.len(),
    ensures
        ordered_descriptions(pa.subrange(lo - 1, pa.len() as int), true) == ordered_descriptions(
            pa.subrange(lo, pa.len() as int),
            true,
        ) + pa[lo - 1],
    decreases pa.len() - lo,
{
    let s = pa.subrange(lo - 1, pa.len() as int);
    if lo == pa.len() {
        assert(s.drop_last() =~= Seq::<Seq<ActionDescription>>::empty());
        assert(pa.subrange(lo, pa.len() as int) =~= Seq::<Seq<ActionDescription>>::empty());
        assert(ordered_descriptions(Seq::<Seq<ActionDescription>>::empty(), true) == Seq::<ActionDescription>::empty());
        assert(pa[lo - 1] + Seq::<ActionDescription>::empty() =~= Seq::<ActionDescription>::empty() + pa[lo - 1]);
    } else {
        let shorter = pa.drop_last();
        lemma_reverse_prepend(shorter, lo, explain);
        assert(s.drop_last() =~= shorter.subrange(lo - 1, shorter.len() as int));
        assert(pa.subrange(lo, pa.len() as int).drop_last() =~= shorter.subrange(lo, shorter.len() as int));
        assert(s.last() == pa.last());
        assert(pa.subrange(lo, pa.len() as int).last() == pa.last());
        assert(shorter[lo - 1] == pa[lo - 1]);
    }
}

/// The progress of running a plan's actions one after the other: forward
/// for an install, last action first for an uninstall.
#[derive(Debug, Clone, Copy)]
pub struct PlanRun {
    pub total: usize,
    pub done: usize,
    pub reverse: bool,
}

/// What to do next in a run.
#[derive(Debug, Clone, Copy, PartialEq, Eq, Structural)]
pub enum RunStep {
    /// Run (or revert) the action at this position of the plan.
    Act(usize),
    /// Stop: a cancellation was asked for; the receipt is written first.
    Cancelled,
    /// Every action was handled.
    Finished,
}

/// The position of the action handled `k`-th in a run.
pub open spec fn run_position(total: nat, k: nat, reverse: bool) -> int {
    if reverse {
        total - 1 - k
    } else {
        k as int
    }
}

impl PlanRun {
    pub fn new(total: usize, reverse: bool) -> (r: Self)
        ensures
            r.total == total,
            r.done == 0,
            r.reverse == reverse,
    {
        PlanRun { total, done: 0, reverse }
    }

    /// The next step, given whether a cancellation was asked for; a
    /// cancellation is noticed before each action.
    pub fn next(&self, cancel_requested: bool) -> (r: RunStep)
        requires
            self.done <= self.total,
        ensures
            self.done == self.total ==> r == RunStep::Finished,
            self.done < self.total && cancel_requested ==> r == RunStep::Cancelled,
            self.done < self.total && !cancel_requested ==> r == RunStep::Act(
                run_position(self.total as nat, self.done as nat, self.reverse) as usize,
            ),
            r matches RunStep::Act(i) ==> i < self.total,
    {
        if self.done == self.total {
            RunStep::Finished
        } else if cancel_requested {
            RunStep::Cancelled
        } else if self.reverse {
            RunStep::Act(self.total - 1 - self.done)
        } else {
            RunStep::Act(self.done)
        }
    }

    /// Records that the current action succeeded.
    pub fn action_done(&mut self)
        requires
            old(self).done < old(self).total,
        ensures
            final(self).done == old(self).done + 1,
            final(self).total == old(self).total,
            final(self).reverse == old(self).reverse,
    {
        self.done = self.done + 1;
    }
}

/// How a run ended.
#[derive(Debug)]
pub enum RunEnd {
    /// Every action was handled.
    Finished,
    /// A cancellation was noticed before an action.
    Cancelled,
    /// The action at this position failed; none after it in the run was
    /// handled.
    Failed { position: usize, failure: ActionFailure },
}

impl PlanRun {
    /// Records how the current action went: on success the run moves on to
    /// the next action; on failure the run ends there, with that action's
    /// failure, and nothing more is handled.
    pub fn record(&mut self, outcome: Result<(), ActionFailure>) -> (r: Option<RunEnd>)
        requires
            old(self).done < old(self).total,
        ensures
            outcome is Ok ==> {
                &&& r is None
                &&& final(self).done == old(self).done + 1
                &&& final(self).total == old(self).total
                &&& final(self).reverse == old(self).reverse
            },
            outcome matches Err(f) ==> {
                &&& r matches Some(RunEnd::Failed { position, failure }) && position == run_position(
                    old(self).total as nat,
                    old(self).done as nat,
                    old(self).reverse,
                ) && failure == f
                &&& *final(self) == *old(self)
            },
    {
        match outcome {
            Ok(()) => {
                self.done = self.done + 1;
                None
            },
            Err(failure) => {
                let position = if self.reverse {
                    self.total - 1 - self.done
                } else {
                    self.done
                };
                Some(RunEnd::Failed { position, failure })
            },
        }
    }
}

/// How a run ends when it stops before an action: a cancellation, or
/// every action handled.
pub fn stop_of(step: RunStep) -> (r: Option<RunEnd>)
    ensures
        match step {
            RunStep::Act(_) => r is None,
            RunStep::Cancelled => r matches Some(RunEnd::Cancelled),
            RunStep::Finished => r matches Some(RunEnd::Finished),
        },
{
    match step {
        RunStep::Act(_) => None,
        RunStep::Cancelled => Some(RunEnd::Cancelled),
        RunStep::Finished => Some(RunEnd::Finished),
    }
}

/// Whether the receipt is written when a run ends: an install writes it
/// however it ends; an uninstall writes it only when it stops early
/// (cancelled, or at a failed revert), and not once every action is
/// reverted.
pub open spec fn writes_receipt_when(end: RunEnd, reverse: bool) -> bool {
    !reverse || !(end is Finished)
}

pub fn writes_receipt(end: &RunEnd, reverse: bool) -> (r: bool)
    ensures
        r == writes_receipt_when(*end, reverse),
{
    match end {
        RunEnd::Finished => !reverse,
        _ => true,
    }
}

/// What a run returns: success once every action is handled, `Cancelled`
/// on a cancellation, and the failed action's error when one failed.
pub fn run_result(end: RunEnd) -> (r: Result<(), NixInstallerError>)
    ensures
        match end {
            RunEnd::Finished => r is Ok,
            RunEnd::Cancelled => r matches Err(NixInstallerError::Cancelled),
            RunEnd::Failed { failure, .. } => r matches Err(NixInstallerError::Action(f)) && f == failure,
        },
{
    match end {
        RunEnd::Finished => Ok(()),
        RunEnd::Cancelled => Err(NixInstallerError::Cancelled),
        RunEnd::Failed { failure, .. } => Err(NixInstallerError::Action(failure)),
    }
}

/// An uninstall handles the actions in the opposite order of the install:
/// the `k`-th action reverted is the one installed `k`-th from the end, and
/// every position is handled exactly once by each.
pub proof fn lemma_uninstall_reverses_install(total: nat, k: nat)
    requires
        k < total,
    ensures
        run_position(total, k, true) == total - 1 - run_position(total, k, false),
        0 <= run_position(total, k, true) < total,
        forall|j: nat| j < total && j != k ==> run_position(total, j, true) != run_position(total, k, true),
{
}

} // verus!
