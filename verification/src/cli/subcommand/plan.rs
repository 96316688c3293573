//! `plan`, `restore-shell` and `self-test`: their arguments, and what `plan`
//! writes.

use vstd::prelude::*;
use crate::planner::BuiltinPlanner;
use crate::text::owned;

verus! {

/// The arguments of `plan`.
pub struct Plan {
    /// The planner to use; the host's default planner when absent.
    pub planner: Option<BuiltinPlanner>,
    /// Where to write the plan, in JSON.
    pub output: String,
}

/// Where `plan` writes by default.
pub const DEFAULT_PLAN_OUTPUT: &'static str = "/dev/stdout";

/// The text `plan` writes: the plan's JSON and a line break.
pub fn plan_file_text(json: &str) -> (r: String)
    ensures
        r@ == json@ + "\n"@,
{
    let mut s = owned(json);
    s.append("\n");
    s
}

/// The arguments of `restore-shell`.
pub struct RestoreShell {
    pub no_confirm: bool,
    pub explain: bool,
}

/// The arguments of `self-test`; it takes none.
pub struct SelfTest {}

} // verus!
