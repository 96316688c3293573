//! Running outside commands: how a failure is reported.

use vstd::prelude::*;
use crate::text::{owned, signed_decimal, signed_decimal_text};

verus! {

/// The report of a command that exited unsuccessfully: the command, its
/// exit status when it has one, and what it wrote to standard error.
pub open spec fn command_failure_text(command: Seq<char>, status: Option<i32>, stderr: Seq<char>) -> Seq<char> {
    "Command `"@ + command + "` failed"@ + match status {
        Some(c) => " status "@ + signed_decimal_text(c as int),
        None => Seq::empty(),
    } + ", stderr:\n"@ + stderr + "\n"@
}

pub fn command_failure_message(command: &str, status: Option<i32>, stderr: &str) -> (r: String)
    ensures
        r@ == command_failure_text(command@, status, stderr@),
{
    let mut m = owned("Command `");
    m.append(command);
    m.append("` failed");
    match status {
        Some(c) => {
            m.append(" status ");
            let d = signed_decimal(c);
            m.append(d.as_str());
        },
        None => {},
    }
    m.append(", stderr:\n");
    m.append(stderr);
    m.append("\n");
    proof {
        if status is None {
            assert(m@ =~= command_failure_text(command@, status, stderr@));
        }
    }
    m
}

} // verus!
