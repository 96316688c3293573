//! `split-receipt`: what it tells the user before and after splitting a
//! receipt into the receipts of the two uninstall phases.

use vstd::prelude::*;
use crate::style::{bold, bold_text, green, green_text, italic, italic_text};
use crate::text::{decimal, decimal_text, owned};

verus! {

/// The arguments of `split-receipt`.
pub struct SplitReceipt {
    pub no_confirm: bool,
    /// The receipt to split.
    pub receipt: String,
    /// Where to write the phase-1 receipt.
    pub phase1_output: String,
    /// Where to write the phase-2 receipt.
    pub phase2_output: String,
    /// Split by the receipt's JSON alone, even when its types are known.
    pub force_naive_json_method: bool,
}

/// Where the original receipt is kept after the split: beside it, named by
/// the time of the split in milliseconds.
pub open spec fn backup_location_text(timestamp_millis: u64) -> Seq<char> {
    "/nix/.original-receipt."@ + decimal_text(timestamp_millis as nat) + ".json"@
}

pub fn backup_location(timestamp_millis: u64) -> (r: String)
    ensures
        r@ == backup_location_text(timestamp_millis),
{
    let mut s = owned("/nix/.original-receipt.");
    let t = decimal(timestamp_millis);
    s.append(t.as_str());
    s.append(".json");
    s
}

/// What the split will do, with the paths in bold.
pub open spec fn split_summary_text(receipt: Seq<char>, phase1: Seq<char>, phase2: Seq<char>, backup: Seq<char>) -> Seq<char> {
    "\nThis will split your existing receipt at "@ + bold_text(receipt) + " into two phases (phase 1: "@
        + bold_text(phase1) + ", phase 2: "@ + bold_text(phase2)
        + ") for uninstallation purposes, and move the existing receipt to a backup location at "@
        + bold_text(backup) + " afterwards.\nPhase 1 will clean up everything "@ + italic_text("except"@)
        + " for the root of the Nix store.\nPhase 2 will then clean up the root of the Nix store and all its contents.\nIf you are wanting to install with a newer version of nix-installer, you do not need to run phase 2 of the uninstallation.\nIf you want a clean uninstallation, you should run phase 2 after phase 1."@
}

pub fn split_summary(receipt: &str, phase1: &str, phase2: &str, backup: &str) -> (r: String)
    ensures
        r@ == split_summary_text(receipt@, phase1@, phase2@, backup@),
{
    let mut s = owned("\nThis will split your existing receipt at ");
    s.append(bold(receipt).as_str());
    s.append(" into two phases (phase 1: ");
    s.append(bold(phase1).as_str());
    s.append(", phase 2: ");
    s.append(bold(phase2).as_str());
    s.append(") for uninstallation purposes, and move the existing receipt to a backup location at ");
    s.append(bold(backup).as_str());
    s.append(" afterwards.\nPhase 1 will clean up everything ");
    s.append(italic("except").as_str());
    s.append(
        " for the root of the Nix store.\nPhase 2 will then clean up the root of the Nix store and all its contents.\nIf you are wanting to install with a newer version of nix-installer, you do not need to run phase 2 of the uninstallation.\nIf you want a clean uninstallation, you should run phase 2 after phase 1.",
    );
    s
}

/// The message after a successful split, in bold green: where the receipts
/// are and how to start uninstalling.
pub open spec fn split_done_text(phase1: Seq<char>, phase2: Seq<char>) -> Seq<char> {
    bold_text(
        green_text(
            "Phase 1 and 2 uninstall receipts successfully written:\nPhase 1: "@ + phase1 + "\nPhase 2: "@ + phase2
                + "\nYou can now uninstall starting with:\n/nix/nix-installer uninstall "@ + phase1,
        ),
    )
}

pub fn split_done_message(phase1: &str, phase2: &str) -> (r: String)
    ensures
        r@ == split_done_text(phase1@, phase2@),
{
    let mut s = owned("Phase 1 and 2 uninstall receipts successfully written:\nPhase 1: ");
    s.append(phase1);
    s.append("\nPhase 2: ");
    s.append(phase2);
    s.append("\nYou can now uninstall starting with:\n/nix/nix-installer uninstall ");
    s.append(phase1);
    let g = green(s.as_str());
    bold(g.as_str())
}

} // verus!
