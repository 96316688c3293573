//! The subcommands of the installer.

pub mod install;
pub mod make_determinate;
pub mod plan;
pub mod repair;
pub mod split_receipt;
pub mod uninstall;

use vstd::prelude::*;
use crate::export::Export;
use self::install::Install;
use self::make_determinate::{MakeDeterminate, Prepare};
use self::plan::{Plan, RestoreShell, SelfTest};
use self::repair::Repair;
use self::split_receipt::SplitReceipt;
use self::uninstall::Uninstall;

verus! {

/// A subcommand with its arguments.
pub enum NixInstallerSubcommand {
    Install(Install),
    Repair(Repair),
    Uninstall(Uninstall),
    SelfTest(SelfTest),
    Plan(Plan),
    SplitReceipt(SplitReceipt),
    Export(Export),
    RestoreShell(RestoreShell),
    MakeDeterminate(MakeDeterminate),
    Prepare(Prepare),
}

/// Whether a subcommand must run as `root`: all but the self test and
/// the environment export.
pub fn needs_root(s: &NixInstallerSubcommand) -> (r: bool)
    ensures
        r == !(s is SelfTest || s is Export),
{
    match s {
        NixInstallerSubcommand::SelfTest(_) => false,
        NixInstallerSubcommand::Export(_) => false,
        _ => true,
    }
}

} // verus!
