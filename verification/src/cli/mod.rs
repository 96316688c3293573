//! The command line: its arguments and the decisions its commands make.

pub mod arg;
pub mod interaction;
pub mod root;
pub mod subcommand;

use vstd::prelude::*;
use self::arg::Instrumentation;
use self::subcommand::NixInstallerSubcommand;

verus! {

/// The installer's command line: logging options and a subcommand.
pub struct HarmonicCli {
    pub instrumentation: Instrumentation,
    pub subcommand: NixInstallerSubcommand,
}

} // verus!
