//! Planning and decision logic of a Nix installer, with machine-checked contracts.
//!
//! The library computes what an install, repair or uninstall should do: which
//! steps a planner schedules, which environment variables enable Nix, how a
//! receipt is split into uninstall phases, and how the command line reacts to
//! answers and failures. Running the steps (processes, files, network) is left
//! to the caller.

pub mod distribution;
pub mod cli;
pub mod command;
pub mod diagnostics;
pub mod error;
pub mod export;
pub mod feedback;
pub mod json;
pub mod nixos;
pub mod os;
pub mod plan;
pub mod planner;
pub mod profile;
pub mod receipt;
pub mod self_test;
pub mod style;
pub mod text;

use vstd::prelude::*;

verus! {

} // verus!
