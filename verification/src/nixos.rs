//! Installing NixOS onto a disk.

use vstd::prelude::*;

verus! {

/// An install of NixOS.
#[derive(Debug)]
pub struct NixOs {
    /// The disk to install on (eg. `/dev/nvme1n1`, `/dev/sda`).
    pub target_device: String,
}

impl NixOs {
    pub fn new(target_device: String) -> (r: Self)
        ensures
            r.target_device == target_device,
    {
        NixOs { target_device }
    }
}

} // verus!
