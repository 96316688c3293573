//! The output of macOS's `diskutil`.

use vstd::prelude::*;

verus! {

/// The fields of `diskutil info -plist` that are read.
#[derive(Debug)]
pub struct DiskUtilInfoOutput {
    pub parent_whole_disk: String,
    pub global_permissions_enabled: bool,
    pub mount_point: Option<String>,
}

impl DiskUtilInfoOutput {
    /// A volume is mounted when it has a mount point that is not empty.
    pub fn is_mounted(&self) -> (r: bool)
        ensures
            r <==> (self.mount_point matches Some(mp) && mp@.len() > 0),
    {
        match &self.mount_point {
            None => false,
            Some(mp) => mp.unicode_len() > 0,
        }
    }
}

/// A volume listed by `diskutil apfs list -plist`.
#[derive(Debug)]
pub struct DiskUtilApfsListVolume {
    pub name: Option<String>,
    pub file_vault: bool,
}

/// A container listed by `diskutil apfs list -plist`.
#[derive(Debug)]
pub struct DiskUtilApfsContainer {
    pub volumes: Vec<DiskUtilApfsListVolume>,
}

/// The output of `diskutil apfs list -plist`.
#[derive(Debug)]
pub struct DiskUtilApfsListOutput {
    pub containers: Vec<DiskUtilApfsContainer>,
}

/// A disk listed by `diskutil list -plist`.
#[derive(Debug)]
pub struct DiskUtilListDisk {
    pub os_internal: bool,
    pub device_identifier: String,
    pub size_bytes: u64,
}

/// The output of `diskutil list -plist`.
#[derive(Debug)]
pub struct DiskUtilList {
    pub all_disks_and_partitions: Vec<DiskUtilListDisk>,
}

/// Whether the disk at `i` is the one chosen: the last of the largest disks
/// that are not internal to the operating system.
pub open spec fn is_largest_external(disks: Seq<DiskUtilListDisk>, i: int) -> bool {
    &&& 0 <= i < disks.len()
    &&& !disks[i].os_internal
    &&& forall|j: int| 0 <= j < disks.len() && !disks[j].os_internal ==> disks[j].size_bytes <= disks[i].size_bytes
    &&& forall|j: int| i < j < disks.len() && !disks[j].os_internal ==> disks[j].size_bytes < disks[i].size_bytes
}

impl DiskUtilList {
    /// The identifier of the largest disk that is not internal to the
    /// operating system (of equally large ones, the one listed last), or
    /// `None` when every disk is internal.
    pub fn largest_external_disk(&self) -> (r: Option<String>)
        ensures
            match r {
                Some(id) => exists|i: int| #[trigger] is_largest_external(self.all_disks_and_partitions@, i)
                    && id@ == self.all_disks_and_partitions@[i].device_identifier@,
                None => forall|j: int| 0 <= j < self.all_disks_and_partitions@.len()
                    ==> #[trigger] self.all_disks_and_partitions@[j].os_internal,
            },
    {
        let disks = &self.all_disks_and_partitions;
        let mut best: Option<usize> = None;
        let mut i: usize = 0;
        while i < disks.len()
            invariant
                i <= disks.len(),
                match best {
                    Some(b) => b < i && !disks@[b as int].os_internal
                        && (forall|j: int| 0 <= j < i && !disks@[j].os_internal ==> disks@[j].size_bytes <= disks@[b as int].size_bytes)
                        && (forall|j: int| b < j < i && !disks@[j].os_internal ==> disks@[j].size_bytes < disks@[b as int].size_bytes),
                    None => forall|j: int| 0 <= j < i ==> disks@[j].os_internal,
                },
            decreases disks.len() - i,
        {
            if !disks[i].os_internal {
                match best {
                    None => best = Some(i),
                    Some(b) => {
                        if disks[i].size_bytes >= disks[b].size_bytes {
                            best = Some(i);
                        }
                    },
                }
            }
            i = i + 1;
        }
        match best {
            Some(b) => {
                proof {
                    assert(is_largest_external(disks@, b as int));
                }
                Some(disks[b].device_identifier.clone())
            },
            None => None,
        }
    }
}

} // verus!
