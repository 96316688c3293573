//! The configuration profiles installed on a Mac, as `profiles show` lists them.

use vstd::prelude::*;
use crate::text::opt_text;

verus! {

/// Whom a set of profiles applies to.
#[derive(Debug)]
pub enum Target {
    /// The whole computer.
    Computer,
    /// The named user.
    User(String),
}

impl Clone for Target {
    fn clone(&self) -> (r: Self)
        ensures
            r == *self,
    {
        match self {
            Target::Computer => Target::Computer,
            Target::User(u) => Target::User(u.clone()),
        }
    }
}

/// What a `MountControls` policy does to internal disks.
#[derive(Debug, Clone, Copy, PartialEq, Eq, Structural)]
pub enum HardDiskInternalOpts {
    Authenticate,
    ReadOnly,
    Deny,
    Eject,
}

/// The mount controls of a `SystemUIServer` payload.
#[derive(Debug)]
pub struct MountControls {
    pub harddisk_internal: Vec<HardDiskInternalOpts>,
}

/// A `com.apple.systemuiserver` payload.
#[derive(Debug)]
pub struct SystemUIServer {
    pub mount_controls: Option<MountControls>,
}

/// A payload of another type, known by its type only.
#[derive(Debug)]
pub struct UnknownProfileItem {
    pub payload_type: String,
}

/// One payload of a profile.
#[derive(Debug)]
pub enum ProfileItem {
    SystemUIServer(SystemUIServer),
    Unknown(UnknownProfileItem),
}

/// An installed configuration profile.
#[derive(Debug)]
pub struct Profile {
    pub profile_description: Option<String>,
    pub profile_display_name: Option<String>,
    pub profile_identifier: Option<String>,
    pub profile_install_date: Option<String>,
    pub profile_uuid: Option<String>,
    pub profile_version: Option<usize>,
    pub profile_items: Vec<ProfileItem>,
}

/// The descriptive fields of a profile, without its payloads.
#[derive(Debug)]
pub struct ProfileMetadata {
    pub profile_description: Option<String>,
    pub profile_display_name: Option<String>,
    pub profile_identifier: Option<String>,
    pub profile_install_date: Option<String>,
    pub profile_uuid: Option<String>,
    pub profile_version: Option<usize>,
}

/// Whether the metadata holds the profile's descriptive fields.
pub open spec fn describes(m: ProfileMetadata, p: Profile) -> bool {
    &&& opt_text(m.profile_description) == opt_text(p.profile_description)
    &&& opt_text(m.profile_display_name) == opt_text(p.profile_display_name)
    &&& opt_text(m.profile_identifier) == opt_text(p.profile_identifier)
    &&& opt_text(m.profile_install_date) == opt_text(p.profile_install_date)
    &&& opt_text(m.profile_uuid) == opt_text(p.profile_uuid)
    &&& m.profile_version == p.profile_version
}

fn clone_opt(o: &Option<String>) -> (r: Option<String>)
    ensures
        opt_text(r) == opt_text(*o),
{
    match o {
        Some(s) => Some(s.clone()),
        None => None,
    }
}

impl Profile {
    /// The descriptive fields of the profile.
    pub fn metadata(&self) -> (r: ProfileMetadata)
        ensures
            describes(r, *self),
    {
        ProfileMetadata {
            profile_description: clone_opt(&self.profile_description),
            profile_display_name: clone_opt(&self.profile_display_name),
            profile_identifier: clone_opt(&self.profile_identifier),
            profile_install_date: clone_opt(&self.profile_install_date),
            profile_uuid: clone_opt(&self.profile_uuid),
            profile_version: self.profile_version,
        }
    }
}

/// The profiles installed for each target.
pub type Policies = Vec<(Target, Vec<Profile>)>;

} // verus!
