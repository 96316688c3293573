//! The planner for macOS.

pub mod profile_queries;
pub mod profiles;

use vstd::prelude::*;
use crate::json::{obj_view, set_member, with_member, Json, JsonView};
use vstd::string::*;
use crate::planner::{
    actions_view, default_shell_profile_locations, push_action, ActionView, CommonSettings, InitSystem,
    MacosError, PlannedAction, PlannerError, ShellProfileLocations,
};
use crate::planner::macos::profile_queries::{blocks_internal_mounting, display_text, policy_blocks, reports_all};
use crate::planner::macos::profiles::Policies;
use crate::text::{join_on_char, join_with, owned, strs};

verus! {

/// A planner for macOS (Darwin) systems.
#[derive(Debug)]
pub struct Macos {
    pub settings: CommonSettings,
    /// Force encryption on the volume.
    pub encrypt: Option<bool>,
    /// Use a case sensitive volume.
    pub case_sensitive: bool,
    /// The label for the created APFS volume.
    pub volume_label: String,
    /// The root disk of the target.
    pub root_disk: Option<String>,
    /// Put the Nix Store volume on the EC2 instance store; requires Determinate Nix.
    pub use_ec2_instance_store: bool,
}

/// Where the disk for the store volume comes from.
#[derive(Debug, Clone, Copy, PartialEq, Eq, Structural)]
pub enum RootDiskSource {
    /// The disk named in the settings.
    Given,
    /// The whole disk holding `/`.
    DiskOfRoot,
    /// The largest disk that is not internal to the operating system.
    LargestInstanceStoreDisk,
}

/// Which probes the encryption decision needs.
#[derive(Debug, Clone, Copy, PartialEq, Eq, Structural)]
pub struct EncryptionProbes {
    /// Whether an existing volume with the label is encrypted with FileVault.
    pub existing_volume: bool,
    /// Whether FileVault is active on the root disk (`fdesetup isactive`).
    pub fdesetup: bool,
}

/// What the host reported for the probes the planner asked for.
#[derive(Debug)]
pub struct MacosFacts {
    /// The disk chosen for the store volume, if one was found.
    pub root_disk: Option<String>,
    /// Whether an existing volume with the label is encrypted with FileVault;
    /// `None` when there is no such volume or it was not probed.
    pub existing_volume_file_vault: Option<bool>,
    /// Whether `fdesetup isactive` printed `true`.
    pub root_disk_encrypted: bool,
}

/// Whether the store volume is encrypted.
pub open spec fn volume_encrypted(p: Macos, facts: MacosFacts) -> bool {
    if p.settings.determinate_nix {
        true
    } else {
        match p.encrypt {
            Some(choice) => facts.existing_volume_file_vault == Some(true) || choice,
            None => facts.root_disk_encrypted || facts.existing_volume_file_vault == Some(true),
        }
    }
}

/// The steps of a macOS install.
pub open spec fn macos_actions(p: Macos, facts: MacosFacts, disk: Seq<char>) -> Seq<ActionView> {
    let det = p.settings.determinate_nix;
    let nixd: Seq<ActionView> = if det { seq![ActionView::ProvisionDeterminateNixd] } else { Seq::empty() };
    let volume = if det {
        ActionView::CreateDeterminateNixVolume {
            disk,
            name: p.volume_label@,
            case_sensitive: p.case_sensitive,
            force: p.settings.force,
            use_ec2_instance_store: p.use_ec2_instance_store,
        }
    } else {
        ActionView::CreateNixVolume {
            disk,
            name: p.volume_label@,
            case_sensitive: p.case_sensitive,
            encrypt: volume_encrypted(p, facts),
        }
    };
    let hook: Seq<ActionView> = if p.settings.modify_profile {
        seq![ActionView::CreateNixHookService]
    } else {
        Seq::empty()
    };
    let init = if det {
        ActionView::ConfigureDeterminateNixdInitService { init: InitSystem::Launchd, start_daemon: true }
    } else {
        ActionView::ConfigureUpstreamInitService { init: InitSystem::Launchd, start_daemon: true }
    };
    nixd + seq![
        volume,
        ActionView::ProvisionNix,
        ActionView::CreateUsersAndGroups,
        ActionView::SetTmutilExclusions { paths: seq!["/nix/store"@, "/nix/var"@] },
        ActionView::ConfigureNix {
            shell_profile_locations: default_shell_profile_locations(),
            determinate_nix_settings: det,
        },
        ActionView::ConfigureRemoteBuilding,
    ] + hook + seq![init, ActionView::RemoveScratchDirectory]
}

impl Macos {
    /// Whether the settings are refused: the EC2 instance store needs Determinate Nix.
    pub fn check_settings(&self) -> (r: Result<(), PlannerError>)
        ensures
            self.use_ec2_instance_store && !self.settings.determinate_nix ==> r matches Err(
                PlannerError::Ec2InstanceStoreRequiresDeterminateNix,
            ),
            !(self.use_ec2_instance_store && !self.settings.determinate_nix) ==> r is Ok,
    {
        if self.use_ec2_instance_store && !self.settings.determinate_nix {
            return Err(PlannerError::Ec2InstanceStoreRequiresDeterminateNix);
        }
        Ok(())
    }

    /// Where the disk for the store volume comes from.
    pub fn root_disk_source(&self) -> (r: RootDiskSource)
        ensures
            self.root_disk is Some ==> r == RootDiskSource::Given,
            self.root_disk is None && self.use_ec2_instance_store ==> r == RootDiskSource::LargestInstanceStoreDisk,
            self.root_disk is None && !self.use_ec2_instance_store ==> r == RootDiskSource::DiskOfRoot,
    {
        match &self.root_disk {
            Some(_) => RootDiskSource::Given,
            None => if self.use_ec2_instance_store {
                RootDiskSource::LargestInstanceStoreDisk
            } else {
                RootDiskSource::DiskOfRoot
            },
        }
    }

    /// Which probes deciding the volume's encryption needs.
    pub fn encryption_probes(&self) -> (r: EncryptionProbes)
        ensures
            r.existing_volume == !self.settings.determinate_nix,
            r.fdesetup == (!self.settings.determinate_nix && self.encrypt is None),
    {
        EncryptionProbes {
            existing_volume: !self.settings.determinate_nix,
            fdesetup: !self.settings.determinate_nix && self.encrypt.is_none(),
        }
    }

    /// Whether the store volume is encrypted: always with Determinate Nix;
    /// else as asked, forced on when an existing volume uses FileVault; and
    /// when not asked, when FileVault protects the root disk or the existing volume.
    pub fn encrypt_volume(&self, facts: &MacosFacts) -> (r: bool)
        ensures
            r == volume_encrypted(*self, *facts),
    {
        if self.settings.determinate_nix {
            true
        } else {
            match self.encrypt {
                Some(choice) => {
                    match facts.existing_volume_file_vault {
                        Some(true) => true,
                        _ => choice,
                    }
                },
                None => {
                    let existing = match facts.existing_volume_file_vault {
                        Some(true) => true,
                        _ => false,
                    };
                    facts.root_disk_encrypted || existing
                },
            }
        }
    }

    /// Plans an install on macOS, once the disk for the store volume is known.
    pub fn plan(&self, facts: &MacosFacts) -> (r: Result<Vec<PlannedAction>, PlannerError>)
        requires
            !(self.use_ec2_instance_store && !self.settings.determinate_nix) ==> facts.root_disk is Some,
        ensures
            self.use_ec2_instance_store && !self.settings.determinate_nix ==> r matches Err(
                PlannerError::Ec2InstanceStoreRequiresDeterminateNix,
            ),
            !(self.use_ec2_instance_store && !self.settings.determinate_nix) ==> (r matches Ok(steps)
                && actions_view(steps@) == macos_actions(*self, *facts, facts.root_disk.unwrap()@)),
    {
        self.check_settings()?;
        let disk = match &facts.root_disk {
            Some(d) => d.clone(),
            None => return Err(PlannerError::Ec2InstanceStoreRequiresDeterminateNix),
        };
        let encrypt = self.encrypt_volume(facts);
        let mut plan: Vec<PlannedAction> = Vec::new();
        proof {
            assert(actions_view(plan@) =~= Seq::<ActionView>::empty());
        }
        if self.settings.determinate_nix {
            push_action(&mut plan, PlannedAction::ProvisionDeterminateNixd);
            push_action(
                &mut plan,
                PlannedAction::CreateDeterminateNixVolume {
                    disk,
                    name: self.volume_label.clone(),
                    case_sensitive: self.case_sensitive,
                    force: self.settings.force,
                    use_ec2_instance_store: self.use_ec2_instance_store,
                },
            );
        } else {
            push_action(
                &mut plan,
                PlannedAction::CreateNixVolume {
                    disk,
                    name: self.volume_label.clone(),
                    case_sensitive: self.case_sensitive,
                    encrypt,
                },
            );
        }
        push_action(&mut plan, PlannedAction::ProvisionNix);
        push_action(&mut plan, PlannedAction::CreateUsersAndGroups);
        let mut paths: Vec<String> = Vec::new();
        paths.push(owned("/nix/store"));
        paths.push(owned("/nix/var"));
        proof {
            assert(strs(paths@) =~= seq!["/nix/store"@, "/nix/var"@]);
        }
        push_action(&mut plan, PlannedAction::SetTmutilExclusions { paths });
        push_action(
            &mut plan,
            PlannedAction::ConfigureNix {
                shell_profile_locations: ShellProfileLocations::default(),
                determinate_nix_settings: self.settings.determinate_nix,
            },
        );
        push_action(&mut plan, PlannedAction::ConfigureRemoteBuilding);
        if self.settings.modify_profile {
            push_action(&mut plan, PlannedAction::CreateNixHookService);
        }
        if self.settings.determinate_nix {
            push_action(
                &mut plan,
                PlannedAction::ConfigureDeterminateNixdInitService { init: InitSystem::Launchd, start_daemon: true },
            );
        } else {
            push_action(
                &mut plan,
                PlannedAction::ConfigureUpstreamInitService { init: InitSystem::Launchd, start_daemon: true },
            );
        }
        push_action(&mut plan, PlannedAction::RemoveScratchDirectory);
        proof {
            assert(actions_view(plan@) =~= macos_actions(*self, *facts, facts.root_disk.unwrap()@));
        }
        Ok(plan)
    }
}

/// The checks before an uninstall: nix-darwin must be removed first.
pub fn check_nix_darwin_not_installed(
    has_darwin_rebuild: bool,
    has_darwin_option: bool,
    activate_system_present: bool,
) -> (r: Result<(), PlannerError>)
    ensures
        (activate_system_present || has_darwin_rebuild || has_darwin_option) ==> r matches Err(
            PlannerError::Macos(MacosError::UninstallNixDarwin),
        ),
        !(activate_system_present || has_darwin_rebuild || has_darwin_option) ==> r is Ok,
{
    if activate_system_present || has_darwin_rebuild || has_darwin_option {
        return Err(PlannerError::Macos(MacosError::UninstallNixDarwin));
    }
    Ok(())
}

/// What reading `sysctl.proc_translated` gave.
#[derive(Debug)]
pub enum ProcTranslated {
    /// The name does not exist: this Mac has no Rosetta.
    NotFound,
    /// Reading it failed otherwise.
    Unreadable,
    /// Its value, as text.
    Value(String),
}

/// The verdict on what reading `sysctl.proc_translated` gave: refused when
/// it reads `1` (running under Rosetta) or could not be read, accepted when
/// it does not exist or reads otherwise.
pub open spec fn rosetta_verdict(p: ProcTranslated) -> Result<(), PlannerError> {
    match p {
        ProcTranslated::NotFound => Ok(()),
        ProcTranslated::Unreadable => Err(PlannerError::Sysctl),
        ProcTranslated::Value(v) => if v@ == "1"@ {
            Err(PlannerError::RosettaDetected)
        } else {
            Ok(())
        },
    }
}

/// Nix under Rosetta is not supported.
pub fn check_not_running_in_rosetta(proc_translated: &ProcTranslated) -> (r: Result<(), PlannerError>)
    ensures
        r == rosetta_verdict(*proc_translated),
{
    match proc_translated {
        ProcTranslated::NotFound => Ok(()),
        ProcTranslated::Unreadable => Err(PlannerError::Sysctl),
        ProcTranslated::Value(v) => {
            if *v == owned("1") {
                Err(PlannerError::RosettaDetected)
            } else {
                Ok(())
            }
        },
    }
}

/// The message naming the profiles that block the Nix Store volume; `None`
/// when there are none.
pub open spec fn suis_message(displays: Seq<Seq<char>>) -> Option<Seq<char>> {
    if displays.len() == 0 {
        None
    } else if displays.len() == 1 {
        Some(
            "The following macOS configuration profile includes a 'Restrictions - Media' policy, which interferes with the Nix Store volume:\n\n"@
                + displays[0]
                + "\n\nSee https://determinate.systems/solutions/macos-internal-disk-policy"@,
        )
    } else {
        Some(
            "The following macOS configuration profiles include a 'Restrictions - Media' policy, which interferes with the Nix Store volume:\n\n"@
                + join_with(displays, "\n\n"@)
                + "\n\nSee https://determinate.systems/solutions/macos-internal-disk-policy"@,
        )
    }
}

/// Refuses the install when an installed profile keeps internal disks from
/// being mounted read-write. When the profiles could not be loaded the check
/// is skipped.
pub fn check_suis(policies: &Option<Policies>) -> (r: Result<(), PlannerError>)
    ensures
        policies is None ==> r is Ok,
        policies matches Some(ps) ==> exists|found: Seq<crate::planner::macos::profile_queries::TargetProfileHardDiskInternalOpts>|
            #[trigger] reports_all(found, policy_blocks(ps@)) && match suis_message(
                found.map_values(|b: crate::planner::macos::profile_queries::TargetProfileHardDiskInternalOpts| display_text(b)),
            ) {
                None => r is Ok,
                Some(m) => r matches Err(PlannerError::Macos(MacosError::BlockedBySystemUIServerPolicy(msg))) && msg@ == m,
            },
{
    let ps = match policies {
        None => return Ok(()),
        Some(ps) => ps,
    };
    let blocks = blocks_internal_mounting(ps);
    let mut displays: Vec<String> = Vec::new();
    let mut i: usize = 0;
    while i < blocks.len()
        invariant
            i <= blocks.len(),
            strs(displays@) == blocks@.take(i as int).map_values(
                |b: crate::planner::macos::profile_queries::TargetProfileHardDiskInternalOpts| display_text(b),
            ),
        decreases blocks.len() - i,
    {
        let d = blocks[i].display();
        proof {
            assert(blocks@.take(i + 1) =~= blocks@.take(i as int).push(blocks@[i as int]));
            assert(strs(displays@.push(d)) =~= strs(displays@).push(d@));
        }
        displays.push(d);
        i = i + 1;
    }
    proof {
        assert(blocks@.take(blocks.len() as int) =~= blocks@);
    }
    let ghost ds = strs(displays@);
    if displays.len() == 0 {
        return Ok(());
    }
    let mut msg;
    if displays.len() == 1 {
        msg = owned("The following macOS configuration profile includes a 'Restrictions - Media' policy, which interferes with the Nix Store volume:\n\n");
        msg.append(displays[0].as_str());
    } else {
        msg = owned("The following macOS configuration profiles include a 'Restrictions - Media' policy, which interferes with the Nix Store volume:\n\n");
        let joined = join_on_char(&displays, "\n\n");
        msg.append(joined.as_str());
    }
    msg.append("\n\nSee https://determinate.systems/solutions/macos-internal-disk-policy");
    proof {
        assert(ds.len() == 1 ==> ds[0] == displays@[0]@);
    }
    Err(PlannerError::Macos(MacosError::BlockedBySystemUIServerPolicy(msg)))
}

impl Macos {
    /// The checks before an install: first that no installed profile keeps
    /// the store volume from mounting (skipped when the profiles could not
    /// be loaded), then that the installer does not run under Rosetta.
    pub fn pre_install_check(&self, policies: &Option<Policies>, proc_translated: &ProcTranslated) -> (r: Result<(), PlannerError>)
        ensures
            policies is None ==> r == rosetta_verdict(*proc_translated),
            policies matches Some(ps) ==> exists|found: Seq<crate::planner::macos::profile_queries::TargetProfileHardDiskInternalOpts>|
                #[trigger] reports_all(found, policy_blocks(ps@)) && match suis_message(
                    found.map_values(|b: crate::planner::macos::profile_queries::TargetProfileHardDiskInternalOpts| display_text(b)),
                ) {
                    None => r == rosetta_verdict(*proc_translated),
                    Some(m) => r matches Err(PlannerError::Macos(MacosError::BlockedBySystemUIServerPolicy(msg))) && msg@ == m,
                },
    {
        check_suis(policies)?;
        check_not_running_in_rosetta(proc_translated)
    }

    /// The checks before an uninstall: nix-darwin must be removed first.
    pub fn pre_uninstall_check(
        &self,
        has_darwin_rebuild: bool,
        has_darwin_option: bool,
        activate_system_present: bool,
    ) -> (r: Result<(), PlannerError>)
        ensures
            (activate_system_present || has_darwin_rebuild || has_darwin_option) ==> r matches Err(
                PlannerError::Macos(MacosError::UninstallNixDarwin),
            ),
            !(activate_system_present || has_darwin_rebuild || has_darwin_option) ==> r is Ok,
    {
        check_nix_darwin_not_installed(has_darwin_rebuild, has_darwin_option, activate_system_present)
    }

    /// The planner's settings: the common ones, then whether the volume is
    /// encrypted (`null` when left to the host), its label, the root disk
    /// (`null` when not given), the EC2 instance store and case sensitivity.
    pub fn settings(&self, common: &Vec<(String, Json)>) -> (r: Vec<(String, Json)>)
        ensures
            obj_view(r@) == set_member(
                set_member(
                    set_member(
                        set_member(
                            set_member(
                                obj_view(common@),
                                "volume_encrypt"@,
                                match self.encrypt {
                                    Some(b) => JsonView::Bool(b),
                                    None => JsonView::Null,
                                },
                            ),
                            "volume_label"@,
                            JsonView::String(self.volume_label@),
                        ),
                        "root_disk"@,
                        match self.root_disk {
                            Some(d) => JsonView::String(d@),
                            None => JsonView::Null,
                        },
                    ),
                    "use_ec2_instance_store"@,
                    JsonView::Bool(self.use_ec2_instance_store),
                ),
                "case_sensitive"@,
                JsonView::Bool(self.case_sensitive),
            ),
    {
        let encrypt = match self.encrypt {
            Some(b) => Json::Bool(b),
            None => Json::Null,
        };
        let m1 = with_member(common, "volume_encrypt", encrypt);
        let m2 = with_member(&m1, "volume_label", Json::String(self.volume_label.clone()));
        let root = match &self.root_disk {
            Some(d) => Json::String(d.clone()),
            None => Json::Null,
        };
        let m3 = with_member(&m2, "root_disk", root);
        let m4 = with_member(&m3, "use_ec2_instance_store", Json::Bool(self.use_ec2_instance_store));
        with_member(&m4, "case_sensitive", Json::Bool(self.case_sensitive))
    }
}

} // verus!
