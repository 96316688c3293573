//! The planner for immutable systems using ostree.

use vstd::prelude::*;
use crate::json::{obj_view, set_member, with_member, Json, JsonView};
use vstd::string::*;
use crate::planner::linux::{check_nix_not_already_installed, check_not_nixos, check_not_wsl1, check_systemd_active, LinuxHostFacts};
use crate::planner::steam_deck::{
    bind_mount_unit, bind_mount_unit_text, ensure_symlinked_units_resolve_text, read_only_friendly_locations,
    read_only_friendly_shell_profile_locations,
};
use crate::planner::{actions_view, push_action, ActionView, CommonSettings, InitSystem, PlannedAction, PlannerError};
use crate::text::owned;

verus! {

pub open spec fn ostree_nix_directory_unit_text() -> Seq<char> {
    "[Unit]\nDescription=Enable mount points in / for ostree\nConditionPathExists=!/nix\nDefaultDependencies=no\nRequires=local-fs-pre.target\nAfter=local-fs-pre.target\n[Service]\nType=oneshot\nExecStartPre=chattr -i /\nExecStart=mkdir -p /nix\nExecStopPost=chattr +i /\n"@
}

/// A planner suitable for immutable systems using ostree, such as Fedora Silverblue.
#[derive(Debug)]
pub struct Ostree {
    /// Where `/nix` is bind mounted from.
    pub persistence: String,
    pub settings: CommonSettings,
}

/// The steps of an ostree install.
pub open spec fn ostree_actions(p: Ostree, has_selinux: bool) -> Seq<ActionView> {
    let selinux: Seq<ActionView> = if has_selinux {
        seq![ActionView::ProvisionSelinux { policy_path: "/etc/nix-installer/selinux/packages/nix.pp"@ }]
    } else {
        Seq::empty()
    };
    seq![
        ActionView::SystemctlDaemonReload,
        ActionView::CreateDirectory { path: p.persistence@, mode: 0o755, force_prune_on_revert: true },
        ActionView::CreateFile {
            path: "/etc/systemd/system/nix-directory.service"@,
            mode: 0o644,
            contents: ostree_nix_directory_unit_text(),
            force: false,
        },
        ActionView::CreateFile {
            path: "/etc/systemd/system/nix.mount"@,
            mode: 0o644,
            contents: bind_mount_unit_text(p.persistence@),
            force: false,
        },
        ActionView::CreateFile {
            path: "/etc/systemd/system/ensure-symlinked-units-resolve.service"@,
            mode: 0o644,
            contents: ensure_symlinked_units_resolve_text(),
            force: false,
        },
        ActionView::StartSystemdUnit { unit: "nix.mount"@, enable: false },
        ActionView::ProvisionNix,
        ActionView::CreateUsersAndGroups,
        ActionView::ConfigureNix {
            shell_profile_locations: read_only_friendly_locations(),
            determinate_nix_settings: false,
        },
    ] + selinux + seq![
        ActionView::CreateDirectory { path: "/etc/tmpfiles.d"@, mode: 0o755, force_prune_on_revert: false },
        ActionView::ConfigureInitService {
            init: InitSystem::Systemd,
            nix_enterprise: p.settings.nix_enterprise,
            start_daemon: true,
        },
        ActionView::StartSystemdUnit { unit: "ensure-symlinked-units-resolve.service"@, enable: true },
        ActionView::RemoveScratchDirectory,
        ActionView::SystemctlDaemonReload,
    ]
}

impl Ostree {
    /// Plans an install on an ostree based system, given whether SELinux is in use.
    pub fn plan(&self, has_selinux: bool) -> (r: Vec<PlannedAction>)
        ensures
            actions_view(r@) == ostree_actions(*self, has_selinux),
    {
        let mut plan: Vec<PlannedAction> = Vec::new();
        proof {
            assert(actions_view(plan@) =~= Seq::<ActionView>::empty());
        }
        push_action(&mut plan, PlannedAction::SystemctlDaemonReload);
        push_action(
            &mut plan,
            PlannedAction::CreateDirectory { path: self.persistence.clone(), mode: 0o755, force_prune_on_revert: true },
        );
        push_action(
            &mut plan,
            PlannedAction::CreateFile {
                path: owned("/etc/systemd/system/nix-directory.service"),
                mode: 0o644,
                contents: owned("[Unit]\nDescription=Enable mount points in / for ostree\nConditionPathExists=!/nix\nDefaultDependencies=no\nRequires=local-fs-pre.target\nAfter=local-fs-pre.target\n[Service]\nType=oneshot\nExecStartPre=chattr -i /\nExecStart=mkdir -p /nix\nExecStopPost=chattr +i /\n"),
                force: false,
            },
        );
        push_action(
            &mut plan,
            PlannedAction::CreateFile {
                path: owned("/etc/systemd/system/nix.mount"),
                mode: 0o644,
                contents: bind_mount_unit(&self.persistence),
                force: false,
            },
        );
        push_action(
            &mut plan,
            PlannedAction::CreateFile {
                path: owned("/etc/systemd/system/ensure-symlinked-units-resolve.service"),
                mode: 0o644,
                contents: owned("[Unit]\nDescription=Ensure Nix related units which are symlinked resolve\nAfter=nix.mount\nRequires=nix.mount\nDefaultDependencies=no\n\n[Service]\nType=oneshot\nRemainAfterExit=yes\nExecStart=/usr/bin/systemctl daemon-reload\nExecStart=/usr/bin/systemctl restart --no-block nix-daemon.socket\n\n[Install]\nWantedBy=sysinit.target\n"),
                force: false,
            },
        );
        let shell_profile_locations = read_only_friendly_shell_profile_locations();
        push_action(&mut plan, PlannedAction::StartSystemdUnit { unit: owned("nix.mount"), enable: false });
        push_action(&mut plan, PlannedAction::ProvisionNix);
        push_action(&mut plan, PlannedAction::CreateUsersAndGroups);
        push_action(
            &mut plan,
            PlannedAction::ConfigureNix { shell_profile_locations, determinate_nix_settings: false },
        );
        if has_selinux {
            push_action(
                &mut plan,
                PlannedAction::ProvisionSelinux { policy_path: owned("/etc/nix-installer/selinux/packages/nix.pp") },
            );
        }
        push_action(
            &mut plan,
            PlannedAction::CreateDirectory { path: owned("/etc/tmpfiles.d"), mode: 0o755, force_prune_on_revert: false },
        );
        push_action(
            &mut plan,
            PlannedAction::ConfigureInitService {
                init: InitSystem::Systemd,
                nix_enterprise: self.settings.nix_enterprise,
                start_daemon: true,
            },
        );
        push_action(
            &mut plan,
            PlannedAction::StartSystemdUnit { unit: owned("ensure-symlinked-units-resolve.service"), enable: true },
        );
        push_action(&mut plan, PlannedAction::RemoveScratchDirectory);
        push_action(&mut plan, PlannedAction::SystemctlDaemonReload);
        proof {
            assert(actions_view(plan@) =~= ostree_actions(*self, has_selinux));
        }
        plan
    }

    /// The checks before an uninstall: not WSL1, and systemd running.
    pub fn pre_uninstall_check(&self, facts: &LinuxHostFacts) -> (r: Result<(), PlannerError>)
        ensures
            r is Ok <==> !(facts.wsl_distro_name_set && !facts.wsl_interop_set) && facts.run_systemd_system_exists,
            facts.wsl_distro_name_set && !facts.wsl_interop_set ==> r matches Err(PlannerError::Wsl1),
    {
        check_not_wsl1(facts.wsl_distro_name_set, facts.wsl_interop_set)?;
        check_systemd_active(facts.run_systemd_system_exists, facts.wsl_distro_name_set)?;
        Ok(())
    }

    /// The checks before an install: not NixOS, no Nix yet, not WSL1, and systemd running.
    pub fn pre_install_check(&self, facts: &LinuxHostFacts) -> (r: Result<(), PlannerError>)
        ensures
            r is Ok <==> !facts.etc_nixos_exists && !facts.nix_env_runs && !(facts.wsl_distro_name_set
                && !facts.wsl_interop_set) && facts.run_systemd_system_exists,
            facts.etc_nixos_exists ==> r matches Err(PlannerError::NixOs),
            !facts.etc_nixos_exists && facts.nix_env_runs ==> r matches Err(PlannerError::NixExists),
    {
        check_not_nixos(facts.etc_nixos_exists)?;
        check_nix_not_already_installed(facts.nix_env_runs)?;
        check_not_wsl1(facts.wsl_distro_name_set, facts.wsl_interop_set)?;
        check_systemd_active(facts.run_systemd_system_exists, facts.wsl_distro_name_set)?;
        Ok(())
    }
}

impl Ostree {
    /// The planner's settings: the common ones and where `/nix` is bind
    /// mounted from.
    pub fn settings(&self, common: &Vec<(String, Json)>) -> (r: Vec<(String, Json)>)
        ensures
            obj_view(r@) == set_member(obj_view(common@), "persistence"@, JsonView::String(self.persistence@)),
    {
        with_member(common, "persistence", Json::String(self.persistence.clone()))
    }
}

} // verus!
