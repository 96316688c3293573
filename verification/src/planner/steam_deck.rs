//! The planner for the Valve Steam Deck running SteamOS.

use vstd::prelude::*;
use crate::json::{obj_view, set_member, with_member, Json, JsonView};
use vstd::string::*;
use crate::planner::linux::{check_nix_not_already_installed, check_not_nixos, check_not_wsl1, check_systemd_active, LinuxHostFacts};
use crate::planner::{
    actions_view, default_shell_profile_locations, push_action, remove_first, remove_first_entry,
    ActionView, CommonSettings, InitSystem, LinuxErrorKind, PlannedAction, PlannerError, ShellProfileLocations,
    ShellProfileLocationsView, SteamDeckError,
};
use crate::text::{has_text, contains_text, owned};

verus! {

pub open spec fn nix_directory_unit_text() -> Seq<char> {
    "[Unit]\nDescription=Create a `/nix` directory to be used for bind mounting\nPropagatesStopTo=nix-daemon.service\nPropagatesStopTo=nix.mount\nDefaultDependencies=no\nAfter=grub-recordfail.service\nAfter=steamos-finish-oobe-migration.service\n\n[Service]\nType=oneshot\nExecStart=steamos-readonly disable\nExecStart=mkdir -vp /nix\nExecStart=chmod -v 0755 /nix\nExecStart=chown -v root /nix\nExecStart=chgrp -v root /nix\nExecStart=steamos-readonly enable\nExecStop=steamos-readonly disable\nExecStop=rmdir /nix\nExecStop=steamos-readonly enable\nRemainAfterExit=true\n"@
}

/// The `nix.mount` unit that bind mounts `persistence` on `/nix`.
pub open spec fn bind_mount_unit_text(persistence: Seq<char>) -> Seq<char> {
    "[Unit]\nDescription=Mount `"@ + persistence
        + "` on `/nix`\nPropagatesStopTo=nix-daemon.service\nPropagatesStopTo=nix-directory.service\nAfter=nix-directory.service\nRequires=nix-directory.service\nConditionPathIsDirectory=/nix\nDefaultDependencies=no\n\n[Mount]\nWhat="@
        + persistence
        + "\nWhere=/nix\nType=none\nDirectoryMode=0755\nOptions=bind\n\n[Install]\nRequiredBy=nix-daemon.service\nRequiredBy=nix-daemon.socket\n\n            "@
}

pub open spec fn ensure_symlinked_units_resolve_text() -> Seq<char> {
    "[Unit]\nDescription=Ensure Nix related units which are symlinked resolve\nAfter=nix.mount\nRequires=nix.mount\nDefaultDependencies=no\n\n[Service]\nType=oneshot\nRemainAfterExit=yes\nExecStart=/usr/bin/systemctl daemon-reload\nExecStart=/usr/bin/systemctl restart --no-block nix-daemon.socket\n\n[Install]\nWantedBy=sysinit.target\n"@
}

/// The warning `systemctl status nix.mount` prints when units changed on disk.
pub open spec fn daemon_reload_warning() -> Seq<char> {
    "Warning: The unit file, source configuration file or drop-ins of nix.mount changed on disk. Run 'systemctl daemon-reload' to reload units."@
}

/// The `nix.mount` unit text that points at SteamOS's own offload directory.
pub open spec fn steamos_offload_marker() -> Seq<char> {
    "What=/home/.steamos/offload/nix"@
}

/// The bind mount unit text.
pub fn bind_mount_unit(persistence: &String) -> (r: String)
    ensures
        r@ == bind_mount_unit_text(persistence@),
{
    let mut s = owned("[Unit]\nDescription=Mount `");
    s.append(persistence.as_str());
    s.append("` on `/nix`\nPropagatesStopTo=nix-daemon.service\nPropagatesStopTo=nix-directory.service\nAfter=nix-directory.service\nRequires=nix-directory.service\nConditionPathIsDirectory=/nix\nDefaultDependencies=no\n\n[Mount]\nWhat=");
    s.append(persistence.as_str());
    s.append("\nWhere=/nix\nType=none\nDirectoryMode=0755\nOptions=bind\n\n[Install]\nRequiredBy=nix-daemon.service\nRequiredBy=nix-daemon.socket\n\n            ");
    s
}

/// Shell profile locations without `/usr/share/fish/`, which is part of the
/// read-only system on these hosts.
pub open spec fn read_only_friendly_locations() -> ShellProfileLocationsView {
    let d = default_shell_profile_locations();
    ShellProfileLocationsView {
        vendor_confd_prefixes: remove_first(d.vendor_confd_prefixes, "/usr/share/fish/"@),
        ..d
    }
}

/// The default shell profile locations without `/usr/share/fish/`.
pub fn read_only_friendly_shell_profile_locations() -> (r: ShellProfileLocations)
    ensures
        r@ == read_only_friendly_locations(),
{
    let mut locations = ShellProfileLocations::default();
    remove_first_entry(&mut locations.fish.vendor_confd_prefixes, "/usr/share/fish/");
    locations
}

/// Whether `/nix` must be bind mounted: not when SteamOS's `nix.mount`
/// unit (from build ID 20230522.1000 on) already mounts its offload directory.
pub fn detect_requires_bind_mount(steamos_nix_mount_unit: &Option<String>) -> (r: bool)
    ensures
        r == !(steamos_nix_mount_unit matches Some(u) && has_text(u@, steamos_offload_marker())),
{
    match steamos_nix_mount_unit {
        Some(unit) => !contains_text(unit, "What=/home/.steamos/offload/nix"),
        None => true,
    }
}

/// What `systemctl status nix.mount` printed on standard error.
#[derive(Debug)]
pub enum NixMountStatus {
    /// `systemctl` could not be run.
    NotRun,
    /// The output was not UTF-8.
    InvalidUtf8,
    /// The standard error output.
    Stderr(String),
}

/// Facts about a SteamOS host that the planner reads.
#[derive(Debug)]
pub struct SteamDeckFacts {
    /// The contents of `/usr/lib/systemd/system/nix.mount`, if it could be read.
    pub steamos_nix_mount_unit: Option<String>,
    /// What `systemctl status nix.mount` reported.
    pub nix_mount_status: NixMountStatus,
}

/// A planner for the Valve Steam Deck running SteamOS.
#[derive(Debug)]
pub struct SteamDeck {
    /// Where `/nix` is bind mounted from. Deprecated in SteamOS build ID 20230522.1000 or later.
    pub persistence: String,
    pub settings: CommonSettings,
}

/// Whether a path is absolute.
pub open spec fn is_absolute(p: Seq<char>) -> bool {
    p.len() > 0 && p[0] == '/'
}

/// Why the planner refuses the host, if it does.
pub open spec fn steam_deck_refusal(p: SteamDeck, facts: SteamDeckFacts) -> Option<PlannerError> {
    let bind = !(facts.steamos_nix_mount_unit matches Some(u) && has_text(u@, steamos_offload_marker()));
    match facts.nix_mount_status {
        NixMountStatus::InvalidUtf8 => Some(PlannerError::Utf8),
        NixMountStatus::Stderr(e) if has_text(e@, daemon_reload_warning()) => Some(
            PlannerError::SteamDeck(SteamDeckError::NixMountSystemctlDaemonReloadRequired),
        ),
        _ => if bind && !is_absolute(p.persistence@) {
            Some(PlannerError::SteamDeck(SteamDeckError::AbsolutePathRequired(p.persistence)))
        } else {
            None
        },
    }
}

/// The steps of a Steam Deck install, depending on whether `/nix` is bind mounted.
pub open spec fn steam_deck_actions(persistence: Seq<char>, bind: bool) -> Seq<ActionView> {
    let mount: Seq<ActionView> = if bind {
        seq![
            ActionView::CreateDirectory { path: persistence, mode: 0o755, force_prune_on_revert: true },
            ActionView::CreateFile {
                path: "/etc/systemd/system/nix-directory.service"@,
                mode: 0o644,
                contents: nix_directory_unit_text(),
                force: false,
            },
            ActionView::CreateFile {
                path: "/etc/systemd/system/nix.mount"@,
                mode: 0o644,
                contents: bind_mount_unit_text(persistence),
                force: false,
            },
        ]
    } else {
        seq![
            ActionView::RevertCleanSteamosNixOffload,
            ActionView::EnsureSteamosNixDirectory,
            ActionView::StartSystemdUnit { unit: "nix.mount"@, enable: true },
        ]
    };
    let start_mount: Seq<ActionView> = if bind {
        seq![ActionView::StartSystemdUnit { unit: "nix.mount"@, enable: false }]
    } else {
        Seq::empty()
    };
    seq![ActionView::SystemctlDaemonReload] + mount + seq![
        ActionView::CreateFile {
            path: "/etc/systemd/system/ensure-symlinked-units-resolve.service"@,
            mode: 0o644,
            contents: ensure_symlinked_units_resolve_text(),
            force: false,
        },
    ] + start_mount + seq![
        ActionView::ProvisionNix,
        ActionView::CreateUsersAndGroups,
        ActionView::ConfigureNix {
            shell_profile_locations: read_only_friendly_locations(),
            determinate_nix_settings: false,
        },
        ActionView::ConfigureInitService { init: InitSystem::Systemd, nix_enterprise: false, start_daemon: true },
        ActionView::StartSystemdUnit { unit: "ensure-symlinked-units-resolve.service"@, enable: true },
        ActionView::RemoveScratchDirectory,
        ActionView::SystemctlDaemonReload,
    ]
}

impl SteamDeck {
    /// Plans an install on a Steam Deck.
    pub fn plan(&self, facts: &SteamDeckFacts) -> (r: Result<Vec<PlannedAction>, PlannerError>)
        ensures
            match steam_deck_refusal(*self, *facts) {
                Some(e) => r matches Err(got) && got == e,
                None => r matches Ok(steps) && actions_view(steps@) == steam_deck_actions(
                    self.persistence@,
                    !(facts.steamos_nix_mount_unit matches Some(u) && has_text(u@, steamos_offload_marker())),
                ),
            },
    {
        let requires_nix_bind_mount = detect_requires_bind_mount(&facts.steamos_nix_mount_unit);
        let mut actions: Vec<PlannedAction> = Vec::new();
        proof {
            assert(actions_view(actions@) =~= Seq::<ActionView>::empty());
        }
        push_action(&mut actions, PlannedAction::SystemctlDaemonReload);
        match &facts.nix_mount_status {
            NixMountStatus::NotRun => {},
            NixMountStatus::InvalidUtf8 => return Err(PlannerError::Utf8),
            NixMountStatus::Stderr(stderr) => {
                if contains_text(
                    stderr,
                    "Warning: The unit file, source configuration file or drop-ins of nix.mount changed on disk. Run 'systemctl daemon-reload' to reload units.",
                ) {
                    return Err(
                        PlannerError::SteamDeck(SteamDeckError::NixMountSystemctlDaemonReloadRequired),
                    );
                }
            },
        }
        if requires_nix_bind_mount {
            let n = self.persistence.unicode_len();
            if n == 0 || self.persistence.get_char(0) != '/' {
                return Err(PlannerError::SteamDeck(SteamDeckError::AbsolutePathRequired(self.persistence.clone())));
            }
            push_action(
                &mut actions,
                PlannedAction::CreateDirectory {
                    path: self.persistence.clone(),
                    mode: 0o755,
                    force_prune_on_revert: true,
                },
            );
            push_action(
                &mut actions,
                PlannedAction::CreateFile {
                    path: owned("/etc/systemd/system/nix-directory.service"),
                    mode: 0o644,
                    contents: owned("[Unit]\nDescription=Create a `/nix` directory to be used for bind mounting\nPropagatesStopTo=nix-daemon.service\nPropagatesStopTo=nix.mount\nDefaultDependencies=no\nAfter=grub-recordfail.service\nAfter=steamos-finish-oobe-migration.service\n\n[Service]\nType=oneshot\nExecStart=steamos-readonly disable\nExecStart=mkdir -vp /nix\nExecStart=chmod -v 0755 /nix\nExecStart=chown -v root /nix\nExecStart=chgrp -v root /nix\nExecStart=steamos-readonly enable\nExecStop=steamos-readonly disable\nExecStop=rmdir /nix\nExecStop=steamos-readonly enable\nRemainAfterExit=true\n"),
                    force: false,
                },
            );
            push_action(
                &mut actions,
                PlannedAction::CreateFile {
                    path: owned("/etc/systemd/system/nix.mount"),
                    mode: 0o644,
                    contents: bind_mount_unit(&self.persistence),
                    force: false,
                },
            );
        } else {
            push_action(&mut actions, PlannedAction::RevertCleanSteamosNixOffload);
            push_action(&mut actions, PlannedAction::EnsureSteamosNixDirectory);
            push_action(&mut actions, PlannedAction::StartSystemdUnit { unit: owned("nix.mount"), enable: true });
        }
        push_action(
            &mut actions,
            PlannedAction::CreateFile {
                path: owned("/etc/systemd/system/ensure-symlinked-units-resolve.service"),
                mode: 0o644,
                contents: owned("[Unit]\nDescription=Ensure Nix related units which are symlinked resolve\nAfter=nix.mount\nRequires=nix.mount\nDefaultDependencies=no\n\n[Service]\nType=oneshot\nRemainAfterExit=yes\nExecStart=/usr/bin/systemctl daemon-reload\nExecStart=/usr/bin/systemctl restart --no-block nix-daemon.socket\n\n[Install]\nWantedBy=sysinit.target\n"),
                force: false,
            },
        );
        let shell_profile_locations = read_only_friendly_shell_profile_locations();
        if requires_nix_bind_mount {
            push_action(&mut actions, PlannedAction::StartSystemdUnit { unit: owned("nix.mount"), enable: false });
        }
        push_action(&mut actions, PlannedAction::ProvisionNix);
        push_action(&mut actions, PlannedAction::CreateUsersAndGroups);
        push_action(
            &mut actions,
            PlannedAction::ConfigureNix { shell_profile_locations, determinate_nix_settings: false },
        );
        push_action(
            &mut actions,
            PlannedAction::ConfigureInitService { init: InitSystem::Systemd, nix_enterprise: false, start_daemon: true },
        );
        push_action(
            &mut actions,
            PlannedAction::StartSystemdUnit { unit: owned("ensure-symlinked-units-resolve.service"), enable: true },
        );
        push_action(&mut actions, PlannedAction::RemoveScratchDirectory);
        push_action(&mut actions, PlannedAction::SystemctlDaemonReload);
        proof {
            assert(actions_view(actions@) =~= steam_deck_actions(self.persistence@, requires_nix_bind_mount));
        }
        Ok(actions)
    }

    /// The checks before an uninstall: not WSL1, and systemd running.
    pub fn pre_uninstall_check(&self, facts: &LinuxHostFacts) -> (r: Result<(), PlannerError>)
        ensures
            facts.wsl_distro_name_set && !facts.wsl_interop_set ==> r matches Err(PlannerError::Wsl1),
            !(facts.wsl_distro_name_set && !facts.wsl_interop_set) && !facts.run_systemd_system_exists ==> r matches Err(PlannerError::Linux(_)),
            !(facts.wsl_distro_name_set && !facts.wsl_interop_set) && facts.run_systemd_system_exists ==> r is Ok,
    {
        check_not_wsl1(facts.wsl_distro_name_set, facts.wsl_interop_set)?;
        check_systemd_active(facts.run_systemd_system_exists, facts.wsl_distro_name_set)?;
        Ok(())
    }

    /// The checks before an install: not NixOS, no Nix yet, not WSL1, and systemd running.
    pub fn pre_install_check(&self, facts: &LinuxHostFacts) -> (r: Result<(), PlannerError>)
        ensures
            r is Ok <==> !facts.etc_nixos_exists && !facts.nix_env_runs && !(facts.wsl_distro_name_set
                && !facts.wsl_interop_set) && facts.run_systemd_system_exists,
            facts.etc_nixos_exists ==> r matches Err(PlannerError::NixOs),
            !facts.etc_nixos_exists && facts.nix_env_runs ==> r matches Err(PlannerError::NixExists),
    {
        check_not_nixos(facts.etc_nixos_exists)?;
        check_nix_not_already_installed(facts.nix_env_runs)?;
        check_not_wsl1(facts.wsl_distro_name_set, facts.wsl_interop_set)?;
        check_systemd_active(facts.run_systemd_system_exists, facts.wsl_distro_name_set)?;
        Ok(())
    }
}

impl SteamDeck {
    /// The planner's settings: the common ones and where `/nix` is bind
    /// mounted from.
    pub fn settings(&self, common: &Vec<(String, Json)>) -> (r: Vec<(String, Json)>)
        ensures
            obj_view(r@) == set_member(obj_view(common@), "persistence"@, JsonView::String(self.persistence@)),
    {
        with_member(common, "persistence", Json::String(self.persistence.clone()))
    }
}

} // verus!
