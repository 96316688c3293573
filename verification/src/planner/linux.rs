//! The planner for traditional, mutable Linux systems, and the checks that
//! Linux planners run before installing.

use vstd::prelude::*;
use vstd::string::*;
use crate::planner::{
    actions_view, default_shell_profile_locations, push_action, ActionView, CommonSettings, InitSystem,
    LinuxErrorKind, PlannedAction, PlannerError, ShellProfileLocations,
};
use crate::text::{opt_text, owned};

verus! {

/// How the Nix daemon is started.
#[derive(Debug, Clone, Copy)]
pub struct InitSettings {
    pub init: InitSystem,
    pub start_daemon: bool,
}

/// What `getenforce` reported.
#[derive(Debug)]
pub enum GetenforceOutput {
    /// The command is not installed, or could not be run.
    NotRun,
    /// The command printed something that is not UTF-8.
    InvalidUtf8,
    /// The command printed this, with surrounding whitespace trimmed.
    Printed(String),
}

/// Facts about a Linux host that the checks read.
#[derive(Debug)]
pub struct LinuxHostFacts {
    /// `/etc/NIXOS` exists.
    pub etc_nixos_exists: bool,
    /// `nix-env --version` could be started.
    pub nix_env_runs: bool,
    /// `WSL_DISTRO_NAME` is set.
    pub wsl_distro_name_set: bool,
    /// `WSL_INTEROP` is set.
    pub wsl_interop_set: bool,
    /// `/run/systemd/system` exists.
    pub run_systemd_system_exists: bool,
    /// What `getenforce` reported.
    pub getenforce: GetenforceOutput,
}

/// Running the installer on NixOS is pointless: NixOS always creates `/etc/NIXOS`.
pub fn check_not_nixos(etc_nixos_exists: bool) -> (r: Result<(), PlannerError>)
    ensures
        etc_nixos_exists ==> r matches Err(PlannerError::NixOs),
        !etc_nixos_exists ==> r is Ok,
{
    if etc_nixos_exists {
        return Err(PlannerError::NixOs);
    }
    Ok(())
}

/// WSL1 is detected by `WSL_DISTRO_NAME` being set without `WSL_INTEROP`.
pub fn check_not_wsl1(wsl_distro_name_set: bool, wsl_interop_set: bool) -> (r: Result<(), PlannerError>)
    ensures
        wsl_distro_name_set && !wsl_interop_set ==> r matches Err(PlannerError::Wsl1),
        !(wsl_distro_name_set && !wsl_interop_set) ==> r is Ok,
{
    if wsl_distro_name_set && !wsl_interop_set {
        return Err(PlannerError::Wsl1);
    }
    Ok(())
}

/// SELinux in enforcing mode is not supported.
pub fn check_not_selinux(getenforce: &GetenforceOutput) -> (r: Result<(), PlannerError>)
    ensures
        match getenforce {
            GetenforceOutput::NotRun => r is Ok,
            GetenforceOutput::InvalidUtf8 => r matches Err(PlannerError::Utf8),
            GetenforceOutput::Printed(s) => if s@ == "Enforcing"@ {
                r matches Err(PlannerError::SelinuxEnforcing)
            } else {
                r is Ok
            },
        },
{
    match getenforce {
        GetenforceOutput::NotRun => Ok(()),
        GetenforceOutput::InvalidUtf8 => Err(PlannerError::Utf8),
        GetenforceOutput::Printed(s) => {
            if *s == owned("Enforcing") {
                Err(PlannerError::SelinuxEnforcing)
            } else {
                Ok(())
            }
        },
    }
}

/// An existing Nix install is not repaired: if `nix-env` runs, Nix is installed.
pub fn check_nix_not_already_installed(nix_env_runs: bool) -> (r: Result<(), PlannerError>)
    ensures
        nix_env_runs ==> r matches Err(PlannerError::NixExists),
        !nix_env_runs ==> r is Ok,
{
    if nix_env_runs {
        return Err(PlannerError::NixExists);
    }
    Ok(())
}

/// systemd must be running; under WSL2 the error explains how to enable it.
pub fn check_systemd_active(run_systemd_system_exists: bool, wsl_distro_name_set: bool) -> (r: Result<
    (),
    PlannerError,
>)
    ensures
        run_systemd_system_exists ==> r is Ok,
        !run_systemd_system_exists && wsl_distro_name_set ==> r matches Err(
            PlannerError::Linux(LinuxErrorKind::Wsl2SystemdNotActive),
        ),
        !run_systemd_system_exists && !wsl_distro_name_set ==> r matches Err(
            PlannerError::Linux(LinuxErrorKind::SystemdNotActive),
        ),
{
    if !run_systemd_system_exists {
        if wsl_distro_name_set {
            return Err(PlannerError::Linux(LinuxErrorKind::Wsl2SystemdNotActive));
        } else {
            return Err(PlannerError::Linux(LinuxErrorKind::SystemdNotActive));
        }
    }
    Ok(())
}

/// A planner for Linux installs.
#[derive(Debug)]
pub struct Linux {
    pub settings: CommonSettings,
    pub init: InitSettings,
}

/// Which check, if any, refuses an install on the host, in the order the
/// checks run.
pub open spec fn linux_refusal(p: Linux, facts: LinuxHostFacts) -> Option<PlannerError> {
    if facts.etc_nixos_exists {
        Some(PlannerError::NixOs)
    } else if facts.nix_env_runs {
        Some(PlannerError::NixExists)
    } else if facts.wsl_distro_name_set && !facts.wsl_interop_set {
        Some(PlannerError::Wsl1)
    } else if facts.getenforce is InvalidUtf8 {
        Some(PlannerError::Utf8)
    } else if facts.getenforce matches GetenforceOutput::Printed(s) && s@ == "Enforcing"@ {
        Some(PlannerError::SelinuxEnforcing)
    } else if p.init.init == InitSystem::Systemd && p.init.start_daemon && !facts.run_systemd_system_exists {
        if facts.wsl_distro_name_set {
            Some(PlannerError::Linux(LinuxErrorKind::Wsl2SystemdNotActive))
        } else {
            Some(PlannerError::Linux(LinuxErrorKind::SystemdNotActive))
        }
    } else {
        None
    }
}

/// The steps of a Linux install.
pub open spec fn linux_actions(p: Linux) -> Seq<ActionView> {
    seq![
        ActionView::CreateDirectory { path: "/nix"@, mode: 0o755, force_prune_on_revert: true },
        ActionView::ProvisionNix,
        ActionView::ConfigureNix {
            shell_profile_locations: default_shell_profile_locations(),
            determinate_nix_settings: false,
        },
        ActionView::ConfigureInitServiceWithCertificate {
            init: p.init.init,
            start_daemon: p.init.start_daemon,
            ssl_cert_file: opt_text(p.settings.ssl_cert_file),
        },
        ActionView::RemoveScratchDirectory,
    ]
}

impl Linux {
    /// Plans an install, after checking that the host can take one.
    pub fn plan(&self, facts: &LinuxHostFacts) -> (r: Result<Vec<PlannedAction>, PlannerError>)
        ensures
            match linux_refusal(*self, *facts) {
                Some(e) => r matches Err(got) && got == e,
                None => r matches Ok(steps) && actions_view(steps@) == linux_actions(*self),
            },
            facts.etc_nixos_exists ==> r matches Err(PlannerError::NixOs),
            !facts.etc_nixos_exists && facts.nix_env_runs ==> r matches Err(PlannerError::NixExists),
            r is Ok ==> !facts.etc_nixos_exists && !facts.nix_env_runs,
    {
        check_not_nixos(facts.etc_nixos_exists)?;
        check_nix_not_already_installed(facts.nix_env_runs)?;
        check_not_wsl1(facts.wsl_distro_name_set, facts.wsl_interop_set)?;
        check_not_selinux(&facts.getenforce)?;
        if self.init.init == InitSystem::Systemd && self.init.start_daemon {
            check_systemd_active(facts.run_systemd_system_exists, facts.wsl_distro_name_set)?;
        }
        let mut plan: Vec<PlannedAction> = Vec::new();
        proof {
            assert(actions_view(plan@) =~= Seq::<ActionView>::empty());
        }
        push_action(
            &mut plan,
            PlannedAction::CreateDirectory { path: owned("/nix"), mode: 0o755, force_prune_on_revert: true },
        );
        push_action(&mut plan, PlannedAction::ProvisionNix);
        push_action(
            &mut plan,
            PlannedAction::ConfigureNix {
                shell_profile_locations: ShellProfileLocations::default(),
                determinate_nix_settings: false,
            },
        );
        push_action(
            &mut plan,
            PlannedAction::ConfigureInitServiceWithCertificate {
                init: self.init.init,
                start_daemon: self.init.start_daemon,
                ssl_cert_file: match &self.settings.ssl_cert_file {
                    Some(s) => Some(s.clone()),
                    None => None,
                },
            },
        );
        push_action(&mut plan, PlannedAction::RemoveScratchDirectory);
        proof {
            assert(actions_view(plan@) =~= linux_actions(*self));
        }
        Ok(plan)
    }
}

/// The Linux planner never plans over an existing Nix: on NixOS it refuses
/// with `NixOs`; elsewhere, when `nix-env` runs, it refuses with
/// `NixExists`, whatever the other facts and settings are; so a host it
/// accepts runs no Nix.
pub proof fn lemma_linux_refuses_existing_nix(p: Linux, facts: LinuxHostFacts)
    ensures
        facts.etc_nixos_exists ==> linux_refusal(p, facts) == Some(PlannerError::NixOs),
        !facts.etc_nixos_exists && facts.nix_env_runs ==> linux_refusal(p, facts) == Some(PlannerError::NixExists),
        linux_refusal(p, facts) is None ==> !facts.etc_nixos_exists && !facts.nix_env_runs,
{
}

} // verus!
