//! Turning an existing Nix install into a Determinate Nix install, and
//! preparing a system for that upgrade.

use vstd::prelude::*;
use crate::planner::{actions_view, host_os, push_action, ActionView, CommonSettings, HostOs, InitSystem, PlannedAction};
use crate::text::owned;

verus! {

/// Where the Determinate receipt is written; the receipt location links to it.
pub const MAKE_DETERMINATE_RECEIPT_LOCATION: &'static str = "/nix/make-determinate-receipt.json";

/// Where the installer that added Determinate Nix is copied; the installer
/// location links to it.
pub const MAKE_DETERMINATE_BINARY_LOCATION: &'static str = "/nix/make-determinate-nix-installer";

/// The arguments of `make-determinate`.
pub struct MakeDeterminate {
    pub no_confirm: bool,
    pub explain: bool,
}

/// A planner that makes an existing Nix install a Determinate Nix install.
pub struct MakeDeterminatePlanner {
    pub settings: CommonSettings,
}

/// Where the SELinux policy of Determinate Nix is installed.
pub open spec fn selinux_policy_path() -> Seq<char> {
    "/usr/share/selinux/packages/nix.pp"@
}

/// The steps that add Determinate Nix on a host: on Linux (anything but
/// macOS) with SELinux, its policy; then the Determinate Nix daemon and its
/// init service, under launchd on macOS and systemd elsewhere, started.
pub open spec fn determinate_steps(host: HostOs, has_selinux: bool) -> Seq<ActionView> {
    let selinux = if host != HostOs::Macos && has_selinux {
        seq![ActionView::ProvisionSelinux { policy_path: selinux_policy_path() }]
    } else {
        Seq::empty()
    };
    selinux + seq![
        ActionView::ProvisionDeterminateNixd,
        ActionView::ConfigureDeterminateNixdInitService {
            init: if host == HostOs::Macos { InitSystem::Launchd } else { InitSystem::Systemd },
            start_daemon: true,
        },
    ]
}

/// Appends the steps that add Determinate Nix on the given host.
fn push_determinate_steps(plan: &mut Vec<PlannedAction>, host: HostOs, has_selinux: bool)
    ensures
        actions_view(final(plan)@) == actions_view(old(plan)@) + determinate_steps(host, has_selinux),
{
    let ghost start = actions_view(plan@);
    if host != HostOs::Macos && has_selinux {
        push_action(plan, PlannedAction::ProvisionSelinux { policy_path: owned("/usr/share/selinux/packages/nix.pp") });
    }
    push_action(plan, PlannedAction::ProvisionDeterminateNixd);
    let init = if host == HostOs::Macos { InitSystem::Launchd } else { InitSystem::Systemd };
    push_action(plan, PlannedAction::ConfigureDeterminateNixdInitService { init, start_daemon: true });
    proof {
        let sel = if host != HostOs::Macos && has_selinux {
            seq![ActionView::ProvisionSelinux { policy_path: selinux_policy_path() }]
        } else {
            Seq::empty()
        };
        assert(actions_view(plan@) =~= start + (sel + seq![
            ActionView::ProvisionDeterminateNixd,
            ActionView::ConfigureDeterminateNixdInitService { init, start_daemon: true },
        ]));
    }
}

/// The steps that add Determinate Nix on the given host.
pub fn determinate_steps_for(host: HostOs, has_selinux: bool) -> (r: Vec<PlannedAction>)
    ensures
        actions_view(r@) == determinate_steps(host, has_selinux),
{
    let mut plan: Vec<PlannedAction> = Vec::new();
    proof {
        assert(actions_view(plan@) =~= Seq::<ActionView>::empty());
    }
    push_determinate_steps(&mut plan, host, has_selinux);
    proof {
        assert(Seq::<ActionView>::empty() + determinate_steps(host, has_selinux) =~= determinate_steps(host, has_selinux));
    }
    plan
}

/// The note shown when the install is reverted: the original uninstaller
/// runs after Determinate Nix is removed.
pub open spec fn revert_note() -> Seq<char> {
    "Execute the original Nix uninstaller"@
}

/// The plan of the planner on the given host: a note for reverts, then the
/// steps that add Determinate Nix.
pub fn make_determinate_plan_for(host: HostOs, has_selinux: bool) -> (r: Vec<PlannedAction>)
    ensures
        actions_view(r@) == seq![ActionView::CosmeticRevertNote { note: revert_note() }] + determinate_steps(host, has_selinux),
{
    let mut plan: Vec<PlannedAction> = Vec::new();
    proof {
        assert(actions_view(plan@) =~= Seq::<ActionView>::empty());
    }
    push_action(&mut plan, PlannedAction::CosmeticRevertNote { note: owned("Execute the original Nix uninstaller") });
    push_determinate_steps(&mut plan, host, has_selinux);
    plan
}

impl MakeDeterminatePlanner {
    /// Plans on the host the installer was built for, where SELinux is or
    /// is not enforced as given.
    pub fn plan(&self, has_selinux: bool) -> (r: Vec<PlannedAction>)
        ensures
            exists|h: HostOs| actions_view(r@) == seq![ActionView::CosmeticRevertNote { note: revert_note() }] + determinate_steps(h, has_selinux),
    {
        let host = host_os();
        make_determinate_plan_for(host, has_selinux)
    }
}

/// The planner supports Linux and macOS only.
pub fn platform_supported(host: HostOs) -> (r: bool)
    ensures
        r == (host != HostOs::Other),
{
    host != HostOs::Other
}

/// What to prepare a system for.
#[derive(Debug, Clone, Copy, PartialEq, Eq, Structural)]
pub enum PrepareKind {
    /// Prepare the system to upgrade to Determinate Nix.
    Determinate,
}

/// The arguments of `prepare`.
pub struct Prepare {
    pub no_confirm: bool,
    pub command: Option<PrepareKind>,
}

impl Prepare {
    /// What to prepare for: the one asked for, or Determinate Nix.
    pub fn command(&self) -> (r: PrepareKind)
        ensures
            r == match self.command {
                Some(k) => k,
                None => PrepareKind::Determinate,
            },
    {
        match self.command {
            Some(k) => k,
            None => PrepareKind::Determinate,
        }
    }

    /// The steps that prepare the system, on the host the installer was
    /// built for: those that add Determinate Nix.
    pub fn plan(&self, has_selinux: bool) -> (r: Vec<PlannedAction>)
        ensures
            exists|h: HostOs| actions_view(r@) == determinate_steps(h, has_selinux),
    {
        match self.command() {
            PrepareKind::Determinate => determinate_steps_for(host_os(), has_selinux),
        }
    }
}

/// What to do with the original install's files once Determinate Nix is
/// added: the receipt and the installer that exist are moved aside.
pub struct KeepOriginals {
    pub move_receipt: bool,
    pub move_installer: bool,
}

pub fn keep_originals(receipt_exists: bool, installer_exists: bool) -> (r: KeepOriginals)
    ensures
        r.move_receipt == receipt_exists,
        r.move_installer == installer_exists,
{
    KeepOriginals { move_receipt: receipt_exists, move_installer: installer_exists }
}

/// What `prepare` does once its steps have run.
#[derive(Debug, Clone, Copy, PartialEq, Eq, Structural)]
pub enum PrepareFinish {
    /// A step failed: the command ends with failure, the receipt untouched.
    Failure,
    /// Every step succeeded and there is no receipt: end with success.
    Success,
    /// Every step succeeded: add the steps, completed, after the receipt's
    /// own actions, write it back, and end with success.
    UpdateReceipt,
}

/// The end of `prepare`, given whether every step succeeded and whether a
/// receipt exists.
pub fn prepare_finish(all_succeeded: bool, receipt_exists: bool) -> (r: PrepareFinish)
    ensures
        r == (if !all_succeeded {
            PrepareFinish::Failure
        } else if receipt_exists {
            PrepareFinish::UpdateReceipt
        } else {
            PrepareFinish::Success
        }),
{
    if !all_succeeded {
        PrepareFinish::Failure
    } else if receipt_exists {
        PrepareFinish::UpdateReceipt
    } else {
        PrepareFinish::Success
    }
}

} // verus!
