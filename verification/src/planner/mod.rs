//! Planners: each one turns settings and facts about the host into the
//! ordered steps of an install, or explains why it cannot install.

pub mod legacy;
pub mod linux;
pub mod macos;
pub mod ostree;
pub mod steam_deck;

use vstd::prelude::*;
use vstd::string::*;
use crate::text::{opt_text, owned, strs};
use target_lexicon::{Architecture, OperatingSystem};
use crate::json::{find_member, json_equal, jv, lemma_jv_object, lookup, member, obj_view, Json, JsonView};

verus! {

/// The init system that starts the Nix daemon.
#[derive(Debug, Clone, Copy, PartialEq, Eq, Structural)]
pub enum InitSystem {
    NoInitSystem,
    Systemd,
    Launchd,
}

/// The kind of operating system the installer was built for.
#[derive(Debug, Clone, Copy, PartialEq, Eq, Structural)]
pub enum HostOs {
    Linux,
    /// macOS, reported as `macosx` or `darwin`.
    Macos,
    Other,
}

/// Calls `target_lexicon::OperatingSystem::host`, the operating system of
/// the build target, and tells Linux and macOS apart from the rest. What it
/// returns depends on the machine, so nothing is claimed of it.
#[verifier::external_body]
pub(crate) fn host_os() -> (r: HostOs) {
    match OperatingSystem::host() {
        OperatingSystem::Linux => HostOs::Linux,
        OperatingSystem::MacOSX { .. } => HostOs::Macos,
        OperatingSystem::Darwin => HostOs::Macos,
        _ => HostOs::Other,
    }
}

/// The processor family the installer was built for.
#[derive(Debug, Clone, Copy, PartialEq, Eq, Structural)]
pub enum HostArch {
    X86_64,
    X86_32,
    Aarch64,
    Other,
}

/// Calls `target_lexicon::Architecture::host`, the architecture of the
/// build target, and tells the supported families apart. What it returns
/// depends on the machine, so nothing is claimed of it.
#[verifier::external_body]
pub(crate) fn host_arch() -> (r: HostArch) {
    match Architecture::host() {
        Architecture::X86_64 => HostArch::X86_64,
        Architecture::X86_32(_) => HostArch::X86_32,
        Architecture::Aarch64(_) => HostArch::Aarch64,
        _ => HostArch::Other,
    }
}

/// Which planner fits a host.
#[derive(Debug, Clone, Copy, PartialEq, Eq, Structural)]
pub enum PlannerKind {
    Linux,
    SteamDeck,
    Ostree,
    Macos,
}

/// The planner for a host: on 64-bit x86 Linux, the Steam Deck planner on
/// SteamOS, else the ostree planner where `ostree` manages the system, else
/// the Linux planner; the Linux planner on 32-bit x86 and ARM Linux; the
/// macOS planner on 64-bit x86 and ARM Macs; none elsewhere.
pub open spec fn planner_kind_for(arch: HostArch, os: HostOs, is_steamos: bool, has_ostree: bool) -> Option<PlannerKind> {
    match (arch, os) {
        (HostArch::X86_64, HostOs::Linux) => Some(
            if is_steamos {
                PlannerKind::SteamDeck
            } else if has_ostree {
                PlannerKind::Ostree
            } else {
                PlannerKind::Linux
            },
        ),
        (HostArch::X86_32, HostOs::Linux) | (HostArch::Aarch64, HostOs::Linux) => Some(PlannerKind::Linux),
        (HostArch::X86_64, HostOs::Macos) | (HostArch::Aarch64, HostOs::Macos) => Some(PlannerKind::Macos),
        _ => None,
    }
}

pub fn default_planner_kind(arch: HostArch, os: HostOs, is_steamos: bool, has_ostree: bool) -> (r: Option<PlannerKind>)
    ensures
        r == planner_kind_for(arch, os, is_steamos, has_ostree),
        os == HostOs::Macos && (arch == HostArch::X86_64 || arch == HostArch::Aarch64) ==> r == Some(PlannerKind::Macos),
        r == Some(PlannerKind::Macos) ==> os == HostOs::Macos,
{
    match (arch, os) {
        (HostArch::X86_64, HostOs::Linux) => {
            if is_steamos {
                Some(PlannerKind::SteamDeck)
            } else if has_ostree {
                Some(PlannerKind::Ostree)
            } else {
                Some(PlannerKind::Linux)
            }
        },
        (HostArch::X86_32, HostOs::Linux) | (HostArch::Aarch64, HostOs::Linux) => Some(PlannerKind::Linux),
        (HostArch::X86_64, HostOs::Macos) | (HostArch::Aarch64, HostOs::Macos) => Some(PlannerKind::Macos),
        _ => None,
    }
}

/// Which hosts get which default planner: both 64-bit x86 and ARM Macs get
/// the macOS planner, and no other host does; Linux hosts other than
/// unknown processors get a Linux-family planner, and the Steam Deck and
/// ostree planners only on 64-bit x86; other systems get none.
pub proof fn lemma_default_planner_hosts(arch: HostArch, os: HostOs, is_steamos: bool, has_ostree: bool)
    ensures
        os == HostOs::Macos ==> (planner_kind_for(arch, os, is_steamos, has_ostree) == Some(PlannerKind::Macos) <==> (arch
            == HostArch::X86_64 || arch == HostArch::Aarch64)),
        os == HostOs::Macos && !(arch == HostArch::X86_64 || arch == HostArch::Aarch64) ==> planner_kind_for(
            arch,
            os,
            is_steamos,
            has_ostree,
        ) is None,
        planner_kind_for(arch, os, is_steamos, has_ostree) == Some(PlannerKind::Macos) ==> os == HostOs::Macos,
        os == HostOs::Other ==> planner_kind_for(arch, os, is_steamos, has_ostree) is None,
        os == HostOs::Linux && arch != HostArch::Other ==> (planner_kind_for(arch, os, is_steamos, has_ostree) matches Some(k)
            && k != PlannerKind::Macos),
        (planner_kind_for(arch, os, is_steamos, has_ostree) == Some(PlannerKind::SteamDeck) || planner_kind_for(
            arch,
            os,
            is_steamos,
            has_ostree,
        ) == Some(PlannerKind::Ostree)) ==> arch == HostArch::X86_64 && os == HostOs::Linux,
{
}

/// The planner for the host the installer was built for.
pub fn host_planner_kind(is_steamos: bool, has_ostree: bool) -> (r: Option<PlannerKind>)
    ensures
        exists|a: HostArch, o: HostOs| r == #[trigger] planner_kind_for(a, o, is_steamos, has_ostree),
{
    let a = host_arch();
    let o = host_os();
    default_planner_kind(a, o, is_steamos, has_ostree)
}

/// Settings shared by every planner.
#[derive(Debug)]
pub struct CommonSettings {
    /// Install Determinate Nix rather than upstream Nix.
    pub determinate_nix: bool,
    /// Modify the shell profiles so that Nix is usable.
    pub modify_profile: bool,
    /// Overwrite existing files.
    pub force: bool,
    /// Use Nix Enterprise.
    pub nix_enterprise: bool,
    /// A CA certificate bundle to use.
    pub ssl_cert_file: Option<String>,
}

impl Clone for CommonSettings {
    fn clone(&self) -> (r: Self)
        ensures
            r == *self,
    {
        CommonSettings {
            determinate_nix: self.determinate_nix,
            modify_profile: self.modify_profile,
            force: self.force,
            nix_enterprise: self.nix_enterprise,
            ssl_cert_file: match &self.ssl_cert_file {
                Some(s) => Some(s.clone()),
                None => None,
            },
        }
    }
}

/// Where the Fish shell reads its configuration snippets.
#[derive(Debug)]
pub struct FishShellProfileLocations {
    pub confd_suffix: String,
    /// Common values of `$__fish_sysconf_dir`, under which Fish looks for `confd_suffix`.
    pub confd_prefixes: Vec<String>,
    /// Fish has different syntax than zsh/bash, treat it separately.
    pub vendor_confd_suffix: String,
    /// Common values of `$__fish_vendor_confdir`, under which Fish looks for `vendor_confd_suffix`.
    pub vendor_confd_prefixes: Vec<String>,
}

/// The shell profiles that are made to load Nix.
#[derive(Debug)]
pub struct ShellProfileLocations {
    pub fish: FishShellProfileLocations,
    pub bash: Vec<String>,
    pub zsh: Vec<String>,
}

/// The text of every location.
pub struct ShellProfileLocationsView {
    pub confd_suffix: Seq<char>,
    pub confd_prefixes: Seq<Seq<char>>,
    pub vendor_confd_suffix: Seq<char>,
    pub vendor_confd_prefixes: Seq<Seq<char>>,
    pub bash: Seq<Seq<char>>,
    pub zsh: Seq<Seq<char>>,
}

impl View for ShellProfileLocations {
    type V = ShellProfileLocationsView;

    open spec fn view(&self) -> ShellProfileLocationsView {
        ShellProfileLocationsView {
            confd_suffix: self.fish.confd_suffix@,
            confd_prefixes: strs(self.fish.confd_prefixes@),
            vendor_confd_suffix: self.fish.vendor_confd_suffix@,
            vendor_confd_prefixes: strs(self.fish.vendor_confd_prefixes@),
            bash: strs(self.bash@),
            zsh: strs(self.zsh@),
        }
    }
}

/// The locations used unless a planner says otherwise.
pub open spec fn default_shell_profile_locations() -> ShellProfileLocationsView {
    ShellProfileLocationsView {
        confd_suffix: "conf.d/nix.fish"@,
        confd_prefixes: seq![
            "/etc/fish"@,
            "/usr/local/etc/fish"@,
            "/opt/homebrew/etc/fish"@,
            "/opt/local/etc/fish"@,
        ],
        vendor_confd_suffix: "vendor_conf.d/nix.fish"@,
        vendor_confd_prefixes: seq!["/usr/share/fish/"@, "/usr/local/share/fish/"@],
        bash: seq!["/etc/bashrc"@, "/etc/profile.d/nix.sh"@, "/etc/bash.bashrc"@],
        zsh: seq!["/etc/zshrc"@, "/etc/zsh/zshrc"@],
    }
}

/// A list of owned strings with the given texts.
pub fn string_list(items: &[&str]) -> (r: Vec<String>)
    ensures
        strs(r@) == items@.map_values(|s: &str| s@),
{
    let mut v: Vec<String> = Vec::new();
    let mut i: usize = 0;
    while i < items.len()
        invariant
            i <= items@.len(),
            strs(v@) == items@.take(i as int).map_values(|s: &str| s@),
        decreases items.len() - i,
    {
        let item = owned(items[i]);
        proof {
            assert(items@.take(i + 1) =~= items@.take(i as int).push(items@[i as int]));
            assert(strs(v@.push(item)) =~= strs(v@).push(items@[i as int]@));
            assert(items@.take(i + 1).map_values(|s: &str| s@) =~= items@.take(i as int).map_values(
                |s: &str| s@,
            ).push(items@[i as int]@));
        }
        v.push(item);
        i = i + 1;
    }
    proof {
        assert(items@.take(items@.len() as int) =~= items@);
    }
    v
}

impl Default for ShellProfileLocations {
    fn default() -> (r: Self)
        ensures
            r@ == default_shell_profile_locations(),
    {
        let confd_prefixes = string_list(
            &["/etc/fish", "/usr/local/etc/fish", "/opt/homebrew/etc/fish", "/opt/local/etc/fish"],
        );
        let vendor_confd_prefixes = string_list(&["/usr/share/fish/", "/usr/local/share/fish/"]);
        let bash = string_list(&["/etc/bashrc", "/etc/profile.d/nix.sh", "/etc/bash.bashrc"]);
        let zsh = string_list(&["/etc/zshrc", "/etc/zsh/zshrc"]);
        let r = ShellProfileLocations {
            fish: FishShellProfileLocations {
                confd_suffix: owned("conf.d/nix.fish"),
                confd_prefixes,
                vendor_confd_suffix: owned("vendor_conf.d/nix.fish"),
                vendor_confd_prefixes,
            },
            bash,
            zsh,
        };
        proof {
            assert(r@.confd_prefixes =~= default_shell_profile_locations().confd_prefixes);
            assert(r@.vendor_confd_prefixes =~= default_shell_profile_locations().vendor_confd_prefixes);
            assert(r@.bash =~= default_shell_profile_locations().bash);
            assert(r@.zsh =~= default_shell_profile_locations().zsh);
        }
        r
    }
}

/// The sequence with its first occurrence of `x` removed, if there is one.
pub open spec fn remove_first(s: Seq<Seq<char>>, x: Seq<char>) -> Seq<Seq<char>>
    decreases s.len(),
{
    if s.len() == 0 {
        s
    } else if s[0] == x {
        s.drop_first()
    } else {
        seq![s[0]] + remove_first(s.drop_first(), x)
    }
}

proof fn lemma_remove_first_at(s: Seq<Seq<char>>, x: Seq<char>, i: int)
    requires
        0 <= i <= s.len(),
        forall|j: int| 0 <= j < i ==> s[j] != x,
    ensures
        remove_first(s, x) == s.take(i) + remove_first(s.skip(i), x),
    decreases i,
{
    if i == 0 {
        assert(s.take(0) =~= Seq::<Seq<char>>::empty());
        assert(s.skip(0) =~= s);
    } else {
        let t = s.drop_first();
        assert forall|j: int| 0 <= j < i - 1 implies t[j] != x by {
            assert(t[j] == s[j + 1]);
        }
        lemma_remove_first_at(t, x, i - 1);
        assert(s.take(i) =~= seq![s[0]] + t.take(i - 1));
        assert(s.skip(i) =~= t.skip(i - 1));
    }
}

/// Removes the first entry with the given text, if there is one.
pub fn remove_first_entry(v: &mut Vec<String>, x: &str)
    ensures
        strs(final(v)@) == remove_first(strs(old(v)@), x@),
{
    let mut i: usize = 0;
    let target = owned(x);
    while i < v.len()
        invariant
            i <= v.len(),
            v@ == old(v)@,
            target@ == x@,
            forall|j: int| 0 <= j < i ==> strs(v@)[j] != x@,
        decreases v.len() - i,
    {
        if v[i] == target {
            proof {
                lemma_remove_first_at(strs(v@), x@, i as int);
                let rest = strs(v@).skip(i as int);
                assert(rest[0] == x@);
                assert(rest.drop_first() =~= strs(v@).skip(i + 1));
                assert(strs(v@.remove(i as int)) =~= strs(v@).take(i as int) + rest.drop_first());
            }
            v.remove(i);
            return;
        }
        proof {
            assert(strs(v@)[i as int] == v@[i as int]@);
        }
        i = i + 1;
    }
    proof {
        lemma_remove_first_at(strs(v@), x@, i as int);
        assert(strs(v@).skip(i as int) =~= Seq::<Seq<char>>::empty());
        assert(strs(v@).take(i as int) =~= strs(v@));
    }
}

/// One step of an install plan.
#[derive(Debug)]
pub enum PlannedAction {
    /// Create a directory with the given mode; `force_prune_on_revert`
    /// removes it with its contents on revert.
    CreateDirectory { path: String, mode: u32, force_prune_on_revert: bool },
    /// Write a file with the given mode and contents.
    CreateFile { path: String, mode: u32, contents: String, force: bool },
    /// Remove the installer's scratch directory.
    RemoveScratchDirectory,
    /// Run `systemctl daemon-reload`.
    SystemctlDaemonReload,
    /// Start a systemd unit, enabling it if asked.
    StartSystemdUnit { unit: String, enable: bool },
    /// Unpack Nix into the store.
    ProvisionNix,
    /// Create the Nix build users and their group.
    CreateUsersAndGroups,
    /// Write the Nix configuration and the shell profiles.
    ConfigureNix { shell_profile_locations: ShellProfileLocations, determinate_nix_settings: bool },
    /// Set up the init service of the Nix daemon.
    ConfigureInitService { init: InitSystem, nix_enterprise: bool, start_daemon: bool },
    /// Set up the init service of the Nix daemon, with a certificate bundle.
    ConfigureInitServiceWithCertificate { init: InitSystem, start_daemon: bool, ssl_cert_file: Option<String> },
    /// Install the SELinux policy for Nix from the given path.
    ProvisionSelinux { policy_path: String },
    /// Undo a cleanup of SteamOS's own Nix offload directory.
    RevertCleanSteamosNixOffload,
    /// Make sure SteamOS's own `/nix` directory exists.
    EnsureSteamosNixDirectory,
    /// Install the Determinate Nix daemon.
    ProvisionDeterminateNixd,
    /// Set up the init service of the Determinate Nix daemon.
    ConfigureDeterminateNixdInitService { init: InitSystem, start_daemon: bool },
    /// Set up the init service of the upstream Nix daemon.
    ConfigureUpstreamInitService { init: InitSystem, start_daemon: bool },
    /// Create an APFS volume for the store.
    CreateNixVolume { disk: String, name: String, case_sensitive: bool, encrypt: bool },
    /// Create an encrypted APFS volume for the store, managed by Determinate Nix.
    CreateDeterminateNixVolume { disk: String, name: String, case_sensitive: bool, force: bool, use_ec2_instance_store: bool },
    /// Exclude paths from Time Machine backups.
    SetTmutilExclusions { paths: Vec<String> },
    /// Allow remote building through the shell profiles.
    ConfigureRemoteBuilding,
    /// Install a service that restores the shell hooks after system updates.
    CreateNixHookService,
    /// A step with nothing to do that tells the user what a revert will do.
    CosmeticRevertNote { note: String },
    /// Make the shell profiles load Nix.
    ConfigureShellProfile { locations: ShellProfileLocations },
}

/// The meaning of a [`PlannedAction`], with its text fields as text.
pub enum ActionView {
    CreateDirectory { path: Seq<char>, mode: u32, force_prune_on_revert: bool },
    CreateFile { path: Seq<char>, mode: u32, contents: Seq<char>, force: bool },
    RemoveScratchDirectory,
    SystemctlDaemonReload,
    StartSystemdUnit { unit: Seq<char>, enable: bool },
    ProvisionNix,
    CreateUsersAndGroups,
    ConfigureNix { shell_profile_locations: ShellProfileLocationsView, determinate_nix_settings: bool },
    ConfigureInitService { init: InitSystem, nix_enterprise: bool, start_daemon: bool },
    ConfigureInitServiceWithCertificate { init: InitSystem, start_daemon: bool, ssl_cert_file: Option<Seq<char>> },
    ProvisionSelinux { policy_path: Seq<char> },
    RevertCleanSteamosNixOffload,
    EnsureSteamosNixDirectory,
    ProvisionDeterminateNixd,
    ConfigureDeterminateNixdInitService { init: InitSystem, start_daemon: bool },
    ConfigureUpstreamInitService { init: InitSystem, start_daemon: bool },
    CreateNixVolume { disk: Seq<char>, name: Seq<char>, case_sensitive: bool, encrypt: bool },
    CreateDeterminateNixVolume { disk: Seq<char>, name: Seq<char>, case_sensitive: bool, force: bool, use_ec2_instance_store: bool },
    SetTmutilExclusions { paths: Seq<Seq<char>> },
    ConfigureRemoteBuilding,
    CreateNixHookService,
    CosmeticRevertNote { note: Seq<char> },
    ConfigureShellProfile { locations: ShellProfileLocationsView },
}

impl View for PlannedAction {
    type V = ActionView;

    open spec fn view(&self) -> ActionView {
        match self {
            PlannedAction::CreateDirectory { path, mode, force_prune_on_revert } => ActionView::CreateDirectory {
                path: path@,
                mode: *mode,
                force_prune_on_revert: *force_prune_on_revert,
            },
            PlannedAction::CreateFile { path, mode, contents, force } => ActionView::CreateFile {
                path: path@,
                mode: *mode,
                contents: contents@,
                force: *force,
            },
            PlannedAction::RemoveScratchDirectory => ActionView::RemoveScratchDirectory,
            PlannedAction::SystemctlDaemonReload => ActionView::SystemctlDaemonReload,
            PlannedAction::StartSystemdUnit { unit, enable } => ActionView::StartSystemdUnit {
                unit: unit@,
                enable: *enable,
            },
            PlannedAction::ProvisionNix => ActionView::ProvisionNix,
            PlannedAction::CreateUsersAndGroups => ActionView::CreateUsersAndGroups,
            PlannedAction::ConfigureNix { shell_profile_locations, determinate_nix_settings } => ActionView::ConfigureNix {
                shell_profile_locations: shell_profile_locations@,
                determinate_nix_settings: *determinate_nix_settings,
            },
            PlannedAction::ConfigureInitService { init, nix_enterprise, start_daemon } => ActionView::ConfigureInitService {
                init: *init,
                nix_enterprise: *nix_enterprise,
                start_daemon: *start_daemon,
            },
            PlannedAction::ConfigureInitServiceWithCertificate { init, start_daemon, ssl_cert_file } => ActionView::ConfigureInitServiceWithCertificate {
                init: *init,
                start_daemon: *start_daemon,
                ssl_cert_file: opt_text(*ssl_cert_file),
            },
            PlannedAction::ProvisionSelinux { policy_path } => ActionView::ProvisionSelinux {
                policy_path: policy_path@,
            },
            PlannedAction::RevertCleanSteamosNixOffload => ActionView::RevertCleanSteamosNixOffload,
            PlannedAction::EnsureSteamosNixDirectory => ActionView::EnsureSteamosNixDirectory,
            PlannedAction::ProvisionDeterminateNixd => ActionView::ProvisionDeterminateNixd,
            PlannedAction::ConfigureDeterminateNixdInitService { init, start_daemon } => ActionView::ConfigureDeterminateNixdInitService {
                init: *init,
                start_daemon: *start_daemon,
            },
            PlannedAction::ConfigureUpstreamInitService { init, start_daemon } => ActionView::ConfigureUpstreamInitService {
                init: *init,
                start_daemon: *start_daemon,
            },
            PlannedAction::CreateNixVolume { disk, name, case_sensitive, encrypt } => ActionView::CreateNixVolume {
                disk: disk@,
                name: name@,
                case_sensitive: *case_sensitive,
                encrypt: *encrypt,
            },
            PlannedAction::CreateDeterminateNixVolume { disk, name, case_sensitive, force, use_ec2_instance_store } => ActionView::CreateDeterminateNixVolume {
                disk: disk@,
                name: name@,
                case_sensitive: *case_sensitive,
                force: *force,
                use_ec2_instance_store: *use_ec2_instance_store,
            },
            PlannedAction::SetTmutilExclusions { paths } => ActionView::SetTmutilExclusions { paths: strs(paths@) },
            PlannedAction::ConfigureRemoteBuilding => ActionView::ConfigureRemoteBuilding,
            PlannedAction::CreateNixHookService => ActionView::CreateNixHookService,
            PlannedAction::CosmeticRevertNote { note } => ActionView::CosmeticRevertNote { note: note@ },
            PlannedAction::ConfigureShellProfile { locations } => ActionView::ConfigureShellProfile {
                locations: locations@,
            },
        }
    }
}

/// The meaning of each step of a plan.
pub open spec fn actions_view(v: Seq<PlannedAction>) -> Seq<ActionView> {
    v.map_values(|a: PlannedAction| a@)
}

/// Appends a step to a plan.
pub fn push_action(plan: &mut Vec<PlannedAction>, a: PlannedAction)
    ensures
        actions_view(final(plan)@) == actions_view(old(plan)@).push(a@),
{
    proof {
        assert(actions_view(old(plan)@.push(a)) =~= actions_view(old(plan)@).push(a@));
    }
    plan.push(a);
}

/// Errors specific to the Linux planner.
#[derive(Debug, Clone, Copy, PartialEq, Eq, Structural)]
pub enum LinuxErrorKind {
    /// systemd is not running.
    SystemdNotActive,
    /// systemd is not running under WSL2, where it is off by default.
    Wsl2SystemdNotActive,
}

/// Errors specific to the ostree planner.
#[derive(Debug, Clone, Copy, PartialEq, Eq, Structural)]
pub enum OstreeError {
    SystemdNotActive,
    Wsl2SystemdNotActive,
}

/// Errors specific to the Steam Deck planner.
#[derive(Debug)]
pub enum SteamDeckError {
    /// The persistence path is not absolute, as a bind mount requires.
    AbsolutePathRequired(String),
    /// An offload directory exists but `nix.mount` does not point at it.
    OffloadExistsButUnitIncorrect,
    /// The SteamOS `nix.mount` unit exists but its status could not be read.
    SteamosNixMountUnitNotExists,
    /// systemd asks for `systemctl daemon-reload` before `nix.mount` can be used.
    NixMountSystemctlDaemonReloadRequired,
}

/// Errors specific to the macOS planner.
#[derive(Debug)]
pub enum MacosError {
    /// nix-darwin is installed and must be removed before uninstalling Nix.
    UninstallNixDarwin,
    /// A configuration profile blocks mounting internal disks; the message names it.
    BlockedBySystemUIServerPolicy(String),
}

/// An error originating from a planner.
#[derive(Debug)]
pub enum PlannerError {
    /// There is no default planner for the host.
    UnsupportedArchitecture,
    /// The process runs under Rosetta.
    RosettaDetected,
    /// Nix Enterprise is not available.
    NixEnterpriseUnavailable,
    /// SELinux is enforcing.
    SelinuxEnforcing,
    /// SELinux tooling is missing.
    SelinuxRequirements,
    /// Output of a command was not UTF-8.
    Utf8,
    /// The host runs NixOS, which already has Nix.
    NixOs,
    /// `nix` is already a valid command.
    NixExists,
    /// The host runs WSL1, which is not supported.
    Wsl1,
    /// The EC2 instance store can only be used with Determinate Nix.
    Ec2InstanceStoreRequiresDeterminateNix,
    /// A `sysctl` value could not be read.
    Sysctl,
    Linux(LinuxErrorKind),
    Ostree(OstreeError),
    SteamDeck(SteamDeckError),
    Macos(MacosError),
}

impl PlannerError {
    /// Whether the error is one a user is expected to meet, and is shown
    /// without a trace.
    pub fn expected(&self) -> (r: bool)
        ensures
            r <==> match self {
                PlannerError::UnsupportedArchitecture | PlannerError::RosettaDetected
                | PlannerError::NixEnterpriseUnavailable | PlannerError::SelinuxRequirements
                | PlannerError::NixOs | PlannerError::NixExists | PlannerError::Wsl1
                | PlannerError::Linux(_) | PlannerError::Macos(_) => true,
                _ => false,
            },
    {
        match self {
            PlannerError::UnsupportedArchitecture => true,
            PlannerError::RosettaDetected => true,
            PlannerError::NixEnterpriseUnavailable => true,
            PlannerError::SelinuxRequirements => true,
            PlannerError::NixOs => true,
            PlannerError::NixExists => true,
            PlannerError::Wsl1 => true,
            PlannerError::Linux(_) => true,
            PlannerError::Macos(_) => true,
            _ => false,
        }
    }
}

/// The planners built into the installer.
#[derive(Debug)]
pub enum BuiltinPlanner {
    /// Traditional, mutable Linux systems like Debian, RHEL, or Arch.
    Linux(linux::Linux),
    /// The Valve Steam Deck running SteamOS.
    SteamDeck(steam_deck::SteamDeck),
    /// Immutable systems using ostree, such as Fedora Silverblue.
    Ostree(ostree::Ostree),
    /// macOS (Darwin) systems.
    Macos(macos::Macos),
}

/// The name under which a planner is recorded in a receipt.
pub open spec fn planner_name(p: BuiltinPlanner) -> Seq<char> {
    match p {
        BuiltinPlanner::Linux(_) => "linux"@,
        BuiltinPlanner::SteamDeck(_) => "steam-deck"@,
        BuiltinPlanner::Ostree(_) => "ostree"@,
        BuiltinPlanner::Macos(_) => "macos"@,
    }
}

impl BuiltinPlanner {
    pub fn typetag_name(&self) -> (r: &'static str)
        ensures
            r@ == planner_name(*self),
    {
        match self {
            BuiltinPlanner::Linux(_) => "linux",
            BuiltinPlanner::SteamDeck(_) => "steam-deck",
            BuiltinPlanner::Ostree(_) => "ostree",
            BuiltinPlanner::Macos(_) => "macos",
        }
    }
}

/// The name under which a planner of this kind is recorded in a receipt.
pub open spec fn kind_name(k: PlannerKind) -> Seq<char> {
    match k {
        PlannerKind::Linux => "linux"@,
        PlannerKind::SteamDeck => "steam-deck"@,
        PlannerKind::Ostree => "ostree"@,
        PlannerKind::Macos => "macos"@,
    }
}

impl PlannerKind {
    pub fn name(&self) -> (r: &'static str)
        ensures
            r@ == kind_name(*self),
    {
        match self {
            PlannerKind::Linux => "linux",
            PlannerKind::SteamDeck => "steam-deck",
            PlannerKind::Ostree => "ostree",
            PlannerKind::Macos => "macos",
        }
    }
}

/// Whether a setting differs from the default: the defaults lack it or
/// give it another value.
pub open spec fn differs_from_default(e: (Seq<char>, JsonView), defaults: Seq<(Seq<char>, JsonView)>) -> bool {
    lookup(defaults, e.0) != Some(e.1)
}

/// The settings that were configured away from the defaults, in the order
/// given.
pub fn configured_settings(settings: &Vec<(String, Json)>, defaults: &Vec<(String, Json)>) -> (r: Vec<(String, Json)>)
    ensures
        obj_view(r@) == obj_view(settings@).filter(|e: (Seq<char>, JsonView)| differs_from_default(e, obj_view(defaults@))),
{
    let ghost d = obj_view(defaults@);
    let mut out: Vec<(String, Json)> = Vec::new();
    let mut i: usize = 0;
    while i < settings.len()
        invariant
            i <= settings.len(),
            d == obj_view(defaults@),
            obj_view(out@) == obj_view(settings@).take(i as int).filter(
                |e: (Seq<char>, JsonView)| differs_from_default(e, d),
            ),
        decreases settings.len() - i,
    {
        let k = &settings[i].0;
        let v = &settings[i].1;
        let differs = match find_member(defaults, k.as_str()) {
            Some(j) => {
                proof {
                    crate::json::lemma_lookup_skip(d, k@, j as int);
                    assert(d.skip(j as int)[0] == d[j as int]);
                }
                !json_equal(&defaults[j].1, v)
            },
            None => {
                proof {
                    crate::json::lemma_lookup_skip(d, k@, defaults@.len() as int);
                }
                true
            },
        };
        proof {
            reveal(Seq::filter);
            assert(obj_view(settings@).take(i + 1).drop_last() =~= obj_view(settings@).take(i as int));
            assert(obj_view(settings@).take(i + 1).last() == (k@, jv(*v)));
        }
        if differs {
            let entry = (k.clone(), crate::json::clone_json(v));
            proof {
                assert(obj_view(out@.push(entry)) =~= obj_view(out@).push((k@, jv(*v))));
            }
            out.push(entry);
        }
        i = i + 1;
    }
    proof {
        assert(obj_view(settings@).take(settings@.len() as int) =~= obj_view(settings@));
    }
    out
}

/// What is recorded about the planner in diagnostics: its name, the names
/// of the configured settings, and whether Determinate Nix is installed
/// (the `determinate_nix` setting, `false` when not configured).
#[derive(Debug)]
pub struct PlannerFacts {
    pub planner: String,
    pub configured_settings: Vec<String>,
    pub install_determinate_nix: Json,
}

pub fn planner_facts(planner: &str, configured: &Vec<(String, Json)>) -> (r: PlannerFacts)
    ensures
        r.planner@ == planner@,
        r.configured_settings@.map_values(|k: String| k@) == obj_view(configured@).map_values(
            |e: (Seq<char>, JsonView)| e.0,
        ),
        jv(r.install_determinate_nix) == match lookup(obj_view(configured@), "determinate_nix"@) {
            Some(v) => v,
            None => JsonView::Bool(false),
        },
{
    let mut keys: Vec<String> = Vec::new();
    let mut i: usize = 0;
    while i < configured.len()
        invariant
            i <= configured.len(),
            keys@.map_values(|k: String| k@) == obj_view(configured@).take(i as int).map_values(
                |e: (Seq<char>, JsonView)| e.0,
            ),
        decreases configured.len() - i,
    {
        let k = configured[i].0.clone();
        proof {
            assert(keys@.push(k).map_values(|k: String| k@) =~= keys@.map_values(|k: String| k@).push(k@));
            assert(obj_view(configured@).take(i + 1).map_values(|e: (Seq<char>, JsonView)| e.0) =~= obj_view(
                configured@,
            ).take(i as int).map_values(|e: (Seq<char>, JsonView)| e.0).push(configured@[i as int].0@));
        }
        keys.push(k);
        i = i + 1;
    }
    proof {
        assert(obj_view(configured@).take(configured@.len() as int) =~= obj_view(configured@));
    }
    let determinate = match find_member(configured, "determinate_nix") {
        Some(j) => {
            proof {
                crate::json::lemma_lookup_skip(obj_view(configured@), "determinate_nix"@, j as int);
                assert(obj_view(configured@).skip(j as int)[0] == obj_view(configured@)[j as int]);
            }
            crate::json::clone_json(&configured[j].1)
        },
        None => {
            proof {
                crate::json::lemma_lookup_skip(obj_view(configured@), "determinate_nix"@, configured@.len() as int);
            }
            Json::Bool(false)
        },
    };
    PlannerFacts { planner: owned(planner), configured_settings: keys, install_determinate_nix: determinate }
}

} // verus!
