use nix_installer::distribution::{BuiltinTarballs, Distribution, TarballLocation, UrlOrPath};
use nix_installer::os::darwin::{DiskUtilInfoOutput, DiskUtilList, DiskUtilListDisk};
use nix_installer::planner::linux::{GetenforceOutput, LinuxHostFacts};
use nix_installer::planner::macos::{
    check_nix_darwin_not_installed, check_not_running_in_rosetta, Macos, MacosFacts, ProcTranslated,
    RootDiskSource,
};
use nix_installer::planner::macos::profiles::{
    HardDiskInternalOpts, MountControls, Profile, ProfileItem, SystemUIServer, Target,
};
use nix_installer::planner::ostree::Ostree;
use nix_installer::planner::steam_deck::{bind_mount_unit, detect_requires_bind_mount, NixMountStatus, SteamDeck, SteamDeckFacts};
use nix_installer::planner::{BuiltinPlanner, CommonSettings, MacosError, PlannedAction, PlannerError};
use nix_installer::self_test::Shell;

fn settings(determinate: bool) -> CommonSettings {
    CommonSettings { determinate_nix: determinate, modify_profile: true, force: false, nix_enterprise: false, ssl_cert_file: None }
}

fn macos(determinate: bool, ec2: bool) -> Macos {
    Macos {
        settings: settings(determinate),
        encrypt: None,
        case_sensitive: false,
        volume_label: "Nix Store".to_string(),
        root_disk: None,
        use_ec2_instance_store: ec2,
    }
}

#[test]
fn macos_plans() {
    let facts = MacosFacts { root_disk: Some("disk3".to_string()), existing_volume_file_vault: None, root_disk_encrypted: true };
    let plan = macos(false, false).plan(&facts).unwrap();
    assert!(matches!(&plan[0], PlannedAction::CreateNixVolume { disk, encrypt: true, .. } if disk == "disk3"));
    let plan = macos(true, false).plan(&facts).unwrap();
    assert!(matches!(plan[0], PlannedAction::ProvisionDeterminateNixd));
    assert!(matches!(plan.last(), Some(PlannedAction::RemoveScratchDirectory)));
    assert!(matches!(macos(false, true).plan(&facts), Err(PlannerError::Ec2InstanceStoreRequiresDeterminateNix)));
    assert_eq!(macos(false, false).root_disk_source(), RootDiskSource::DiskOfRoot);
    assert_eq!(macos(true, true).root_disk_source(), RootDiskSource::LargestInstanceStoreDisk);
    let probes = macos(true, false).encryption_probes();
    assert!(!probes.existing_volume && !probes.fdesetup);
}

#[test]
fn macos_host_checks() {
    assert!(check_nix_darwin_not_installed(false, false, false).is_ok());
    assert!(matches!(
        check_nix_darwin_not_installed(false, true, false),
        Err(PlannerError::Macos(MacosError::UninstallNixDarwin))
    ));
    assert!(check_not_running_in_rosetta(&ProcTranslated::NotFound).is_ok());
    assert!(check_not_running_in_rosetta(&ProcTranslated::Value("0".to_string())).is_ok());
    assert!(matches!(check_not_running_in_rosetta(&ProcTranslated::Value("1".to_string())), Err(PlannerError::RosettaDetected)));
    assert!(matches!(check_not_running_in_rosetta(&ProcTranslated::Unreadable), Err(PlannerError::Sysctl)));
}

fn linux_facts() -> LinuxHostFacts {
    LinuxHostFacts {
        etc_nixos_exists: false,
        nix_env_runs: false,
        wsl_distro_name_set: false,
        wsl_interop_set: false,
        run_systemd_system_exists: true,
        getenforce: GetenforceOutput::NotRun,
    }
}

#[test]
fn steam_deck_plans() {
    let deck = SteamDeck { persistence: "/home/nix".to_string(), settings: settings(false) };
    assert!(!detect_requires_bind_mount(&Some("What=/home/.steamos/offload/nix\n".to_string())));
    assert!(detect_requires_bind_mount(&None));
    let facts = SteamDeckFacts { steamos_nix_mount_unit: None, nix_mount_status: NixMountStatus::NotRun };
    let plan = deck.plan(&facts).unwrap();
    assert!(matches!(plan[0], PlannedAction::SystemctlDaemonReload));
    assert!(matches!(&plan[1], PlannedAction::CreateDirectory { path, .. } if path == "/home/nix"));
    let unit = bind_mount_unit(&"/home/nix".to_string());
    assert!(unit.starts_with("[Unit]\nDescription=Mount `/home/nix` on `/nix`\n"));
    assert!(unit.contains("What=/home/nix\nWhere=/nix\n"));
}

#[test]
fn ostree_plans() {
    let o = Ostree { persistence: "/var/home/nix".to_string(), settings: settings(false) };
    let with = o.plan(true);
    let without = o.plan(false);
    assert!(with.len() > without.len());
    assert!(with.iter().any(|a| matches!(a, PlannedAction::ProvisionSelinux { .. })));
    assert!(o.pre_install_check(&linux_facts()).is_ok());
    let mut f = linux_facts();
    f.run_systemd_system_exists = false;
    assert!(o.pre_uninstall_check(&f).is_err());
}

#[test]
fn planner_names() {
    let o = Ostree { persistence: "/var/home/nix".to_string(), settings: settings(false) };
    assert_eq!(BuiltinPlanner::Ostree(o).typetag_name(), "ostree");
    assert_eq!(BuiltinPlanner::Macos(macos(false, false)).typetag_name(), "macos");
}

#[test]
fn distributions() {
    let builtin = BuiltinTarballs {
        nix_tarball: UrlOrPath::Url("https://example.com/nix.tar.xz".to_string()),
        determinate_nix_tarball_path: "/build/determinate.tar.zst".to_string(),
    };
    assert!(Distribution::Nix.is_upstream());
    assert!(!Distribution::Nix.is_determinate());
    assert!(matches!(Distribution::DeterminateNix.tarball_location(&builtin), TarballLocation::InMemory(p) if p == "/build/determinate.tar.zst"));
    assert!(matches!(Distribution::Nix.tarball_location(&builtin), TarballLocation::UrlOrPath(UrlOrPath::Url(u)) if u == "https://example.com/nix.tar.xz"));
    let pref = Some(UrlOrPath::Path("/tmp/nix.tar.xz".to_string()));
    assert!(matches!(Distribution::DeterminateNix.tarball_location_or(&pref, &builtin), TarballLocation::UrlOrPath(UrlOrPath::Path(p)) if p == "/tmp/nix.tar.xz"));
}

#[test]
fn darwin_disks() {
    let list = DiskUtilList {
        all_disks_and_partitions: vec![
            DiskUtilListDisk { os_internal: true, device_identifier: "disk0".to_string(), size_bytes: 900 },
            DiskUtilListDisk { os_internal: false, device_identifier: "disk4".to_string(), size_bytes: 500 },
            DiskUtilListDisk { os_internal: false, device_identifier: "disk5".to_string(), size_bytes: 500 },
            DiskUtilListDisk { os_internal: false, device_identifier: "disk6".to_string(), size_bytes: 100 },
        ],
    };
    assert_eq!(list.largest_external_disk().as_deref(), Some("disk5"));
    assert_eq!(DiskUtilList { all_disks_and_partitions: vec![] }.largest_external_disk(), None);
    let info = DiskUtilInfoOutput { parent_whole_disk: "disk1".to_string(), global_permissions_enabled: false, mount_point: Some(String::new()) };
    assert!(!info.is_mounted());
}

#[test]
fn shells() {
    assert_eq!(Shell::all(), vec![Shell::Sh, Shell::Bash, Shell::Fish, Shell::Zsh]);
    assert_eq!(Shell::Zsh.executable(), "zsh");
}

fn deny_profile(user: &str) -> (Target, Vec<Profile>) {
    (
        Target::User(user.to_string()),
        vec![Profile {
            profile_description: Some("".into()),
            profile_display_name: Some("Don't allow mounting internal devices".into()),
            profile_identifier: Some("MyProfile.6F6670A3-65AC-4EA4-8665-91F8FCE289AB".into()),
            profile_install_date: Some("2024-04-22 14:12:42 +0000".into()),
            profile_uuid: Some("6F6670A3-65AC-4EA4-8665-91F8FCE289AB".into()),
            profile_version: Some(1),
            profile_items: vec![ProfileItem::SystemUIServer(SystemUIServer {
                mount_controls: Some(MountControls { harddisk_internal: vec![HardDiskInternalOpts::Deny] }),
            })],
        }],
    )
}

#[test]
fn macos_pre_install_checks_profiles_then_rosetta() {
    let m = macos(false, false);
    assert!(m.pre_install_check(&None, &ProcTranslated::NotFound).is_ok());
    assert!(matches!(m.pre_install_check(&None, &ProcTranslated::Value("1".to_string())), Err(PlannerError::RosettaDetected)));
    assert!(m.pre_install_check(&Some(vec![]), &ProcTranslated::Value("0".to_string())).is_ok());
    match m.pre_install_check(&Some(vec![deny_profile("foo")]), &ProcTranslated::Value("1".to_string())) {
        Err(PlannerError::Macos(MacosError::BlockedBySystemUIServerPolicy(msg))) => {
            assert!(msg.starts_with(
                "The following macOS configuration profile includes a 'Restrictions - Media' policy, which interferes with the Nix Store volume:\n\n"
            ));
            assert!(msg.ends_with("\n\nSee https://determinate.systems/solutions/macos-internal-disk-policy"));
        },
        other => panic!("the profile check comes first: {other:?}"),
    }
}

#[test]
fn macos_pre_uninstall_checks_nix_darwin() {
    let m = macos(false, false);
    assert!(m.pre_uninstall_check(false, false, false).is_ok());
    assert!(matches!(m.pre_uninstall_check(true, false, false), Err(PlannerError::Macos(MacosError::UninstallNixDarwin))));
    assert!(matches!(m.pre_uninstall_check(false, false, true), Err(PlannerError::Macos(MacosError::UninstallNixDarwin))));
}
