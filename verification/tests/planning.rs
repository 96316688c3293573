use nix_installer::cli::subcommand::install::RECEIPT_LOCATION;
use nix_installer::diagnostics::{diagnostic_with_context, Action, ErrorDiagnostic, Report, Status};
use nix_installer::cli::subcommand::uninstall::{receipt_version_step, ReceiptVersionStep};
use nix_installer::export::{calculate_environment, EnvironmentInputs, Error as ExportError, Export, ExportFormat, ExportOutcome};
use nix_installer::feedback::{dev_null, Client, FeedbackWorker, Worker};
use nix_installer::nixos::NixOs;
use nix_installer::plan::{describe_plan, ensure_version, version_error_message, ActionDescription, PlanRun, RunStep, VersionCheckError};
use nix_installer::planner::legacy::{DarwinMulti, DarwinMultiUser, LegacyStep, LinuxMulti, LinuxMultiError, LinuxMultiUser};
use nix_installer::planner::linux::{GetenforceOutput, InitSettings, Linux, LinuxHostFacts};
use nix_installer::planner::{
    configured_settings, default_planner_kind, planner_facts, CommonSettings, HostArch, HostOs, InitSystem, PlannedAction,
    PlannerError, PlannerKind,
};
use nix_installer::json::Json;
use nix_installer::self_test::{collect_failures, discover, self_test_command, self_test_outcome, system_name_of, SelfTestError, Shell, ShellRun};

fn settings() -> CommonSettings {
    CommonSettings { determinate_nix: false, modify_profile: true, force: false, nix_enterprise: false, ssl_cert_file: None }
}

fn inputs(home: Option<&str>, path: Option<&str>) -> EnvironmentInputs {
    EnvironmentInputs {
        etc_profile_nix_sourced: None,
        home: home.map(|s| s.to_string()),
        xdg_state_home: None,
        xdg_data_dirs: None,
        nix_ssl_cert_file: None,
        path: path.map(|s| s.to_string()),
        manpath: None,
    }
}

#[test]
fn exported_path_puts_nix_first() {
    let env = calculate_environment(&inputs(Some("/home/u"), Some("/usr/bin:/bin")), false, &vec![]).unwrap();
    let path = env.iter().find(|(k, _)| k == "PATH").unwrap();
    assert_eq!(path.1, "/home/u/.nix-profile/bin:/nix/var/nix/profiles/default/bin:/usr/bin:/bin");
    let parts: Vec<&str> = path.1.split(':').collect();
    assert_eq!(&parts[2..], &["/usr/bin", "/bin"]);
}

#[test]
fn export_refusals() {
    assert!(matches!(calculate_environment(&inputs(None, None), false, &vec![]), Err(ExportError::HomeNotSet)));
    let mut i = inputs(Some("/h"), None);
    i.etc_profile_nix_sourced = Some("1".to_string());
    assert!(matches!(calculate_environment(&i, false, &vec![]), Err(ExportError::AlreadyRun)));
    let rendered = Export { format: ExportFormat::NullSeparated }.render(&vec![("A".to_string(), "b".to_string())]);
    assert_eq!(rendered.as_deref(), Some("A\0b\0"));
    let refused = Export { format: ExportFormat::SpaceNewlineSeparated }.render(&vec![("A".to_string(), "b\n".to_string())]);
    assert!(refused.is_none());
}

fn facts() -> LinuxHostFacts {
    LinuxHostFacts {
        etc_nixos_exists: false,
        nix_env_runs: false,
        wsl_distro_name_set: false,
        wsl_interop_set: false,
        run_systemd_system_exists: true,
        getenforce: GetenforceOutput::NotRun,
    }
}

#[test]
fn linux_planner() {
    let planner = Linux { settings: settings(), init: InitSettings { init: InitSystem::Systemd, start_daemon: true } };
    let plan = planner.plan(&facts()).unwrap();
    assert_eq!(plan.len(), 5);
    assert!(matches!(&plan[0], PlannedAction::CreateDirectory { path, mode: 0o755, force_prune_on_revert: true } if path == "/nix"));
    assert!(matches!(plan[4], PlannedAction::RemoveScratchDirectory));
    let mut f = facts();
    f.etc_nixos_exists = true;
    assert!(matches!(planner.plan(&f).unwrap_err(), PlannerError::NixOs));
    let mut f = facts();
    f.getenforce = GetenforceOutput::Printed("Enforcing".to_string());
    assert!(planner.plan(&f).is_err());
}

#[test]
fn planner_kinds() {
    assert_eq!(default_planner_kind(HostArch::X86_64, HostOs::Linux, true, true), Some(PlannerKind::SteamDeck));
    assert_eq!(default_planner_kind(HostArch::X86_64, HostOs::Linux, false, true), Some(PlannerKind::Ostree));
    assert_eq!(default_planner_kind(HostArch::X86_64, HostOs::Linux, false, false), Some(PlannerKind::Linux));
    assert_eq!(default_planner_kind(HostArch::Aarch64, HostOs::Linux, true, true), Some(PlannerKind::Linux));
    assert_eq!(default_planner_kind(HostArch::Aarch64, HostOs::Macos, false, false), Some(PlannerKind::Macos));
    assert_eq!(default_planner_kind(HostArch::X86_32, HostOs::Macos, false, false), None);
    assert_eq!(default_planner_kind(HostArch::Other, HostOs::Linux, false, false), None);
}

fn o(entries: Vec<(&str, Json)>) -> Vec<(String, Json)> {
    entries.into_iter().map(|(k, v)| (k.to_string(), v)).collect()
}

#[test]
fn configured_settings_are_those_that_differ() {
    let defaults = o(vec![("force", Json::Bool(false)), ("label", Json::String("Nix Store".into()))]);
    let given = o(vec![
        ("force", Json::Bool(true)),
        ("label", Json::String("Nix Store".into())),
        ("determinate_nix", Json::Bool(true)),
    ]);
    let c = configured_settings(&given, &defaults);
    assert_eq!(c, o(vec![("force", Json::Bool(true)), ("determinate_nix", Json::Bool(true))]));
    let f = planner_facts("linux", &c);
    assert_eq!(f.planner, "linux");
    assert_eq!(f.configured_settings, vec!["force".to_string(), "determinate_nix".to_string()]);
    assert_eq!(f.install_determinate_nix, Json::Bool(true));
    let f = planner_facts("linux", &vec![]);
    assert_eq!(f.install_determinate_nix, Json::Bool(false));
}

#[test]
fn legacy_planners() {
    let d = DarwinMulti {
        settings: settings(),
        volume_encrypt: false,
        case_sensitive: true,
        volume_label: "Nix Store".to_string(),
        root_disk: None,
    };
    let plan = d.plan(Some("disk1".to_string()), Some(1));
    assert!(matches!(&plan[0], LegacyStep::CreateApfsVolume { disk, case_sensitive: false, encrypt: true, .. } if disk == "disk1"));
    let plan = d.plan(Some("disk1".to_string()), Some(0));
    assert!(matches!(&plan[0], LegacyStep::CreateApfsVolume { encrypt: false, .. }));
    assert!(matches!(&plan[3], LegacyStep::KickstartLaunchctlService { service } if service == "system/org.nixos.nix-daemon"));
    let l = LinuxMulti { settings: settings() };
    assert_eq!(l.plan(true, false).unwrap_err(), LinuxMultiError::NixOs);
    assert_eq!(l.plan(false, true).unwrap_err(), LinuxMultiError::NixExists);
    assert_eq!(l.plan(false, false).unwrap().len(), 4);
    let plan = LinuxMultiUser::plan();
    assert!(matches!(&plan[2], LegacyStep::StartSystemdUnit { unit } if unit == "nix-daemon.socket"));
    assert!(DarwinMultiUser::try_plan("not xml").is_none());
    let xml = "<plist><dict><key>ParentWholeDisk</key><string>disk0</string></dict></plist>";
    // The query selects text nodes, which is not a string value.
    assert!(DarwinMultiUser::root_disk(xml).is_none());
    let plan = DarwinMultiUser::plan_on("disk0".to_string());
    assert!(matches!(&plan[0], LegacyStep::CreateApfsVolume { name, encrypt: false, .. } if name == "Nix Store"));
}

#[test]
fn plan_descriptions() {
    let d = |t: &str, e: &[&str]| ActionDescription { description: t.to_string(), explanation: e.iter().map(|s| s.to_string()).collect() };
    let per_action = vec![vec![d("first", &["why"])], vec![d("second", &[]), d("third", &[])]];
    let settings = vec![("a".to_string(), "1".to_string())];
    let text = describe_plan("Nix install plan (v0.1.0)", "linux", &settings, &per_action, false, false);
    assert_eq!(
        text,
        "Nix install plan (v0.1.0)\n\nPlanner: linux\n\nPlanner settings:\n\n* \x1b[37m\x1b[1ma\x1b[0m\x1b[39m: 1\n\nThe following actions will be taken (`--explain` for more context):\n\n* first\n* second\n* third\n"
    );
    let text = describe_plan("Nix uninstall plan", "linux", &settings, &per_action, true, true);
    assert!(text.ends_with(":\n\n* second\n* third\n* first\n  why\n"));
}

#[test]
fn plan_runs_in_order() {
    let mut run = PlanRun::new(3, true);
    let mut order = vec![];
    loop {
        match run.next(false) {
            RunStep::Act(i) => {
                order.push(i);
                run.action_done();
            },
            RunStep::Finished => break,
            RunStep::Cancelled => unreachable!(),
        }
    }
    assert_eq!(order, vec![2, 1, 0]);
    let run = PlanRun::new(3, false);
    assert_eq!(run.next(false), RunStep::Act(0));
    assert_eq!(run.next(true), RunStep::Cancelled);
    assert_eq!(PlanRun::new(0, false).next(true), RunStep::Finished);
}

#[test]
fn version_checks() {
    assert!(ensure_version("0.1.0", "0.1.5").is_ok());
    assert_eq!(ensure_version("9999999999999.9999999999.99999999", "0.1.0"), Err(VersionCheckError::Incompatible));
    assert_eq!(ensure_version("0.1.0", "0.2.0"), Err(VersionCheckError::Incompatible));
    assert!(matches!(ensure_version("not a version", "0.1.0"), Err(VersionCheckError::InvalidVersion(_))));
    assert!(matches!(ensure_version("1.0", "1.0.5"), Err(VersionCheckError::InvalidVersion(_))));
    assert!(matches!(ensure_version(">=1", "1.0.5"), Err(VersionCheckError::InvalidVersion(_))));
    assert_eq!(ensure_version("0.1.0", "x"), Err(VersionCheckError::InvalidCurrent));
    assert_eq!(
        version_error_message(VersionCheckError::Incompatible, "1.0.0", "0.1.0"),
        "This version of Harmonic (0.1.0) is not compatible with this plan's version (1.0.0), please use a compatible version (according to Semantic Versioning)"
    );
}

#[test]
fn self_test_commands() {
    assert_eq!(Shell::Bash.command_flag(), "-lc");
    assert_eq!(Shell::Zsh.command_flag(), "-ic");
    assert_eq!(system_name_of(HostArch::X86_64, HostOs::Linux), Some("x86_64-linux"));
    assert_eq!(system_name_of(HostArch::X86_64, HostOs::Macos), None);
    assert_eq!(
        self_test_command("bash", 42, "x86_64-linux"),
        "exec nix build --option substitute false --option post-build-hook '' --no-link --expr 'derivation { name = \"self-test-bash-42\"; system = \"x86_64-linux\"; builder = \"/bin/sh\"; args = [\"-c\" \"echo hello > \\$out\"]; }'"
    );
    assert_eq!(discover(&vec![true, false, true, false]), vec![Shell::Sh, Shell::Fish]);
    let ok = self_test_outcome(Shell::Sh, "c".to_string(), ShellRun::Exited { success: true, stderr: String::new() });
    assert!(ok.is_ok());
    let err = self_test_outcome(Shell::Fish, "c".to_string(), ShellRun::TimedOut).unwrap_err();
    assert_eq!(err.diagnostic(), "TimedOut(\"fish\")");
    let err = self_test_outcome(Shell::Zsh, "c".to_string(), ShellRun::Exited { success: false, stderr: "e".to_string() }).unwrap_err();
    assert!(matches!(err, SelfTestError::ShellFailed { .. }));
    assert_eq!(SelfTestError::SystemTime.diagnostic(), "SystemTime()");
    let all = collect_failures(vec![Ok(()), Err(SelfTestError::SystemTime), Ok(())]);
    assert_eq!(all.unwrap_err().len(), 1);
    assert!(collect_failures(vec![Ok(())]).is_ok());
}

#[test]
fn diagnostics_reports() {
    let r = Report::new(Action::Install, Status::Failure);
    assert!(r.failure_chain.is_none());
    let r = r.set_failure_chain("Planner(\"NixOs\")".to_string(), vec!["NixOs".to_string()]);
    assert_eq!(r.failure_chain.unwrap(), vec!["Planner(\"NixOs\")".to_string(), "NixOs".to_string()]);
    assert_eq!(diagnostic_with_context("Action", &vec!["a".to_string(), "b".to_string()]), "Action(\"a\", \"b\")");
    assert_eq!(PlannerError::NixExists.diagnostic(), "NixExists");
    assert_eq!(PlannerError::Wsl1.diagnostic(), "Wsl1");
}

#[test]
fn feedback_goes_nowhere() {
    let (client, worker) = dev_null();
    assert!(matches!(client, Client::DevNull(_)));
    assert!(matches!(worker, Worker::DevNull(_)));
    assert!(worker.submit().is_ok());
}

#[test]
fn small_items() {
    assert_eq!(RECEIPT_LOCATION, "/nix/receipt.json");
    assert_eq!(NixOs::new("/dev/sda".to_string()).target_device, "/dev/sda");
}

#[test]
fn ensure_version_allows_compatible() {
    assert_eq!(ensure_version("0.1.0", "0.1.0"), Ok(()));
}

#[test]
fn ensure_version_denies_incompatible() {
    assert_eq!(ensure_version("9999999999999.9999999999.99999999", "0.1.0"), Err(VersionCheckError::Incompatible));
}

#[test]
fn export_outcomes() {
    let e = Export { format: ExportFormat::SpaceNewlineSeparated };
    assert!(matches!(e.outcome(Err(ExportError::AlreadyRun)), ExportOutcome::AlreadyRun));
    assert!(matches!(e.outcome(Err(ExportError::HomeNotSet)), ExportOutcome::Failed(ExportError::HomeNotSet)));
    assert!(matches!(e.outcome(Ok(vec![("A".to_string(), "b\n".to_string())])), ExportOutcome::Refused));
    match e.outcome(Ok(vec![("A".to_string(), "b".to_string())])) {
        ExportOutcome::Print(t) => assert_eq!(t, "A b\n"),
        other => panic!("printed: {other:?}"),
    }
}

#[test]
fn uninstall_receipt_version_steps() {
    assert!(matches!(receipt_version_step(true, "0.1.0", "0.1.0"), ReceiptVersionStep::Proceed));
    match receipt_version_step(false, "0.1.0", "0.1.0") {
        ReceiptVersionStep::Unreadable(m) => {
            assert!(m.starts_with("Unable to parse plan, this plan was created by `nix-installer` version `0.1.0`"))
        },
        other => panic!("unreadable: {other:?}"),
    }
    assert!(matches!(receipt_version_step(false, "not-a-version", "0.1.0"), ReceiptVersionStep::ParseError));
    match receipt_version_step(true, "0.2.0", "0.1.0") {
        ReceiptVersionStep::Incompatible(m) => {
            assert!(m.starts_with("This version of Harmonic (0.1.0) is not compatible with this plan's version (0.2.0)"));
            assert!(m.contains("Found existing plan in `/nix/receipt.json` which was created by a version incompatible `nix-installer`."));
        },
        other => panic!("incompatible: {other:?}"),
    }
}
