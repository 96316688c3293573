use nix_installer::cli::subcommand::make_determinate::{
    determinate_steps_for, keep_originals, make_determinate_plan_for, platform_supported, Prepare, PrepareKind,
};
use nix_installer::cli::subcommand::plan::plan_file_text;
use nix_installer::cli::subcommand::repair::{
    gid_from_entries, plan_sequoia, repair_summary, sequoia_preflight, users_and_groups, Repair, RepairKind,
    ReceiptActionError, SequoiaPlan, SequoiaRefusal,
};
use nix_installer::cli::subcommand::split_receipt::{backup_location, split_done_message, split_summary};
use nix_installer::json::Json;
use nix_installer::planner::{HostOs, InitSystem, PlannedAction};

fn strings(v: &[&str]) -> Vec<String> {
    v.iter().map(|s| s.to_string()).collect()
}

fn sequoia(prefix: &str) -> RepairKind {
    RepairKind::Sequoia {
        nix_build_user_prefix: prefix.to_string(),
        nix_build_user_count: 32,
        nix_build_group_name: "nixbld".to_string(),
        move_existing_users: false,
    }
}

#[test]
fn repair_defaults_to_hooks() {
    let r = Repair { no_confirm: false, command: None };
    assert!(matches!(r.command(), RepairKind::Hooks));
    let r = Repair { no_confirm: false, command: Some(sequoia("_nixbld")) };
    assert!(matches!(r.command(), RepairKind::Sequoia { .. }));
}

#[test]
fn repair_summaries() {
    let (ask, text) = repair_summary(&RepairKind::Hooks, false, 351, false);
    assert!(!ask);
    assert_eq!(text, "Will ensure the Nix shell profiles are still being sourced");
    let (ask, text) = repair_summary(&sequoia("_nixbld"), false, 351, true);
    assert!(ask);
    assert_eq!(text, "Will move the _nixbld users to the Sequoia-compatible 351+ UID range and WILL update the receipt");
    let (ask, text) = repair_summary(&sequoia("_nixbld"), true, 351, false);
    assert!(!ask);
    assert!(text.ends_with("WILL NOT update the receipt"));
}

#[test]
fn sequoia_refusals() {
    assert_eq!(sequoia_preflight(false, true, true), Err(SequoiaRefusal::NotMacos));
    assert_eq!(sequoia_preflight(true, false, false), Err(SequoiaRefusal::NotInteractive));
    assert!(sequoia_preflight(true, false, true).is_ok());
    assert!(sequoia_preflight(true, true, false).is_ok());
    assert_eq!(SequoiaRefusal::NotMacos.message(), "The `sequoia` repair command is only available on macOS");
}

#[test]
fn sequoia_plans() {
    let members = strings(&["_nixbld1", "_nixbld2", "_nixbld3"]);
    let group = "nixbld".to_string();
    assert!(matches!(
        plan_sequoia(&members, &vec![true, true, true], false, 351, &group, None, 350),
        SequoiaPlan::NothingToDo
    ));
    match plan_sequoia(&members, &vec![true, false, true], false, 351, &group, None, 350) {
        SequoiaPlan::Migrate { temporary_ids, create } => {
            assert_eq!(temporary_ids, vec![("_nixbld1".to_string(), 31001), ("_nixbld3".to_string(), 31003)]);
            assert_eq!(create.len(), 3);
            assert_eq!(create[1].name, "_nixbld2");
            assert_eq!(create[1].uid, 353);
            assert_eq!(create[1].gid, 350);
            assert_eq!(create[2].comment, "Nix build user 3");
            assert_eq!(create[0].groupname, "nixbld");
        },
        _ => panic!("expected a migration"),
    }
    match plan_sequoia(&members, &vec![true, true, true], true, 351, &group, Some(30000), 350) {
        SequoiaPlan::Migrate { temporary_ids, create } => {
            assert_eq!(temporary_ids.len(), 3);
            assert!(create.iter().all(|u| u.gid == 30000));
        },
        _ => panic!("moving was asked for"),
    }
}

#[test]
fn gid_entries() {
    assert_eq!(gid_from_entries(&strings(&["350", "x"])), Some(350));
    assert_eq!(gid_from_entries(&strings(&["+7"])), Some(7));
    assert_eq!(gid_from_entries(&strings(&["-7"])), None);
    assert_eq!(gid_from_entries(&strings(&["4294967296"])), None);
    assert_eq!(gid_from_entries(&strings(&["4294967295"])), Some(4294967295));
    assert_eq!(gid_from_entries(&strings(&[""])), None);
    assert_eq!(gid_from_entries(&vec![]), None);
}

fn o(entries: Vec<(&str, Json)>) -> Json {
    Json::Object(entries.into_iter().map(|(k, v)| (k.to_string(), v)).collect())
}

#[test]
fn users_and_groups_from_receipt() {
    let prefix = "_nixbld".to_string();
    let group = "nixbld".to_string();
    let u = users_and_groups(None, &prefix, 32, &group).unwrap();
    assert!(u.receipt_index.is_none());
    assert_eq!(u.user_count, 32);
    let good = o(vec![(
        "action",
        o(vec![
            ("action_name", Json::String("create_users_and_groups".into())),
            ("nix_build_user_prefix", Json::String("_b".into())),
            ("nix_build_user_count", Json::Number("4".into())),
            ("nix_build_group_id", Json::Number("30000".into())),
            ("nix_build_group_name", Json::String("g".into())),
        ]),
    )]);
    let other = o(vec![("action", o(vec![("action_name", Json::String("provision_nix".into()))]))]);
    let actions = vec![other, good];
    let u = users_and_groups(Some(&actions), &prefix, 32, &group).unwrap();
    assert_eq!(u.receipt_index, Some(1));
    assert_eq!(u.user_prefix, "_b");
    assert_eq!(u.user_count, 4);
    assert_eq!(u.group_gid, Some(30000));
    assert_eq!(u.group_name, "g");
    let bad = vec![o(vec![("action", o(vec![("action_name", Json::String("create_users_and_groups".into()))]))])];
    assert_eq!(users_and_groups(Some(&bad), &prefix, 32, &group).unwrap_err(), ReceiptActionError::Roundtrip);
}

#[test]
fn determinate_plans() {
    let steps = determinate_steps_for(HostOs::Linux, true);
    assert_eq!(steps.len(), 3);
    assert!(matches!(&steps[0], PlannedAction::ProvisionSelinux { policy_path } if policy_path == "/usr/share/selinux/packages/nix.pp"));
    assert!(matches!(steps[2], PlannedAction::ConfigureDeterminateNixdInitService { init: InitSystem::Systemd, start_daemon: true }));
    let steps = determinate_steps_for(HostOs::Macos, true);
    assert_eq!(steps.len(), 2);
    assert!(matches!(steps[1], PlannedAction::ConfigureDeterminateNixdInitService { init: InitSystem::Launchd, .. }));
    let plan = make_determinate_plan_for(HostOs::Linux, false);
    assert!(matches!(&plan[0], PlannedAction::CosmeticRevertNote { note } if note == "Execute the original Nix uninstaller"));
    assert_eq!(plan.len(), 3);
    assert!(platform_supported(HostOs::Linux));
    assert!(!platform_supported(HostOs::Other));
    let p = Prepare { no_confirm: false, command: None };
    assert_eq!(p.command(), PrepareKind::Determinate);
    let k = keep_originals(true, false);
    assert!(k.move_receipt && !k.move_installer);
}

#[test]
fn split_receipt_messages() {
    assert_eq!(backup_location(1700000000123), "/nix/.original-receipt.1700000000123.json");
    let s = split_summary("/nix/receipt.json", "/p1", "/p2", "/b");
    assert!(s.starts_with("\nThis will split your existing receipt at \x1b[1m/nix/receipt.json\x1b[0m into two phases"));
    assert!(s.contains("everything \x1b[3mexcept\x1b[0m for the root"));
    assert_eq!(
        split_done_message("/p1", "/p2"),
        "\x1b[1m\x1b[32mPhase 1 and 2 uninstall receipts successfully written:\nPhase 1: /p1\nPhase 2: /p2\nYou can now uninstall starting with:\n/nix/nix-installer uninstall /p1\x1b[39m\x1b[0m"
    );
}

#[test]
fn plan_output() {
    assert_eq!(plan_file_text("{}"), "{}\n");
}
