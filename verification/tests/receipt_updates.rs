use nix_installer::cli::subcommand::install::existing_receipt_check;
use nix_installer::cli::subcommand::make_determinate::{prepare_finish, PrepareFinish};
use nix_installer::cli::subcommand::repair::{
    pre_repair_backup_location, repair_finish, repaired_users_and_groups_entry, BuildUser, RepairFinish,
};
use nix_installer::error::{ActionFailure, NixInstallerError};
use nix_installer::json::{members_equal, Json};
use nix_installer::plan::{run_result, stop_of, writes_receipt, PlanRun, RunEnd, RunStep};
use nix_installer::planner::{OstreeError, PlannerError, PlannerKind};
use nix_installer::receipt::{
    append_completed_actions, completed_entry, replace_receipt_action, typed_split_receipt, OpaqueReceipt,
    ReceiptVersion,
};

fn s(t: &str) -> Json {
    Json::String(t.to_string())
}

fn n(v: u32) -> Json {
    Json::Number(v.to_string())
}

fn obj(entries: Vec<(&str, Json)>) -> Json {
    Json::Object(entries.into_iter().map(|(k, v)| (k.to_string(), v)).collect())
}

fn fields(entries: Vec<(&str, Json)>) -> Vec<(String, Json)> {
    entries.into_iter().map(|(k, v)| (k.to_string(), v)).collect()
}

fn entry(name: &str, state: &str) -> Json {
    obj(vec![("action", obj(vec![("action_name", s(name))])), ("state", s(state))])
}

fn receipt(actions: Vec<Json>) -> OpaqueReceipt {
    OpaqueReceipt {
        version: ReceiptVersion { major: 0, minor: 30, patch: 0, pre_release: false },
        actions,
        planner: obj(vec![("planner", s("linux"))]),
        diagnostic_data: Some(obj(vec![("attribution", s("x"))])),
    }
}

fn failure(d: &str) -> ActionFailure {
    ActionFailure { expected: false, diagnostic: d.to_string(), message: "failed".to_string(), source: None }
}

#[test]
fn ostree_planner_errors_are_not_expected() {
    assert!(!PlannerError::Ostree(OstreeError::SystemdNotActive).expected());
    assert!(!NixInstallerError::Planner(PlannerError::Ostree(OstreeError::Wsl2SystemdNotActive)).expected());
}

#[test]
fn typed_split_receipt_keeps_version_and_planner_only() {
    let provision = obj(vec![("action", obj(vec![("action_name", s("provision_nix"))])), ("state", s("Completed"))]);
    let r = receipt(vec![entry("create_users_and_groups", "Completed"), provision.clone()]);
    let (p1, p2) = typed_split_receipt(&r).unwrap();
    assert_eq!(p1.version.minor, 30);
    assert_eq!(p2.version.minor, 30);
    assert_eq!(p1.planner, r.planner);
    assert_eq!(p2.planner, r.planner);
    assert!(p1.diagnostic_data.is_none());
    assert!(p2.diagnostic_data.is_none());
    assert_eq!(p2.actions, vec![provision]);
    assert_eq!(p1.actions.len(), 2);
}

#[test]
fn a_run_stops_at_the_first_failure() {
    let mut run = PlanRun::new(3, false);
    assert_eq!(run.next(false), RunStep::Act(0));
    assert!(run.record(Ok(())).is_none());
    assert_eq!(run.next(false), RunStep::Act(1));
    match run.record(Err(failure("CreateUser"))) {
        Some(RunEnd::Failed { position, failure }) => {
            assert_eq!(position, 1);
            assert_eq!(failure.diagnostic, "CreateUser");
        },
        other => panic!("the run ends at the failure: {other:?}"),
    }
    let mut undo = PlanRun::new(3, true);
    assert_eq!(undo.next(false), RunStep::Act(2));
    match undo.record(Err(failure("x"))) {
        Some(RunEnd::Failed { position, .. }) => assert_eq!(position, 2),
        other => panic!("the uninstall ends at the failed revert: {other:?}"),
    }
}

#[test]
fn which_runs_write_the_receipt() {
    assert!(writes_receipt(&RunEnd::Finished, false));
    assert!(!writes_receipt(&RunEnd::Finished, true));
    assert!(writes_receipt(&RunEnd::Cancelled, true));
    assert!(writes_receipt(&RunEnd::Failed { position: 0, failure: failure("x") }, true));
    assert!(matches!(stop_of(RunStep::Cancelled), Some(RunEnd::Cancelled)));
    assert!(stop_of(RunStep::Act(0)).is_none());
    assert!(run_result(RunEnd::Finished).is_ok());
    assert!(matches!(run_result(RunEnd::Cancelled), Err(NixInstallerError::Cancelled)));
    match run_result(RunEnd::Failed { position: 3, failure: failure("y") }) {
        Err(NixInstallerError::Action(f)) => assert_eq!(f.diagnostic, "y"),
        other => panic!("the failed action's error: {other:?}"),
    }
}

#[test]
fn repair_rewrites_only_the_users_and_groups_entry() {
    assert_eq!(pre_repair_backup_location(1715000000123), "/nix/receipt.pre-repair.1715000000123.json");
    let old_action = fields(vec![
        ("action_name", s("create_users_and_groups")),
        ("nix_build_user_count", n(2)),
        ("nix_build_group_name", s("nixbld")),
        ("nix_build_group_id", n(350)),
        ("nix_build_user_prefix", s("_nixbld")),
        ("nix_build_user_id_base", n(300)),
        ("create_group", entry("create_group", "Completed")),
    ]);
    let users = vec![BuildUser {
        name: "_nixbld1".to_string(),
        uid: 352,
        groupname: "nixbld".to_string(),
        gid: 350,
        comment: "Nix build user 1".to_string(),
    }];
    let e = repaired_users_and_groups_entry(&old_action, &"nixbld".to_string(), 350, 1, &"_nixbld".to_string(), 351, &users);
    let expected_action = obj(vec![
        ("action_name", s("create_users_and_groups")),
        ("nix_build_user_count", n(1)),
        ("nix_build_group_name", s("nixbld")),
        ("nix_build_group_id", n(350)),
        ("nix_build_user_prefix", s("_nixbld")),
        ("nix_build_user_id_base", n(351)),
        ("create_group", entry("create_group", "Completed")),
        (
            "create_users",
            Json::Array(vec![completed_entry(obj(vec![
                ("action_name", s("create_user")),
                ("name", s("_nixbld1")),
                ("uid", n(352)),
                ("groupname", s("nixbld")),
                ("gid", n(350)),
                ("comment", s("Nix build user 1")),
            ]))]),
        ),
        (
            "add_users_to_groups",
            Json::Array(vec![completed_entry(obj(vec![
                ("action_name", s("add_user_to_group")),
                ("name", s("_nixbld1")),
                ("uid", n(352)),
                ("groupname", s("nixbld")),
                ("gid", n(350)),
            ]))]),
        ),
    ]);
    assert_eq!(e, obj(vec![("action", expected_action), ("state", s("Completed"))]));

    let r = receipt(vec![entry("a", "Completed"), entry("create_users_and_groups", "Completed"), entry("b", "Completed")]);
    let updated = replace_receipt_action(&r, 1, e.clone());
    assert_eq!(updated.actions, vec![entry("a", "Completed"), e, entry("b", "Completed")]);
    assert_eq!(updated.planner, r.planner);
    assert_eq!(updated.diagnostic_data, r.diagnostic_data);

    assert_eq!(repair_finish(false, true, 5), RepairFinish::Failure);
    assert_eq!(repair_finish(true, false, 5), RepairFinish::Success);
    assert_eq!(repair_finish(true, true, 5), RepairFinish::UpdateReceipt { backup: "/nix/receipt.pre-repair.5.json".to_string() });
}

#[test]
fn prepare_adds_its_steps_completed_after_the_receipts_own() {
    let r = receipt(vec![entry("a", "Completed")]);
    let added = vec![obj(vec![("action_name", s("provision_determinate_nixd"))])];
    let updated = append_completed_actions(&r, &added);
    assert_eq!(
        updated.actions,
        vec![
            entry("a", "Completed"),
            obj(vec![("action", obj(vec![("action_name", s("provision_determinate_nixd"))])), ("state", s("Completed"))]),
        ]
    );
    assert_eq!(updated.planner, r.planner);
    assert_eq!(prepare_finish(false, true), PrepareFinish::Failure);
    assert_eq!(prepare_finish(true, true), PrepareFinish::UpdateReceipt);
    assert_eq!(prepare_finish(true, false), PrepareFinish::Success);
}

#[test]
fn existing_receipt_agreement() {
    let a = fields(vec![("force", Json::Bool(false)), ("modify_profile", Json::Bool(true))]);
    let b = fields(vec![("modify_profile", Json::Bool(true)), ("force", Json::Bool(false))]);
    let c = fields(vec![("modify_profile", Json::Bool(false)), ("force", Json::Bool(false))]);
    assert!(members_equal(&a, &b));
    assert!(!members_equal(&a, &c));
    assert!(!members_equal(&a, &fields(vec![("force", Json::Bool(false))])));
    let linux = PlannerKind::Linux.name();
    assert_eq!(linux, "linux");
    let done = existing_receipt_check(None, "linux", &a, linux, &b, "u");
    assert!(done.success);
    assert_eq!(
        done.message,
        "Found existing plan in `/nix/receipt.json`, with the same settings, already completed. Try uninstalling (`u`) and reinstalling if Nix isn't working"
    );
    let other = existing_receipt_check(None, "macos", &a, linux, &b, "u");
    assert!(!other.success);
    assert!(other.message.contains("different planner"));
    let changed = existing_receipt_check(None, "linux", &a, linux, &c, "u");
    assert!(!changed.success);
    assert!(changed.message.contains("different planner settings"));
}
