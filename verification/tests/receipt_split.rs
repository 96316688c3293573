use nix_installer::json::Json;
use nix_installer::receipt::{
    choose_split_method, naive_split_actions, naive_split_receipt, naive_split_would_panic, typed_split_actions,
    typed_split_entry, ActionState, OpaqueReceipt, ReceiptVersion, SplitError, SplitMethod,
};

fn s(t: &str) -> Json {
    Json::String(t.to_string())
}

fn obj(entries: Vec<(&str, Json)>) -> Json {
    Json::Object(entries.into_iter().map(|(k, v)| (k.to_string(), v)).collect())
}

fn member<'a>(j: &'a Json, k: &str) -> Option<&'a Json> {
    match j {
        Json::Object(o) => o.iter().find(|(key, _)| key == k).map(|(_, v)| v),
        _ => None,
    }
}

fn state_of(j: &Json) -> Option<String> {
    match member(j, "state") {
        Some(Json::String(t)) => Some(t.clone()),
        _ => None,
    }
}

fn v(major: u64, minor: u64, patch: u64) -> ReceiptVersion {
    ReceiptVersion { major, minor, patch, pre_release: false }
}

fn sub(state: &str) -> Json {
    obj(vec![("action", obj(vec![])), ("state", s(state))])
}

fn provision_entry() -> Json {
    obj(vec![
        (
            "action",
            obj(vec![
                ("action_name", s("provision_nix")),
                ("fetch_nix", sub("Completed")),
                ("create_nix_tree", sub("Completed")),
                ("move_unpacked_nix", sub("Completed")),
            ]),
        ),
        ("state", s("Completed")),
    ])
}

fn other_entry(name: &str) -> Json {
    obj(vec![("action", obj(vec![("action_name", s(name))])), ("state", s("Completed"))])
}

fn directory_entry(path: &str) -> Json {
    obj(vec![
        ("action", obj(vec![("action_name", s("create_directory")), ("path", s(path))])),
        ("state", s("Completed")),
    ])
}

#[test]
fn naive_split_marks_provision_steps_skipped() {
    let actions = vec![other_entry("create_users_and_groups"), provision_entry()];
    let (p1, p2) = naive_split_actions(&actions, &v(0, 30, 0)).unwrap();
    assert_eq!(p1.len(), 2);
    assert_eq!(p1[0], actions[0]);
    let action = member(&p1[1], "action").unwrap();
    for key in ["fetch_nix", "create_nix_tree", "move_unpacked_nix"] {
        assert_eq!(state_of(member(action, key).unwrap()), Some("Skipped".to_string()));
    }
    assert_eq!(p2.len(), 3);
    for item in &p2 {
        assert_eq!(state_of(item), Some("Completed".to_string()));
    }
}

#[test]
fn naive_split_moves_nix_directories_only() {
    let actions = vec![directory_entry("/nix"), directory_entry("/etc/nix"), directory_entry("/nixos")];
    let (p1, p2) = naive_split_actions(&actions, &v(0, 30, 0)).unwrap();
    assert_eq!(state_of(&p1[0]), Some("Skipped".to_string()));
    assert_eq!(p1[1], actions[1]);
    // A text prefix, not a path prefix: `/nixos` begins with `/nix`.
    assert_eq!(state_of(&p1[2]), Some("Skipped".to_string()));
    assert_eq!(p2.len(), 2);
    assert_eq!(&p2[0], member(&actions[0], "action").unwrap());
}

#[test]
fn naive_split_of_receipt_without_store_actions_is_identity() {
    let actions = vec![other_entry("configure_nix"), other_entry("create_users_and_groups")];
    let (p1, p2) = naive_split_actions(&actions, &v(0, 30, 0)).unwrap();
    assert_eq!(p1, actions);
    assert!(p2.is_empty());
}

#[test]
fn naive_split_reads_old_action_names() {
    // Before 0.21.0 the name stood under `action`.
    let entry = obj(vec![
        (
            "action",
            obj(vec![
                ("action", s("provision_nix")),
                ("fetch_nix", sub("Completed")),
                ("create_nix_tree", sub("Completed")),
                ("move_unpacked_nix", sub("Completed")),
            ]),
        ),
        ("state", s("Completed")),
    ]);
    let (_, p2) = naive_split_actions(&vec![entry], &v(0, 20, 0)).unwrap();
    assert_eq!(p2.len(), 3);
}

#[test]
fn naive_split_volume_by_version() {
    let volume = |name: &str, encrypt: Json| {
        obj(vec![
            (
                "action",
                obj(vec![
                    ("action_name", s(name)),
                    ("create_volume", sub("Completed")),
                    ("encrypt_volume", encrypt),
                    ("unmount_volume", sub("Progress")),
                ]),
            ),
            ("state", s("Completed")),
        ])
    };
    let (_, moved) = naive_split_actions(&vec![volume("create_nix_volume", Json::Null)], &v(0, 28, 0)).unwrap();
    assert_eq!(moved.len(), 2);
    let (_, moved) = naive_split_actions(&vec![volume("create_nix_volume", sub("Completed"))], &v(0, 28, 0)).unwrap();
    assert_eq!(moved.len(), 3);
    // Before 0.28.0 the volume action had another name.
    let (_, moved) = naive_split_actions(&vec![volume("create_nix_volume", Json::Null)], &v(0, 27, 0)).unwrap();
    assert_eq!(moved.len(), 0);
    let (_, moved) = naive_split_actions(&vec![volume("create_apfs_volume", Json::Null)], &v(0, 27, 0)).unwrap();
    assert_eq!(moved.len(), 2);
    let (p1, moved) =
        naive_split_actions(&vec![volume("create_determinate_nix_volume", sub("Completed"))], &v(0, 30, 0)).unwrap();
    assert_eq!(moved.len(), 3);
    let action = member(&p1[0], "action").unwrap();
    assert_eq!(state_of(member(action, "unmount_volume").unwrap()), Some("Skipped".to_string()));
}

#[test]
fn naive_split_errors() {
    assert_eq!(naive_split_actions(&vec![s("x")], &v(0, 30, 0)).unwrap_err(), SplitError::EntryNotObject);
    let e = obj(vec![("action", s("x")), ("state", s("Completed"))]);
    assert_eq!(naive_split_actions(&vec![e], &v(0, 30, 0)).unwrap_err(), SplitError::ActionNotObject);
    let e = obj(vec![("action", obj(vec![("action_name", Json::Null)]))]);
    assert_eq!(naive_split_actions(&vec![e], &v(0, 30, 0)).unwrap_err(), SplitError::ActionNameNotString);
    let e = obj(vec![("action", obj(vec![("action_name", s("create_directory")), ("path", Json::Null)]))]);
    assert_eq!(naive_split_actions(&vec![e], &v(0, 30, 0)).unwrap_err(), SplitError::PathNotString);
}

#[test]
fn naive_split_detects_what_it_cannot_take() {
    // A missing `action` member.
    assert!(naive_split_would_panic(&vec![obj(vec![("state", s("Completed"))])], &v(0, 30, 0)));
    // A missing `state` on a directory under /nix.
    let e = obj(vec![("action", obj(vec![("action_name", s("create_directory")), ("path", s("/nix"))]))]);
    assert!(naive_split_would_panic(&vec![e], &v(0, 30, 0)));
    // An error before the entry it cannot take stops the split first.
    assert!(!naive_split_would_panic(&vec![s("x"), obj(vec![])], &v(0, 30, 0)));
    assert!(!naive_split_would_panic(&vec![provision_entry()], &v(0, 30, 0)));
}

#[test]
fn naive_split_receipt_keeps_version_and_planner() {
    let receipt = OpaqueReceipt {
        version: v(0, 30, 0),
        actions: vec![provision_entry()],
        planner: obj(vec![("planner", s("linux"))]),
        diagnostic_data: None,
    };
    let (p1, p2) = naive_split_receipt(&receipt).unwrap();
    assert_eq!(p1.planner, receipt.planner);
    assert_eq!(p2.planner, receipt.planner);
    assert_eq!(p2.version.minor, 30);
    assert_eq!(p1.actions.len(), 1);
    assert_eq!(p2.actions.len(), 3);
    assert!(p1.diagnostic_data.is_none());
}

#[test]
fn typed_split_moves_whole_entries() {
    let (p1, p2) = typed_split_actions(&vec![provision_entry(), directory_entry("/etc/nix")]).unwrap();
    assert_eq!(state_of(&p1[0]), Some("Skipped".to_string()));
    assert_eq!(p2, vec![provision_entry()]);
    assert_eq!(p1[1], directory_entry("/etc/nix"));
}

#[test]
fn typed_split_compares_whole_path_components() {
    let (p1, p2) = typed_split_actions(&vec![directory_entry("/nixos"), directory_entry("/nix/store")]).unwrap();
    assert_eq!(p1[0], directory_entry("/nixos"));
    assert_eq!(state_of(&p1[1]), Some("Skipped".to_string()));
    assert_eq!(p2.len(), 1);
}

#[test]
fn typed_split_volume_order_and_errors() {
    let entry = obj(vec![
        (
            "action",
            obj(vec![
                ("action_name", s("create_nix_volume")),
                ("create_volume", sub("A")),
                ("encrypt_volume", sub("B")),
                ("unmount_volume", sub("C")),
            ]),
        ),
        ("state", s("Completed")),
    ]);
    let (_, moved) = typed_split_entry(&entry, false).unwrap();
    let order: Vec<Option<String>> = moved.iter().map(state_of).collect();
    assert_eq!(order, vec![Some("A".to_string()), Some("C".to_string()), Some("B".to_string())]);
    let bad = obj(vec![("action", obj(vec![("action_name", s("create_nix_volume"))]))]);
    assert_eq!(typed_split_entry(&bad, false).unwrap_err(), SplitError::Roundtrip);
}

#[test]
fn split_method_choice() {
    assert_eq!(choose_split_method(false, true, true), SplitMethod::Typed);
    assert_eq!(choose_split_method(true, true, true), SplitMethod::Naive);
    assert_eq!(choose_split_method(false, false, true), SplitMethod::Naive);
    assert_eq!(choose_split_method(false, true, false), SplitMethod::Naive);
}

#[test]
fn receipt_version_ordering() {
    assert!(v(0, 21, 0).at_least(0, 21, 0));
    assert!(!ReceiptVersion { major: 0, minor: 21, patch: 0, pre_release: true }.at_least(0, 21, 0));
    assert!(v(1, 0, 0).at_least(0, 28, 0));
    assert!(!v(0, 27, 9).at_least(0, 28, 0));
}

#[test]
fn action_state_names() {
    assert_eq!(ActionState::Skipped.to_json(), s("Skipped"));
    assert_eq!(ActionState::Completed.to_json(), s("Completed"));
}
