use nix_installer::json::{clone_json, get_member, has_member, json_equal, with_member, Json};
use nix_installer::planner::macos::profile_queries::blocks_internal_mounting;
use nix_installer::planner::macos::profiles::{
    HardDiskInternalOpts, MountControls, Profile, ProfileItem, SystemUIServer, Target, UnknownProfileItem,
};
use nix_installer::profile::{
    backend_for, conflicting_elements, get_profile_backend_type, nix_env_steps, nix_options, validate_paths_can_cohabitate,
    BackendType, Error as ProfileError, InstalledElement, PackageContents, ProfileStep, WriteToDefaultProfile,
};
use nix_installer::text::{decimal, join_on_char, parse_u32_text, signed_decimal, split_on_char};

fn strings(v: &[&str]) -> Vec<String> {
    v.iter().map(|s| s.to_string()).collect()
}

#[test]
fn split_and_join_round_trip() {
    let s = "a::b:".to_string();
    let parts = split_on_char(&s, ':');
    assert_eq!(parts, strings(&["a", "", "b", ""]));
    assert_eq!(join_on_char(&parts, ":"), s);
    assert_eq!(split_on_char(&String::new(), ':'), strings(&[""]));
}

#[test]
fn numbers_as_text() {
    assert_eq!(decimal(0), "0");
    assert_eq!(decimal(1234567890123), "1234567890123");
    assert_eq!(signed_decimal(-17), "-17");
    assert_eq!(signed_decimal(i32::MIN), "-2147483648");
    assert_eq!(parse_u32_text("0042"), Some(42));
    assert_eq!(parse_u32_text("+"), None);
    assert_eq!(parse_u32_text("1 "), None);
}

#[test]
fn json_read_after_write() {
    let o = vec![("a".to_string(), Json::Bool(true))];
    let o2 = with_member(&o, "b", Json::Null);
    assert!(has_member(&o2, "b"));
    assert_eq!(get_member(&o2, "b"), Json::Null);
    assert_eq!(get_member(&o2, "a"), Json::Bool(true));
    let o3 = with_member(&o2, "a", Json::Number("1".into()));
    assert_eq!(o3.len(), 2);
    assert_eq!(get_member(&o3, "a"), Json::Number("1".into()));
    assert_eq!(get_member(&o3, "missing"), Json::Null);
    let arr = Json::Array(vec![Json::Object(o3.clone()), Json::String("s".into())]);
    assert_eq!(clone_json(&arr), arr);
    assert!(!json_equal(&arr, &Json::Array(vec![])));
}

fn pkg(path: &str, children: &[&str]) -> PackageContents {
    PackageContents { path: path.to_string(), children: strings(children) }
}

fn el(name: &str, children: &[&str]) -> InstalledElement {
    InstalledElement { name: name.to_string(), children: strings(children) }
}

#[test]
fn packages_that_cannot_cohabit() {
    let all = validate_paths_can_cohabitate(&vec![pkg("foo", &["bin/foo"]), pkg("bar", &["bin/bar"])]).unwrap();
    assert_eq!(all, strings(&["bin/foo", "bin/bar"]));
    match validate_paths_can_cohabitate(&vec![pkg("foo", &["bin/x", "a"]), pkg("bar", &["b", "bin/x"])]) {
        Err(ProfileError::PathConflict(p, shared)) => {
            assert_eq!(p, "bar");
            assert_eq!(shared, strings(&["bin/x"]));
        },
        _ => panic!("expected a conflict"),
    }
}

#[test]
fn replacing_overlapping_elements() {
    let installed = vec![el("fizz", &["bin/fizz"]), el("foo-old", &["bin/foo"]), el("other", &["share/x"])];
    assert_eq!(conflicting_elements(&installed, &strings(&["bin/foo", "bin/bar"])), strings(&["foo-old"]));
    let steps = nix_env_steps(
        &vec![pkg("/nix/store/foo", &["bin/foo"]), pkg("/nix/store/baz", &["share/x", "bin/fizz"])],
        &installed,
        WriteToDefaultProfile::Specific,
        &"/nix/var/nix/profiles/default".to_string(),
        true,
    );
    let names: Vec<String> = steps
        .iter()
        .map(|s| match s {
            ProfileStep::Uninstall(n) => format!("-{n}"),
            ProfileStep::Install(p) => format!("+{p}"),
            ProfileStep::SetProfile(t) => format!("={}", t.clone().unwrap_or_default()),
        })
        .collect();
    assert_eq!(
        names,
        strings(&["-foo-old", "+/nix/store/foo", "-fizz", "-other", "+/nix/store/baz", "=/nix/var/nix/profiles/default"])
    );
    let steps = nix_env_steps(&vec![pkg("p", &["bin/foo"])], &installed, WriteToDefaultProfile::WriteToDefault, &String::new(), false);
    assert_eq!(steps.len(), 2);
    assert!(matches!(&steps[1], ProfileStep::SetProfile(None)));
}

#[test]
fn profile_backends_and_options() {
    assert_eq!(get_profile_backend_type(true, true), Some(BackendType::NixProfile));
    assert_eq!(get_profile_backend_type(false, true), Some(BackendType::NixEnv));
    assert_eq!(get_profile_backend_type(false, false), None);
    assert_eq!(backend_for(None), BackendType::NixEnv);
    assert_eq!(backend_for(Some(BackendType::NixProfile)), BackendType::NixProfile);
    assert!(matches!(nix_options(None, &"/nix/store/cacert".to_string()), Err(ProfileError::NoRootHome)));
    let opts = nix_options(Some("/root".to_string()), &"/nix/store/cacert".to_string()).unwrap();
    assert_eq!(opts.args, strings(&["--option", "substitute", "false", "--option", "post-build-hook", ""]));
    assert_eq!(opts.ssl_cert_file, "/nix/store/cacert/etc/ssl/certs/ca-bundle.crt");
}

fn blocking_profile(description: &str) -> Profile {
    Profile {
        profile_description: Some(description.to_string()),
        profile_display_name: Some("Don't allow mounting internal devices".to_string()),
        profile_identifier: Some("MyProfile.6F6670A3-65AC-4EA4-8665-91F8FCE289AB".to_string()),
        profile_install_date: Some("2024-04-22 14:12:42 +0000".to_string()),
        profile_uuid: Some("6F6670A3-65AC-4EA4-8665-91F8FCE289AB".to_string()),
        profile_version: Some(1),
        profile_items: vec![ProfileItem::SystemUIServer(SystemUIServer {
            mount_controls: Some(MountControls { harddisk_internal: vec![HardDiskInternalOpts::Deny] }),
        })],
    }
}

#[test]
fn generate_error() {
    let parsed = vec![(Target::User("foo".into()), vec![blocking_profile("The description")])];
    let blocks = blocks_internal_mounting(&parsed);
    let err = &blocks[0];
    assert_eq!(
        r#"A profile owned by foo:
 * Name: Don't allow mounting internal devices
 * Version: 1
 * Description: The description
 * ID: MyProfile.6F6670A3-65AC-4EA4-8665-91F8FCE289AB
 * UUID: 6F6670A3-65AC-4EA4-8665-91F8FCE289AB
 * Installation Date: 2024-04-22 14:12:42 +0000"#
            .trim()
            .to_string(),
        err.display().trim()
    );
}

#[test]
fn no_error() {
    let parsed = vec![(
        Target::Computer,
        vec![Profile {
            profile_description: Some("".into()),
            profile_display_name: Some("macOS Software Update Policy: Mandatory Minor Upgrades".into()),
            profile_identifier: Some("com.example".into()),
            profile_install_date: Some("2024-04-22 00:00:00 +0000".into()),
            profile_uuid: Some("F7972F85-2A4D-4609-A4BB-02CB0C34A3F8".into()),
            profile_version: Some(1),
            profile_items: vec![ProfileItem::Unknown(UnknownProfileItem { payload_type: "com.apple.SoftwareUpdate".into() })],
        }],
    )];
    let blocks = blocks_internal_mounting(&parsed);
    assert!(blocks.is_empty());
}
