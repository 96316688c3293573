use nix_installer::profile::{
    nix_env_steps, validate_paths_can_cohabitate, Error as ProfileError, InstalledElement, PackageContents, ProfileStep,
    WriteToDefaultProfile,
};

fn strings(v: &[&str]) -> Vec<String> {
    v.iter().map(|s| s.to_string()).collect()
}

/// A store path named after a directory holding one file.
fn tree(dirname: &str, filename: &str) -> PackageContents {
    PackageContents { path: format!("/nix/store/0000-{dirname}"), children: strings(&[filename]) }
}

fn element(name: &str, children: &[&str]) -> InstalledElement {
    InstalledElement { name: name.to_string(), children: strings(children) }
}

fn step_names(steps: &[ProfileStep]) -> Vec<String> {
    steps
        .iter()
        .map(|s| match s {
            ProfileStep::Uninstall(n) => format!("-{n}"),
            ProfileStep::Install(p) => format!("+{p}"),
            ProfileStep::SetProfile(t) => format!("={}", t.clone().unwrap_or_default()),
        })
        .collect()
}

fn detect_intersection() {
    let result = validate_paths_can_cohabitate(&vec![tree("foo", "foo"), tree("bar", "foo")]);
    match result {
        Err(ProfileError::PathConflict(p, shared)) => {
            assert_eq!(p, "/nix/store/0000-bar");
            assert_eq!(shared, strings(&["foo"]));
        },
        _ => panic!("the two trees both hold `foo`"),
    }
}

fn no_intersection() {
    let pkgs = vec![tree("foo", "foo"), tree("bar", "bar")];
    assert_eq!(validate_paths_can_cohabitate(&pkgs).unwrap(), strings(&["foo", "bar"]));
    let steps = nix_env_steps(&pkgs, &vec![], WriteToDefaultProfile::Specific, &"/tmp/profile".to_string(), true);
    assert_eq!(step_names(&steps), strings(&["+/nix/store/0000-foo", "+/nix/store/0000-bar", "=/tmp/profile"]));
}

fn overlap_replaces() {
    let profile = "/tmp/profile".to_string();
    let first = vec![tree("fizz", "fizz"), tree("foo", "foo")];
    let steps = nix_env_steps(&first, &vec![], WriteToDefaultProfile::Specific, &profile, true);
    assert_eq!(step_names(&steps), strings(&["+/nix/store/0000-fizz", "+/nix/store/0000-foo", "=/tmp/profile"]));

    // `foo` again, with other contents: the installed `foo` makes way.
    let installed = vec![element("fizz", &["fizz"]), element("foo", &["foo"])];
    let steps = nix_env_steps(&vec![tree("foo", "foo")], &installed, WriteToDefaultProfile::Specific, &profile, true);
    assert_eq!(step_names(&steps), strings(&["-foo", "+/nix/store/0000-foo", "=/tmp/profile"]));

    // `bar` holding a file `foo`: the element holding `foo` makes way, `fizz` stays.
    let steps = nix_env_steps(&vec![tree("bar", "foo")], &installed, WriteToDefaultProfile::Specific, &profile, true);
    assert_eq!(step_names(&steps), strings(&["-foo", "+/nix/store/0000-bar", "=/tmp/profile"]));
}

#[test]
fn nixenv_test_detect_intersection() {
    detect_intersection();
}

#[test]
fn nixenv_test_no_intersection() {
    no_intersection();
}

#[test]
fn nixenv_test_overlap_replaces() {
    overlap_replaces();
}

#[test]
fn tests_test_detect_intersection() {
    detect_intersection();
}

#[test]
fn tests_test_no_intersection() {
    no_intersection();
}

#[test]
fn tests_test_overlap_replaces() {
    overlap_replaces();
}
