use nix_installer::diagnostics::ErrorDiagnostic;
use nix_installer::error::{ActionFailure, NixInstallerError};
use nix_installer::planner::PlannerError;
use nix_installer::self_test::SelfTestError;

fn failure(expected: bool, diagnostic: &str, message: &str, source: Option<&str>) -> ActionFailure {
    ActionFailure {
        expected,
        diagnostic: diagnostic.to_string(),
        message: message.to_string(),
        source: source.map(|s| s.to_string()),
    }
}

#[test]
fn expected_errors_are_user_facing_ones() {
    assert!(NixInstallerError::Cancelled.expected());
    assert!(NixInstallerError::InvalidVersionRequirement("x".to_string()).expected());
    assert!(NixInstallerError::InvalidCurrentVersion("x".to_string()).expected());
    assert!(NixInstallerError::IncompatibleVersion { binary: "0.2.0".to_string(), plan: "0.1.0".to_string() }.expected());
    assert!(NixInstallerError::Planner(PlannerError::NixExists).expected());
    assert!(!NixInstallerError::Planner(PlannerError::Utf8).expected());
    assert!(NixInstallerError::Action(failure(true, "CreateDirectory", "m", None)).expected());
    assert!(!NixInstallerError::Action(failure(false, "CreateDirectory", "m", None)).expected());
    assert!(!NixInstallerError::SemVer.expected());
    assert!(!NixInstallerError::CopyingSelf.expected());
    assert!(!NixInstallerError::SelfTest(SelfTestError::SystemTime).expected());
}

#[test]
fn installer_error_diagnostics() {
    assert_eq!(NixInstallerError::Cancelled.diagnostic(), "Cancelled()");
    assert_eq!(NixInstallerError::Planner(PlannerError::NixOs).diagnostic(), "Planner()");
    assert_eq!(NixInstallerError::SelfTest(SelfTestError::SystemTime).diagnostic(), "SelfTest(\"SystemTime()\")");
    assert_eq!(
        NixInstallerError::Action(failure(false, "CreateUser(\"bash\")", "m", None)).diagnostic(),
        "Action(\"CreateUser(\"bash\")\")"
    );
    assert_eq!(
        NixInstallerError::ActionRevert(vec![failure(false, "A", "a", None), failure(false, "B", "b", None)]).diagnostic(),
        "ActionRevert(\"A\", \"B\")"
    );
    assert_eq!(NixInstallerError::ActionRevert(vec![]).diagnostic(), "ActionRevert()");
}

#[test]
fn installer_error_messages() {
    assert_eq!(NixInstallerError::Cancelled.message(), "Cancelled by user");
    assert_eq!(
        NixInstallerError::ActionRevert(vec![failure(false, "A", "m1", Some("s1")), failure(false, "B", "m2", None)])
            .message(),
        "Error reverting\nm1\ns1\n\nm2\n"
    );
    assert_eq!(
        NixInstallerError::IncompatibleVersion { binary: "0.2.0".to_string(), plan: "0.1.0".to_string() }.message(),
        "`nix-installer` version `0.2.0` is not compatible with this plan's version `0.1.0`"
    );
    assert_eq!(
        NixInstallerError::InvalidVersionRequirement("abc".to_string()).message(),
        "Could not parse `abc` as a version requirement in order to ensure it's compatible"
    );
    assert_eq!(NixInstallerError::RecordingReceipt("/nix/receipt.json".to_string()).message(), "Recording install receipt");
}
