use nix_installer::cli::arg::{try_parse_channel_value, ChannelValueError, ChannelValueParser, Instrumentation, Logger};
use nix_installer::cli::interaction::{confirm_prompt, next_confirm_step, read_choice, ConfirmStep, PromptChoice};
use nix_installer::cli::root::{escalation_command, preserved_env_keys};
use nix_installer::cli::subcommand::install::{
    check_plan_source, existing_receipt_verdict, install_failure_step, pkg_suggestion, revert_end, shell_reminder,
    uninstall_command, FailureStep, InstallError, RevertEnd,
};
use nix_installer::cli::subcommand::uninstall::{
    after_uninstall, copy_location, incompatible_receipt_message, must_leave_current_dir, must_run_from_copy,
    random_trailer, trailer_from_indices, uninstall_failure, unreadable_plan_message, AfterUninstall, UninstallFailure,
};

fn strings(v: &[&str]) -> Vec<String> {
    v.iter().map(|s| s.to_string()).collect()
}

#[test]
fn prompt_answers() {
    assert_eq!(read_choice("y", PromptChoice::No), PromptChoice::Yes);
    assert_eq!(read_choice("YES", PromptChoice::No), PromptChoice::Yes);
    assert_eq!(read_choice("No", PromptChoice::Yes), PromptChoice::No);
    assert_eq!(read_choice("e", PromptChoice::Yes), PromptChoice::Explain);
    assert_eq!(read_choice("Explain", PromptChoice::Yes), PromptChoice::Explain);
    assert_eq!(read_choice("", PromptChoice::Explain), PromptChoice::Explain);
    assert_eq!(read_choice("", PromptChoice::Yes), PromptChoice::Yes);
    assert_eq!(read_choice("maybe", PromptChoice::Yes), PromptChoice::No);
}

#[test]
fn prompt_text_labels() {
    let p = confirm_prompt("Install?", PromptChoice::Yes, false);
    assert_eq!(p.yes_label, "[Y]es");
    assert_eq!(p.no_label, "[n]o");
    assert_eq!(p.explain_label.as_deref(), Some("[e]xplain"));
    assert_eq!(
        p.text(),
        "Install?\n\n\x1b[1mProceed?\x1b[0m (\x1b[32m[Y]es\x1b[39m/\x1b[31m[n]o\x1b[39m/[e]xplain): "
    );
    let p = confirm_prompt("Install?", PromptChoice::No, true);
    assert_eq!(p.no_label, "[N]o");
    assert!(p.explain_label.is_none());
    assert_eq!(p.text(), "Install?\n\n\x1b[1mProceed?\x1b[0m (\x1b[32m[y]es\x1b[39m/\x1b[31m[N]o\x1b[39m): ");
}

#[test]
fn confirm_steps() {
    assert_eq!(next_confirm_step(PromptChoice::Yes), ConfirmStep::Proceed);
    assert_eq!(next_confirm_step(PromptChoice::No), ConfirmStep::Quit);
    assert_eq!(next_confirm_step(PromptChoice::Explain), ConfirmStep::AskAgain { explaining: true });
}

#[test]
fn sudo_escalation() {
    let env = strings(&["PATH", "RUST_LOG", "HARMONIC_PLAN", "GITHUB_PATH", "HOME", "RUST_BACKTRACE"]);
    let args = strings(&["nix-installer", "install"]);
    assert!(escalation_command(0, &env, &args).is_none());
    let cmd = escalation_command(1000, &env, &args).unwrap();
    assert_eq!(
        cmd,
        strings(&[
            "sudo",
            "--preserve-env=RUST_LOG,HARMONIC_PLAN,GITHUB_PATH,RUST_BACKTRACE",
            "nix-installer",
            "install"
        ])
    );
    let cmd = escalation_command(1000, &strings(&["HOME"]), &args).unwrap();
    assert_eq!(cmd, strings(&["sudo", "nix-installer", "install"]));
    assert_eq!(preserved_env_keys(&strings(&["HARMONIC", "HARMONI", "XHARMONIC"])), strings(&["HARMONIC"]));
}

#[test]
fn plan_and_planner_conflict() {
    assert_eq!(check_plan_source(true, true), Err(InstallError::PlanConflictsWithPlanner));
    assert!(check_plan_source(true, false).is_ok());
    assert!(check_plan_source(false, true).is_ok());
    assert_eq!(
        InstallError::PlanConflictsWithPlanner.message(),
        "`--plan` conflicts with passing a planner, a planner creates plans, so passing an existing plan doesn't make sense"
    );
}

#[test]
fn uninstall_commands() {
    assert_eq!(uninstall_command(true, "0.1.0"), "/nix/nix-installer uninstall");
    assert_eq!(
        uninstall_command(false, "0.1.0"),
        "curl --proto '=https' --tlsv1.2 -sSf -L https://install.determinate.systems/nix/tag/v0.1.0 | sh -s -- uninstall"
    );
}

#[test]
fn existing_receipt_verdicts() {
    let v = existing_receipt_verdict(None, true, true, "U");
    assert!(v.success);
    assert_eq!(
        v.message,
        "Found existing plan in `/nix/receipt.json`, with the same settings, already completed. Try uninstalling (`U`) and reinstalling if Nix isn't working"
    );
    let v = existing_receipt_verdict(None, false, true, "U");
    assert!(!v.success);
    assert_eq!(
        v.message,
        "Found existing plan in `/nix/receipt.json` which used a different planner, try uninstalling the existing install with `U`"
    );
    let v = existing_receipt_verdict(None, true, false, "U");
    assert!(!v.success);
    assert!(v.message.contains("different planner settings"));
    let v = existing_receipt_verdict(Some("E".to_string()), true, true, "U");
    assert!(!v.success);
    assert!(v.message.starts_with("E\n\nFound existing plan in `/nix/receipt.json` which was created by a version incompatible `nix-installer`.\nIf you are trying to upgrade Nix"));
    assert!(v.message.ends_with("#accessing-other-versions.\n"));
}

#[test]
fn install_failure_steps() {
    match install_failure_step(false, Some("x".to_string()), None) {
        FailureStep::OfferRevert { message, log_error } => {
            assert_eq!(message.as_deref(), Some("x"));
            assert!(!log_error);
        },
        _ => panic!("expected an offer to revert"),
    }
    match install_failure_step(false, None, None) {
        FailureStep::OfferRevert { message, log_error } => {
            assert!(message.is_none());
            assert!(log_error);
        },
        _ => panic!("expected an offer to revert"),
    }
    match install_failure_step(true, None, Some("cancelled".to_string())) {
        FailureStep::ExitWithMessage(m) => assert_eq!(m, "cancelled"),
        _ => panic!("expected an exit"),
    }
    assert!(matches!(install_failure_step(true, None, None), FailureStep::Fail));
    assert!(matches!(revert_end(true, false, None, None), RevertEnd::Reverted));
    assert!(matches!(revert_end(false, true, Some("x".to_string()), None), RevertEnd::Fail { reverts_failed: true }));
    assert!(matches!(revert_end(false, false, None, Some("c".to_string())), RevertEnd::ExitWithMessage(_)));
    assert!(matches!(revert_end(false, false, None, None), RevertEnd::Fail { reverts_failed: false }));
}

#[test]
fn shell_reminders_and_suggestion() {
    assert_eq!(
        shell_reminder(Some("/usr/bin/fish".to_string())),
        ". /nix/var/nix/profiles/default/etc/profile.d/nix-daemon.fish"
    );
    assert_eq!(shell_reminder(Some("/bin/zsh".to_string())), ". /nix/var/nix/profiles/default/etc/profile.d/nix-daemon.sh");
    assert_eq!(shell_reminder(None), ". /nix/var/nix/profiles/default/etc/profile.d/nix-daemon.sh");
    assert!(pkg_suggestion(false, None).is_none());
    assert_eq!(pkg_suggestion(true, Some("m".to_string())).as_deref(), Some("m"));
    assert!(pkg_suggestion(true, None).unwrap().starts_with("For a more robust Nix installation"));
}

#[test]
fn uninstall_location_checks() {
    assert!(must_leave_current_dir("/nix"));
    assert!(must_leave_current_dir("/nix/store"));
    assert!(!must_leave_current_dir("/nixos"));
    assert!(!must_leave_current_dir("/home/u"));
    assert!(must_run_from_copy("/nix/nix-installer"));
    assert!(!must_run_from_copy("/usr/local/bin/nix-installer"));
}

#[test]
fn copy_names() {
    assert_eq!(trailer_from_indices(&vec![0, 25, 26, 51, 52, 61]), "AZaz09");
    let t = random_trailer();
    assert_eq!(t.chars().count(), 16);
    assert!(t.chars().all(|c| c.is_ascii_alphanumeric()));
    assert_eq!(copy_location(&"/tmp".to_string(), "ABC"), "/tmp/nix-installer-ABC");
    assert_eq!(copy_location(&"/tmp/".to_string(), "ABC"), "/tmp/nix-installer-ABC");
}

#[test]
fn uninstall_messages() {
    assert_eq!(
        unreadable_plan_message("0.1.0", "0.2.0"),
        "Unable to parse plan, this plan was created by `nix-installer` version `0.1.0`, this is `nix-installer` version `0.2.0`\nTo uninstall, either run  `/nix/nix-installer uninstall` or `curl --proto '=https' --tlsv1.2 -sSf -L https://install.determinate.systems/nix/tag/v0.1.0 | sh -s -- uninstall`"
    );
    let m = incompatible_receipt_message("E", "0.1.0");
    assert!(m.starts_with("E\n\nFound existing plan"));
    assert!(m.contains("tag/v$0.1.0 | sh -s -- uninstall`\n\n"));
}

#[test]
fn uninstall_endings() {
    assert!(matches!(uninstall_failure(true, Some("x".to_string())), UninstallFailure::Fail { reverts_failed: true }));
    assert!(matches!(uninstall_failure(false, Some("x".to_string())), UninstallFailure::ExitWithMessage(_)));
    assert!(matches!(uninstall_failure(false, None), UninstallFailure::Fail { reverts_failed: false }));
    assert_eq!(after_uninstall(false, true), AfterUninstall::Done);
    assert_eq!(after_uninstall(true, false), AfterUninstall::OriginalInstallerMissing);
    assert_eq!(after_uninstall(true, true), AfterUninstall::RunOriginalUninstaller);
}

#[test]
fn logging_levels() {
    let mut i = Instrumentation { verbose: 0, logger: Logger::default(), log_directives: vec![] };
    assert_eq!(i.log_level(), "info");
    i.verbose = 1;
    assert_eq!(i.log_level(), "debug");
    i.verbose = 7;
    assert_eq!(i.log_level(), "trace");
    assert_eq!(i.default_directive("nix_installer"), "nix_installer=trace");
    assert_eq!(Logger::default(), Logger::Compact);
    assert_eq!(Logger::Json.name(), "json");
    assert_eq!(Logger::Pretty.name(), "pretty");
}

#[test]
fn channel_values() {
    let v = ChannelValueParser.parse_ref("nixpkgs=https://nixos.org/channels/nixpkgs-unstable").unwrap();
    assert_eq!(v.name, "nixpkgs");
    assert_eq!(v.url, "https://nixos.org/channels/nixpkgs-unstable");
    // The URL is normalised by the parser.
    let v = try_parse_channel_value("a=HTTPS://Example.com").unwrap().unwrap();
    assert_eq!(v.url, "https://example.com/");
    // Only the first `=` separates.
    let v = try_parse_channel_value("a=https://e.com/?x=1").unwrap().unwrap();
    assert_eq!(v.name, "a");
    assert_eq!(v.url, "https://e.com/?x=1");
    assert!(matches!(try_parse_channel_value("nixpkgs"), Some(Err(ChannelValueError::NotNameEqualsUrl))));
    assert!(try_parse_channel_value("a=not a url").is_none());
    assert_eq!(ChannelValueError::NotNameEqualsUrl.message(), "Should be formatted `name=url`");
}
