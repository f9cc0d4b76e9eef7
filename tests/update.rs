use fedora_updater::{
    choose_mode, distribution_name, flatpak_outcome, summarize, updates_available, upgrade_args,
    upgrade_outcome, version_text, CommandResult, RunError, Summary, UpdateError, UpdateMode,
    mode_for_answer,
};

#[test]
fn flatpak_nothing_to_do_means_no_updates() {
    let r = CommandResult::new(Some(0), String::from("Looking for updates...\nNothing to do.\n"));
    assert_eq!(flatpak_outcome(&r), Ok(false));
    let r = CommandResult::new(Some(0), String::from("Updating app/org.x\nDone\n"));
    assert_eq!(flatpak_outcome(&r), Ok(true));
    let r = CommandResult::new(Some(1), String::from("Nothing to do.\n"));
    assert_eq!(flatpak_outcome(&r), Err(UpdateError::FlatpakFailed));
}

#[test]
fn updates_available_only_on_code_100() {
    assert!(updates_available(&CommandResult::new(Some(100), String::new())));
    assert!(!updates_available(&CommandResult::new(Some(0), String::new())));
    assert!(!updates_available(&CommandResult::new(Some(1), String::new())));
    assert!(!updates_available(&CommandResult::new(None, String::new())));
}

#[test]
fn interactive_answer_picks_mode() {
    assert_eq!(choose_mode(true, "  NoW \n"), UpdateMode::Immediate);
    assert_eq!(choose_mode(true, "now"), UpdateMode::Immediate);
    assert_eq!(choose_mode(true, "\n"), UpdateMode::Offline);
    assert_eq!(choose_mode(true, "later"), UpdateMode::Offline);
    assert_eq!(choose_mode(false, "later"), UpdateMode::Immediate);
    assert_eq!(mode_for_answer("now"), UpdateMode::Immediate);
    assert_eq!(mode_for_answer("NOW"), UpdateMode::Offline);
}

#[test]
fn upgrade_arguments_per_mode() {
    assert_eq!(upgrade_args(UpdateMode::Immediate), vec!["upgrade", "-y"]);
    assert_eq!(upgrade_args(UpdateMode::Offline), vec!["upgrade", "--offline", "-y"]);
}

#[test]
fn upgrade_failures_name_the_mode() {
    let ok = CommandResult::new(Some(0), String::new());
    let bad = CommandResult::new(Some(1), String::new());
    assert_eq!(upgrade_outcome(UpdateMode::Immediate, &ok), Ok(()));
    assert_eq!(
        upgrade_outcome(UpdateMode::Immediate, &bad),
        Err(UpdateError::DnfUpgradeFailed)
    );
    assert_eq!(
        upgrade_outcome(UpdateMode::Offline, &bad),
        Err(UpdateError::DnfOfflineFailed)
    );
    assert_eq!(UpdateError::DnfOfflineFailed.message(), "DNF5 offline update preparation failed");
    assert_eq!(UpdateError::DnfNotFound.message(), "DNF5 not found");
}

#[test]
fn summary_covers_every_combination() {
    let fail = || Err(UpdateError::Run(RunError::Spawn(String::from("x"))));
    assert_eq!(summarize(&Ok(true), &Ok(false)), Summary::Updated);
    assert_eq!(summarize(&Ok(false), &Ok(true)), Summary::Updated);
    assert_eq!(summarize(&Ok(false), &Ok(false)), Summary::UpToDate);
    assert_eq!(summarize(&fail(), &Ok(true)), Summary::FlatpakFailed);
    assert_eq!(summarize(&Ok(true), &Err(UpdateError::DnfNotFound)), Summary::DnfFailed);
    assert_eq!(summarize(&fail(), &fail()), Summary::AllFailed);
}

#[test]
fn distribution_name_from_os_release() {
    let text = "NAME=\"Fedora Linux\"\nVERSION=\"41 (Workstation Edition)\"\nPRETTY_NAME=\"Fedora Linux 41 (Workstation Edition)\"\nPRETTY_NAME=second\n";
    assert_eq!(
        distribution_name(text),
        Some(String::from("Fedora Linux 41 (Workstation Edition)"))
    );
    assert_eq!(distribution_name("PRETTY_NAME=Plain"), Some(String::from("Plain")));
    assert_eq!(distribution_name("PRETTY_NAME=a=b"), Some(String::from("a")));
    assert_eq!(distribution_name("PRETTY_NAME=\"\"\""), Some(String::new()));
    assert_eq!(distribution_name("NAME=Fedora\n PRETTY_NAME=x\n"), None);
    assert_eq!(distribution_name(""), None);
}

#[test]
fn version_report_is_trimmed() {
    assert_eq!(version_text("Flatpak 1.16.0\n"), "Flatpak 1.16.0");
    assert_eq!(version_text("  dnf5 version 5.2\n\n"), "dnf5 version 5.2");
}
