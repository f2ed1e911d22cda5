use devpack_for_rust::cli::Cli;
use devpack_for_rust::recipe::InstallStep;
use devpack_for_rust::shell_type::ShellType;
use devpack_for_rust::wizard::{CommandReport, CommandSpec, InstallWizard, StepAction, StepError, StepEvent};

fn settings(dry_run: bool) -> Cli {
    Cli {
        dry_run,
        override_shell_type: None,
        override_user: None,
        skip_linker_check: false,
        continue_after_failure: false,
    }
}

fn wizard(dry_run: bool, shell: Result<ShellType, ()>) -> InstallWizard {
    InstallWizard::new(settings(dry_run), shell, "alice".to_string())
}

fn exited(success: bool, status: &str) -> StepEvent {
    StepEvent::Ran(CommandReport::Exited { success, status: status.to_string() })
}

fn expect_run(action: StepAction) -> CommandSpec {
    match action {
        StepAction::Run(c) => c,
        _ => panic!("expected a command to run"),
    }
}

fn expect_error(action: StepAction) -> StepError {
    match action {
        StepAction::Finished(Err(e)) => e,
        _ => panic!("expected the step to fail"),
    }
}

fn expect_ok(action: StepAction) {
    assert!(matches!(action, StepAction::Finished(Ok(()))));
}

#[test]
fn new_wizard_takes_its_settings() {
    let mut s = settings(true);
    s.continue_after_failure = true;
    let w = InstallWizard::new(s, Ok(ShellType::Zsh), "bob".to_string());
    assert!(w.dry_run);
    assert!(w.continue_after_failure);
    assert_eq!(w.shell_type, Ok(ShellType::Zsh));
    assert_eq!(w.real_user, "bob");
}

#[test]
fn noop_finishes_at_once() {
    let mut w = wizard(false, Ok(ShellType::Bash));
    expect_ok(w.start_step(&InstallStep::NoOp));
}

#[test]
fn rust_channel_runs_rustup_as_the_user() {
    let mut w = wizard(false, Ok(ShellType::Bash));
    let c = expect_run(w.start_step(&InstallStep::RustChannel("nightly".to_string())));
    assert_eq!(c.program, "rustup");
    assert_eq!(c.args, vec!["default", "nightly"]);
    assert_eq!(c.run_as, Some("alice".to_string()));
    expect_ok(w.advance(exited(true, "exit status: 0")));
}

#[test]
fn rustup_failing_status_is_an_error() {
    let mut w = wizard(false, Ok(ShellType::Bash));
    expect_run(w.start_step(&InstallStep::RustChannel("stable".to_string())));
    let e = expect_error(w.advance(exited(false, "exit status: 1")));
    assert_eq!(e.message(), "bad status code exit status: 1 when invoking rustup");
}

#[test]
fn missing_rustup_is_installed_with_snap_then_retried() {
    let mut w = wizard(false, Ok(ShellType::Bash));
    expect_run(w.start_step(&InstallStep::RustChannel("beta".to_string())));
    let snap = expect_run(w.advance(StepEvent::Ran(CommandReport::NotStarted("not found".to_string()))));
    assert_eq!(snap.program, "snap");
    assert_eq!(snap.args, vec!["install", "rustup", "--classic"]);
    assert_eq!(snap.run_as, None);
    let retry = expect_run(w.advance(exited(true, "exit status: 0")));
    assert_eq!(retry.program, "rustup");
    assert_eq!(retry.args, vec!["default", "beta"]);
    let e = expect_error(w.advance(exited(false, "exit status: 1")));
    assert_eq!(e.message(), "could not snap run rustup even after snap installing it");
}

#[test]
fn snap_of_rustup_failing_is_an_error() {
    let mut w = wizard(false, Ok(ShellType::Bash));
    expect_run(w.start_step(&InstallStep::RustChannel("beta".to_string())));
    expect_run(w.advance(StepEvent::Ran(CommandReport::NotStarted("not found".to_string()))));
    let e = expect_error(w.advance(exited(false, "exit status: 2")));
    assert_eq!(e.message(), "snap invocation failed with error code exit status: 2");
}

#[test]
fn dry_run_without_rustup_is_fine() {
    let mut w = wizard(true, Ok(ShellType::Bash));
    assert!(matches!(w.start_step(&InstallStep::RustChannel("stable".to_string())), StepAction::Show(_)));
    expect_ok(w.advance(StepEvent::Ran(CommandReport::NotStarted("not found".to_string()))));
}

#[test]
fn cargo_install_is_locked_and_run_as_the_user() {
    let mut w = wizard(false, Ok(ShellType::Bash));
    let c = expect_run(w.start_step(&InstallStep::CargoInstall("bat".to_string())));
    assert_eq!(c.program, "cargo");
    assert_eq!(c.args, vec!["install", "--locked", "bat"]);
    assert_eq!(c.run_as, Some("alice".to_string()));
    let e = expect_error(w.advance(exited(false, "exit status: 101")));
    assert_eq!(e.message(), "cargo install invocation failed with error code exit status: 101");
}

#[test]
fn snaps_run_with_our_privileges() {
    let mut w = wizard(false, Ok(ShellType::Bash));
    let c = expect_run(w.start_step(&InstallStep::Snap {
        package_name: "helix".to_string(),
        classic_confinement: true,
    }));
    assert_eq!(c.program, "snap");
    assert_eq!(c.args, vec!["install", "helix", "--classic"]);
    assert_eq!(c.run_as, None);
    expect_ok(w.advance(exited(true, "exit status: 0")));
    let c = expect_run(w.start_step(&InstallStep::Snap {
        package_name: "just".to_string(),
        classic_confinement: false,
    }));
    assert_eq!(c.args, vec!["install", "just"]);
    let e = expect_error(w.advance(StepEvent::Ran(CommandReport::NotStarted("while running command".to_string()))));
    assert_eq!(e.message(), "while running command");
}

#[test]
fn apt_packages_have_no_installer() {
    let mut w = wizard(false, Ok(ShellType::Bash));
    let e = expect_error(w.start_step(&InstallStep::Apt("ripgrep".to_string())));
    assert_eq!(e.message(), "no installer is known for the apt package ripgrep");
}

#[test]
fn alias_needs_a_known_shell() {
    let mut w = wizard(false, Err(()));
    let e = expect_error(w.start_step(&InstallStep::MakeAlias {
        name: "fd".to_string(),
        command: "fdfind".to_string(),
    }));
    assert_eq!(e.message(), "couldn't make alias fd=fdfind because the shell type was not known");
}

#[test]
fn alias_file_is_headed_once() {
    let mut w = wizard(false, Ok(ShellType::Bash));
    let step = InstallStep::MakeAlias { name: "fd".to_string(), command: "fdfind".to_string() };
    assert!(matches!(w.start_step(&step), StepAction::FindHome(ref u) if u == "alice"));
    match w.advance(StepEvent::Home(Some("/home/alice".to_string()))) {
        StepAction::OpenAliasFile { home, location, header } => {
            assert_eq!(home, "/home/alice");
            assert_eq!(location, ".bash_aliases");
            assert_eq!(header, "\n\n# devpack-for-rust aliases");
        }
        _ => panic!("expected the alias file to be opened"),
    }
    assert!(matches!(w.advance(StepEvent::AliasFileOpened), StepAction::WriteAliasLine(ref l) if l == "alias fd=\"fdfind\""));
    expect_ok(w.advance(StepEvent::AliasLineWritten));

    let step = InstallStep::MakeAlias { name: "rg".to_string(), command: "ripgrep".to_string() };
    assert!(matches!(w.start_step(&step), StepAction::FindHome(_)));
    assert!(matches!(w.advance(StepEvent::Home(Some("/home/alice".to_string()))), StepAction::WriteAliasLine(ref l) if l == "alias rg=\"ripgrep\""));
    expect_ok(w.advance(StepEvent::AliasLineWritten));
}

#[test]
fn failed_open_opens_again_next_time() {
    let mut w = wizard(false, Ok(ShellType::Fish));
    let step = InstallStep::MakeAlias { name: "rg".to_string(), command: "ripgrep".to_string() };
    w.start_step(&step);
    assert!(matches!(w.advance(StepEvent::Home(Some("/home/alice".to_string()))), StepAction::OpenAliasFile { .. }));
    let e = expect_error(w.advance(StepEvent::Failed("trying to open config file".to_string())));
    assert_eq!(e.message(), "trying to open config file");
    w.start_step(&step);
    match w.advance(StepEvent::Home(Some("/home/alice".to_string()))) {
        StepAction::OpenAliasFile { location, .. } => {
            assert_eq!(location, ".config/fish/functions/devpack-for-rust.fish")
        }
        _ => panic!("expected the alias file to be opened again"),
    }
}

#[test]
fn user_without_home_gets_no_alias() {
    let mut w = wizard(false, Ok(ShellType::Zsh));
    w.start_step(&InstallStep::MakeAlias { name: "fd".to_string(), command: "fdfind".to_string() });
    let e = expect_error(w.advance(StepEvent::Home(None)));
    assert_eq!(e.message(), "the given user did not have a home directory?");
}

#[test]
fn dry_run_touches_nothing() {
    let mut w = wizard(true, Ok(ShellType::Bash));
    assert!(matches!(w.start_step(&InstallStep::CargoInstall("bat".to_string())), StepAction::Show(_)));
    expect_ok(w.advance(StepEvent::Shown));
    assert!(matches!(
        w.start_step(&InstallStep::Snap { package_name: "code".to_string(), classic_confinement: true }),
        StepAction::Show(_)
    ));
    expect_ok(w.advance(StepEvent::Shown));
    w.start_step(&InstallStep::MakeAlias { name: "fd".to_string(), command: "fdfind".to_string() });
    expect_ok(w.advance(StepEvent::Home(Some("/home/alice".to_string()))));
}

#[test]
fn unexpected_events_end_the_step() {
    let mut w = wizard(false, Ok(ShellType::Bash));
    let e = expect_error(w.advance(StepEvent::Shown));
    assert!(matches!(e, StepError::UnexpectedEvent));
    w.start_step(&InstallStep::CargoInstall("bat".to_string()));
    let e = expect_error(w.advance(StepEvent::AliasLineWritten));
    assert_eq!(e.message(), "the install step got an event it was not waiting for");
}
