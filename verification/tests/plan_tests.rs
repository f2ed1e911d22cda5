use devpack_for_rust::cli::{Cli, StartupVerdict, UserError};
use devpack_for_rust::install_plan::InstallPlan;
use devpack_for_rust::recipe::{InstallRecipe, InstallStep};

fn apt(p: &str) -> InstallStep {
    InstallStep::Apt(p.to_string())
}

fn name_of(step: Option<&InstallStep>) -> Option<String> {
    match step {
        Some(InstallStep::Apt(p)) => Some(p.clone()),
        Some(_) => Some("?".to_string()),
        None => None,
    }
}

fn recipes() -> Vec<InstallRecipe> {
    vec![
        InstallRecipe::new(vec![apt("a1"), apt("a2")]),
        InstallRecipe::new(vec![]),
        InstallRecipe::new(vec![apt("c1"), apt("c2")]),
    ]
}

#[test]
fn steps_come_in_order() {
    let mut plan = InstallPlan::new(recipes(), false);
    let mut seen = Vec::new();
    while let Some(step) = name_of(plan.current()) {
        seen.push(step);
        plan.record(true);
    }
    assert_eq!(seen, vec!["a1", "a2", "c1", "c2"]);
    assert!(!plan.aborted());
}

#[test]
fn failure_skips_rest_of_recipe_when_continuing() {
    let mut plan = InstallPlan::new(recipes(), true);
    assert_eq!(name_of(plan.current()).as_deref(), Some("a1"));
    plan.record(false);
    assert_eq!(name_of(plan.current()).as_deref(), Some("c1"));
    plan.record(true);
    assert_eq!(name_of(plan.current()).as_deref(), Some("c2"));
    plan.record(false);
    assert_eq!(name_of(plan.current()), None);
    assert!(!plan.aborted());
}

#[test]
fn failure_stops_plan_otherwise() {
    let mut plan = InstallPlan::new(recipes(), false);
    plan.record(true);
    assert_eq!(name_of(plan.current()).as_deref(), Some("a2"));
    plan.record(false);
    assert!(plan.aborted());
    assert_eq!(name_of(plan.current()), None);
    plan.record(true);
    assert_eq!(name_of(plan.current()), None);
}

#[test]
fn empty_plans_have_nothing_to_do() {
    let plan = InstallPlan::new(vec![InstallRecipe::new(vec![])], false);
    assert_eq!(name_of(plan.current()), None);
    let plan = InstallPlan::new(vec![], true);
    assert_eq!(name_of(plan.current()), None);
}

fn cli(skip_linker_check: bool, override_user: Option<&str>) -> Cli {
    Cli {
        dry_run: false,
        override_shell_type: None,
        override_user: override_user.map(|u| u.to_string()),
        skip_linker_check,
        continue_after_failure: false,
    }
}

#[test]
fn startup_needs_sudo_and_a_linker() {
    assert_eq!(cli(false, None).startup_verdict(true, true), StartupVerdict::NeedsSudo);
    assert_eq!(cli(false, None).startup_verdict(false, false), StartupVerdict::NeedsLinker);
    assert_eq!(cli(true, None).startup_verdict(false, false), StartupVerdict::Proceed);
    assert_eq!(cli(false, None).startup_verdict(false, true), StartupVerdict::Proceed);
    assert_eq!(StartupVerdict::NeedsSudo.message(), "Please run devpack-for-rust through sudo.");
}

#[test]
fn real_user_comes_from_override_or_sudo() {
    assert_eq!(cli(false, Some("carol")).real_user(Some(Ok("dave".to_string()))), Ok("carol".to_string()));
    assert_eq!(cli(false, None).real_user(Some(Ok("dave".to_string()))), Ok("dave".to_string()));
    assert_eq!(cli(false, None).real_user(None), Err(UserError::SudoUserUnset));
    assert_eq!(cli(false, None).real_user(Some(Err(()))), Err(UserError::SudoUserNotText));
    assert_eq!(
        UserError::SudoUserUnset.message(),
        "$SUDO_USER was not set (are you running this via sudo?)"
    );
}
