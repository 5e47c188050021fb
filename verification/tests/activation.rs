use dothub::activation::{dot_set, should_reload_on_set, ActivationStep, DestState};
use dothub::config::DotConfig;

fn cfg(
    start: Option<&str>,
    kill: Option<&str>,
    reload: Option<&str>,
    reload_on_set: Option<bool>,
) -> DotConfig {
    DotConfig {
        start: start.map(|s| s.to_string()),
        kill: kill.map(|s| s.to_string()),
        reload: reload.map(|s| s.to_string()),
        destination: "/dest".to_string(),
        reload_on_set,
    }
}

#[test]
fn absent_destination_without_parent_creates_it_then_links() {
    let plan = dot_set(&cfg(None, None, None, None), DestState::Absent, false);
    assert_eq!(
        plan.steps,
        vec![ActivationStep::CreateParentDirs, ActivationStep::CreateLink]
    );
}

#[test]
fn absent_destination_with_parent_only_links() {
    let plan = dot_set(&cfg(None, None, None, None), DestState::Absent, true);
    assert_eq!(plan.steps, vec![ActivationStep::CreateLink]);
}

#[test]
fn file_destination_is_removed_then_linked() {
    let plan = dot_set(&cfg(None, None, None, None), DestState::IsFile, true);
    assert_eq!(plan.steps, vec![ActivationStep::RemoveFile, ActivationStep::CreateLink]);
}

#[test]
fn directory_destination_is_cleared_before_the_link() {
    let plan = dot_set(&cfg(None, None, None, None), DestState::IsDir, true);
    assert_eq!(plan.steps, vec![ActivationStep::RemoveDirAll, ActivationStep::CreateLink]);
    assert!(plan.steps.iter().position(|s| *s == ActivationStep::RemoveDirAll).unwrap()
        < plan.steps.iter().position(|s| *s == ActivationStep::CreateLink).unwrap());
}

#[test]
fn second_activation_replans_without_error() {
    let c = cfg(None, None, None, None);
    let first = dot_set(&c, DestState::Absent, true);
    assert_eq!(first.steps.last(), Some(&ActivationStep::CreateLink));
    // After the first activation the destination is a link to the source; a
    // directory source reports as a directory, a file source as a file.
    let second_over_dir = dot_set(&c, DestState::IsDir, true);
    assert_eq!(
        second_over_dir.steps,
        vec![ActivationStep::RemoveDirAll, ActivationStep::CreateLink]
    );
    let second_over_file = dot_set(&c, DestState::IsFile, true);
    assert_eq!(
        second_over_file.steps,
        vec![ActivationStep::RemoveFile, ActivationStep::CreateLink]
    );
}

#[test]
fn reload_on_set_false_suppresses_the_reload() {
    let plan = dot_set(&cfg(Some("a"), Some("b"), None, Some(false)), DestState::Absent, true);
    assert_eq!(plan.reload, None);
    assert!(!should_reload_on_set(&cfg(Some("a"), Some("b"), Some("r"), Some(false))));
}

#[test]
fn reload_on_set_unset_triggers_the_reload() {
    let plan = dot_set(&cfg(Some("a"), Some("b"), None, None), DestState::Absent, true);
    assert_eq!(plan.reload.as_deref(), Some("b && a"));
}

#[test]
fn reload_on_set_true_triggers_the_reload() {
    let plan = dot_set(&cfg(None, None, Some("r"), Some(true)), DestState::Absent, true);
    assert_eq!(plan.reload.as_deref(), Some("r"));
}

#[test]
fn no_commands_means_no_reload_and_no_error() {
    let plan = dot_set(&cfg(None, None, None, None), DestState::Absent, true);
    assert_eq!(plan.reload, None);
    let plan = dot_set(&cfg(Some("a"), None, None, Some(true)), DestState::Absent, true);
    assert_eq!(plan.reload, None);
}
