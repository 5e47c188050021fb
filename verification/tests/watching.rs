use dothub::config::DotConfig;
use dothub::lifecycle::LifecycleError;
use dothub::watch::{watch_plan, watch_step, WatchEvent};

fn cfg(start: Option<&str>, kill: Option<&str>, reload: Option<&str>) -> DotConfig {
    DotConfig {
        start: start.map(|s| s.to_string()),
        kill: kill.map(|s| s.to_string()),
        reload: reload.map(|s| s.to_string()),
        destination: "/dest".to_string(),
        reload_on_set: None,
    }
}

#[test]
fn a_file_change_triggers_the_reload_command() {
    let r = watch_step(&cfg(None, None, Some("r")), WatchEvent::Changed { path_is_file: true });
    assert_eq!(r.unwrap().as_deref(), Some("r"));
}

#[test]
fn a_non_file_change_is_ignored() {
    let r = watch_step(&cfg(None, None, Some("r")), WatchEvent::Changed { path_is_file: false });
    assert_eq!(r.unwrap(), None);
}

#[test]
fn a_failed_event_is_reported_and_the_watch_goes_on() {
    let r = watch_step(&cfg(None, None, Some("r")), WatchEvent::Failed);
    assert_eq!(r.unwrap(), None);
}

#[test]
fn a_file_change_without_reload_commands_stops_the_watch() {
    let r = watch_step(&cfg(None, None, None), WatchEvent::Changed { path_is_file: true });
    assert_eq!(r, Err(LifecycleError::NoReloadCommand));
}

#[test]
fn three_rapid_file_writes_reload_three_times() {
    let events = vec![
        WatchEvent::Changed { path_is_file: true },
        WatchEvent::Changed { path_is_file: true },
        WatchEvent::Changed { path_is_file: true },
    ];
    let cmds = watch_plan(&cfg(Some("a"), Some("b"), None), &events).unwrap();
    assert_eq!(cmds, vec!["b && a", "b && a", "b && a"]);
}

#[test]
fn only_file_changes_reload_within_a_burst() {
    let events = vec![
        WatchEvent::Changed { path_is_file: true },
        WatchEvent::Failed,
        WatchEvent::Changed { path_is_file: false },
        WatchEvent::Changed { path_is_file: true },
    ];
    let cmds = watch_plan(&cfg(None, None, Some("r")), &events).unwrap();
    assert_eq!(cmds, vec!["r", "r"]);
}
