use dothub::config::{get_active_config, Dot, DotConfig, DotFolder, ResolveError};

fn cfg(
    start: Option<&str>,
    kill: Option<&str>,
    reload: Option<&str>,
    destination: &str,
    reload_on_set: Option<bool>,
) -> DotConfig {
    DotConfig {
        start: start.map(|s| s.to_string()),
        kill: kill.map(|s| s.to_string()),
        reload: reload.map(|s| s.to_string()),
        destination: destination.to_string(),
        reload_on_set,
    }
}

fn folder(name: &str, dots: Vec<Dot>, config: Option<DotConfig>) -> DotFolder {
    DotFolder { name: name.to_string(), dots, config }
}

#[test]
fn merge_is_field_by_field_entry_wins() {
    let fc = cfg(Some("fs"), Some("fk"), Some("fr"), "/fdest", Some(true));
    let ec = cfg(None, Some("ek"), None, "/edest", Some(false));
    let f = folder("f", vec![], Some(fc));
    let d = Dot { name: "d".to_string(), config: Some(ec) };
    let merged = get_active_config(&f, Some(&d)).unwrap();
    assert_eq!(merged.start.as_deref(), Some("fs"));
    assert_eq!(merged.kill.as_deref(), Some("ek"));
    assert_eq!(merged.reload.as_deref(), Some("fr"));
    assert_eq!(merged.destination, "/edest");
    assert_eq!(merged.reload_on_set, Some(false));
}

#[test]
fn merge_treats_empty_entry_destination_as_absent() {
    let fc = cfg(None, None, None, "/fdest", None);
    let ec = cfg(Some("es"), None, None, "", None);
    let f = folder("f", vec![], Some(fc));
    let d = Dot { name: "d".to_string(), config: Some(ec) };
    let merged = get_active_config(&f, Some(&d)).unwrap();
    assert_eq!(merged.destination, "/fdest");
    assert_eq!(merged.start.as_deref(), Some("es"));
}

#[test]
fn resolve_without_dot_equals_resolve_with_configless_dot() {
    let fc = cfg(Some("fs"), None, Some("fr"), "/fdest", Some(true));
    let f = folder("f", vec![], Some(fc));
    let d = Dot { name: "d".to_string(), config: None };
    let with_dot = get_active_config(&f, Some(&d)).unwrap();
    let without_dot = get_active_config(&f, None).unwrap();
    assert_eq!(with_dot, without_dot);
    assert_eq!(without_dot, f.config.clone().unwrap());
}

#[test]
fn resolve_waybar_neon_scenario() {
    let fc = cfg(None, None, None, "/tmp/waybar-conf", None);
    let ec = cfg(None, None, None, "", None);
    let neon = Dot { name: "neon".to_string(), config: Some(ec) };
    let waybar = folder("waybar", vec![], Some(fc));
    let effective = get_active_config(&waybar, Some(&neon)).unwrap();
    assert_eq!(effective.destination, "/tmp/waybar-conf");
    assert_eq!(effective.start, None);
    assert_eq!(effective.kill, None);
    assert_eq!(effective.reload, None);
    assert_eq!(effective.reload_on_set, None);
}

#[test]
fn resolve_fails_without_folder_config() {
    let f = folder("bare", vec![], None);
    assert_eq!(get_active_config(&f, None), Err(ResolveError::MissingDestination));
    let d = Dot {
        name: "d".to_string(),
        config: Some(cfg(Some("s"), Some("k"), Some("r"), "/dest", Some(true))),
    };
    assert_eq!(get_active_config(&f, Some(&d)), Err(ResolveError::MissingDestination));
}

#[test]
fn hub_scenario_waybar_neon_through_the_scanner() {
    let waybar = dothub::scan::process_dotfolder(
        "waybar".to_string(),
        Some("destination = \"/tmp/waybar-conf\"\n"),
        vec![("neon".to_string(), Some("".to_string()))],
        "/home/u",
    )
    .unwrap();
    let neon = dothub::lookup::find_dot(&waybar, &"neon".to_string()).unwrap();
    let effective = get_active_config(&waybar, Some(neon)).unwrap();
    assert_eq!(effective.destination, "/tmp/waybar-conf");
    assert_eq!(effective.start, None);
    assert_eq!(effective.kill, None);
    assert_eq!(effective.reload, None);
    assert_eq!(effective.reload_on_set, None);
}
