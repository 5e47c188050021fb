use dothub::config::{Dot, DotFolder};
use dothub::lookup::{find_dot, find_folder, LookupError};
use dothub::textops::{dot_source_path, parse_location, substitute_home, LocationError};

#[test]
fn location_with_a_slash_names_folder_and_dot() {
    let (folder, dot) = parse_location("waybar/neon").unwrap();
    assert_eq!(folder, "waybar");
    assert_eq!(dot.as_deref(), Some("neon"));
}

#[test]
fn location_without_a_slash_names_the_folder_alone() {
    let (folder, dot) = parse_location("waybar").unwrap();
    assert_eq!(folder, "waybar");
    assert_eq!(dot, None);
}

#[test]
fn location_splits_on_the_first_slash() {
    let (folder, dot) = parse_location("a/b/c").unwrap();
    assert_eq!(folder, "a");
    assert_eq!(dot.as_deref(), Some("b/c"));
}

#[test]
fn empty_segment_after_the_slash_is_invalid() {
    assert_eq!(parse_location("waybar/"), Err(LocationError::EmptyDotName));
}

#[test]
fn substitution_replaces_every_tilde() {
    assert_eq!(substitute_home("~/a and ~/b", "/home/u"), "/home/u/a and /home/u/b");
    assert_eq!(substitute_home("no tilde", "/home/u"), "no tilde");
    assert_eq!(substitute_home("~", ""), "");
}

#[test]
fn source_path_joins_hub_folder_and_dot() {
    assert_eq!(
        dot_source_path("/home/u/.dothub", &"waybar".to_string(), &"neon".to_string()),
        "/home/u/.dothub/waybar/neon"
    );
}

fn sample_folders() -> Vec<DotFolder> {
    vec![
        DotFolder {
            name: "waybar".to_string(),
            dots: vec![
                Dot { name: "neon".to_string(), config: None },
                Dot { name: "plain".to_string(), config: None },
            ],
            config: None,
        },
        DotFolder { name: "polybar".to_string(), dots: vec![], config: None },
    ]
}

#[test]
fn folders_are_found_by_name() {
    let folders = sample_folders();
    let f = find_folder(&folders, &"polybar".to_string()).unwrap();
    assert_eq!(f.name, "polybar");
    assert_eq!(
        find_folder(&folders, &"missing".to_string()),
        Err(LookupError::FolderNotFound { name: "missing".to_string() })
    );
}

#[test]
fn dots_are_found_by_name() {
    let folders = sample_folders();
    let f = find_folder(&folders, &"waybar".to_string()).unwrap();
    let d = find_dot(f, &"plain".to_string()).unwrap();
    assert_eq!(d.name, "plain");
    assert_eq!(
        find_dot(f, &"missing".to_string()),
        Err(LookupError::DotNotFound { name: "missing".to_string() })
    );
}
