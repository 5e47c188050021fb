use dothub::profiles::{applier_next, process_profile, ApplierStep, Profile};
use dothub::scan::ScanError;

#[test]
fn profile_fields_are_parsed() {
    let text = "start = [\"feh --bg-fill x.png\", \"nm-applet &\"]\n\n[dots]\nwaybar = \"neon\"\npolybar = \"red\"\n";
    let p = process_profile("work".to_string(), text).unwrap();
    assert_eq!(p.name, "work");
    assert_eq!(
        p.start,
        Some(vec!["feh --bg-fill x.png".to_string(), "nm-applet &".to_string()])
    );
    // The toml table is key-ordered, so the pairs come out sorted by folder.
    assert_eq!(
        p.dots,
        Some(vec![
            ("polybar".to_string(), "red".to_string()),
            ("waybar".to_string(), "neon".to_string()),
        ])
    );
}

#[test]
fn profile_without_keys_is_valid_and_empty() {
    let p = process_profile("empty".to_string(), "").unwrap();
    assert_eq!(p.start, None);
    assert_eq!(p.dots, None);
    assert_eq!(applier_next(&p, 0, false), ApplierStep::ApplyPairs);
}

#[test]
fn unparsable_profile_fails_with_its_name() {
    let err = process_profile("broken".to_string(), "start = [").unwrap_err();
    assert_eq!(err, ScanError::MarkerUnparsable { name: "broken".to_string() });
}

#[test]
fn bootstrap_commands_run_in_order_then_pairs_apply() {
    let p = Profile {
        name: "p".to_string(),
        start: Some(vec!["one".to_string(), "two".to_string()]),
        dots: None,
    };
    assert_eq!(applier_next(&p, 0, false), ApplierStep::RunBootstrap("one".to_string()));
    assert_eq!(applier_next(&p, 1, false), ApplierStep::RunBootstrap("two".to_string()));
    assert_eq!(applier_next(&p, 2, false), ApplierStep::ApplyPairs);
}

#[test]
fn a_failed_bootstrap_command_aborts_the_profile() {
    let p = Profile {
        name: "p".to_string(),
        start: Some(vec!["one".to_string(), "two".to_string()]),
        dots: None,
    };
    assert_eq!(applier_next(&p, 1, true), ApplierStep::Abort);
}
