use just_self::naming::{extension_name, is_managed_filename, to_display_name, to_managed_filename};

#[test]
fn managed_filename_gets_the_prefix() {
    assert_eq!(to_managed_filename("widget", ""), "just-widget");
}

#[test]
fn managed_filename_gets_the_suffix() {
    assert_eq!(to_managed_filename("widget", ".exe"), "just-widget.exe");
}

#[test]
fn managed_filename_keeps_a_prefix_that_is_there() {
    assert_eq!(to_managed_filename("just-widget", ""), "just-widget");
    assert_eq!(to_managed_filename("just-widget", ".exe"), "just-widget.exe");
}

#[test]
fn display_name_strips_prefix_and_suffix() {
    assert_eq!(to_display_name("just-widget", ""), "widget");
    assert_eq!(to_display_name("just-widget.exe", ".exe"), "widget");
}

#[test]
fn display_name_strips_the_prefix_once() {
    assert_eq!(to_display_name("just-just-foo", ""), "just-foo");
}

#[test]
fn managed_filenames_are_recognised() {
    assert!(is_managed_filename("just-widget", ""));
    assert!(is_managed_filename("just-", ""));
    assert!(is_managed_filename("just-widget.exe", ".exe"));
    assert!(!is_managed_filename("just-widget", ".exe"));
    assert!(!is_managed_filename("widget", ""));
    assert!(!is_managed_filename("justwidget", ""));
    assert!(!is_managed_filename("", ""));
}

#[test]
fn overlapping_prefix_and_suffix_are_not_managed() {
    assert!(!is_managed_filename("just-x", "t-x"));
    assert_eq!(extension_name("just-x", "t-x"), None);
}

#[test]
fn extension_name_of_other_files_is_none() {
    assert_eq!(extension_name("README.md", ""), None);
    assert_eq!(extension_name("just-widget", ""), Some("widget".to_string()));
}

#[test]
fn round_trip_gives_the_name_back() {
    for suffix in ["", ".exe"] {
        for name in ["widget", "a", "", "foo-bar", "jus", "übung"] {
            let filename = to_managed_filename(name, suffix);
            assert!(is_managed_filename(&filename, suffix));
            assert_eq!(to_display_name(&filename, suffix), name);
        }
    }
}

#[test]
fn round_trip_loses_a_prefix_that_the_name_had() {
    let filename = to_managed_filename("just-foo", "");
    assert_eq!(to_display_name(&filename, ""), "foo");
}

#[test]
fn prefixing_is_idempotent() {
    for suffix in ["", ".exe"] {
        for name in ["widget", "just-widget", "", "just-"] {
            let filename = to_managed_filename(name, suffix);
            let shown = to_display_name(&filename, suffix);
            assert_eq!(to_managed_filename(&shown, suffix), filename);
        }
    }
}

#[test]
fn prefixing_twice_prefixed_names_is_not_idempotent() {
    let filename = to_managed_filename("just-just-foo", "");
    assert_eq!(filename, "just-just-foo");
    let shown = to_display_name(&filename, "");
    assert_eq!(shown, "just-foo");
    assert_eq!(to_managed_filename(&shown, ""), "just-foo");
}

#[test]
fn names_are_handled_by_characters() {
    assert_eq!(to_managed_filename("é", ".exe"), "just-é.exe");
    assert_eq!(to_display_name("just-é.exe", ".exe"), "é");
    assert!(!is_managed_filename("éééé", ""));
}

#[test]
fn scenario_widget_on_a_platform_without_suffix() {
    assert_eq!(to_managed_filename("widget", ""), "just-widget");
    assert_eq!(to_display_name("just-widget", ""), "widget");
}
