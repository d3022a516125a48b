use hyprshell::entry::ApplicationEntry;
use hyprshell::launch::expand_field_codes;
use hyprshell::launch::launch_command;

#[test]
fn url_code_expands_to_nothing() {
    assert_eq!(expand_field_codes("firefox %u"), "firefox ");
}

#[test]
fn doubled_percent_is_literal_percent() {
    assert_eq!(expand_field_codes("echo 100%%"), "echo 100%");
}

#[test]
fn all_recognized_codes_expand_to_nothing() {
    assert_eq!(expand_field_codes("run %f %F %u %U %i %c %k end"), "run        end");
}

#[test]
fn unrecognized_code_also_expands_to_nothing() {
    assert_eq!(expand_field_codes("a%zb"), "ab");
}

#[test]
fn trailing_lone_percent_stays() {
    assert_eq!(expand_field_codes("tail%"), "tail%");
}

#[test]
fn empty_template_stays_empty() {
    assert_eq!(expand_field_codes(""), "");
}

#[test]
fn template_without_codes_is_unchanged() {
    assert_eq!(expand_field_codes("alacritty -e htop"), "alacritty -e htop");
}

#[test]
fn consecutive_codes() {
    assert_eq!(expand_field_codes("%u%U%%"), "%");
}

#[test]
fn launch_command_expands_template() {
    let e = ApplicationEntry {
        name: "Firefox".to_string(),
        exec_template: Some("firefox %u".to_string()),
        no_display: false,
        hidden: false,
    };
    assert_eq!(launch_command(&e), Some("firefox ".to_string()));
}

#[test]
fn launch_command_without_template_is_none() {
    let e = ApplicationEntry {
        name: "Ghost".to_string(),
        exec_template: None,
        no_display: false,
        hidden: false,
    };
    assert_eq!(launch_command(&e), None);
}
