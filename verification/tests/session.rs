use hyprshell::bar::Bar;
use hyprshell::bar::Message as BarMessage;
use hyprshell::bar::WorkspaceEvent;
use hyprshell::bar::WorkspaceIdentifier;
use hyprshell::effect::Effect;
use hyprshell::entry::ApplicationEntry;
use hyprshell::entry::ParseOutcome;
use hyprshell::entry::build_index;
use hyprshell::entry::search_roots;
use hyprshell::launcher::ArrowDirection;
use hyprshell::launcher::Launcher;
use hyprshell::shell::InputEvent;
use hyprshell::shell::LauncherMessage;
use hyprshell::shell::Shell;
use hyprshell::shell::ShellMessage;
use hyprshell::shell::route_input;

fn entry(name: &str, exec: Option<&str>) -> ApplicationEntry {
    ApplicationEntry {
        name: name.to_string(),
        exec_template: exec.map(|s| s.to_string()),
        no_display: false,
        hidden: false,
    }
}

fn index() -> Vec<ApplicationEntry> {
    vec![
        entry("Firefox", Some("firefox %u")),
        entry("Files", None),
        entry("Terminal", Some("alacritty")),
    ]
}

#[test]
fn open_creates_surface_and_resets_state() {
    let mut l = Launcher::new();
    let eff = l.open(7, index());
    assert_eq!(l.window, Some(7));
    assert_eq!(l.input, "");
    assert!(l.results.is_empty());
    assert_eq!(l.apps.len(), 3);
    assert_eq!(l.selected_item, 0);
    assert_eq!(eff.len(), 1);
    assert!(matches!(eff[0], Effect::CreateOverlay(7)));
}

#[test]
fn opening_twice_equals_opening_once() {
    let mut l = Launcher::new();
    l.open(7, index());
    l.on_input("fire".to_string());
    let eff = l.open(8, index());
    assert!(eff.is_empty());
    assert_eq!(l.window, Some(7));
    assert_eq!(l.input, "fire");
    assert!(!l.results.is_empty());
}

#[test]
fn close_discards_transient_state() {
    let mut l = Launcher::new();
    l.open(7, index());
    l.on_input("fire".to_string());
    let eff = l.close();
    assert_eq!(l.window, None);
    assert_eq!(l.input, "");
    assert!(l.results.is_empty());
    assert!(l.apps.is_empty());
    assert_eq!(l.selected_item, 0);
    assert_eq!(eff.len(), 1);
    assert!(matches!(eff[0], Effect::DestroyOverlay(7)));
}

#[test]
fn close_when_closed_is_a_no_op() {
    let mut l = Launcher::new();
    let eff = l.close();
    assert!(eff.is_empty());
    assert_eq!(l.window, None);
}

#[test]
fn toggle_opens_then_closes() {
    let mut l = Launcher::new();
    let eff = l.toggle(3, index());
    assert!(matches!(eff[0], Effect::CreateOverlay(3)));
    let eff = l.toggle(4, index());
    assert!(matches!(eff[0], Effect::DestroyOverlay(3)));
    assert_eq!(l.window, None);
}

#[test]
fn typing_ranks_against_the_index() {
    let mut l = Launcher::new();
    l.open(7, index());
    l.on_input("fire".to_string());
    assert!(!l.results.is_empty());
    assert_eq!(l.results[0].entry.name, "Firefox");
}

#[test]
fn arrows_stay_within_bounds() {
    let mut l = Launcher::new();
    l.open(7, index());
    l.on_input("fi".to_string());
    assert!(l.results.len() >= 2);
    let len = l.results.len();
    l.on_arrow(ArrowDirection::Up);
    assert_eq!(l.selected_item, 0);
    for _ in 0..10 {
        l.on_arrow(ArrowDirection::Down);
        assert!(l.selected_item < len);
    }
    assert_eq!(l.selected_item, len - 1);
    for _ in 0..10 {
        l.on_arrow(ArrowDirection::Up);
    }
    assert_eq!(l.selected_item, 0);
}

#[test]
fn arrows_while_closed_are_no_ops() {
    let mut l = Launcher::new();
    l.on_arrow(ArrowDirection::Down);
    assert_eq!(l.selected_item, 0);
    assert_eq!(l.window, None);
}

#[test]
fn shorter_results_reclamp_the_selection() {
    let mut l = Launcher::new();
    l.open(7, index());
    l.on_input("fi".to_string());
    assert_eq!(l.results.len(), 2);
    l.on_arrow(ArrowDirection::Down);
    assert_eq!(l.selected_item, 1);
    l.on_input("terminal".to_string());
    assert_eq!(l.results.len(), 1);
    assert_eq!(l.selected_item, 0);
}

#[test]
fn submit_spawns_expanded_command_and_closes() {
    let mut l = Launcher::new();
    l.open(7, index());
    l.on_input("fire".to_string());
    assert_eq!(l.results[0].entry.name, "Firefox");
    let eff = l.on_submit();
    assert_eq!(eff.len(), 2);
    match &eff[0] {
        Effect::Spawn(c) => assert_eq!(c, "firefox "),
        other => panic!("expected a spawn request, got {other:?}"),
    }
    assert!(matches!(eff[1], Effect::DestroyOverlay(7)));
    assert_eq!(l.window, None);
}

#[test]
fn submit_without_template_only_closes() {
    let mut l = Launcher::new();
    l.open(7, vec![entry("Files", None)]);
    l.on_input("files".to_string());
    assert_eq!(l.results.len(), 1);
    let eff = l.on_submit();
    assert_eq!(eff.len(), 1);
    assert!(matches!(eff[0], Effect::DestroyOverlay(7)));
    assert_eq!(l.window, None);
}

#[test]
fn submit_with_no_matches_is_a_no_op() {
    let mut l = Launcher::new();
    l.open(7, index());
    l.on_input("x".to_string());
    assert!(l.results.is_empty());
    let eff = l.on_submit();
    assert!(eff.is_empty());
    assert_eq!(l.window, Some(7));
    assert_eq!(l.input, "x");
}

#[test]
fn focus_event_for_the_overlay_requests_input_focus() {
    let mut l = Launcher::new();
    l.open(7, index());
    let eff = l.on_focus(7);
    assert_eq!(eff.len(), 1);
    assert!(matches!(eff[0], Effect::FocusInput));
    let eff = l.on_focus(8);
    assert!(eff.is_empty());
}

#[test]
fn shortcut_toggles_the_launcher() {
    let mut s = Shell::new(1, 100);
    let eff = s.update(ShellMessage::ShortcutActivated("ToggleLauncher".to_string()), 7, index());
    assert_eq!(s.state.count, 1);
    assert_eq!(s.state.launcher.window, Some(7));
    assert!(matches!(eff[0], Effect::CreateOverlay(7)));
    let eff = s.update(ShellMessage::ShortcutActivated("ToggleLauncher".to_string()), 8, index());
    assert_eq!(s.state.count, 2);
    assert_eq!(s.state.launcher.window, None);
    assert!(matches!(eff[0], Effect::DestroyOverlay(7)));
}

#[test]
fn unknown_shortcut_is_ignored() {
    let mut s = Shell::new(1, 100);
    let eff = s.update(ShellMessage::ShortcutActivated("Other".to_string()), 7, index());
    assert!(eff.is_empty());
    assert_eq!(s.state.count, 0);
    assert_eq!(s.state.launcher.window, None);
}

#[test]
fn workspace_change_dismisses_the_open_launcher() {
    let mut s = Shell::new(1, 100);
    let triple = vec![entry("fia", None), entry("fib", None), entry("fic", None)];
    s.update(ShellMessage::ToggleLauncher, 7, triple);
    s.update(
        ShellMessage::LauncherMessage(LauncherMessage::LauncherInput("fi".to_string())),
        0,
        Vec::new(),
    );
    assert_eq!(s.state.launcher.results.len(), 3);
    s.update(ShellMessage::ArrowKey(ArrowDirection::Down), 0, Vec::new());
    s.update(ShellMessage::ArrowKey(ArrowDirection::Down), 0, Vec::new());
    assert_eq!(s.state.launcher.selected_item, 2);
    let eff = s.update(ShellMessage::HyprlandEvent(WorkspaceEvent::Changed(5)), 0, Vec::new());
    assert_eq!(s.state.active_workspace, 5);
    assert_eq!(s.state.launcher.window, None);
    assert_eq!(s.state.launcher.input, "");
    assert!(s.state.launcher.results.is_empty());
    assert!(s.state.launcher.apps.is_empty());
    assert_eq!(s.state.launcher.selected_item, 0);
    assert_eq!(eff.len(), 1);
    assert!(matches!(eff[0], Effect::DestroyOverlay(7)));
}

#[test]
fn escape_closes_the_launcher() {
    let mut s = Shell::new(1, 100);
    s.update(ShellMessage::ToggleLauncher, 7, index());
    let eff = s.update(ShellMessage::Escape, 0, Vec::new());
    assert_eq!(s.state.launcher.window, None);
    assert!(matches!(eff[0], Effect::DestroyOverlay(7)));
    let eff = s.update(ShellMessage::Escape, 0, Vec::new());
    assert!(eff.is_empty());
}

#[test]
fn submit_through_the_router_spawns_and_closes() {
    let mut s = Shell::new(1, 100);
    s.update(ShellMessage::ToggleLauncher, 7, index());
    s.update(
        ShellMessage::LauncherMessage(LauncherMessage::LauncherInput("terminal".to_string())),
        0,
        Vec::new(),
    );
    assert_eq!(s.state.launcher.results[0].entry.name, "Terminal");
    let eff = s.update(
        ShellMessage::LauncherMessage(LauncherMessage::LauncherSubmit),
        0,
        Vec::new(),
    );
    assert_eq!(eff.len(), 2);
    match &eff[0] {
        Effect::Spawn(c) => assert_eq!(c, "alacritty"),
        other => panic!("expected a spawn request, got {other:?}"),
    }
    assert!(matches!(eff[1], Effect::DestroyOverlay(7)));
}

#[test]
fn layer_focus_routes_to_the_overlay() {
    let mut s = Shell::new(1, 100);
    s.update(ShellMessage::ToggleLauncher, 7, index());
    let eff = s.update(ShellMessage::LayerFocused(7), 0, Vec::new());
    assert!(matches!(eff[0], Effect::FocusInput));
    let eff = s.update(ShellMessage::LayerFocused(100), 0, Vec::new());
    assert!(eff.is_empty());
}

#[test]
fn workspace_switch_request_emits_the_command() {
    let mut s = Shell::new(1, 100);
    let eff = s.update(
        ShellMessage::SetWorkspace(WorkspaceIdentifier::Name("web".to_string())),
        0,
        Vec::new(),
    );
    assert_eq!(eff.len(), 1);
    match &eff[0] {
        Effect::SetWorkspace(WorkspaceIdentifier::Name(n)) => assert_eq!(n, "web"),
        other => panic!("expected a workspace command, got {other:?}"),
    }
}

#[test]
fn timer_tick_is_ignored() {
    let mut s = Shell::new(1, 100);
    let eff = s.update(ShellMessage::TimeTick, 0, Vec::new());
    assert!(eff.is_empty());
    assert_eq!(s.state.count, 0);
}

#[test]
fn blueman_button_spawns_manager() {
    let mut s = Shell::new(1, 100);
    let eff = s.update(ShellMessage::OpenBlueman, 0, Vec::new());
    assert_eq!(eff.len(), 1);
    match &eff[0] {
        Effect::Spawn(c) => assert_eq!(c, "blueman-manager"),
        other => panic!("expected a spawn request, got {other:?}"),
    }
}

#[test]
fn bar_counts_and_follows_workspaces() {
    let mut b = Bar::new(2, 100);
    assert_eq!(b.count, 0);
    b.update(BarMessage::ButtonPressed);
    assert_eq!(b.count, 1);
    b.update(BarMessage::HyprlandEvent(WorkspaceEvent::Changed(9)));
    assert_eq!(b.active_workspace, 9);
    let eff = b.update(BarMessage::OpenBlueman);
    match &eff[0] {
        Effect::Spawn(c) => assert_eq!(c, "blueman-manager"),
        other => panic!("expected a spawn request, got {other:?}"),
    }
    let eff = b.update(BarMessage::TimeTick);
    assert!(eff.is_empty());
}

#[test]
fn index_build_filters_hidden_and_failed_entries() {
    let visible = entry("Firefox", Some("firefox %u"));
    let mut no_display = entry("Ghost", None);
    no_display.no_display = true;
    let mut hidden = entry("Veiled", None);
    hidden.hidden = true;
    let outcomes = vec![
        ParseOutcome::Application(visible),
        ParseOutcome::Application(no_display),
        ParseOutcome::Failed,
        ParseOutcome::Application(hidden),
        ParseOutcome::NotApplication,
        ParseOutcome::Application(entry("Files", None)),
    ];
    let idx = build_index(&outcomes);
    assert_eq!(idx.len(), 2);
    assert_eq!(idx[0].name, "Firefox");
    assert_eq!(idx[1].name, "Files");
}

#[test]
fn search_roots_from_explicit_values() {
    let roots = search_roots(
        &Some(b"/data".to_vec()),
        &b"/home/u".to_vec(),
        &Some(b"/a:/b/".to_vec()),
    );
    let as_strings: Vec<String> =
        roots.iter().map(|r| String::from_utf8(r.clone()).unwrap()).collect();
    assert_eq!(as_strings, vec!["/data/applications", "/a/applications", "/b/applications"]);
}

#[test]
fn search_roots_from_defaults() {
    let roots = search_roots(&None, &b"/home/u".to_vec(), &None);
    let as_strings: Vec<String> =
        roots.iter().map(|r| String::from_utf8(r.clone()).unwrap()).collect();
    assert_eq!(
        as_strings,
        vec![
            "/home/u/.local/share/applications",
            "/usr/local/share/applications",
            "/usr/share/applications",
        ]
    );
}

#[test]
fn raw_input_events_route_to_router_events() {
    assert!(matches!(route_input(InputEvent::KeyEscape), Some(ShellMessage::Escape)));
    assert!(matches!(
        route_input(InputEvent::KeyArrowUp),
        Some(ShellMessage::ArrowKey(ArrowDirection::Up))
    ));
    assert!(matches!(
        route_input(InputEvent::KeyArrowDown),
        Some(ShellMessage::ArrowKey(ArrowDirection::Down))
    ));
    assert!(matches!(
        route_input(InputEvent::PointerPressIgnored),
        Some(ShellMessage::Escape)
    ));
    assert!(route_input(InputEvent::PointerPressClaimed).is_none());
    assert!(route_input(InputEvent::OtherKey).is_none());
    assert!(matches!(
        route_input(InputEvent::SurfaceFocused(9)),
        Some(ShellMessage::LayerFocused(9))
    ));
}
