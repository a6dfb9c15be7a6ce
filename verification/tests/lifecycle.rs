use tray_presence::lifecycle::AppState;
use tray_presence::lifecycle::Directive;
use tray_presence::lifecycle::ProcessStatus;
use tray_presence::lifecycle::TrayInteraction;
use tray_presence::lifecycle::TrayState;
use tray_presence::lifecycle::Visibility;
use tray_presence::lifecycle::WindowEventKind;
use tray_presence::lifecycle::WindowState;
use tray_presence::startup::initial_state;

fn visibility(s: &AppState) -> Visibility {
    s.window.as_ref().expect("window should be tracked").visibility
}

fn focused(s: &AppState) -> bool {
    s.window.as_ref().expect("window should be tracked").focused
}

fn tooltip(s: &AppState) -> &str {
    &s.tray.as_ref().expect("tray should be tracked").tooltip
}

#[test]
fn full_session_close_show_quit() {
    // Window visible -> close requested -> hidden -> tray click -> visible,
    // focused -> "quit" -> process exits 0.
    let mut s = initial_state("Chatmosphere");
    assert_eq!(visibility(&s), Visibility::Visible);

    let d1 = s.on_window_event("main", WindowEventKind::CloseRequested);
    assert!(matches!(d1, Directive::HideInsteadOfClose));
    assert_eq!(visibility(&s), Visibility::Hidden);
    assert_eq!(s.status, ProcessStatus::Running);

    let d2 = s.on_tray_event(TrayInteraction::PrimaryClick);
    assert!(matches!(d2, Directive::ShowAndFocus));
    assert_eq!(visibility(&s), Visibility::Visible);
    assert!(focused(&s));

    let d3 = s.on_menu_event("quit");
    assert!(matches!(d3, Directive::ExitProcess(0)));
    assert_eq!(s.status, ProcessStatus::Exited(0));
}

#[test]
fn repeated_close_requests_never_destroy() {
    let mut s = initial_state("Chatmosphere");
    for _ in 0..10 {
        let d = s.on_window_event("main", WindowEventKind::CloseRequested);
        assert!(matches!(d, Directive::HideInsteadOfClose));
        assert!(s.window.is_some());
        assert_eq!(s.status, ProcessStatus::Running);
        assert_eq!(visibility(&s), Visibility::Hidden);
    }
}

#[test]
fn close_hides_and_unfocuses() {
    let mut s = initial_state("Chatmosphere");
    s.on_window_event("main", WindowEventKind::CloseRequested);
    assert_eq!(
        s.window,
        Some(WindowState { visibility: Visibility::Hidden, focused: false })
    );
}

#[test]
fn show_menu_event_restores_visibility_and_focus() {
    let mut s = initial_state("Chatmosphere");
    s.on_window_event("main", WindowEventKind::CloseRequested);
    assert_eq!(visibility(&s), Visibility::Hidden);
    let d = s.on_menu_event("show");
    assert!(matches!(d, Directive::ShowAndFocus));
    assert_eq!(
        s.window,
        Some(WindowState { visibility: Visibility::Visible, focused: true })
    );
}

#[test]
fn close_request_on_other_window_is_ignored() {
    let mut s = initial_state("Chatmosphere");
    let d = s.on_window_event("settings", WindowEventKind::CloseRequested);
    assert!(matches!(d, Directive::Ignore));
    assert_eq!(visibility(&s), Visibility::Visible);
    assert_eq!(s.status, ProcessStatus::Running);
}

#[test]
fn other_window_event_kind_is_ignored() {
    let mut s = initial_state("Chatmosphere");
    let d = s.on_window_event("main", WindowEventKind::Other);
    assert!(matches!(d, Directive::Ignore));
    assert_eq!(visibility(&s), Visibility::Visible);
}

#[test]
fn quit_regardless_of_visibility() {
    // Quit while visible.
    let mut s1 = initial_state("Chatmosphere");
    let d1 = s1.on_menu_event("quit");
    assert!(matches!(d1, Directive::ExitProcess(0)));
    assert_eq!(s1.status, ProcessStatus::Exited(0));

    // Quit while hidden.
    let mut s2 = initial_state("Chatmosphere");
    s2.on_window_event("main", WindowEventKind::CloseRequested);
    let d2 = s2.on_menu_event("quit");
    assert!(matches!(d2, Directive::ExitProcess(0)));
    assert_eq!(s2.status, ProcessStatus::Exited(0));
}

#[test]
fn unrecognized_menu_id_changes_nothing() {
    let mut s = initial_state("Chatmosphere");
    s.on_window_event("main", WindowEventKind::CloseRequested);
    let before_window = s.window;
    let d = s.on_menu_event("preferences");
    assert!(matches!(d, Directive::Ignore));
    assert_eq!(s.window, before_window);
    assert_eq!(s.status, ProcessStatus::Running);
    assert_eq!(tooltip(&s), "Chatmosphere");
}

#[test]
fn secondary_tray_interaction_is_ignored() {
    let mut s = initial_state("Chatmosphere");
    s.on_window_event("main", WindowEventKind::CloseRequested);
    let d = s.on_tray_event(TrayInteraction::Other);
    assert!(matches!(d, Directive::Ignore));
    assert_eq!(visibility(&s), Visibility::Hidden);
}

#[test]
fn tooltip_update_with_tray_present() {
    let mut s = initial_state("Chatmosphere");
    let d = s.update_tray_tooltip(String::from("3 unread messages"));
    match d {
        Directive::SetTooltip(text) => assert_eq!(text, "3 unread messages"),
        _ => panic!("expected a tooltip directive"),
    }
    assert_eq!(tooltip(&s), "3 unread messages");
}

#[test]
fn tooltip_update_with_empty_string() {
    let mut s = initial_state("Chatmosphere");
    let d = s.update_tray_tooltip(String::new());
    assert!(matches!(d, Directive::SetTooltip(_)));
    assert_eq!(tooltip(&s), "");
}

#[test]
fn tooltip_update_without_tray_is_silent_noop() {
    let mut s = AppState {
        window: Some(WindowState { visibility: Visibility::Visible, focused: true }),
        tray: None,
        status: ProcessStatus::Running,
    };
    let d = s.update_tray_tooltip(String::from("anything"));
    assert!(matches!(d, Directive::Ignore));
    assert!(s.tray.is_none());
    assert_eq!(s.status, ProcessStatus::Running);
}

#[test]
fn show_requests_dropped_when_window_unresolvable() {
    let mut s = AppState {
        window: None,
        tray: Some(TrayState { tooltip: String::from("Chatmosphere") }),
        status: ProcessStatus::Running,
    };
    let d1 = s.on_menu_event("show");
    assert!(matches!(d1, Directive::Ignore));
    let d2 = s.on_tray_event(TrayInteraction::PrimaryClick);
    assert!(matches!(d2, Directive::Ignore));
    assert!(s.window.is_none());
    assert_eq!(s.status, ProcessStatus::Running);
}

#[test]
fn events_after_exit_are_ignored() {
    let mut s = initial_state("Chatmosphere");
    s.on_menu_event("quit");
    assert_eq!(s.status, ProcessStatus::Exited(0));

    let d1 = s.on_window_event("main", WindowEventKind::CloseRequested);
    assert!(matches!(d1, Directive::Ignore));
    let d2 = s.on_menu_event("show");
    assert!(matches!(d2, Directive::Ignore));
    let d3 = s.update_tray_tooltip(String::from("late"));
    assert!(matches!(d3, Directive::Ignore));
    assert_eq!(s.status, ProcessStatus::Exited(0));
    assert_eq!(tooltip(&s), "Chatmosphere");
}
