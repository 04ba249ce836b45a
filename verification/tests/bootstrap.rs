use app_bootstrap::bootstrap::run;
use app_bootstrap::bootstrap::BootEvent;
use app_bootstrap::bootstrap::Bootstrapper;
use app_bootstrap::bootstrap::Phase;
use app_bootstrap::registry::WindowRegistry;
use app_bootstrap::window::Window;

fn registry_of(labels: &[(&str, bool)]) -> WindowRegistry {
    let mut registry = WindowRegistry::new();
    for (label, grants_focus) in labels {
        let added = registry.add_window(Window::new(String::from(*label), *grants_focus));
        assert!(added);
    }
    registry
}

#[test]
fn main_window_receives_one_focus_request() {
    let mut registry = registry_of(&[("main", true), ("settings", true)]);
    let outcome = run(&mut registry, true);
    assert!(outcome.is_ok());
    assert!(registry.windows[0].focus_requested);
    assert!(!registry.windows[1].focus_requested);
}

#[test]
fn focus_denied_is_still_recorded() {
    let mut registry = registry_of(&[("main", false)]);
    let outcome = run(&mut registry, true);
    assert!(outcome.is_ok());
    assert!(registry.windows[0].focus_requested);
}

#[test]
fn empty_registry_records_nothing() {
    let mut registry = WindowRegistry::new();
    let outcome = run(&mut registry, true);
    assert!(outcome.is_ok());
    assert!(registry.windows.is_empty());
}

#[test]
fn missing_main_label_leaves_windows_untouched() {
    let mut registry = registry_of(&[("settings", true), ("about", false)]);
    let outcome = run(&mut registry, true);
    assert!(outcome.is_ok());
    assert!(!registry.windows[0].focus_requested);
    assert!(!registry.windows[1].focus_requested);
}

#[test]
fn hook_succeeds_in_every_registry_state() {
    let states: [&[(&str, bool)]; 4] =
        [&[("main", true)], &[("main", false)], &[("settings", true)], &[]];
    for labels in states {
        let mut registry = registry_of(labels);
        let mut boot = Bootstrapper::initialize();
        assert!(boot.on_startup(&mut registry).is_ok());
    }
}

#[test]
fn plugin_registered_before_hook_runs() {
    let mut registry = registry_of(&[("main", true)]);
    let boot = run(&mut registry, true).unwrap();
    assert!(boot.plugin_registered);
    assert_eq!(boot.events, vec![BootEvent::PluginRegistered, BootEvent::HookInvoked]);
    assert_eq!(boot.phase, Phase::Running);
}

#[test]
fn host_start_failure_is_fatal() {
    let mut registry = registry_of(&[("main", true)]);
    let outcome = run(&mut registry, false);
    assert!(outcome.is_err());
    assert!(!registry.windows[0].focus_requested);
}

#[test]
fn duplicate_label_is_refused() {
    let mut registry = registry_of(&[("main", true)]);
    let added = registry.add_window(Window::new(String::from("main"), false));
    assert!(!added);
    assert_eq!(registry.windows.len(), 1);
    assert!(registry.windows[0].grants_focus);
}

#[test]
fn lookup_resolves_label() {
    let registry = registry_of(&[("main", true), ("settings", true)]);
    assert_eq!(registry.lookup(&String::from("settings")), Some(1));
    assert_eq!(registry.lookup(&String::from("main")), Some(0));
    assert_eq!(registry.lookup(&String::from("absent")), None);
}

#[test]
fn request_focus_reports_host_answer() {
    let mut registry = registry_of(&[("main", true), ("settings", false)]);
    assert!(registry.request_focus(0));
    assert!(!registry.request_focus(1));
    assert!(registry.windows[0].focus_requested);
    assert!(registry.windows[1].focus_requested);
}
