use handy_core::router::{route_shortcut_event, BindingKind, BindingRegistry, RouteDecision};

fn standard_registry() -> BindingRegistry {
    let mut reg = BindingRegistry::new();
    reg.register("transcribe".to_string(), BindingKind::Transcribe);
    reg.register("transcribe_alt".to_string(), BindingKind::Transcribe);
    reg.register("cancel".to_string(), BindingKind::Action);
    reg.register("test".to_string(), BindingKind::Action);
    reg
}

#[test]
fn transcribe_bindings_route_to_coordinator() {
    let reg = standard_registry();
    assert!(reg.is_transcribe_binding("transcribe"));
    assert!(reg.is_transcribe_binding("transcribe_alt"));
    assert!(!reg.is_transcribe_binding("cancel"));
    assert!(!reg.is_transcribe_binding("missing"));

    assert_eq!(
        route_shortcut_event(&reg, "transcribe", true, false),
        RouteDecision::Transcribe
    );
    // Both edges go to the coordinator; it decides what they mean.
    assert_eq!(
        route_shortcut_event(&reg, "transcribe_alt", false, true),
        RouteDecision::Transcribe
    );
}

#[test]
fn unknown_binding_is_dropped() {
    let reg = standard_registry();
    assert_eq!(reg.lookup("mystery"), None);
    assert_eq!(
        route_shortcut_event(&reg, "mystery", true, true),
        RouteDecision::UnknownBinding
    );
}

#[test]
fn cancel_fires_only_when_recording_and_pressed() {
    let reg = standard_registry();
    assert_eq!(
        route_shortcut_event(&reg, "cancel", true, true),
        RouteDecision::CancelFire
    );
    assert_eq!(
        route_shortcut_event(&reg, "cancel", true, false),
        RouteDecision::CancelIgnored
    );
    assert_eq!(
        route_shortcut_event(&reg, "cancel", false, true),
        RouteDecision::CancelIgnored
    );
}

#[test]
fn other_actions_start_and_stop_on_edges() {
    let reg = standard_registry();
    assert_eq!(
        route_shortcut_event(&reg, "test", true, false),
        RouteDecision::ActionStart
    );
    assert_eq!(
        route_shortcut_event(&reg, "test", false, true),
        RouteDecision::ActionStop
    );
}

#[test]
fn lookup_returns_first_registration() {
    let mut reg = BindingRegistry::new();
    reg.register("dup".to_string(), BindingKind::Action);
    reg.register("dup".to_string(), BindingKind::Transcribe);
    assert_eq!(reg.lookup("dup"), Some(BindingKind::Action));
}
