use launcher::config::{health_url, is_single_instance_mode, LaunchConfig};
use launcher::supervisor::{launch_decision, parent_pid_value, ChildSlot, ChildState, LaunchDecision};
use launcher::text::decimal_text;

#[test]
fn single_instance_defaults_to_on() {
    assert!(is_single_instance_mode(None));
    assert!(is_single_instance_mode(Some("not json")));
    assert!(is_single_instance_mode(Some("{}")));
    assert!(is_single_instance_mode(Some("[false]")));
    assert!(is_single_instance_mode(Some("{\"singleInstance\": \"no\"}")));
}

#[test]
fn single_instance_follows_document() {
    assert!(!is_single_instance_mode(Some("{\"singleInstance\": false}")));
    assert!(is_single_instance_mode(Some("{\"singleInstance\": true, \"title\": \"x\"}")));
}

#[test]
fn config_loads_constants() {
    let c = LaunchConfig::load(Some("{\"singleInstance\": false}"));
    assert!(!c.single_instance);
    assert_eq!(c.startup_timeout_ms, 30000);
    assert_eq!(c.health_check_interval_ms, 200);
    assert_eq!(c.emit_max_attempts, 20);
    assert_eq!(c.emit_interval_ms, 100);
    let t = c.probe_timing();
    assert_eq!(t.startup_timeout_ms, 30000);
    assert_eq!(t.port_poll_ms, 100);
}

#[test]
fn health_url_on_loopback() {
    assert_eq!(health_url(9000), "http://localhost:9000/actuator/health");
    assert_eq!(health_url(0), "http://localhost:0/actuator/health");
}

#[test]
fn decimal_text_values() {
    assert_eq!(decimal_text(0), "0");
    assert_eq!(decimal_text(10), "10");
    assert_eq!(decimal_text(65535), "65535");
    assert_eq!(decimal_text(u64::MAX), "18446744073709551615");
}

#[test]
fn parent_pid_is_decimal() {
    assert_eq!(parent_pid_value(4242), "4242");
}

#[test]
fn second_launch_focuses_existing_window() {
    let single = is_single_instance_mode(None);
    assert_eq!(launch_decision(single, true), LaunchDecision::FocusExisting);
    assert_eq!(launch_decision(single, false), LaunchDecision::Start);
    assert_eq!(launch_decision(false, true), LaunchDecision::Start);
}

#[test]
fn only_first_claim_on_child_acts() {
    let mut s = ChildSlot::new();
    assert_eq!(s.state(), ChildState::Running);
    assert!(s.claim_for_exit());
    assert!(!s.claim_for_shutdown());
    assert_eq!(s.state(), ChildState::Exited);
    let mut t = ChildSlot::new();
    assert!(t.claim_for_shutdown());
    assert!(!t.claim_for_exit());
    assert_eq!(t.state(), ChildState::Terminated);
}
