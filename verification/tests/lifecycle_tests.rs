use now_playing::lifecycle::Controller;
use now_playing::slots::Slots;
use now_playing::{demo_lines, info_line, min_refresh_interval_ms};

#[test]
fn start_spawns_exactly_once() {
    // However many times the start trigger runs, only the first call spawns.
    let mut ctrl = Controller::new();
    assert!(ctrl.ensure_started());
    assert!(!ctrl.ensure_started());
    assert!(!ctrl.ensure_started());
    assert!(ctrl.running);
    assert!(!ctrl.stop);
}

#[test]
fn shutdown_stops_and_joins_once() {
    let mut ctrl = Controller::new();
    ctrl.ensure_started();
    assert!(ctrl.shutdown());
    assert!(ctrl.stop);
    assert!(!ctrl.running);
    // Shutdown after shutdown is a no-op.
    assert!(!ctrl.shutdown());
    assert!(ctrl.stop);
    assert!(!ctrl.running);
}

#[test]
fn shutdown_before_start_is_noop() {
    let mut ctrl = Controller::new();
    assert!(!ctrl.shutdown());
    assert!(!ctrl.running);
    assert!(!ctrl.stop);
}

#[test]
fn stop_flag_observed_by_worker() {
    let mut ctrl = Controller::new();
    ctrl.ensure_started();
    assert!(!ctrl.should_stop());
    ctrl.shutdown();
    assert!(ctrl.should_stop());
}

#[test]
fn record_error_keeps_lifecycle_state() {
    let mut ctrl = Controller::new();
    ctrl.ensure_started();
    ctrl.record_error(String::from("PI"));
    assert!(ctrl.has_error);
    assert_eq!(ctrl.error_src, "PI");
    assert!(ctrl.running);
    assert!(!ctrl.stop);
}

#[test]
fn fresh_slots_read_defaults() {
    // Before any poll cycle every read returns its fixed default.
    let slots = Slots::new();
    assert_eq!(slots.artist_text(), "");
    assert_eq!(slots.title_text(), "");
    assert_eq!(slots.position_display_text(), "");
    assert_eq!(slots.length_display_text(), "");
    assert_eq!(slots.position_seconds_text(), "0");
    assert_eq!(slots.length_seconds_text(), "0");
    assert_eq!(slots.status_text(), "0");
}

#[test]
fn min_refresh_interval_is_constant() {
    assert_eq!(min_refresh_interval_ms(), 150);
}

#[test]
fn info_text_is_fixed() {
    assert_eq!(info_line(), "Developer: Dusty the Fuzzy Dragon\r\nVersion: 1.RIIR");
}

#[test]
fn demo_text_documents_each_query() {
    let d = demo_lines();
    assert!(d.contains("$dll(chcl_now_playing,1,,)"));
    assert!(d.contains("$dll(chcl_now_playing,7,,)") || d.contains("$Bar("));
}
