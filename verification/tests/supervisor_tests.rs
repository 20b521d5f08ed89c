use trojan_supervisor::config::Dialect;
use trojan_supervisor::errors::TrojanError;
use trojan_supervisor::supervisor::{
    run_trojan_begin, run_trojan_record, spawn_args, stop_trojan, stop_trojan_internal,
    TrojanState,
};

const SINGBOX_CONTENT: &str = r#"{ "inbounds": [ { "listen_port": 7890 } ] }"#;

#[test]
fn new_state_is_idle() {
    let state = TrojanState::new();
    assert!(!state.is_running());
    let status = state.status_with(false);
    assert!(!status.is_running);
    assert_eq!(status.name, None);
}

#[test]
fn start_reports_running_under_its_name() {
    let mut state = TrojanState::new();
    let (cfg, old) = run_trojan_begin(&mut state, SINGBOX_CONTENT, Dialect::SingBox).unwrap();
    assert_eq!(cfg.local_port, 7890);
    assert_eq!(old, None);
    let _ = run_trojan_record(&mut state, 1, "config_home".to_string(), cfg.local_port);
    let status = state.status_with(false);
    assert!(status.is_running);
    assert_eq!(status.name, Some("config_home".to_string()));
}

#[test]
fn stop_then_status_is_idle_from_any_state() {
    // From a running state.
    let mut state = TrojanState::new();
    state.record_running(4, "running".to_string());
    let taken = stop_trojan(&mut state);
    assert_eq!(taken, Some(4));
    let status = state.status_with(false);
    assert!(!status.is_running);
    assert_eq!(status.name, None);

    // From an already idle state.
    let mut idle = TrojanState::new();
    let taken = stop_trojan(&mut idle);
    assert_eq!(taken, None);
    let status = idle.status_with(false);
    assert!(!status.is_running);
    assert_eq!(status.name, None);
}

#[test]
fn second_start_wins_and_first_child_is_taken() {
    let mut state = TrojanState::new();
    let (cfg, old) = run_trojan_begin(&mut state, SINGBOX_CONTENT, Dialect::SingBox).unwrap();
    assert_eq!(old, None);
    let _ = run_trojan_record(&mut state, 1, "first".to_string(), cfg.local_port);

    let (cfg2, old2) = run_trojan_begin(&mut state, SINGBOX_CONTENT, Dialect::SingBox).unwrap();
    // The stop step of the second start takes the first child's token, so
    // the driver terminates it.
    assert_eq!(old2, Some(1));
    let _ = run_trojan_record(&mut state, 2, "second".to_string(), cfg2.local_port);

    let status = state.status_with(false);
    assert!(status.is_running);
    assert_eq!(status.name, Some("second".to_string()));
    assert_eq!(state.child, Some(2));
}

#[test]
fn failed_extraction_leaves_running_process_untouched() {
    let mut state = TrojanState::new();
    state.record_running(9, "keepme".to_string());

    let missing = r#"{ "inbounds": [ { "listen": "127.0.0.1" } ] }"#;
    let err = run_trojan_begin(&mut state, missing, Dialect::SingBox).unwrap_err();
    assert_eq!(err, TrojanError::ConfigFieldMissing);
    assert_eq!(state.child, Some(9));
    assert_eq!(state.current_config_name, Some("keepme".to_string()));

    let garbage = "]]] not json [[[";
    let err = run_trojan_begin(&mut state, garbage, Dialect::SingBox).unwrap_err();
    assert_eq!(err, TrojanError::ConfigParseError);
    assert_eq!(state.child, Some(9));
    assert_eq!(state.current_config_name, Some("keepme".to_string()));
}

#[test]
fn termination_clears_state_exactly_once() {
    let mut state = TrojanState::new();
    state.record_running(5, "cfg".to_string());

    // The first notice for the recorded child fires: the caller emits its
    // single "stopped" event exactly when `cleared` is true.
    let cleared = state.on_child_terminated(5);
    assert!(cleared);
    let status = state.status_with(false);
    assert!(!status.is_running);
    assert_eq!(status.name, None);

    // A repeated notice no longer fires.
    let cleared_again = state.on_child_terminated(5);
    assert!(!cleared_again);
}

#[test]
fn stale_termination_notice_cannot_clear_newer_process() {
    let mut state = TrojanState::new();
    state.record_running(5, "old".to_string());
    let taken = stop_trojan_internal(&mut state);
    assert_eq!(taken, Some(5));
    state.record_running(6, "new".to_string());

    // The old child's exit notice arrives late: the newer record survives.
    let cleared = state.on_child_terminated(5);
    assert!(!cleared);
    assert_eq!(state.child, Some(6));
    assert_eq!(state.current_config_name, Some("new".to_string()));
}

#[test]
fn each_binary_family_has_its_invocation_form() {
    assert_eq!(
        spawn_args(Dialect::SingBox, "/tmp/a.json"),
        vec![
            "run".to_string(),
            "-c".to_string(),
            "/tmp/a.json".to_string(),
            "--disable-color".to_string(),
        ]
    );
    assert_eq!(
        spawn_args(Dialect::TrojanGo, "/tmp/b.json"),
        vec!["-config".to_string(), "/tmp/b.json".to_string()]
    );
}

#[test]
fn status_reports_the_given_proxy_flag() {
    let state = TrojanState::new();
    assert!(state.status_with(true).proxy_status);
    assert!(!state.status_with(false).proxy_status);
}
