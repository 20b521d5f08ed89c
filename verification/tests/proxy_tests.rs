use trojan_supervisor::system_proxy::{disable_plan, enable_settings, ProxySettings};
use trojan_supervisor::vpn::{PingRequest, PingResponse, VpnHelper};

#[test]
fn enable_builds_the_committed_settings() {
    let settings = enable_settings("127.0.0.1", 1080);
    assert!(settings.enable);
    assert_eq!(settings.host, "127.0.0.1".to_string());
    assert_eq!(settings.port, 1080);
    assert_eq!(settings.bypass, String::new());
}

#[test]
fn disable_is_a_no_op_when_already_disabled() {
    let current = ProxySettings {
        enable: false,
        host: "127.0.0.1".to_string(),
        port: 1080,
        bypass: String::new(),
    };
    // No commit is planned, so no OS call is made.
    assert_eq!(disable_plan(&current), None);
}

#[test]
fn disable_clears_only_the_flag_when_enabled() {
    let current = ProxySettings {
        enable: true,
        host: "10.0.0.2".to_string(),
        port: 7890,
        bypass: "localhost".to_string(),
    };
    let planned = disable_plan(&current).unwrap();
    assert!(!planned.enable);
    assert_eq!(planned.host, "10.0.0.2".to_string());
    assert_eq!(planned.port, 7890);
    assert_eq!(planned.bypass, "localhost".to_string());
}

#[test]
fn desktop_ping_echoes_its_payload() {
    let helper = VpnHelper;
    let reply = helper.ping(PingRequest { value: Some("probe".to_string()) });
    assert_eq!(reply.value, Some("probe".to_string()));
    let empty = helper.ping(PingRequest { value: None });
    assert_eq!(empty.value, None);
}

#[test]
fn default_ping_response_is_empty() {
    let response = PingResponse::default();
    assert_eq!(response.value, None);
}
