use trojan_supervisor::classifier::{classify, conflict_message, parse_trojan_log, Severity};

#[test]
fn fatal_bind_conflict_extracts_port() {
    let ev = classify("[FATAL] listen tcp 127.0.0.1:1080: bind: address already in use");
    assert_eq!(ev.severity, Severity::Fatal);
    assert_eq!(ev.extracted_port, Some("1080".to_string()));
}

#[test]
fn plain_line_is_info_without_port() {
    let ev = classify("INFO[0000] client started");
    assert_eq!(ev.severity, Severity::Info);
    assert_eq!(ev.extracted_port, None);
    assert_eq!(ev.message, "INFO[0000] client started".to_string());
}

#[test]
fn classify_trims_whitespace() {
    let ev = classify("   spaced out \t\r\n");
    assert_eq!(ev.severity, Severity::Info);
    assert_eq!(ev.message, "spaced out".to_string());
}

#[test]
fn classify_empty_line() {
    let ev = classify("");
    assert_eq!(ev.severity, Severity::Info);
    assert_eq!(ev.message, String::new());
    assert_eq!(ev.extracted_port, None);
}

#[test]
fn classify_all_whitespace_line() {
    let ev = classify(" \t \r\n ");
    assert_eq!(ev.severity, Severity::Info);
    assert_eq!(ev.message, String::new());
}

#[test]
fn fatal_without_bind_shape_has_no_port() {
    let ev = classify("[FATAL] configuration file not found");
    assert_eq!(ev.severity, Severity::Fatal);
    assert_eq!(ev.extracted_port, None);
}

#[test]
fn fatal_bind_without_digits_has_no_port() {
    let ev = classify("FATAL listen tcp somewhere: bind failed");
    assert_eq!(ev.severity, Severity::Fatal);
    assert_eq!(ev.extracted_port, None);
}

#[test]
fn fatal_udp_bind_conflict_extracts_port() {
    let ev = classify("[FATAL] listen udp 127.0.0.1:53: bind: address already in use");
    assert_eq!(ev.severity, Severity::Fatal);
    assert_eq!(ev.extracted_port, Some("53".to_string()));
}

#[test]
fn windows_bind_conflict_extracts_port() {
    let ev = classify(
        "[FATAL] listen tcp 0.0.0.0:7890: bind: Only one usage of each socket address is normally permitted",
    );
    assert_eq!(ev.severity, Severity::Fatal);
    assert_eq!(ev.extracted_port, Some("7890".to_string()));
}

#[test]
fn fatal_marker_must_be_uppercase() {
    let ev = classify("fatal: something broke");
    assert_eq!(ev.severity, Severity::Info);
    assert_eq!(ev.extracted_port, None);
}

#[test]
fn conflict_message_names_the_port() {
    assert_eq!(
        conflict_message("1080"),
        "[FATAL] start failed: port 1080 is already in use; \
         check whether another proxy program is running"
            .to_string()
    );
}

#[test]
fn parse_structured_line() {
    let parsed = parse_trojan_log("[INFO] 2023/10/05 12:34:56 connection established").unwrap();
    assert_eq!(parsed.level, "INFO".to_string());
    assert_eq!(parsed.timestamp, "2023/10/05 12:34:56".to_string());
    assert_eq!(parsed.message, "connection established".to_string());
}

#[test]
fn parse_structured_line_extra_spaces() {
    let parsed = parse_trojan_log("[WARN]  2024/01/02  03:04:05  slow handshake").unwrap();
    assert_eq!(parsed.level, "WARN".to_string());
    assert_eq!(parsed.timestamp, "2024/01/02  03:04:05".to_string());
    assert_eq!(parsed.message, "slow handshake".to_string());
}

#[test]
fn parse_rejects_unstructured_lines() {
    assert!(parse_trojan_log("").is_none());
    assert!(parse_trojan_log("no brackets here").is_none());
    assert!(parse_trojan_log("[] 2023/10/05 12:34:56 empty level").is_none());
    assert!(parse_trojan_log("[INFO] 23/10/05 12:34:56 short year").is_none());
    assert!(parse_trojan_log("[INFO] 2023/10/05 123456 no colons").is_none());
    assert!(parse_trojan_log("[INFO] 2023/10/05 12:34:56").is_none());
}
