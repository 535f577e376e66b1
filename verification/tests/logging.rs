use streamdeck_rs::payload::LogMessagePayload;

#[test]
fn record_without_values() {
    let line = LogMessagePayload::compose("INFO", "started", &vec![]);
    assert_eq!(line.message, "INFO started");
}

#[test]
fn record_lists_values_from_the_last() {
    let values = vec!["port: 8000".to_string(), "uuid: abc".to_string(), "ok: true".to_string()];
    let line = LogMessagePayload::compose("DEBG", "connected", &values);
    assert_eq!(line.message, "DEBG connected, ok: true, uuid: abc, port: 8000");
}

#[test]
fn record_with_empty_parts() {
    let line = LogMessagePayload::compose("", "", &vec![String::new()]);
    assert_eq!(line.message, " , ");
}
