use wide_events::wide_event::WideEvent;
use wide_events::wide_event_layer::WideEventLoggerLayer;

fn parse(line: &str) -> serde_json::Value {
    serde_json::from_str(line).expect("emitted line must be valid JSON")
}

#[test]
fn labels_lead_the_record() {
    let ev = WideEvent::new(
        Some("rid".to_string()),
        "GET".to_string(),
        "/p".to_string(),
        vec![
            ("service".to_string(), "svc".to_string()),
            ("region".to_string(), "eu".to_string()),
        ],
        "T".to_string(),
    );
    assert_eq!(
        ev.to_json(),
        "{\"service\":\"svc\",\"region\":\"eu\",\"request_id\":\"rid\",\"timestamp\":\"T\",\"method\":\"GET\",\"path\":\"/p\",\"status_code\":0,\"duration_ms\":0}"
    );
}

#[test]
fn sink_receives_line_when_sampling_disabled() {
    let layer = WideEventLoggerLayer::new(
        false,
        vec![("service".to_string(), "svc".to_string())],
    );
    let logger = layer.layer(());
    let mut ev = logger.begin_request(None, "GET".to_string(), "/".to_string());
    let mut captured: Vec<String> = Vec::new();
    if let Some(line) = logger.complete_request(&mut ev, 200, 3) {
        captured.push(line);
    }
    assert_eq!(captured.len(), 1);
    let v = parse(&captured[0]);
    assert_eq!(v["service"].as_str().unwrap(), "svc");
    assert_eq!(v["status_code"].as_u64().unwrap(), 200);
    assert_eq!(v["duration_ms"].as_u64().unwrap(), 3);
}

#[test]
fn error_record_forces_emission_in_layer_variant() {
    let layer = WideEventLoggerLayer::new(true, Vec::new());
    let logger = layer.layer(());
    let mut ev = logger.begin_request(None, "PUT".to_string(), "/x".to_string());
    ev.info(vec![("a".to_string(), "1".to_string())]);
    ev.error(vec![("b".to_string(), "2".to_string())]);
    let line = logger
        .complete_request(&mut ev, 204, 7)
        .expect("an error record guarantees emission");
    let v = parse(&line);
    assert_eq!(v["events"].as_array().unwrap().len(), 2);
    assert_eq!(v["events"][1]["type"].as_str().unwrap(), "Error");
}
