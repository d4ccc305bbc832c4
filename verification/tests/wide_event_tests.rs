use wide_events::WideEvent;
use wide_events::WideEventLoggerLayer;

fn parse(line: &str) -> serde_json::Value {
    serde_json::from_str(line).expect("emitted line must be valid JSON")
}

#[test]
fn serialize_minimal_event() {
    let ev = WideEvent::new(
        None,
        "GET".to_string(),
        "/".to_string(),
        None,
        None,
        None,
        None,
        "2020-01-01T00:00:00+00:00".to_string(),
    );
    assert_eq!(
        ev.to_json(),
        "{\"timestamp\":\"2020-01-01T00:00:00+00:00\",\"method\":\"GET\",\"path\":\"/\",\"status_code\":0,\"duration_ms\":0}"
    );
}

#[test]
fn serialize_full_labels() {
    let ev = WideEvent::new(
        Some("rid".to_string()),
        "POST".to_string(),
        "/p".to_string(),
        Some("svc".to_string()),
        Some("1.2".to_string()),
        Some("dep".to_string()),
        Some("eu".to_string()),
        "T".to_string(),
    );
    assert_eq!(
        ev.to_json(),
        "{\"service\":\"svc\",\"version\":\"1.2\",\"deployment_id\":\"dep\",\"region\":\"eu\",\"request_id\":\"rid\",\"timestamp\":\"T\",\"method\":\"POST\",\"path\":\"/p\",\"status_code\":0,\"duration_ms\":0}"
    );
}

#[test]
fn serialize_escapes_special_characters() {
    let mut ev = WideEvent::new(
        None,
        "GET".to_string(),
        "a\"b\\c\nd".to_string(),
        None,
        None,
        None,
        None,
        "T".to_string(),
    );
    ev.info(vec![("k\t".to_string(), "v\u{1}".to_string())]);
    let line = ev.to_json();
    assert_eq!(
        line,
        "{\"timestamp\":\"T\",\"method\":\"GET\",\"path\":\"a\\\"b\\\\c\\u000ad\",\"events\":[{\"type\":\"Info\",\"k\\u0009\":\"v\\u0001\"}],\"status_code\":0,\"duration_ms\":0}"
    );
    let v = parse(&line);
    assert_eq!(v["path"].as_str().unwrap(), "a\"b\\c\nd");
    assert_eq!(v["events"][0]["k\t"].as_str().unwrap(), "v\u{1}");
}

#[test]
fn round_trip_three_events() {
    let layer = WideEventLoggerLayer::new(false, None, None, None, None);
    let logger = layer.layer(());
    let mut ev = logger.begin_request(None, "GET".to_string(), "/r".to_string());
    ev.info(vec![("step".to_string(), "one".to_string())]);
    ev.info(vec![("step".to_string(), "two".to_string())]);
    ev.error(vec![("fault".to_string(), "boom".to_string())]);
    let line = logger
        .complete_request(&mut ev, 201, 42)
        .expect("sampling disabled emits every request");
    let v = parse(&line);
    let events = v["events"].as_array().expect("events array present");
    assert_eq!(events.len(), 3);
    assert_eq!(events[0]["type"].as_str().unwrap(), "Info");
    assert_eq!(events[0]["step"].as_str().unwrap(), "one");
    assert_eq!(events[1]["type"].as_str().unwrap(), "Info");
    assert_eq!(events[1]["step"].as_str().unwrap(), "two");
    assert_eq!(events[2]["type"].as_str().unwrap(), "Error");
    assert_eq!(events[2]["fault"].as_str().unwrap(), "boom");
    assert_eq!(v["status_code"].as_u64().unwrap(), 201);
    assert_eq!(v["duration_ms"].as_u64().unwrap(), 42);
}

#[test]
fn request_id_passthrough() {
    let layer = WideEventLoggerLayer::new(false, None, None, None, None);
    let logger = layer.layer(());
    let mut ev = logger.begin_request(Some("abc123".to_string()), "GET".to_string(), "/".to_string());
    let line = logger.complete_request(&mut ev, 200, 1).unwrap();
    let v = parse(&line);
    assert_eq!(v["request_id"].as_str().unwrap(), "abc123");
}

#[test]
fn request_id_omitted_when_absent() {
    let layer = WideEventLoggerLayer::new(false, None, None, None, None);
    let logger = layer.layer(());
    let mut ev = logger.begin_request(None, "GET".to_string(), "/".to_string());
    let line = logger.complete_request(&mut ev, 200, 1).unwrap();
    let v = parse(&line);
    assert!(v.get("request_id").is_none());
    assert!(!line.contains("request_id"));
}

#[test]
fn distinct_records_all_kept() {
    let layer = WideEventLoggerLayer::new(false, None, None, None, None);
    let logger = layer.layer(());
    let mut ev = logger.begin_request(None, "GET".to_string(), "/".to_string());
    let n = 8;
    for i in 0..n {
        ev.info(vec![(format!("key{}", i), format!("val{}", i))]);
    }
    let line = logger.complete_request(&mut ev, 200, 1).unwrap();
    let v = parse(&line);
    let events = v["events"].as_array().unwrap();
    assert_eq!(events.len(), n);
    for i in 0..n {
        assert_eq!(
            events[i][&format!("key{}", i)].as_str().unwrap(),
            format!("val{}", i)
        );
    }
}

#[test]
fn error_record_sets_error_and_warning_keeps_it() {
    let layer = WideEventLoggerLayer::new(true, None, None, None, None);
    let logger = layer.layer(());
    let mut ev = logger.begin_request(None, "GET".to_string(), "/".to_string());
    ev.error(vec![]);
    ev.warning(vec![("later".to_string(), "note".to_string())]);
    // With sampling enabled, an observed error still guarantees emission.
    let line = logger
        .complete_request(&mut ev, 200, 1)
        .expect("an error record guarantees emission");
    let v = parse(&line);
    let events = v["events"].as_array().unwrap();
    assert_eq!(events.len(), 2);
    assert_eq!(events[0]["type"].as_str().unwrap(), "Error");
    assert_eq!(events[1]["type"].as_str().unwrap(), "Warning");
}

#[test]
fn force_log_guarantees_emission() {
    let layer = WideEventLoggerLayer::new(true, None, None, None, None);
    let logger = layer.layer(());
    let mut ev = logger.begin_request(None, "GET".to_string(), "/".to_string());
    ev.force_log();
    assert!(logger.complete_request(&mut ev, 200, 1).is_some());
}

#[test]
fn server_error_status_guarantees_emission() {
    let layer = WideEventLoggerLayer::new(true, None, None, None, None);
    let logger = layer.layer(());
    let mut ev = logger.begin_request(None, "GET".to_string(), "/".to_string());
    assert!(logger.complete_request(&mut ev, 503, 1).is_some());
}

#[test]
fn slow_request_guarantees_emission() {
    let layer = WideEventLoggerLayer::new(true, None, None, None, None);
    let logger = layer.layer(());
    let mut ev = logger.begin_request(None, "GET".to_string(), "/".to_string());
    assert!(logger.complete_request(&mut ev, 200, 2001).is_some());
}

#[test]
fn large_duration_rendered_exactly() {
    let mut ev = WideEvent::new(
        None,
        "GET".to_string(),
        "/".to_string(),
        None,
        None,
        None,
        None,
        "T".to_string(),
    );
    ev.force_log();
    let layer = WideEventLoggerLayer::new(true, None, None, None, None);
    let logger = layer.layer(());
    let line = logger.complete_request(&mut ev, 200, u64::MAX).unwrap();
    assert!(line.ends_with("\"duration_ms\":18446744073709551615}"));
}
