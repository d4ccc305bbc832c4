use std::sync::Arc;
use std::sync::Mutex;

use wide_events::WideEventLoggerLayer;

#[test]
fn concurrent_records_are_all_kept() {
    let rt = tokio::runtime::Builder::new_multi_thread()
        .worker_threads(4)
        .build()
        .unwrap();
    let layer = WideEventLoggerLayer::new(false, None, None, None, None);
    let logger = layer.layer(());
    let event = Arc::new(Mutex::new(logger.begin_request(
        None,
        "GET".to_string(),
        "/".to_string(),
    )));

    let n: usize = 32;
    rt.block_on(async {
        let mut handles = Vec::new();
        for i in 0..n {
            let ev = Arc::clone(&event);
            handles.push(tokio::spawn(async move {
                let mut guard = ev.lock().unwrap();
                guard.info(vec![(format!("task{}", i), "done".to_string())]);
            }));
        }
        for handle in handles {
            handle.await.unwrap();
        }
    });

    let mut guard = event.lock().unwrap();
    assert_eq!(guard.event_count(), n);
    let line = logger.complete_request(&mut guard, 200, 1).unwrap();
    let v: serde_json::Value = serde_json::from_str(&line).unwrap();
    let events = v["events"].as_array().unwrap();
    assert_eq!(events.len(), n);
    for i in 0..n {
        let key = format!("task{}", i);
        let occurrences = events.iter().filter(|e| e.get(&key).is_some()).count();
        assert_eq!(occurrences, 1, "record for {} kept exactly once", key);
    }
}
