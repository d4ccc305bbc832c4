use wide_events::AssetStore;
use wide_events::Resource;
use wide_events::get_file_data;
use wide_events::get_file_list;
use wide_events::get_index_data;
use wide_events::str_eq;

fn resource(raw: &str, zipped: &str, mime: &str) -> Resource {
    Resource {
        data_uncompressed: raw.as_bytes().to_vec(),
        data_gzip: zipped.as_bytes().to_vec(),
        mime_type: mime.to_string(),
    }
}

fn sample_store() -> AssetStore {
    let mut store = AssetStore::new(resource("<html>", "<gz>", "text/html"));
    assert!(store.add("style.css".to_string(), resource("body{}", "css-gz", "text/css")));
    assert!(store.add("app.js".to_string(), resource("run()", "js-gz", "text/javascript")));
    store
}

#[test]
fn lookup_returns_stored_resource() {
    let store = sample_store();
    let css = get_file_data(&store, "style.css").expect("stored path is found");
    assert_eq!(css.data_uncompressed, b"body{}".to_vec());
    assert_eq!(css.data_gzip, b"css-gz".to_vec());
    assert_eq!(css.mime_type, "text/css");
}

#[test]
fn lookup_misses_unknown_path() {
    let store = sample_store();
    assert!(get_file_data(&store, "missing.png").is_none());
    assert!(get_file_data(&store, "").is_none());
}

#[test]
fn duplicate_path_is_rejected() {
    let mut store = sample_store();
    assert!(!store.add("app.js".to_string(), resource("other", "other-gz", "text/plain")));
    let js = get_file_data(&store, "app.js").unwrap();
    assert_eq!(js.data_uncompressed, b"run()".to_vec());
}

#[test]
fn index_resource_is_served() {
    let store = sample_store();
    let index = get_index_data(&store);
    assert_eq!(index.data_uncompressed, b"<html>".to_vec());
    assert_eq!(index.mime_type, "text/html");
}

#[test]
fn file_list_is_sorted() {
    let store = sample_store();
    let list = get_file_list(&store);
    assert_eq!(list, vec!["app.js".to_string(), "style.css".to_string()]);
}

#[test]
fn string_equality_by_characters() {
    assert!(str_eq("abc", "abc"));
    assert!(!str_eq("abc", "abd"));
    assert!(!str_eq("abc", "ab"));
    assert!(str_eq("", ""));
    assert!(str_eq("naïve", "naïve"));
}
