use wide_events::AssetStore;
use wide_events::Resource;
use wide_events::resolve_resource;
use wide_events::str_contains;
use wide_events::wants_gzip;

fn resource(raw: &str) -> Resource {
    Resource {
        data_uncompressed: raw.as_bytes().to_vec(),
        data_gzip: format!("{}-gz", raw).as_bytes().to_vec(),
        mime_type: "text/plain".to_string(),
    }
}

#[test]
fn substring_search() {
    assert!(str_contains("gzip, deflate, br", "gzip"));
    assert!(str_contains("xgzip", "gzip"));
    assert!(!str_contains("identity", "gzip"));
    assert!(!str_contains("gzi", "gzip"));
    assert!(str_contains("anything", ""));
}

#[test]
fn gzip_negotiation() {
    assert!(wants_gzip(Some("gzip, deflate")));
    assert!(wants_gzip(Some("br;q=1.0, gzip;q=0.8")));
    assert!(!wants_gzip(Some("identity")));
    assert!(!wants_gzip(None));
}

#[test]
fn known_path_resolves_to_stored_resource() {
    let mut store = AssetStore::new(resource("index"));
    assert!(store.add("a.txt".to_string(), resource("alpha")));
    let res = resolve_resource(&store, Some("a.txt"));
    assert_eq!(res.data_uncompressed, b"alpha".to_vec());
}

#[test]
fn unknown_path_falls_back_to_index() {
    let mut store = AssetStore::new(resource("index"));
    assert!(store.add("a.txt".to_string(), resource("alpha")));
    let res = resolve_resource(&store, Some("nope"));
    assert_eq!(res.data_uncompressed, b"index".to_vec());
}

#[test]
fn absent_path_serves_index_page() {
    let mut store = AssetStore::new(resource("fallback"));
    assert!(store.add("index.html".to_string(), resource("homepage")));
    let res = resolve_resource(&store, None);
    assert_eq!(res.data_uncompressed, b"homepage".to_vec());
    let bare = AssetStore::new(resource("fallback"));
    let res = resolve_resource(&bare, None);
    assert_eq!(res.data_uncompressed, b"fallback".to_vec());
}
