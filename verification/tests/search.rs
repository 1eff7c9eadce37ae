use quick_launch::coordinator::PROVIDER_POLL_INTERVAL_MS;
use quick_launch::search::{NativeItem, SearchItem, SearchResponse};
use std::path::PathBuf;

#[test]
fn empty_response_has_no_matches() {
    let response = SearchResponse::empty();
    assert!(response.is_empty());
    assert_eq!(response.len(), 0);
    assert_eq!(response, SearchResponse { results: Vec::new() });
}

#[test]
fn native_items_become_search_items() {
    let response = SearchResponse::from_native(vec![
        NativeItem {
            display_name: "Safari".to_string(),
            path: "/Applications/Safari.app".to_string(),
        },
        NativeItem { display_name: "Notes".to_string(), path: "relative/Notes.app".to_string() },
    ]);
    assert_eq!(response.len(), 2);
    assert!(!response.is_empty());
    assert_eq!(
        response.results,
        vec![
            SearchItem {
                name: "Safari".to_string(),
                path: PathBuf::from("/Applications/Safari.app"),
            },
            SearchItem { name: "Notes".to_string(), path: PathBuf::from("relative/Notes.app") },
        ]
    );
    assert!(response.results[0].path.is_absolute());
    assert_eq!(response.results[0].path.file_name().unwrap(), "Safari.app");
}

#[test]
fn no_native_items_no_matches() {
    assert_eq!(SearchResponse::from_native(Vec::new()), SearchResponse::empty());
}

#[test]
fn coordinator_sleeps_between_rounds() {
    assert!(PROVIDER_POLL_INTERVAL_MS > 0);
    assert!(PROVIDER_POLL_INTERVAL_MS <= 50);
}
