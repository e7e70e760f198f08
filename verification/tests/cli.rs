use secure_artifact_manager::cli::{
    api_base_url, delete_url, download_url, is_success_status, list_url, listing, listing_row,
    request_outcome, scan_url, upload_url, ListedArtifact, RequestOutcome,
};

#[test]
fn base_url_default_and_configured() {
    assert_eq!(api_base_url(None), "http://localhost:8000/api");
    assert_eq!(api_base_url(Some("http://example.test/api".to_string())), "http://example.test/api");
}

#[test]
fn command_urls() {
    assert_eq!(delete_url("a1"), "http://localhost:8000/api/artifacts/a1");
    assert_eq!(download_url("a1"), "http://localhost:8000/api/artifacts/a1/download");
    assert_eq!(scan_url("a1"), "http://localhost:8000/api/artifacts/a1/scan");
    assert_eq!(list_url("http://h/api"), "http://h/api/artifacts");
    assert_eq!(upload_url("http://h/api"), "http://h/api/artifacts/upload");
}

#[test]
fn outcomes() {
    assert!(is_success_status(200));
    assert!(is_success_status(299));
    assert!(!is_success_status(199));
    assert!(!is_success_status(300));
    assert_eq!(request_outcome(Some(204)), RequestOutcome::Succeeded);
    assert_eq!(request_outcome(Some(404)), RequestOutcome::Rejected(404));
    assert_eq!(request_outcome(None), RequestOutcome::Unreachable);
}

#[test]
fn listing_rows() {
    let full = ListedArtifact { id: Some("x1".to_string()), filename: Some("f.txt".to_string()) };
    let bare = ListedArtifact { id: None, filename: None };
    assert_eq!(listing_row(&full), ("x1".to_string(), "f.txt".to_string()));
    assert_eq!(listing_row(&bare), ("<unknown>".to_string(), "<no name>".to_string()));
    assert_eq!(listing(None), None);
    assert_eq!(listing(Some(vec![])), Some(vec![]));
    assert_eq!(
        listing(Some(vec![full, bare])),
        Some(vec![
            ("x1".to_string(), "f.txt".to_string()),
            ("<unknown>".to_string(), "<no name>".to_string()),
        ])
    );
}
