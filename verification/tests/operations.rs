use dropbox_proxy::dropbox::build_headers;
use dropbox_proxy::dropbox::download_file;
use dropbox_proxy::dropbox::download_zip;
use dropbox_proxy::dropbox::list_folder;
use dropbox_proxy::dropbox::list_folder_continue;
use dropbox_proxy::dropbox::prepare_download_headers;
use dropbox_proxy::headers::Headers;
use dropbox_proxy::model::ApiError;

fn three_entry_body(has_more: bool, cursor: &str) -> String {
    format!(
        "{{\"entries\":[{{\"id\":\"id:1\",\".tag\":\"file\",\"name\":\"a.txt\",\"size\":12,\"path_display\":\"/docs/a.txt\",\"server_modified\":\"2023-01-02T03:04:05Z\",\"rev\":\"0123\",\"client_modified\":\"2023-01-01T00:00:00Z\"}},{{\"id\":\"id:2\",\".tag\":\"folder\",\"name\":\"sub\",\"path_display\":\"/docs/sub\"}},{{\"id\":\"id:3\",\".tag\":\"file\",\"name\":\"b.bin\",\"size\":0,\"path_display\":\"/docs/b.bin\",\"server_modified\":null}}],\"cursor\":\"{}\",\"has_more\":{}}}",
        cursor, has_more
    )
}

#[test]
fn list_three_entries_no_more() {
    let body = three_entry_body(false, "cursor-opaque-1");
    let (result, refresh) = list_folder(200, &body);
    assert!(!refresh);
    let page = result.expect("a well-shaped success payload must be accepted");
    assert_eq!(page.entries.len(), 3);
    assert!(!page.has_more);
    assert_eq!(page.cursor, "cursor-opaque-1");
    assert_eq!(page.entries[0].id, "id:1");
    assert_eq!(page.entries[0].type_tag, "file");
    assert_eq!(page.entries[0].name, "a.txt");
    assert_eq!(page.entries[0].size, Some(12));
    assert_eq!(page.entries[0].path, "/docs/a.txt");
    assert_eq!(
        page.entries[0].modified.as_deref(),
        Some("2023-01-02T03:04:05Z")
    );
    assert_eq!(page.entries[1].type_tag, "folder");
    assert_eq!(page.entries[1].size, None);
    assert_eq!(page.entries[1].modified, None);
    assert_eq!(page.entries[2].size, Some(0));
    assert_eq!(page.entries[2].modified, None);
}

#[test]
fn list_unauthorized_reports_auth_expired_and_asks_refresh() {
    let (result, refresh) = list_folder(401, "{\"error\":\"expired_access_token\"}");
    assert!(refresh);
    match result {
        Err(ApiError::AuthExpired(payload)) => {
            assert_eq!(payload, "{\"error\":\"expired_access_token\"}")
        }
        other => panic!("expected an expired-credential failure, got {:?}", other),
    }
}

#[test]
fn list_other_status_passes_payload_through() {
    let (result, refresh) = list_folder(409, "{\"error\":\"path not found\"}");
    assert!(!refresh);
    match result {
        Err(ApiError::UpstreamRejected(payload)) => {
            assert_eq!(payload, "{\"error\":\"path not found\"}")
        }
        other => panic!("expected a passed-through failure, got {:?}", other),
    }
}

#[test]
fn list_malformed_payloads_are_rejected() {
    let cases = vec![
        String::from("not json at all"),
        String::from("{\"entries\":[],\"has_more\":false}"),
        String::from("{\"entries\":[{\"name\":\"a\"}],\"cursor\":\"c\",\"has_more\":false}"),
        String::from(
            "{\"entries\":[{\"id\":\"\",\".tag\":\"file\",\"name\":\"a\",\"path_display\":\"/a\"}],\"cursor\":\"c\",\"has_more\":false}",
        ),
        three_entry_body(true, ""),
    ];
    for body in cases {
        let (result, refresh) = list_folder(200, &body);
        assert!(!refresh);
        assert!(matches!(result, Err(ApiError::MalformedUpstreamPayload)));
    }
}

#[test]
fn pagination_follows_cursors_to_the_end() {
    let pages = vec![
        three_entry_body(true, "c1"),
        three_entry_body(true, "c2"),
        three_entry_body(false, "c3"),
    ];
    let (first, _) = list_folder(200, &pages[0]);
    let mut page = first.unwrap();
    let mut seen = page.entries.len();
    let mut fetched = 1;
    while page.has_more {
        assert!(!page.cursor.is_empty());
        let (next, refresh) = list_folder_continue(200, &pages[fetched]);
        assert!(!refresh);
        page = next.unwrap();
        seen += page.entries.len();
        fetched += 1;
    }
    assert_eq!(fetched, 3);
    assert_eq!(seen, 9);
}

#[test]
fn continue_unauthorized_reports_auth_expired() {
    let (result, refresh) = list_folder_continue(401, "{\"error\":\"expired\"}");
    assert!(refresh);
    assert!(matches!(result, Err(ApiError::AuthExpired(_))));
}

fn sample_upstream_headers(with_api_result: bool) -> Headers {
    let mut h = Headers::new();
    h.insert("content-type", String::from("application/octet-stream"));
    h.insert("content-length", String::from("42"));
    h.insert("etag", String::from("W/\"abc\""));
    if with_api_result {
        h.insert(
            "dropbox-api-result",
            String::from("{\"name\":\"a.txt\",\"size\":42}"),
        );
    }
    h.insert("content-security-policy", String::from("sandbox"));
    h.insert("x-dropbox-request-id", String::from("req-1"));
    h.insert("x-server-response-time", String::from("12"));
    h.insert("strict-transport-security", String::from("max-age=1"));
    h.insert("x-dropbox-response-origin", String::from("far_remote"));
    h
}

#[test]
fn download_success_sanitizes_headers_and_names_attachment() {
    let upstream = sample_upstream_headers(true);
    let (result, refresh) = download_file(200, &upstream, "");
    assert!(!refresh);
    let relayed = result.expect("a success with a result header must be relayed");
    for name in [
        "etag",
        "dropbox-api-result",
        "content-security-policy",
        "x-dropbox-request-id",
        "x-server-response-time",
        "strict-transport-security",
        "x-dropbox-response-origin",
    ] {
        assert!(!relayed.contains(name), "{} must not be relayed", name);
    }
    assert_eq!(
        relayed.get("content-disposition").map(String::as_str),
        Some("attachment; filename=\"a.txt\"")
    );
    assert_eq!(
        relayed.get("content-type").map(String::as_str),
        Some("application/octet-stream")
    );
    assert_eq!(relayed.get("content-length").map(String::as_str), Some("42"));
}

#[test]
fn download_without_result_header_is_malformed() {
    let upstream = sample_upstream_headers(false);
    let (result, refresh) = download_file(200, &upstream, "");
    assert!(!refresh);
    assert!(matches!(result, Err(ApiError::MalformedUpstreamPayload)));
}

#[test]
fn download_unauthorized_reports_auth_expired() {
    let upstream = sample_upstream_headers(true);
    let (result, refresh) = download_file(401, &upstream, "{\"error\":\"expired\"}");
    assert!(refresh);
    match result {
        Err(ApiError::AuthExpired(payload)) => assert_eq!(payload, "{\"error\":\"expired\"}"),
        other => panic!("expected an expired-credential failure, got {:?}", other),
    }
}

#[test]
fn zip_success_sanitizes_headers_without_renaming() {
    let upstream = sample_upstream_headers(true);
    let (result, refresh) = download_zip(200, &upstream, "");
    assert!(!refresh);
    let relayed = result.unwrap();
    assert!(!relayed.contains("etag"));
    assert!(!relayed.contains("dropbox-api-result"));
    assert!(!relayed.contains("x-dropbox-response-origin"));
    assert!(!relayed.contains("content-disposition"));
    assert_eq!(relayed.get("content-length").map(String::as_str), Some("42"));
}

#[test]
fn zip_unauthorized_reports_auth_expired() {
    let upstream = sample_upstream_headers(true);
    let (result, refresh) = download_zip(401, &upstream, "{}");
    assert!(refresh);
    assert!(matches!(result, Err(ApiError::AuthExpired(_))));
}

#[test]
fn signed_headers_hold_the_four_provider_headers() {
    let signed = build_headers("tok", "ns1", "member9");
    assert_eq!(signed.len(), 4);
    assert_eq!(
        signed.get("authorization").map(String::as_str),
        Some("Bearer tok")
    );
    assert_eq!(
        signed.get("content-type").map(String::as_str),
        Some("application/json")
    );
    assert_eq!(
        signed.get("dropbox-api-path-root").map(String::as_str),
        Some("{\".tag\":\"namespace_id\",\"namespace_id\":\"ns1\"}")
    );
    assert_eq!(
        signed.get("dropbox-api-select-user").map(String::as_str),
        Some("member9")
    );
}

#[test]
fn prepare_download_headers_merges_adds_and_strips() {
    let mut inbound = Headers::new();
    inbound.insert("accept", String::from("*/*"));
    inbound.insert("host", String::from("localhost:3000"));
    inbound.insert("content-type", String::from("text/plain"));
    inbound.insert("authorization", String::from("Bearer stale"));
    let signed = build_headers("fresh", "ns1", "member9");
    let prepared = prepare_download_headers(&inbound, &signed, "/docs/a.txt");
    assert!(!prepared.contains("content-type"));
    assert!(!prepared.contains("host"));
    assert_eq!(
        prepared.get("dropbox-api-arg").map(String::as_str),
        Some("{\"path\":\"/docs/a.txt\"}")
    );
    assert_eq!(
        prepared.get("authorization").map(String::as_str),
        Some("Bearer fresh")
    );
    assert_eq!(prepared.get("accept").map(String::as_str), Some("*/*"));
    assert_eq!(
        inbound.get("content-type").map(String::as_str),
        Some("text/plain"),
        "the caller's own header set must stay untouched"
    );
}
