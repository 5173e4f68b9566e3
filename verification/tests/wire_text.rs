use dropbox_proxy::text::api_arg_value;
use dropbox_proxy::text::bearer_value;
use dropbox_proxy::text::disposition_value;
use dropbox_proxy::text::escape_json;
use dropbox_proxy::text::list_continue_body;
use dropbox_proxy::text::list_folder_body;
use dropbox_proxy::text::path_root_value;
use dropbox_proxy::text::refresh_request_body;

#[test]
fn bearer_value_prefixes_token() {
    assert_eq!(bearer_value("abc123"), "Bearer abc123");
}

#[test]
fn list_folder_body_exact() {
    assert_eq!(
        list_folder_body("/docs"),
        "{\"include_deleted\":false,\"include_has_explicit_shared_members\":false,\"include_media_info\":false,\"include_mounted_folders\":false,\"include_non_downloadable_files\":false,\"path\":\"/docs\",\"recursive\":false}"
    );
}

#[test]
fn list_folder_body_is_valid_json_with_escaped_path() {
    let path = "/a \"b\"\\c\nd\te";
    let body = list_folder_body(path);
    let v: serde_json::Value = serde_json::from_str(&body).expect("body must stay valid JSON");
    assert_eq!(v.get("path").unwrap().as_str().unwrap(), path);
    assert_eq!(v.get("recursive").unwrap().as_bool().unwrap(), false);
    assert_eq!(v.get("include_deleted").unwrap().as_bool().unwrap(), false);
}

#[test]
fn list_continue_body_exact() {
    assert_eq!(list_continue_body("cur-1"), "{\"cursor\":\"cur-1\"}");
}

#[test]
fn api_arg_value_exact() {
    assert_eq!(api_arg_value("/docs/a b.txt"), "{\"path\":\"/docs/a b.txt\"}");
}

#[test]
fn path_root_value_exact() {
    assert_eq!(
        path_root_value("ns123"),
        "{\".tag\":\"namespace_id\",\"namespace_id\":\"ns123\"}"
    );
}

#[test]
fn disposition_value_exact() {
    assert_eq!(
        disposition_value("report.pdf"),
        "attachment; filename=\"report.pdf\""
    );
}

#[test]
fn refresh_request_body_exact() {
    assert_eq!(
        refresh_request_body("rt0", "cid", "cs0"),
        "grant_type=refresh_token&refresh_token=rt0&client_id=cid&client_secret=cs0"
    );
}

#[test]
fn escape_json_handles_quotes_and_controls() {
    assert_eq!(escape_json("plain"), "plain");
    assert_eq!(escape_json("a\"b"), "a\\\"b");
    assert_eq!(escape_json("a\\b"), "a\\\\b");
    assert_eq!(escape_json("a\nb\rc\td"), "a\\nb\\rc\\td");
    assert_eq!(escape_json("\u{1}\u{1f}"), "\\u0001\\u001f");
}
