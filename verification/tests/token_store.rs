use dropbox_proxy::model::Credential;
use dropbox_proxy::model::RefreshError;
use dropbox_proxy::token::TokenManager;

fn old_credential() -> Credential {
    Credential {
        access_token: String::from("old-token"),
        token_type: String::from("bearer"),
        expires_in: 14400,
    }
}

#[test]
fn successful_refresh_overwrites_the_credential() {
    let mut tm = TokenManager::new(old_credential());
    assert_eq!(tm.load_headers_fragment(), "old-token");
    let fresh = Credential {
        access_token: String::from("new-token"),
        token_type: String::from("bearer"),
        expires_in: 14400,
    };
    let outcome = tm.apply_refresh_outcome(200, Some(fresh));
    assert!(outcome.is_ok());
    assert_eq!(tm.load_headers_fragment(), "new-token");
    assert_ne!(tm.load_headers_fragment(), "old-token");
}

#[test]
fn rejected_refresh_keeps_the_credential() {
    let mut tm = TokenManager::new(old_credential());
    let fresh = Credential {
        access_token: String::from("new-token"),
        token_type: String::from("bearer"),
        expires_in: 14400,
    };
    let outcome = tm.apply_refresh_outcome(400, Some(fresh));
    assert_eq!(outcome, Err(RefreshError::Rejected));
    assert_eq!(tm.load_headers_fragment(), "old-token");
}

#[test]
fn refresh_from_response_body_parses_and_overwrites() {
    let mut tm = TokenManager::new(old_credential());
    let body =
        "{\"access_token\":\"sl.fresh\",\"token_type\":\"bearer\",\"expires_in\":14400,\"scope\":\"files\"}";
    let outcome = tm.apply_refresh(200, body);
    assert!(outcome.is_ok());
    assert_eq!(tm.load_headers_fragment(), "sl.fresh");
    assert_eq!(tm.credential().expires_in, 14400);
}

#[test]
fn refresh_with_malformed_body_keeps_the_credential() {
    let mut tm = TokenManager::new(old_credential());
    let outcome = tm.apply_refresh(200, "{\"error\":\"server hiccup\"}");
    assert_eq!(outcome, Err(RefreshError::MalformedPayload));
    assert_eq!(tm.load_headers_fragment(), "old-token");
}

#[test]
fn refresh_with_error_status_never_reads_the_body() {
    let mut tm = TokenManager::new(old_credential());
    let body =
        "{\"access_token\":\"sl.fresh\",\"token_type\":\"bearer\",\"expires_in\":14400}";
    let outcome = tm.apply_refresh(503, body);
    assert_eq!(outcome, Err(RefreshError::Rejected));
    assert_eq!(tm.load_headers_fragment(), "old-token");
}

#[test]
fn refresh_reads_the_three_credential_fields() {
    let mut tm = TokenManager::new(old_credential());
    let outcome = tm.apply_refresh(
        200,
        "{\"access_token\":\"tok\",\"token_type\":\"bearer\",\"expires_in\":7200}",
    );
    assert!(outcome.is_ok());
    assert_eq!(tm.credential().access_token, "tok");
    assert_eq!(tm.credential().token_type, "bearer");
    assert_eq!(tm.credential().expires_in, 7200);
}

#[test]
fn refresh_rejects_bodies_missing_credential_fields() {
    let bodies = vec![
        String::from("{\"access_token\":\"tok\"}"),
        String::from("not json"),
        String::from(
            "{\"access_token\":\"tok\",\"token_type\":\"bearer\",\"expires_in\":\"soon\"}",
        ),
    ];
    for body in bodies {
        let mut tm = TokenManager::new(old_credential());
        let outcome = tm.apply_refresh(200, &body);
        assert_eq!(outcome, Err(RefreshError::MalformedPayload));
        assert_eq!(tm.load_headers_fragment(), "old-token");
    }
}
