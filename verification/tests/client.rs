use anylist_rs::client::{
    client_headers, get_headers, judge_response, judge_retry_response, login_failed,
    refresh_failed, request_url, ResponseAction,
};
use anylist_rs::utils::generate_id;
use anylist_rs::{AnyListError, AuthEvent, AuthState, SavedTokens};

fn tokens() -> SavedTokens {
    SavedTokens {
        access_token: "access".to_string(),
        refresh_token: "refresh".to_string(),
        user_id: "user".to_string(),
        is_premium_user: true,
    }
}

#[test]
fn a_restored_session_exports_what_it_was_given() {
    let state = AuthState::from_tokens(tokens());
    assert!(state.auto_refresh_enabled());
    assert_eq!(state.user_id(), "user");
    assert!(state.is_premium_user());
    assert_eq!(state.access_token(), "access");
    assert_eq!(state.refresh_token(), "refresh");
    let exported = state.export_tokens();
    assert_eq!(exported.access_token, "access");
    assert_eq!(exported.refresh_token, "refresh");
    assert_eq!(exported.user_id, "user");
    assert!(exported.is_premium_user);
}

#[test]
fn disabling_auto_refresh_keeps_the_tokens() {
    let state = AuthState::from_tokens(tokens()).disable_auto_refresh();
    assert!(!state.auto_refresh_enabled());
    assert_eq!(state.export_tokens().access_token, "access");
}

#[test]
fn a_refresh_replaces_both_tokens_only() {
    let mut state = AuthState::from_tokens(tokens());
    let event = state.tokens_refreshed("a2".to_string(), "r2".to_string());
    assert!(matches!(event, AuthEvent::TokensRefreshed));
    let exported = state.export_tokens();
    assert_eq!(exported.access_token, "a2");
    assert_eq!(exported.refresh_token, "r2");
    assert_eq!(exported.user_id, "user");
    assert!(exported.is_premium_user);
    assert!(state.auto_refresh_enabled());
}

#[test]
fn request_urls_and_headers() {
    assert_eq!(request_url("data/user-data/get"), "https://www.anylist.com/data/user-data/get");
    let pair = |a: &str, b: &str| (a.to_string(), b.to_string());
    assert_eq!(
        get_headers("tok", "cid"),
        vec![
            pair("authorization", "Bearer tok"),
            pair("X-AnyLeaf-API-Version", "3"),
            pair("X-AnyLeaf-Client-Identifier", "cid"),
            pair("Content-Type", "application/x-protobuf"),
        ]
    );
    assert_eq!(
        client_headers("cid"),
        vec![pair("X-AnyLeaf-API-Version", "3"), pair("X-AnyLeaf-Client-Identifier", "cid")]
    );
}

#[test]
fn answers_are_judged_by_their_status() {
    assert!(matches!(judge_response(200, "200 OK", true), ResponseAction::Deliver));
    assert!(matches!(judge_response(299, "299", false), ResponseAction::Deliver));
    assert!(matches!(judge_response(401, "401 Unauthorized", true), ResponseAction::RefreshAndRetry));
    match judge_response(401, "401 Unauthorized", false) {
        ResponseAction::Fail(AnyListError::AuthenticationFailed(msg)) => {
            assert_eq!(msg, "Unauthorized (auto-refresh disabled)")
        }
        other => panic!("unexpected: {:?}", other),
    }
    for status in [199u16, 300, 404, 500] {
        match judge_response(status, "500 Internal Server Error", true) {
            ResponseAction::Fail(AnyListError::NetworkError(msg)) => {
                assert_eq!(msg, "Request failed with status: 500 Internal Server Error")
            }
            other => panic!("unexpected: {:?}", other),
        }
    }
}

#[test]
fn there_is_no_second_retry() {
    assert!(judge_retry_response(204, "204 No Content").is_ok());
    for status in [401u16, 403, 500] {
        match judge_retry_response(status, "403 Forbidden") {
            Err(AnyListError::NetworkError(msg)) => {
                assert_eq!(msg, "Request failed after token refresh with status: 403 Forbidden")
            }
            other => panic!("unexpected: {:?}", other),
        }
    }
}

#[test]
fn refused_refresh_and_login() {
    let (event, error) = refresh_failed("400 Bad Request", "expired");
    let expected = "Token refresh failed with status: 400 Bad Request, body: expired";
    match event {
        AuthEvent::RefreshFailed(msg) => assert_eq!(msg, expected),
        other => panic!("unexpected: {:?}", other),
    }
    match error {
        AnyListError::AuthenticationFailed(msg) => assert_eq!(msg, expected),
        other => panic!("unexpected: {:?}", other),
    }
    match login_failed("403 Forbidden", "no") {
        AnyListError::AuthenticationFailed(msg) => {
            assert_eq!(msg, "Login failed with status: 403 Forbidden, body: no")
        }
        other => panic!("unexpected: {:?}", other),
    }
}

#[test]
fn generated_ids_are_32_lower_case_hex_digits() {
    let first = generate_id();
    let second = generate_id();
    for id in [&first, &second] {
        assert_eq!(id.len(), 32);
        assert!(id.chars().all(|c| c.is_ascii_digit() || ('a'..='f').contains(&c)), "{}", id);
    }
    assert_ne!(first, second);
}
