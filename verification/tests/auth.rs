use oqto::auth::{
    find_dev_user, token_check, TokenCheck,
    bearer_token_from_header, is_websocket_auth_path, query_param, select_credential,
    token_from_cookie_header, AuthError, Credential, RequestCredentials,
};

#[test]
fn test_bearer_token_from_header_valid() {
    assert_eq!(
        bearer_token_from_header("Bearer abc.def.ghi").unwrap(),
        "abc.def.ghi"
    );
    assert_eq!(
        bearer_token_from_header("bearer   token123").unwrap(),
        "token123"
    );
    assert_eq!(
        bearer_token_from_header("   Bearer\tmixed-case ").unwrap(),
        "mixed-case"
    );
}

#[test]
fn test_bearer_token_from_header_invalid() {
    let cases = [
        "",
        "Bearer",
        "Bearer ",
        "Token something",
        "Bearer token extra",
        "bear token",
    ];

    for case in cases {
        assert!(
            bearer_token_from_header(case).is_err(),
            "{case} should fail"
        );
    }
}

#[test]
fn malformed_header_is_an_invalid_auth_header() {
    assert!(matches!(
        bearer_token_from_header("Basic abc"),
        Err(AuthError::InvalidAuthHeader)
    ));
}

#[test]
fn cookie_token_is_found_by_name() {
    assert_eq!(
        token_from_cookie_header("theme=dark; auth_token = abc ; x=1", "auth_token"),
        Some("abc")
    );
    assert_eq!(token_from_cookie_header("a=1;b", "auth_token"), None);
    assert_eq!(
        token_from_cookie_header("auth_token=first; auth_token=second", "auth_token"),
        Some("first")
    );
    assert_eq!(token_from_cookie_header("auth_token=a=b", "auth_token"), Some("a=b"));
}

#[test]
fn query_parameters_are_url_decoded() {
    assert_eq!(
        query_param("x=1&token=a%20b", "token"),
        Some("a b".to_string())
    );
    assert_eq!(query_param("token", "token"), None);
    assert_eq!(query_param("api_key=k", "token"), None);
    // A value that does not decode to UTF-8 is passed over.
    assert_eq!(
        query_param("token=%FF&token=ok", "token"),
        Some("ok".to_string())
    );
}

#[test]
fn websocket_paths_accept_query_tokens() {
    assert!(is_websocket_auth_path("/ws/mux", Some("WebSocket")));
    assert!(is_websocket_auth_path(
        "/sessions/abc/browser/stream",
        Some("websocket")
    ));
    assert!(!is_websocket_auth_path("/ws/mux", None));
    assert!(!is_websocket_auth_path("/api/other", Some("websocket")));
}

fn request<'a>() -> RequestCredentials<'a> {
    RequestCredentials {
        authorization: None,
        api_key_header: None,
        cookie: None,
        query: None,
        websocket_path: false,
        dev_user: None,
    }
}

#[test]
fn bearer_header_comes_first() {
    let mut req = request();
    req.authorization = Some("Bearer octo_sk_abc");
    req.cookie = Some("auth_token=jwt");
    assert!(matches!(
        select_credential(&req, false),
        Ok(Credential::ApiKey(k)) if k == "octo_sk_abc"
    ));
    req.authorization = Some("Bearer jwt1");
    assert!(matches!(
        select_credential(&req, false),
        Ok(Credential::Token(t)) if t == "jwt1"
    ));
    req.authorization = Some("garbage");
    assert!(matches!(
        select_credential(&req, false),
        Err(AuthError::InvalidAuthHeader)
    ));
}

#[test]
fn later_sources_in_priority_order() {
    let mut req = request();
    req.cookie = Some("auth_token=c1");
    req.query = Some("token=q1");
    req.websocket_path = true;
    assert!(matches!(select_credential(&req, false), Ok(Credential::Token(t)) if t == "c1"));
    req.cookie = None;
    assert!(matches!(select_credential(&req, false), Ok(Credential::Token(t)) if t == "q1"));
    req.query = Some("api_key=k1");
    assert!(matches!(select_credential(&req, false), Ok(Credential::ApiKey(k)) if k == "k1"));
    req.websocket_path = false;
    assert!(matches!(
        select_credential(&req, false),
        Err(AuthError::MissingAuthHeader)
    ));
    req.dev_user = Some("alice");
    assert!(matches!(select_credential(&req, true), Ok(Credential::Token(t)) if t == "dev:alice"));
    assert!(matches!(
        select_credential(&req, false),
        Err(AuthError::MissingAuthHeader)
    ));
}

#[test]
fn dev_tokens_name_a_dev_user_in_dev_mode() {
    let ids = vec!["dev".to_string(), "user".to_string()];
    assert_eq!(token_check("dev:dev", true), TokenCheck::DevUser("dev"));
    assert_eq!(find_dev_user(&ids, "dev").ok(), Some(0));
    assert_eq!(token_check("dev:unknown", true), TokenCheck::DevUser("unknown"));
    assert!(matches!(find_dev_user(&ids, "unknown"), Err(AuthError::UserNotFound)));
    assert_eq!(token_check("dev:dev", false), TokenCheck::Jwt);
    assert_eq!(token_check("eyJhbGciOi.x.y", true), TokenCheck::Jwt);
}

#[test]
fn percent_decoding_keeps_plus_and_stray_percents() {
    assert_eq!(query_param("token=%C3%A9t%C3%A9", "token"), Some("été".to_string()));
    assert_eq!(query_param("token=a+b", "token"), Some("a+b".to_string()));
    assert_eq!(query_param("token=50%25%zz%4", "token"), Some("50%%zz%4".to_string()));
    assert_eq!(query_param("token=%4a%4A", "token"), Some("JJ".to_string()));
}
