use oqto::eavs::{
    api_error, bearer_header, handle_status, health_url, key_url, keys_url, oauth_callback_url,
    oauth_delete_status, oauth_delete_url, oauth_login_url, oauth_poll_url, oauth_status_url,
    providers_detail_url, revoke_status, usage_url, ApiErrorResponse, EavsError, StatusVerdict,
};

#[test]
fn api_addresses() {
    let b = "http://localhost:41823";
    assert_eq!(health_url(b), "http://localhost:41823/health");
    assert_eq!(keys_url(b), "http://localhost:41823/admin/keys");
    assert_eq!(key_url(b, "cold-lamp"), "http://localhost:41823/admin/keys/cold-lamp");
    assert_eq!(usage_url(b, "k"), "http://localhost:41823/admin/keys/k/usage");
    assert_eq!(providers_detail_url(b), "http://localhost:41823/providers/detail");
    assert_eq!(oauth_login_url(b, "anthropic"), "http://localhost:41823/auth/login/anthropic");
    assert_eq!(oauth_callback_url(b), "http://localhost:41823/auth/callback");
    assert_eq!(oauth_poll_url(b, "github-copilot"), "http://localhost:41823/auth/poll/github-copilot");
    assert_eq!(oauth_status_url(b, "u1"), "http://localhost:41823/auth/status/u1");
    assert_eq!(oauth_delete_url(b, "u1", "anthropic"), "http://localhost:41823/auth/u1/anthropic");
    assert_eq!(bearer_header("test-master-key"), "Bearer test-master-key");
}

#[test]
fn statuses_are_classified() {
    assert!(matches!(handle_status(200), StatusVerdict::ReadBody));
    assert!(matches!(handle_status(201), StatusVerdict::ReadBody));
    assert!(matches!(handle_status(401), StatusVerdict::Done(Err(EavsError::Unauthorized))));
    assert!(matches!(
        handle_status(404),
        StatusVerdict::Done(Err(EavsError::KeyNotFound(ref k))) if k == "unknown"
    ));
    assert!(matches!(handle_status(503), StatusVerdict::Done(Err(EavsError::KeysDisabled))));
    assert!(matches!(handle_status(500), StatusVerdict::ReadError));
    assert!(matches!(revoke_status(204, "k"), StatusVerdict::Done(Ok(()))));
    assert!(matches!(
        revoke_status(404, "k"),
        StatusVerdict::Done(Err(EavsError::KeyNotFound(ref k))) if k == "k"
    ));
    assert!(matches!(revoke_status(200, "k"), StatusVerdict::ReadError));
    assert!(matches!(oauth_delete_status(204), StatusVerdict::Done(Ok(true))));
    assert!(matches!(oauth_delete_status(404), StatusVerdict::Done(Ok(false))));
    assert!(matches!(oauth_delete_status(400), StatusVerdict::ReadError));
}

#[test]
fn error_bodies_become_api_errors() {
    let e = api_error(ApiErrorResponse {
        error: "bad".to_string(),
        code: "E1".to_string(),
    });
    assert!(matches!(e, EavsError::ApiError { ref message, ref code } if message == "bad" && code == "E1"));
}
