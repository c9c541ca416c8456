//! The eavs LLM proxy: its API's addresses, the meaning of its status
//! codes, and the types it answers with. The HTTP requests themselves are
//! made by the caller.
use vstd::prelude::*;
use crate::text::{push_str, to_owned_string};

verus! {

/// Budget reset window options.
#[derive(Debug, Clone, Copy, PartialEq, Eq, Structural)]
pub enum BudgetWindow {
    /// Never resets - lifetime budget.
    Total,
    /// Resets daily.
    Daily,
    /// Resets weekly.
    Weekly,
    /// Resets monthly.
    Monthly,
}

/// OAuth login response from EAVS.
#[derive(Debug, Clone)]
pub struct OAuthLoginResponse {
    pub auth_url: Option<String>,
    pub instructions: String,
    pub verification_uri: Option<String>,
    pub user_code: Option<String>,
    pub device_code: Option<String>,
    pub interval: Option<u64>,
    pub expires_in: Option<u64>,
    pub state: Option<String>,
    pub code_verifier: Option<String>,
}

/// OAuth status response from EAVS.
#[derive(Debug, Clone)]
pub struct OAuthStatusResponse {
    pub status: String,
    pub provider: String,
    pub user_id: String,
}

/// OAuth poll response from EAVS.
#[derive(Debug, Clone)]
pub struct OAuthPollResponse {
    pub status: String,
    pub interval: Option<u64>,
}

/// Error response from EAVS API.
#[derive(Debug, Clone)]
pub struct ApiErrorResponse {
    pub error: String,
    pub code: String,
}

/// What went wrong talking to eavs.
#[derive(Debug, Clone)]
pub enum EavsError {
    /// The HTTP client could not be built.
    ClientBuild(String),
    /// eavs could not be reached.
    ConnectionFailed { url: String, message: String },
    /// The key does not exist.
    KeyNotFound(String),
    /// The master key was refused.
    Unauthorized,
    /// Virtual keys are disabled in eavs.
    KeysDisabled,
    /// eavs answered with an error.
    ApiError { message: String, code: String },
    /// The answer could not be read.
    ParseError(String),
}

// ---------------------------------------------------------------------------
// Addresses
// ---------------------------------------------------------------------------

fn url_of(base: &str, path: &str) -> (r: String)
    ensures
        r@ == base@ + path@,
{
    let mut r = to_owned_string(base);
    push_str(&mut r, path);
    r
}

fn url_of2(base: &str, path: &str, a: &str) -> (r: String)
    ensures
        r@ == base@ + path@ + a@,
{
    let mut r = url_of(base, path);
    push_str(&mut r, a);
    r
}

/// `<base>/health`.
pub fn health_url(base: &str) -> (r: String)
    ensures
        r@ == base@ + "/health"@,
{
    url_of(base, "/health")
}

/// `<base>/admin/keys`.
pub fn keys_url(base: &str) -> (r: String)
    ensures
        r@ == base@ + "/admin/keys"@,
{
    url_of(base, "/admin/keys")
}

/// `<base>/admin/keys/<key>`.
pub fn key_url(base: &str, key_id_or_hash: &str) -> (r: String)
    ensures
        r@ == base@ + "/admin/keys/"@ + key_id_or_hash@,
{
    url_of2(base, "/admin/keys/", key_id_or_hash)
}

/// `<base>/admin/keys/<key>/usage`.
pub fn usage_url(base: &str, key_id_or_hash: &str) -> (r: String)
    ensures
        r@ == base@ + "/admin/keys/"@ + key_id_or_hash@ + "/usage"@,
{
    let mut r = url_of2(base, "/admin/keys/", key_id_or_hash);
    push_str(&mut r, "/usage");
    r
}

/// `<base>/providers/detail`.
pub fn providers_detail_url(base: &str) -> (r: String)
    ensures
        r@ == base@ + "/providers/detail"@,
{
    url_of(base, "/providers/detail")
}

/// `<base>/auth/login/<provider>`.
pub fn oauth_login_url(base: &str, provider: &str) -> (r: String)
    ensures
        r@ == base@ + "/auth/login/"@ + provider@,
{
    url_of2(base, "/auth/login/", provider)
}

/// `<base>/auth/callback`.
pub fn oauth_callback_url(base: &str) -> (r: String)
    ensures
        r@ == base@ + "/auth/callback"@,
{
    url_of(base, "/auth/callback")
}

/// `<base>/auth/poll/<provider>`.
pub fn oauth_poll_url(base: &str, provider: &str) -> (r: String)
    ensures
        r@ == base@ + "/auth/poll/"@ + provider@,
{
    url_of2(base, "/auth/poll/", provider)
}

/// `<base>/auth/status/<user>`.
pub fn oauth_status_url(base: &str, user_id: &str) -> (r: String)
    ensures
        r@ == base@ + "/auth/status/"@ + user_id@,
{
    url_of2(base, "/auth/status/", user_id)
}

/// `<base>/auth/<user>/<provider>`.
pub fn oauth_delete_url(base: &str, user_id: &str, provider: &str) -> (r: String)
    ensures
        r@ == base@ + "/auth/"@ + user_id@ + "/"@ + provider@,
{
    let mut r = url_of2(base, "/auth/", user_id);
    push_str(&mut r, "/");
    push_str(&mut r, provider);
    r
}

/// The `Authorization` header value for the master key.
pub fn bearer_header(master_key: &str) -> (r: String)
    ensures
        r@ == "Bearer "@ + master_key@,
{
    url_of("Bearer ", master_key)
}

// ---------------------------------------------------------------------------
// Status codes
// ---------------------------------------------------------------------------

/// What a response's status means, before its body is read.
#[derive(Debug)]
pub enum StatusVerdict<T> {
    /// The call is done with this result.
    Done(Result<T, EavsError>),
    /// The body holds the answer: read it.
    ReadBody,
    /// The body holds an `ApiErrorResponse`: read it and fail with it.
    ReadError,
}

/// How a response that carries a body is handled: success statuses are
/// read as the answer; 401, 404 and 503 are errors of their own; any other
/// status carries an error body.
pub fn handle_status(status: u16) -> (r: StatusVerdict<()>)
    ensures
        (200 <= status && status < 300) ==> r is ReadBody,
        status == 401 ==> (r matches StatusVerdict::Done(Err(e)) && e is Unauthorized),
        status == 404 ==> (r matches StatusVerdict::Done(Err(EavsError::KeyNotFound(k))) && k@
            == "unknown"@),
        status == 503 ==> (r matches StatusVerdict::Done(Err(e)) && e is KeysDisabled),
        !(200 <= status && status < 300) && status != 401 && status != 404 && status != 503
            ==> r is ReadError,
{
    if 200 <= status && status < 300 {
        StatusVerdict::ReadBody
    } else if status == 401 {
        StatusVerdict::Done(Err(EavsError::Unauthorized))
    } else if status == 404 {
        StatusVerdict::Done(Err(EavsError::KeyNotFound(to_owned_string("unknown"))))
    } else if status == 503 {
        StatusVerdict::Done(Err(EavsError::KeysDisabled))
    } else {
        StatusVerdict::ReadError
    }
}

/// How the answer to revoking a key is handled: 204 is done, 404 means the
/// key is not there, 401 and 503 are errors of their own, and any other
/// status carries an error body.
pub fn revoke_status(status: u16, key_id_or_hash: &str) -> (r: StatusVerdict<()>)
    ensures
        status == 204 ==> (r matches StatusVerdict::Done(Ok(_))),
        status == 404 ==> (r matches StatusVerdict::Done(Err(EavsError::KeyNotFound(k))) && k@
            == key_id_or_hash@),
        status == 401 ==> (r matches StatusVerdict::Done(Err(e)) && e is Unauthorized),
        status == 503 ==> (r matches StatusVerdict::Done(Err(e)) && e is KeysDisabled),
        status != 204 && status != 404 && status != 401 && status != 503 ==> r is ReadError,
{
    if status == 204 {
        StatusVerdict::Done(Ok(()))
    } else if status == 404 {
        StatusVerdict::Done(Err(EavsError::KeyNotFound(to_owned_string(key_id_or_hash))))
    } else if status == 401 {
        StatusVerdict::Done(Err(EavsError::Unauthorized))
    } else if status == 503 {
        StatusVerdict::Done(Err(EavsError::KeysDisabled))
    } else {
        StatusVerdict::ReadError
    }
}

/// How the answer to deleting OAuth credentials is handled: 204 means they
/// were deleted, 404 that there were none; any other status carries an
/// error body.
pub fn oauth_delete_status(status: u16) -> (r: StatusVerdict<bool>)
    ensures
        status == 204 ==> (r matches StatusVerdict::Done(Ok(b)) && b),
        status == 404 ==> (r matches StatusVerdict::Done(Ok(b)) && !b),
        status != 204 && status != 404 ==> r is ReadError,
{
    if status == 204 {
        StatusVerdict::Done(Ok(true))
    } else if status == 404 {
        StatusVerdict::Done(Ok(false))
    } else {
        StatusVerdict::ReadError
    }
}

/// The error eavs reported in an error body.
pub fn api_error(body: ApiErrorResponse) -> (r: EavsError)
    ensures
        r matches EavsError::ApiError { message, code } && message == body.error && code
            == body.code,
{
    EavsError::ApiError { message: body.error, code: body.code }
}

} // verus!
