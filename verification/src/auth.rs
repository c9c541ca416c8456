//! Extraction of credentials from the parts of an HTTP request.
//!
//! The request itself stays with the caller: it hands over the header
//! values and the query string as plain strings, and gets back which
//! credential to check, or why the request is refused.
use vstd::prelude::*;
use vstd::string::StringSliceAdditionalSpecFns;
use vstd::utf8::{decode_utf8, encode_utf8, encode_utf8_decode_utf8, encode_utf8_valid_utf8, valid_utf8};
use crate::api_keys::{is_api_key, API_KEY_PREFIX};
use crate::text::{
    chars_of, eq_ignore_ascii_case, ends_with, push_str, range_eq, range_eq_ignore_ascii_case,
    split_bounds, split_on, starts_with, str_ends_with, str_eq, str_eq_ignore_ascii_case,
    str_starts_with, to_owned_string, trim, trim_bounds, word_bounds, words,
};

verus! {

/// Why a request is not authenticated.
#[derive(Debug, Clone)]
pub enum AuthError {
    /// No credential was presented.
    MissingAuthHeader,
    /// The `Authorization` header is not `Bearer <token>`.
    InvalidAuthHeader,
    /// The token was rejected.
    InvalidToken(String),
    /// The token has expired.
    TokenExpired,
    /// The token names no known user.
    UserNotFound,
    /// Something went wrong on the server's side.
    Internal(String),
    /// The user lacks the role the operation needs.
    InsufficientPermissions(String),
}

// ---------------------------------------------------------------------------
// Authorization header
// ---------------------------------------------------------------------------

/// The scheme word of a bearer header, compared without regard to ASCII case.
pub open spec fn bearer_word() -> Seq<char> {
    seq!['b', 'e', 'a', 'r', 'e', 'r']
}

/// The token of an `Authorization` header value: exactly two words, the
/// first `bearer` in any ASCII case; the token is the second word.
pub open spec fn bearer_token(s: Seq<char>) -> Option<Seq<char>> {
    let w = words(s);
    if w.len() == 2 && eq_ignore_ascii_case(w[0], bearer_word()) {
        Some(w[1])
    } else {
        None
    }
}

/// Extract a Bearer token from an Authorization header value.
pub fn bearer_token_from_header(header_value: &str) -> (r: Result<&str, AuthError>)
    ensures
        match r {
            Ok(t) => bearer_token(header_value@) == Some(t@),
            Err(e) => bearer_token(header_value@) is None && e is InvalidAuthHeader,
        },
{
    let v = chars_of(header_value);
    let w = word_bounds(&v);
    if w.len() != 2 {
        return Err(AuthError::InvalidAuthHeader);
    }
    let scheme = chars_of("bearer");
    proof {
        reveal_strlit("bearer");
        assert(scheme@ =~= bearer_word());
    }
    let (a, b) = w[0];
    if !range_eq_ignore_ascii_case(&v, a, b, &scheme) {
        return Err(AuthError::InvalidAuthHeader);
    }
    let (c, d) = w[1];
    Ok(header_value.substring_char(c, d))
}

// ---------------------------------------------------------------------------
// Cookie header
// ---------------------------------------------------------------------------

/// The value of one `name=value` cookie pair when its name, trimmed, is
/// `name`: the text after the first `=`, trimmed.
pub open spec fn cookie_pair_value(pair: Seq<char>, name: Seq<char>) -> Option<Seq<char>> {
    let parts = split_on(pair, '=');
    if parts.len() >= 2 && trim(parts[0]) == name {
        Some(trim(pair.skip(parts[0].len() + 1int)))
    } else {
        None
    }
}

/// The first pair, trimmed, that carries the cookie `name`.
pub open spec fn cookie_lookup(pairs: Seq<Seq<char>>, name: Seq<char>) -> Option<Seq<char>>
    decreases pairs.len(),
{
    if pairs.len() == 0 {
        None
    } else {
        let here = cookie_pair_value(trim(pairs[0]), name);
        if here is Some {
            here
        } else {
            cookie_lookup(pairs.drop_first(), name)
        }
    }
}

/// The value of cookie `name` in a `Cookie` header: pairs are separated
/// by `;`, and the first one that names the cookie counts.
pub open spec fn cookie_value(header: Seq<char>, name: Seq<char>) -> Option<Seq<char>> {
    cookie_lookup(split_on(header, ';'), name)
}

proof fn lemma_cookie_lookup_skip(pairs: Seq<Seq<char>>, name: Seq<char>, k: int)
    requires
        0 <= k < pairs.len(),
        cookie_pair_value(trim(pairs[k]), name) is None,
    ensures
        cookie_lookup(pairs.skip(k), name) == cookie_lookup(pairs.skip(k + 1), name),
{
    assert(pairs.skip(k).drop_first() =~= pairs.skip(k + 1));
    assert(pairs.skip(k)[0] == pairs[k]);
}

/// The value of the cookie `cookie_name` in a `Cookie` header, if present.
pub fn token_from_cookie_header<'a>(cookie_header: &'a str, cookie_name: &str) -> (r: Option<
    &'a str,
>)
    ensures
        match r {
            Some(t) => cookie_value(cookie_header@, cookie_name@) == Some(t@),
            None => cookie_value(cookie_header@, cookie_name@) is None,
        },
{
    let v = chars_of(cookie_header);
    let nv = chars_of(cookie_name);
    let pieces = split_bounds(&v, 0, v.len(), ';');
    let ghost pairs = split_on(v@, ';');
    proof {
        assert(v@.subrange(0, v@.len() as int) =~= v@);
        assert(pairs.skip(0) =~= pairs);
    }
    let mut k: usize = 0;
    while k < pieces.len()
        invariant
            v@ == cookie_header@,
            nv@ == cookie_name@,
            pairs == split_on(v@, ';'),
            pieces@.len() == pairs.len(),
            0 <= k <= pieces@.len(),
            forall|j: int|
                0 <= j < pieces@.len() ==> {
                    &&& (#[trigger] pieces@[j]).0 <= pieces@[j].1 <= v@.len()
                    &&& v@.subrange(pieces@[j].0 as int, pieces@[j].1 as int) == pairs[j]
                },
            cookie_value(v@, nv@) == cookie_lookup(pairs.skip(k as int), nv@),
        decreases pieces.len() - k,
    {
        let (a, b) = pieces[k];
        let (ta, tb) = trim_bounds(&v, a, b);
        let ghost pair = v@.subrange(ta as int, tb as int);
        assert(pair == trim(pairs[k as int]));
        let eq = split_bounds(&v, ta, tb, '=');
        let ghost parts = split_on(pair, '=');
        if eq.len() >= 2 {
            let (na, nb) = eq[0];
            let (x, y) = trim_bounds(&v, na, nb);
            assert(v@.subrange(na as int, nb as int) == parts[0]);
            if range_eq(&v, x, y, &nv) {
                let (va, vb) = trim_bounds(&v, nb + 1, tb);
                proof {
                    assert(pair.skip(parts[0].len() + 1int) =~= v@.subrange(nb + 1, tb as int));
                    assert(cookie_pair_value(pair, nv@) == Some(v@.subrange(va as int, vb as int)));
                    assert(pairs.skip(k as int)[0] == pairs[k as int]);
                }
                return Some(cookie_header.substring_char(va, vb));
            }
        }
        proof {
            lemma_cookie_lookup_skip(pairs, nv@, k as int);
        }
        k += 1;
    }
    None
}

// ---------------------------------------------------------------------------
// Query string
// ---------------------------------------------------------------------------

/// The value of a hexadecimal digit byte, in either case.
pub open spec fn hex_value(b: u8) -> Option<u8> {
    if 48 <= b <= 57 {
        Some((b - 48) as u8)
    } else if 65 <= b <= 70 {
        Some((b - 55) as u8)
    } else if 97 <= b <= 102 {
        Some((b - 87) as u8)
    } else {
        None
    }
}

/// Percent-decoding of bytes: `%` followed by two hexadecimal digits is the
/// byte they name; every other byte, `+` and a `%` without two digits after
/// it among them, stays as it is.
pub open spec fn percent_decoded(b: Seq<u8>) -> Seq<u8>
    decreases b.len(),
{
    if b.len() == 0 {
        Seq::empty()
    } else if b[0] == 37 && b.len() >= 3 && hex_value(b[1]) is Some && hex_value(b[2]) is Some {
        seq![(hex_value(b[1])->0 * 16 + hex_value(b[2])->0) as u8] + percent_decoded(b.skip(3))
    } else {
        seq![b[0]] + percent_decoded(b.drop_first())
    }
}

/// What `urlencoding::decode` gives for a string: the text whose UTF-8
/// bytes are the percent-decoded UTF-8 bytes of the argument, or nothing
/// where those bytes are not UTF-8.
pub open spec fn url_decoded(s: Seq<char>) -> Option<Seq<char>> {
    let bytes = percent_decoded(encode_utf8(s));
    if valid_utf8(bytes) {
        Some(decode_utf8(bytes))
    } else {
        None
    }
}

/// Wraps `urlencoding::decode`: it percent-decodes the UTF-8 bytes of the
/// argument and gives the text they encode, failing where they are not
/// UTF-8; a string without `%` comes back as it is.
#[verifier::external_body]
fn url_decode(s: &str) -> (r: Option<String>)
    ensures
        (match r {
            Some(d) => encode_utf8(d@) == percent_decoded(encode_utf8(s@)),
            None => !valid_utf8(percent_decoded(encode_utf8(s@))),
        }),
        !s@.contains('%') ==> r is Some,
        !s@.contains('%') ==> r->0@ == s@,
{
    match urlencoding::decode(s) {
        Ok(d) => Some(d.into_owned()),
        Err(_) => None,
    }
}

/// Decode one query component: the result is `url_decoded` of it.
fn decode_component(s: &str) -> (r: Option<String>)
    ensures
        (match r {
            Some(d) => url_decoded(s@) == Some(d@),
            None => url_decoded(s@) is None,
        }),
{
    let r = url_decode(s);
    proof {
        if r is Some {
            let d = r->0@;
            encode_utf8_valid_utf8(d);
            encode_utf8_decode_utf8(d);
        }
    }
    r
}

/// The decoded value of one `key=value` pair whose key is `key`.
pub open spec fn query_pair_value(pair: Seq<char>, key: Seq<char>) -> Option<Seq<char>> {
    let parts = split_on(pair, '=');
    if parts.len() >= 2 && parts[0] == key {
        url_decoded(pair.skip(parts[0].len() + 1int))
    } else {
        None
    }
}

/// The first pair with key `key` whose value decodes.
pub open spec fn query_lookup(pairs: Seq<Seq<char>>, key: Seq<char>) -> Option<Seq<char>>
    decreases pairs.len(),
{
    if pairs.len() == 0 {
        None
    } else {
        let here = query_pair_value(pairs[0], key);
        if here is Some {
            here
        } else {
            query_lookup(pairs.drop_first(), key)
        }
    }
}

/// The decoded value of parameter `key` in a query string: pairs are
/// separated by `&`; a pair whose value does not decode is passed over.
pub open spec fn query_value(query: Seq<char>, key: Seq<char>) -> Option<Seq<char>> {
    query_lookup(split_on(query, '&'), key)
}

proof fn lemma_query_lookup_skip(pairs: Seq<Seq<char>>, key: Seq<char>, k: int)
    requires
        0 <= k < pairs.len(),
        query_pair_value(pairs[k], key) is None,
    ensures
        query_lookup(pairs.skip(k), key) == query_lookup(pairs.skip(k + 1), key),
{
    assert(pairs.skip(k).drop_first() =~= pairs.skip(k + 1));
    assert(pairs.skip(k)[0] == pairs[k]);
}

/// The URL-decoded value of parameter `key` in a query string.
pub fn query_param(query: &str, key: &str) -> (r: Option<String>)
    ensures
        match r {
            Some(t) => query_value(query@, key@) == Some(t@),
            None => query_value(query@, key@) is None,
        },
{
    let v = chars_of(query);
    let kv = chars_of(key);
    let pieces = split_bounds(&v, 0, v.len(), '&');
    let ghost pairs = split_on(v@, '&');
    proof {
        assert(v@.subrange(0, v@.len() as int) =~= v@);
        assert(pairs.skip(0) =~= pairs);
    }
    let mut k: usize = 0;
    while k < pieces.len()
        invariant
            v@ == query@,
            kv@ == key@,
            pairs == split_on(v@, '&'),
            pieces@.len() == pairs.len(),
            0 <= k <= pieces@.len(),
            forall|j: int|
                0 <= j < pieces@.len() ==> {
                    &&& (#[trigger] pieces@[j]).0 <= pieces@[j].1 <= v@.len()
                    &&& v@.subrange(pieces@[j].0 as int, pieces@[j].1 as int) == pairs[j]
                },
            query_value(v@, kv@) == query_lookup(pairs.skip(k as int), kv@),
        decreases pieces.len() - k,
    {
        let (a, b) = pieces[k];
        let ghost pair = v@.subrange(a as int, b as int);
        let eq = split_bounds(&v, a, b, '=');
        let ghost parts = split_on(pair, '=');
        if eq.len() >= 2 {
            let (na, nb) = eq[0];
            assert(v@.subrange(na as int, nb as int) == parts[0]);
            if range_eq(&v, na, nb, &kv) {
                let raw = query.substring_char(nb + 1, b);
                proof {
                    assert(pair.skip(parts[0].len() + 1int) =~= v@.subrange(nb + 1, b as int));
                }
                let decoded = decode_component(raw);
                if decoded.is_some() {
                    proof {
                        assert(pairs.skip(k as int)[0] == pairs[k as int]);
                    }
                    return decoded;
                }
            }
        }
        proof {
            lemma_query_lookup_skip(pairs, kv@, k as int);
        }
        k += 1;
    }
    None
}

// ---------------------------------------------------------------------------
// WebSocket paths
// ---------------------------------------------------------------------------

/// Whether a request may carry its credential in the query string: it must
/// be a WebSocket upgrade to one of the streaming endpoints.
pub open spec fn websocket_auth_path(path: Seq<char>, upgrade: Option<Seq<char>>) -> bool {
    &&& upgrade matches Some(u) && eq_ignore_ascii_case(u, "websocket"@)
    &&& {
        ||| path == "/ws/mux"@
        ||| path == "/voice/stt"@
        ||| path == "/voice/tts"@
        ||| starts_with(path, "/session/"@) && ends_with(path, "/browser/stream"@)
        ||| starts_with(path, "/sessions/"@) && ends_with(path, "/browser/stream"@)
    }
}

/// The view of an optional string slice.
pub open spec fn opt_str_view(o: Option<&str>) -> Option<Seq<char>> {
    match o {
        Some(s) => Some(s@),
        None => None,
    }
}

/// Check if this is a WebSocket path that supports query parameter
/// authentication. `upgrade` is the `Upgrade` header, where it is text.
pub fn is_websocket_auth_path(path: &str, upgrade: Option<&str>) -> (r: bool)
    ensures
        r == websocket_auth_path(path@, opt_str_view(upgrade)),
{
    let is_websocket = match upgrade {
        Some(u) => str_eq_ignore_ascii_case(u, "websocket"),
        None => false,
    };
    if !is_websocket {
        return false;
    }
    str_eq(path, "/ws/mux") || str_eq(path, "/voice/stt") || str_eq(path, "/voice/tts") || (
    str_starts_with(path, "/session/") && str_ends_with(path, "/browser/stream")) || (
    str_starts_with(path, "/sessions/") && str_ends_with(path, "/browser/stream"))
}

// ---------------------------------------------------------------------------
// Choosing the credential
// ---------------------------------------------------------------------------

/// A credential to check: a token (JWT, or `dev:<user>` in dev mode) or an
/// API key.
#[derive(Debug, Clone)]
pub enum Credential {
    Token(String),
    ApiKey(String),
}

/// The parts of a request that can carry a credential.
pub struct RequestCredentials<'a> {
    /// The `Authorization` header, where it is text.
    pub authorization: Option<&'a str>,
    /// The `X-API-Key` header, where it is text.
    pub api_key_header: Option<&'a str>,
    /// The `Cookie` header, where it is text.
    pub cookie: Option<&'a str>,
    /// The query string of the URI.
    pub query: Option<&'a str>,
    /// Whether the request is a WebSocket upgrade to a streaming endpoint.
    pub websocket_path: bool,
    /// The `X-Dev-User` header, where it is text.
    pub dev_user: Option<&'a str>,
}

/// Name of the cookie that carries the session token.
pub const AUTH_COOKIE: &'static str = "auth_token";

/// `(true, key)` for an API key, `(false, token)` for a token.
pub open spec fn credential_view(c: Credential) -> (bool, Seq<char>) {
    match c {
        Credential::Token(t) => (false, t@),
        Credential::ApiKey(k) => (true, k@),
    }
}

/// The query parameter `key`, where the request may carry one.
pub open spec fn query_credential(req: RequestCredentials, key: Seq<char>) -> Option<Seq<char>> {
    if req.websocket_path && req.query is Some {
        query_value(req.query->0@, key)
    } else {
        None
    }
}

/// The credential of a request, in order of priority: the bearer header
/// (an API key where it has the key prefix), the `X-API-Key` header, the
/// `auth_token` cookie, the `token` and then `api_key` query parameters on
/// WebSocket paths, and in dev mode the `X-Dev-User` header as `dev:<user>`.
/// `None` where the request carries none.
pub open spec fn chosen_credential(req: RequestCredentials, dev_mode: bool) -> Option<(bool, Seq<char>)> {
    if req.authorization is Some {
        match bearer_token(req.authorization->0@) {
            Some(t) => Some((starts_with(t, API_KEY_PREFIX@), t)),
            None => None,
        }
    } else if req.api_key_header is Some {
        Some((true, req.api_key_header->0@))
    } else if req.cookie is Some && cookie_value(req.cookie->0@, AUTH_COOKIE@) is Some {
        Some((false, cookie_value(req.cookie->0@, AUTH_COOKIE@)->0))
    } else if query_credential(req, "token"@) is Some {
        Some((false, query_credential(req, "token"@)->0))
    } else if query_credential(req, "api_key"@) is Some {
        Some((true, query_credential(req, "api_key"@)->0))
    } else if dev_mode && req.dev_user is Some {
        Some((false, "dev:"@ + req.dev_user->0@))
    } else {
        None
    }
}

/// The credential a request carries, by where it comes: a bearer token is
/// an API key exactly when it has the key prefix; without an
/// `Authorization` header the `X-API-Key` header is always an API key;
/// next the `auth_token` cookie is a token; a malformed `Authorization`
/// header yields nothing; on WebSocket paths the `token` query parameter
/// is a token and else `api_key` an API key; in dev mode a request with
/// nothing else but an `X-Dev-User` header is that dev user's token.
pub proof fn law_credential_sources(req: RequestCredentials, dev_mode: bool)
    ensures
        req.authorization matches Some(h) ==> match bearer_token(h@) {
            Some(t) => chosen_credential(req, dev_mode) matches Some((is_key, c)) && c == t && (is_key <==> starts_with(
                t,
                API_KEY_PREFIX@,
            )),
            None => chosen_credential(req, dev_mode) is None,
        },
        req.authorization is None && req.api_key_header is Some ==> chosen_credential(req, dev_mode) == Some(
            (true, req.api_key_header->0@),
        ),
        req.authorization is None && req.api_key_header is None && req.cookie is Some && cookie_value(
            req.cookie->0@,
            AUTH_COOKIE@,
        ) is Some ==> chosen_credential(req, dev_mode) == Some((false, cookie_value(req.cookie->0@, AUTH_COOKIE@)->0)),
        req.authorization is None && req.api_key_header is None && req.cookie is None && !req.websocket_path
            ==> chosen_credential(req, dev_mode) == (if dev_mode && req.dev_user is Some {
            Some((false, "dev:"@ + req.dev_user->0@))
        } else {
            None
        }),
        (req.authorization is None && req.api_key_header is None && req.cookie is None && req.websocket_path
            && req.query is Some) ==> match query_value(req.query->0@, "token"@) {
            Some(t) => chosen_credential(req, dev_mode) == Some((false, t)),
            None => match query_value(req.query->0@, "api_key"@) {
                Some(k) => chosen_credential(req, dev_mode) == Some((true, k)),
                None => chosen_credential(req, dev_mode) == (if dev_mode && req.dev_user is Some {
                    Some((false, "dev:"@ + req.dev_user->0@))
                } else {
                    None
                }),
            },
        },
        !req.websocket_path && req.authorization is None && req.api_key_header is None && req.cookie is None
            && !dev_mode ==> chosen_credential(req, dev_mode) is None,
        chosen_credential(req, dev_mode) matches Some((is_key, _)) ==> (is_key ==> req.authorization is Some
            || req.api_key_header is Some || req.websocket_path),
{
}

/// Choose the credential that the authentication middleware checks.
///
/// A malformed `Authorization` header is refused outright; a request that
/// carries no credential is refused as missing one.
pub fn select_credential(req: &RequestCredentials, dev_mode: bool) -> (r: Result<
    Credential,
    AuthError,
>)
    ensures
        match r {
            Ok(c) => chosen_credential(*req, dev_mode) == Some(credential_view(c)),
            Err(e) => chosen_credential(*req, dev_mode) is None && (if req.authorization is Some {
                e is InvalidAuthHeader
            } else {
                e is MissingAuthHeader
            }),
        },
{
    if let Some(header) = req.authorization {
        let token = bearer_token_from_header(header)?;
        if is_api_key(token) {
            return Ok(Credential::ApiKey(to_owned_string(token)));
        } else {
            return Ok(Credential::Token(to_owned_string(token)));
        }
    }
    if let Some(key) = req.api_key_header {
        return Ok(Credential::ApiKey(to_owned_string(key)));
    }
    if let Some(cookie) = req.cookie {
        if let Some(token) = token_from_cookie_header(cookie, AUTH_COOKIE) {
            return Ok(Credential::Token(to_owned_string(token)));
        }
    }
    if req.websocket_path {
        if let Some(q) = req.query {
            if let Some(token) = query_param(q, "token") {
                return Ok(Credential::Token(token));
            }
        }
    }
    if req.websocket_path {
        if let Some(q) = req.query {
            if let Some(key) = query_param(q, "api_key") {
                return Ok(Credential::ApiKey(key));
            }
        }
    }
    if dev_mode {
        if let Some(user) = req.dev_user {
            let mut t = to_owned_string("dev:");
            push_str(&mut t, user);
            return Ok(Credential::Token(t));
        }
    }
    Err(AuthError::MissingAuthHeader)
}


// ---------------------------------------------------------------------------
// Checking a token
// ---------------------------------------------------------------------------

/// The prefix of a dev token, which names a dev user directly.
pub const DEV_TOKEN_PREFIX: &'static str = "dev:";

/// How a token is checked: in dev mode a `dev:<user>` token names a dev user
/// by ID; every other token is validated as a JWT.
#[derive(Debug, Clone, PartialEq, Eq)]
pub enum TokenCheck<'a> {
    DevUser(&'a str),
    Jwt,
}

/// The dev user ID a token names, where dev mode is on and the token has
/// the dev prefix.
pub open spec fn dev_token_user(dev_mode: bool, token: Seq<char>) -> Option<Seq<char>> {
    if dev_mode && starts_with(token, DEV_TOKEN_PREFIX@) {
        Some(token.skip(DEV_TOKEN_PREFIX@.len() as int))
    } else {
        None
    }
}

/// Decide how `token` is checked.
pub fn token_check(token: &str, dev_mode: bool) -> (r: TokenCheck)
    ensures
        match r {
            TokenCheck::DevUser(u) => dev_token_user(dev_mode, token@) == Some(u@),
            TokenCheck::Jwt => dev_token_user(dev_mode, token@) is None,
        },
{
    if dev_mode && str_starts_with(token, DEV_TOKEN_PREFIX) {
        let n = chars_of(DEV_TOKEN_PREFIX).len();
        let u = token.substring_char(n, token.unicode_len());
        assert(u@ =~= token@.skip(DEV_TOKEN_PREFIX@.len() as int));
        TokenCheck::DevUser(u)
    } else {
        TokenCheck::Jwt
    }
}

/// The configured dev user a dev token names: the first whose ID is
/// `user_id`; `UserNotFound` where there is none.
pub fn find_dev_user(dev_user_ids: &Vec<String>, user_id: &str) -> (r: Result<usize, AuthError>)
    ensures
        match r {
            Ok(i) => i < dev_user_ids@.len() && dev_user_ids@[i as int]@ == user_id@ && forall|j: int|
                0 <= j < i ==> #[trigger] dev_user_ids@[j]@ != user_id@,
            Err(e) => e is UserNotFound && forall|j: int|
                0 <= j < dev_user_ids@.len() ==> #[trigger] dev_user_ids@[j]@ != user_id@,
        },
{
    let mut i: usize = 0;
    while i < dev_user_ids.len()
        invariant
            i <= dev_user_ids@.len(),
            forall|j: int| 0 <= j < i ==> #[trigger] dev_user_ids@[j]@ != user_id@,
        decreases dev_user_ids.len() - i,
    {
        if str_eq(dev_user_ids[i].as_str(), user_id) {
            return Ok(i);
        }
        i += 1;
    }
    Err(AuthError::UserNotFound)
}

} // verus!
