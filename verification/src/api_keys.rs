//! API key management for external integrations.
//!
//! Keys look like `octo_sk_<suffix>`; only their SHA-256 hex digest is
//! stored. Timestamps are handled as UTC instants, `(seconds, nanoseconds)`
//! since the Unix epoch.
use vstd::prelude::*;
use base64::Engine;
use sha2::Digest;
use vstd::string::StringSliceAdditionalSpecFns;
use crate::text::{
    chars_of, push_str, range_starts_with, starts_with, string_from_range, to_owned_string,
    trim, trim_bounds,
};

verus! {

/// Prefix of every API key.
pub const API_KEY_PREFIX: &'static str = "octo_sk_";

/// Check if a raw key string looks like an API key.
pub fn is_api_key(raw: &str) -> (r: bool)
    ensures
        r == starts_with(raw@, API_KEY_PREFIX@),
{
    crate::text::str_starts_with(raw, API_KEY_PREFIX)
}

// ---------------------------------------------------------------------------
// Generating keys
// ---------------------------------------------------------------------------

/// A digit of the URL-safe base64 alphabet: `A-Z`, `a-z`, `0-9`, `-`, `_`.
pub open spec fn b64_digit(n: int) -> char {
    if n < 26 {
        (65 + n) as char
    } else if n < 52 {
        (97 + n - 26) as char
    } else if n < 62 {
        (48 + n - 52) as char
    } else if n == 62 {
        '-'
    } else {
        '_'
    }
}

/// URL-safe base64 without padding: each three bytes become four digits
/// of six bits each, high bits first; two trailing bytes become three
/// digits and one trailing byte two.
pub open spec fn base64_url_no_pad(data: Seq<u8>) -> Seq<char>
    decreases data.len(),
{
    if data.len() >= 3 {
        let (a, b, c) = (data[0] as int, data[1] as int, data[2] as int);
        seq![b64_digit(a / 4), b64_digit((a % 4) * 16 + b / 16), b64_digit((b % 16) * 4 + c / 64), b64_digit(c % 64)]
            + base64_url_no_pad(data.skip(3))
    } else if data.len() == 2 {
        let (a, b) = (data[0] as int, data[1] as int);
        seq![b64_digit(a / 4), b64_digit((a % 4) * 16 + b / 16), b64_digit((b % 16) * 4)]
    } else if data.len() == 1 {
        let a = data[0] as int;
        seq![b64_digit(a / 4), b64_digit((a % 4) * 16)]
    } else {
        Seq::<char>::empty()
    }
}

/// Wraps `URL_SAFE_NO_PAD.encode` of the base64 crate: the URL-safe
/// base64 encoding of the bytes, without padding.
#[verifier::external_body]
fn encode_url_safe_no_pad(data: &[u8]) -> (res: String)
    ensures
        res@ == base64_url_no_pad(data@),
{
    base64::engine::general_purpose::URL_SAFE_NO_PAD.encode(data)
}

/// Random bytes for a new key.
///
/// Wraps `rand::random::<[u8; 32]>()`; nothing is stated of the bytes.
#[verifier::external_body]
fn random_key_bytes() -> [u8; 32] {
    rand::random()
}

/// `-` for every `_`.
pub open spec fn underscores_to_hyphens(s: Seq<char>) -> Seq<char> {
    s.map_values(|c: char| if c == '_' { '-' } else { c })
}

/// Whether `s` contains two hyphens in a row.
pub open spec fn has_double_hyphen(s: Seq<char>) -> bool {
    exists|i: int| 0 <= i < s.len() - 1 && s[i] == '-' && #[trigger] s[i + 1] == '-'
}

/// The key suffix made from random bytes, if it is acceptable: the
/// URL-safe encoding with hyphens for underscores, neither starting nor
/// ending with a hyphen and without two hyphens in a row.
pub open spec fn key_suffix(bytes: Seq<u8>) -> Option<Seq<char>> {
    let s = underscores_to_hyphens(base64_url_no_pad(bytes));
    if (s.len() > 0 && s[0] == '-') || (s.len() > 0 && s.last() == '-') || has_double_hyphen(s) {
        None
    } else {
        Some(s)
    }
}

/// The first `n` characters, or all when there are fewer.
pub open spec fn take_at_most(s: Seq<char>, n: int) -> Seq<char> {
    if s.len() < n {
        s
    } else {
        s.take(n)
    }
}

/// Turn random bytes into an API key and its display prefix (the first
/// eight characters of the suffix), or `None` when the bytes give a suffix
/// that `generate_api_key` rejects and draws again for.
pub fn api_key_from_bytes(bytes: &[u8; 32]) -> (res: Option<(String, String)>)
    ensures
        match key_suffix(bytes@) {
            Some(suffix) => res matches Some((full, prefix)) && full@ == API_KEY_PREFIX@ + suffix
                && prefix@ == take_at_most(suffix, 8),
            None => res is None,
        },
{
    let data = bytes.as_slice();
    assert(data@ == bytes@);
    let encoded = encode_url_safe_no_pad(data);
    let e = chars_of(encoded.as_str());
    let mut s: Vec<char> = Vec::new();
    let mut i: usize = 0;
    while i < e.len()
        invariant
            i <= e@.len(),
            s@ == underscores_to_hyphens(e@.take(i as int)),
        decreases e.len() - i,
    {
        let c = e[i];
        s.push(if c == '_' { '-' } else { c });
        assert(underscores_to_hyphens(e@.take(i + 1)) =~= underscores_to_hyphens(e@.take(i as int)).push(
            if c == '_' { '-' } else { c },
        ));
        i += 1;
    }
    assert(e@.take(e@.len() as int) =~= e@);
    assert(e@ == base64_url_no_pad(bytes@));
    let n = s.len();
    if n > 0 && (s[0] == '-' || s[n - 1] == '-') {
        return None;
    }
    let mut j: usize = 0;
    while n >= 2 && j < n - 1
        invariant
            n == s@.len(),
            s@ == underscores_to_hyphens(base64_url_no_pad(bytes@)),
            forall|k: int| 0 <= k < j && k < n - 1 ==> !(s@[k] == '-' && #[trigger] s@[k + 1] == '-'),
        decreases n - j,
    {
        if s[j] == '-' && s[j + 1] == '-' {
            assert(0 <= j && j < s@.len() - 1 && s@[j as int] == '-' && s@[j + 1] == '-');
            assert(has_double_hyphen(s@));
            return None;
        }
        j += 1;
    }
    proof {
        assert(!has_double_hyphen(s@));
    }
    let mut full = to_owned_string(API_KEY_PREFIX);
    let suffix = string_from_range(&s, 0, n);
    assert(s@.subrange(0, n as int) =~= s@);
    push_str(&mut full, suffix.as_str());
    let take = if n < 8 { n } else { 8 };
    let prefix = string_from_range(&s, 0, take);
    assert(s@.subrange(0, take as int) =~= take_at_most(s@, 8));
    Some((full, prefix))
}

/// One attempt at a new API key and its display prefix: 32 fresh random
/// bytes turned into a key as [`api_key_from_bytes`] does, so `None`
/// exactly when those bytes give a suffix that is rejected (the caller
/// draws again). Which bytes are drawn is up to the random source.
pub fn generate_api_key_attempt() -> (res: Option<(String, String)>)
    ensures
        exists|bytes: Seq<u8>|
            #![trigger key_suffix(bytes)]
            bytes.len() == 32 && match key_suffix(bytes) {
                Some(suffix) => res matches Some((full, prefix)) && full@ == API_KEY_PREFIX@ + suffix && prefix@
                    == take_at_most(suffix, 8),
                None => res is None,
            },
{
    let bytes = random_key_bytes();
    let r = api_key_from_bytes(&bytes);
    assert(bytes@.len() == 32);
    assert(match key_suffix(bytes@) {
        Some(suffix) => r matches Some((full, prefix)) && full@ == API_KEY_PREFIX@ + suffix && prefix@
            == take_at_most(suffix, 8),
        None => r is None,
    });
    r
}

// ---------------------------------------------------------------------------
// Hashing keys
// ---------------------------------------------------------------------------

/// What `Sha256::digest` returns.
pub uninterp spec fn sha256(data: Seq<u8>) -> Seq<u8>;

/// Wraps `sha2::Sha256::digest`: the named 32-byte SHA-256 digest.
#[verifier::external_body]
fn sha256_digest(data: &[u8]) -> (res: Vec<u8>)
    ensures
        res@ == sha256(data@),
        res@.len() == 32,
{
    sha2::Sha256::digest(data).to_vec()
}

/// The lowercase hex digit of a nibble.
pub open spec fn hex_digit(n: u8) -> char {
    if n < 10 {
        ((n + 48) as u32) as char
    } else {
        ((n + 87) as u32) as char
    }
}

/// Lowercase hex: two digits per byte, high nibble first.
pub open spec fn hex_lower(data: Seq<u8>) -> Seq<char>
    decreases data.len(),
{
    if data.len() == 0 {
        Seq::<char>::empty()
    } else {
        hex_lower(data.drop_last()).push(hex_digit(data.last() / 16)).push(
            hex_digit(data.last() % 16),
        )
    }
}

/// Wraps `hex::encode`, which writes each byte as two lowercase hex digits.
#[verifier::external_body]
fn hex_encode(data: &[u8]) -> (res: String)
    ensures
        res@ == hex_lower(data@),
{
    hex::encode(data)
}

/// Hash a raw API key for storage/lookup: the lowercase hex SHA-256 digest
/// of its UTF-8 bytes.
pub fn hash_api_key(raw: &str) -> (res: String)
    ensures
        res@ == hex_lower(sha256(raw.spec_bytes())),
{
    let digest = sha256_digest(raw.as_bytes());
    hex_encode(digest.as_slice())
}

// ---------------------------------------------------------------------------
// Timestamps
// ---------------------------------------------------------------------------

/// The instant an RFC 3339 timestamp denotes, as
/// `chrono::DateTime::parse_from_rfc3339` reads it.
pub uninterp spec fn rfc3339_instant(s: Seq<char>) -> Option<(i64, u32)>;

/// The instant a `%Y-%m-%d %H:%M:%S` timestamp denotes taken as UTC, as
/// `chrono::NaiveDateTime::parse_from_str` reads it.
pub uninterp spec fn naive_utc_instant(s: Seq<char>) -> Option<(i64, u32)>;

/// The RFC 3339 text `chrono::DateTime::<Utc>::to_rfc3339` writes for an
/// instant, or `None` for an instant `DateTime::from_timestamp` refuses.
pub uninterp spec fn rfc3339_utc_text(secs: i64, nanos: u32) -> Option<Seq<char>>;

/// Wraps `DateTime::parse_from_rfc3339`: the named instant, as seconds and
/// nanoseconds since the epoch.
#[verifier::external_body]
pub(crate) fn parse_rfc3339(value: &str) -> (res: Option<(i64, u32)>)
    ensures
        res == rfc3339_instant(value@),
{
    chrono::DateTime::parse_from_rfc3339(value).ok().map(|dt| (dt.timestamp(), dt.timestamp_subsec_nanos()))
}

/// Wraps `NaiveDateTime::parse_from_str` with `%Y-%m-%d %H:%M:%S`, the
/// result taken as UTC.
#[verifier::external_body]
fn parse_naive_utc(value: &str) -> (res: Option<(i64, u32)>)
    ensures
        res == naive_utc_instant(value@),
{
    chrono::NaiveDateTime::parse_from_str(value, "%Y-%m-%d %H:%M:%S").ok().map(
        |dt| (dt.and_utc().timestamp(), dt.and_utc().timestamp_subsec_nanos()),
    )
}

/// Wraps `DateTime::<Utc>::to_rfc3339` of the instant
/// `DateTime::from_timestamp(secs, nanos)`.
#[verifier::external_body]
fn format_rfc3339(secs: i64, nanos: u32) -> (res: Option<String>)
    ensures
        match res {
            Some(s) => rfc3339_utc_text(secs, nanos) == Some(s@),
            None => rfc3339_utc_text(secs, nanos) is None,
        },
{
    chrono::DateTime::<chrono::Utc>::from_timestamp(secs, nanos).map(|dt| dt.to_rfc3339())
}

/// The instant of a stored timestamp: RFC 3339 first, then the SQLite
/// `%Y-%m-%d %H:%M:%S` form in UTC.
pub open spec fn stored_instant(s: Seq<char>) -> Option<(i64, u32)> {
    match rfc3339_instant(s) {
        Some(t) => Some(t),
        None => naive_utc_instant(s),
    }
}

/// Parse a stored timestamp string into a UTC instant if possible.
pub fn parse_timestamp(value: &str) -> (res: Option<(i64, u32)>)
    ensures
        res == stored_instant(value@),
{
    match parse_rfc3339(value) {
        Some(t) => Some(t),
        None => parse_naive_utc(value),
    }
}

/// Why an API key request was refused.
#[derive(Debug, Clone, PartialEq, Eq)]
pub enum ApiKeyError {
    /// `expires_at` is not a timestamp.
    InvalidExpiresAt { value: String },
    /// The key has expired.
    Expired,
}

/// Normalize expires_at to RFC3339 (UTC) string.
pub fn normalize_expires_at(value: &str) -> (res: Result<String, ApiKeyError>)
    ensures
        match stored_instant(value@) {
            Some(t) => match rfc3339_utc_text(t.0, t.1) {
                Some(text) => res matches Ok(s) && s@ == text,
                None => res matches Err(ApiKeyError::InvalidExpiresAt { value: v }) && v@ == value@,
            },
            None => res matches Err(ApiKeyError::InvalidExpiresAt { value: v }) && v@ == value@,
        },
{
    match parse_timestamp(value) {
        Some((secs, nanos)) => match format_rfc3339(secs, nanos) {
            Some(s) => Ok(s),
            None => Err(ApiKeyError::InvalidExpiresAt { value: to_owned_string(value) }),
        },
        None => Err(ApiKeyError::InvalidExpiresAt { value: to_owned_string(value) }),
    }
}

/// Seconds an API key stays valid when it has no readable expiry.
pub const DEFAULT_KEY_LIFETIME_SECS: i64 = 86400;

/// The expiry (Unix seconds) the middleware gives a key: its stored expiry
/// when readable, a day from `now` otherwise; a key whose expiry is not
/// after `now` is refused.
pub fn api_key_expiry(expires_at: Option<&str>, now: i64) -> (res: Result<i64, ApiKeyError>)
    requires
        now <= i64::MAX - DEFAULT_KEY_LIFETIME_SECS,
    ensures
        ({
            let exp = match expires_at {
                Some(s) => match stored_instant(s@) {
                    Some(t) => t.0 as int,
                    None => now + DEFAULT_KEY_LIFETIME_SECS,
                },
                None => now + DEFAULT_KEY_LIFETIME_SECS,
            };
            if exp <= now {
                res == Err::<i64, ApiKeyError>(ApiKeyError::Expired)
            } else {
                res == Ok::<i64, ApiKeyError>(exp as i64)
            }
        }),
{
    let exp = match expires_at {
        Some(s) => match parse_timestamp(s) {
            Some((secs, _)) => secs,
            None => now + DEFAULT_KEY_LIFETIME_SECS,
        },
        None => now + DEFAULT_KEY_LIFETIME_SECS,
    };
    if exp <= now {
        Err(ApiKeyError::Expired)
    } else {
        Ok(exp)
    }
}

/// Whether a stored key is past its expiry at `now`: only a readable
/// expiry strictly before `now` counts.
pub fn key_is_expired(expires_at: Option<&str>, now: (i64, u32)) -> (r: bool)
    ensures
        r == (match expires_at {
            Some(s) => match stored_instant(s@) {
                Some(t) => t.0 < now.0 || (t.0 == now.0 && t.1 < now.1),
                None => false,
            },
            None => false,
        }),
{
    match expires_at {
        Some(s) => match parse_timestamp(s) {
            Some((secs, nanos)) => secs < now.0 || (secs == now.0 && nanos < now.1),
            None => false,
        },
        None => false,
    }
}

// ---------------------------------------------------------------------------
// Stored keys
// ---------------------------------------------------------------------------

#[verifier::external_type_specification]
#[verifier::external_body]
pub struct ExJsonValue(serde_json::Value);

/// What `serde_json::from_str::<Vec<serde_json::Value>>` reads from a
/// text: the array's elements, each given by its text when it is a JSON
/// string and by `None` otherwise; `None` when the text is not a JSON
/// array.
pub uninterp spec fn json_array_strings(raw: Seq<char>) -> Option<Seq<Option<Seq<char>>>>;

pub open spec fn opt_strings_view(v: Seq<Option<String>>) -> Seq<Option<Seq<char>>> {
    v.map_values(
        |o: Option<String>|
            match o {
                Some(s) => Some(s@),
                None => None,
            },
    )
}

/// Wraps `serde_json::from_str::<Vec<serde_json::Value>>`, each element
/// converted to its text when it is a `Value::String`.
#[verifier::external_body]
fn parse_json_array(raw: &str) -> (res: Option<Vec<Option<String>>>)
    ensures
        match res {
            Some(v) => json_array_strings(raw@) == Some(opt_strings_view(v@)),
            None => json_array_strings(raw@) is None,
        },
{
    serde_json::from_str::<Vec<serde_json::Value>>(raw).ok().map(
        |vals| {
            vals.into_iter().map(
                |v| match v {
                    serde_json::Value::String(s) => Some(s),
                    _ => None,
                },
            ).collect()
        },
    )
}

/// The string elements of a JSON array, in order.
pub open spec fn string_elements(vals: Seq<Option<Seq<char>>>) -> Seq<Seq<char>>
    decreases vals.len(),
{
    if vals.len() == 0 {
        Seq::<Seq<char>>::empty()
    } else {
        let prev = string_elements(vals.drop_last());
        match vals.last() {
            Some(s) => prev.push(s),
            None => prev,
        }
    }
}

/// The scopes stored as a JSON array text: its string elements, none when
/// the text is blank or not an array.
pub open spec fn scopes_of(raw: Seq<char>) -> Seq<Seq<char>> {
    if trim(raw).len() == 0 {
        Seq::<Seq<char>>::empty()
    } else {
        match json_array_strings(raw) {
            Some(vals) => string_elements(vals),
            None => Seq::<Seq<char>>::empty(),
        }
    }
}

/// The views of a vector of strings.
pub open spec fn strings_view(v: Seq<String>) -> Seq<Seq<char>> {
    v.map_values(|s: String| s@)
}

/// Parse the JSON scopes column.
pub fn parse_scopes(raw: &str) -> (res: Vec<String>)
    ensures
        strings_view(res@) == scopes_of(raw@),
{
    let v = chars_of(raw);
    let (a, b) = trim_bounds(&v, 0, v.len());
    assert(v@.subrange(0, v@.len() as int) =~= v@);
    let mut out: Vec<String> = Vec::new();
    if a == b {
        assert(strings_view(out@) =~= Seq::<Seq<char>>::empty());
        return out;
    }
    match parse_json_array(raw) {
        None => {
            assert(strings_view(out@) =~= Seq::<Seq<char>>::empty());
            out
        },
        Some(vals) => {
            let ghost vv = opt_strings_view(vals@);
            let mut i: usize = 0;
            while i < vals.len()
                invariant
                    i <= vals@.len(),
                    vv == opt_strings_view(vals@),
                    strings_view(out@) == string_elements(vv.take(i as int)),
                decreases vals.len() - i,
            {
                let ghost old_out = out@;
                proof {
                    assert(vv.take(i + 1).drop_last() =~= vv.take(i as int));
                    assert(vv.take(i + 1).last() == vv[i as int]);
                }
                match &vals[i] {
                    Some(s) => {
                        out.push(to_owned_string(s.as_str()));
                        assert(strings_view(out@) =~= strings_view(old_out).push(s@));
                    },
                    None => {},
                }
                i += 1;
            }
            assert(vv.take(vals@.len() as int) =~= vv);
            out
        },
    }
}

/// An API key row as stored.
#[derive(Debug, Clone)]
pub struct ApiKeyRow {
    pub id: String,
    pub user_id: String,
    pub name: String,
    pub key_prefix: String,
    pub key_hash: String,
    pub scopes: String,
    pub last_used_at: Option<String>,
    pub expires_at: Option<String>,
    pub created_at: String,
    pub revoked_at: Option<String>,
}

/// An API key as listed to its owner (never the key itself).
#[derive(Debug, Clone)]
pub struct ApiKeyListItem {
    pub id: String,
    pub name: String,
    pub key_prefix: String,
    pub scopes: Vec<String>,
    pub last_used_at: Option<String>,
    pub expires_at: Option<String>,
    pub created_at: String,
    pub revoked_at: Option<String>,
}

/// List an API key row: its fields, with the scopes column read as JSON.
pub fn map_row_to_list_item(row: ApiKeyRow) -> (res: ApiKeyListItem)
    ensures
        res.id == row.id,
        res.name == row.name,
        res.key_prefix == row.key_prefix,
        strings_view(res.scopes@) == scopes_of(row.scopes@),
        res.last_used_at == row.last_used_at,
        res.expires_at == row.expires_at,
        res.created_at == row.created_at,
        res.revoked_at == row.revoked_at,
{
    let scopes = parse_scopes(row.scopes.as_str());
    ApiKeyListItem {
        id: row.id,
        name: row.name,
        key_prefix: row.key_prefix,
        scopes,
        last_used_at: row.last_used_at,
        expires_at: row.expires_at,
        created_at: row.created_at,
        revoked_at: row.revoked_at,
    }
}

/// The list item returned when a freshly inserted key cannot be read back:
/// what was inserted, never used and not revoked, created at `created_at`.
pub fn fallback_created_key(
    id: String,
    name: &str,
    key_prefix: &str,
    scopes: Vec<String>,
    expires_at: Option<String>,
    created_at: String,
) -> (res: ApiKeyListItem)
    ensures
        res.id == id,
        res.name@ == name@,
        res.key_prefix@ == key_prefix@,
        res.scopes == scopes,
        res.last_used_at is None,
        res.expires_at == expires_at,
        res.created_at == created_at,
        res.revoked_at is None,
{
    ApiKeyListItem {
        id,
        name: to_owned_string(name),
        key_prefix: to_owned_string(key_prefix),
        scopes,
        last_used_at: None,
        expires_at,
        created_at,
        revoked_at: None,
    }
}

/// Error of the API key store.
#[derive(Debug)]
pub struct ApiKeyStoreError;

/// The list of a user's API keys.
#[derive(Debug)]
pub struct ApiKeyListResponse {
    pub keys: Vec<ApiKeyListItem>,
}

/// Key name whose older keys are revoked when a new one is made, so that
/// links built on it stay stable.
pub const OMNI_KEY_NAME: &'static str = "omni-vanilla";

/// Why creating a key was refused.
#[derive(Debug, Clone, PartialEq, Eq)]
pub enum CreateKeyError {
    /// The trimmed name is empty.
    NameRequired,
    /// `expires_at` is not a timestamp.
    InvalidExpiresAt(ApiKeyError),
}

/// What creating a key does, once the request is checked.
#[derive(Debug, Clone, PartialEq, Eq)]
pub struct CreateKeyPlan {
    /// The trimmed key name.
    pub name: String,
    /// The normalized expiry.
    pub expires_at: Option<String>,
    /// Whether older keys of the same name are revoked first.
    pub revoke_same_name: bool,
}

/// Check a key creation request: the trimmed name must not be empty and an
/// expiry, if given, must be a timestamp (it is stored normalized).
pub fn plan_create_key(name: &str, expires_at: Option<&str>) -> (res: Result<CreateKeyPlan, CreateKeyError>)
    ensures
        trim(name@).len() == 0 ==> res == Err::<CreateKeyPlan, CreateKeyError>(
            CreateKeyError::NameRequired,
        ),
        trim(name@).len() > 0 ==> match expires_at {
            None => res matches Ok(p) && p.name@ == trim(name@) && p.expires_at is None
                && p.revoke_same_name == (trim(name@) == OMNI_KEY_NAME@),
            Some(e) => match stored_instant(e@) {
                Some(t) => match rfc3339_utc_text(t.0, t.1) {
                    Some(text) => res matches Ok(p) && p.name@ == trim(name@) && (p.expires_at
                        matches Some(x) && x@ == text) && p.revoke_same_name == (trim(name@)
                        == OMNI_KEY_NAME@),
                    None => res matches Err(CreateKeyError::InvalidExpiresAt(_)),
                },
                None => res matches Err(CreateKeyError::InvalidExpiresAt(_)),
            },
        },
{
    let trimmed = crate::text::trimmed(name);
    let tv = chars_of(trimmed.as_str());
    if tv.len() == 0 {
        return Err(CreateKeyError::NameRequired);
    }
    let expires = match expires_at {
        Some(e) => match normalize_expires_at(e) {
            Ok(s) => Some(s),
            Err(err) => {
                return Err(CreateKeyError::InvalidExpiresAt(err));
            },
        },
        None => None,
    };
    let revoke = crate::text::str_eq(trimmed.as_str(), OMNI_KEY_NAME);
    Ok(CreateKeyPlan { name: trimmed, expires_at: expires, revoke_same_name: revoke })
}

} // verus!
