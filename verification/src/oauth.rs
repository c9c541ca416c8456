//! OAuth login through the eavs proxy: which providers a user may connect,
//! and how they are shown.
use vstd::prelude::*;
use crate::text::{push_str, str_eq, to_lowercase, to_owned_string, trim, trim_str, lowercase};

verus! {

/// A provider offered for OAuth login.
#[derive(Debug, Clone)]
pub struct OAuthProviderInfo {
    pub id: String,
    pub name: String,
    pub connected: bool,
}

/// The providers offered to a user.
#[derive(Debug, Clone)]
pub struct OAuthProvidersResponse {
    pub enabled: bool,
    pub providers: Vec<OAuthProviderInfo>,
}

/// The browser's return from a provider's authorization page.
#[derive(Debug, Clone)]
pub struct OAuthCallbackRequest {
    pub code: String,
    pub state: String,
}

/// A device-code poll.
#[derive(Debug, Clone)]
pub struct OAuthPollRequest {
    pub device_code: String,
}

/// Why an OAuth request is refused.
#[derive(Debug, Clone, Copy, PartialEq, Eq, Structural)]
pub enum OAuthError {
    /// OAuth login is disabled by the administrator.
    Disabled,
    /// The provider is not on the administrator's list.
    ProviderNotAllowed,
    /// OpenAI Codex needs a configured redirect URI.
    RedirectUriRequired,
}

/// A provider name as compared: trimmed and in Unicode lowercase.
pub open spec fn normalized(value: Seq<char>) -> Seq<char> {
    lowercase(trim(value))
}

/// Normalize a provider name for comparison.
pub fn normalize_provider(value: &str) -> (res: String)
    ensures
        res@ == normalized(value@),
{
    to_lowercase(trim_str(value))
}

/// The name shown for a provider.
pub open spec fn display_name_of(provider: Seq<char>) -> Seq<char> {
    if provider == "anthropic"@ {
        "Anthropic"@
    } else if provider == "openai-codex"@ {
        "OpenAI (ChatGPT/Codex)"@
    } else if provider == "github-copilot"@ {
        "GitHub Copilot"@
    } else if provider == "google-gemini-cli"@ {
        "Google Gemini"@
    } else if provider == "google-antigravity"@ {
        "Google Antigravity"@
    } else {
        provider
    }
}

/// The human-readable name of a provider; unknown providers keep their id.
pub fn provider_display_name(provider: &str) -> (res: String)
    ensures
        res@ == display_name_of(provider@),
{
    if str_eq(provider, "anthropic") {
        to_owned_string("Anthropic")
    } else if str_eq(provider, "openai-codex") {
        to_owned_string("OpenAI (ChatGPT/Codex)")
    } else if str_eq(provider, "github-copilot") {
        to_owned_string("GitHub Copilot")
    } else if str_eq(provider, "google-gemini-cli") {
        to_owned_string("Google Gemini")
    } else if str_eq(provider, "google-antigravity") {
        to_owned_string("Google Antigravity")
    } else {
        to_owned_string(provider)
    }
}

/// Whether OAuth login is on: enabled, with at least one allowed provider.
pub fn is_oauth_enabled(enabled: bool, allowed: &Vec<String>) -> (r: bool)
    ensures
        r == (enabled && allowed@.len() > 0),
{
    enabled && allowed.len() > 0
}

/// Whether `provider` is on the list `allowed`, names compared normalized.
pub open spec fn on_allow_list(allowed: Seq<String>, provider: Seq<char>) -> bool {
    exists|i: int| 0 <= i < allowed.len() && normalized(#[trigger] allowed[i]@) == normalized(provider)
}

/// Whether a provider may be used: OAuth is on and the provider is allowed.
pub fn is_provider_allowed(enabled: bool, allowed: &Vec<String>, provider: &str) -> (r: bool)
    ensures
        r == (enabled && allowed@.len() > 0 && on_allow_list(allowed@, provider@)),
{
    if !is_oauth_enabled(enabled, allowed) {
        return false;
    }
    let wanted = normalize_provider(provider);
    let mut i: usize = 0;
    while i < allowed.len()
        invariant
            0 <= i <= allowed@.len(),
            enabled && allowed@.len() > 0,
            wanted@ == normalized(provider@),
            forall|j: int| 0 <= j < i ==> normalized(#[trigger] allowed@[j]@) != normalized(provider@),
        decreases allowed.len() - i,
    {
        let p = normalize_provider(allowed[i].as_str());
        if str_eq(p.as_str(), wanted.as_str()) {
            assert(normalized(allowed@[i as int]@) == normalized(provider@));
            return true;
        }
        i += 1;
    }
    false
}

/// Check a request naming `provider`: OAuth must be on, the provider
/// allowed, and OpenAI Codex needs a redirect URI where `check_redirect`.
pub fn check_provider_request(
    enabled: bool,
    allowed: &Vec<String>,
    provider: &str,
    check_redirect: bool,
    redirect_configured: bool,
) -> (r: Result<(), OAuthError>)
    ensures
        r == (if !(enabled && allowed@.len() > 0) {
            Err(OAuthError::Disabled)
        } else if !on_allow_list(allowed@, provider@) {
            Err(OAuthError::ProviderNotAllowed)
        } else if check_redirect && provider@ == "openai-codex"@ && !redirect_configured {
            Err(OAuthError::RedirectUriRequired)
        } else {
            Ok(())
        }),
{
    if !is_oauth_enabled(enabled, allowed) {
        return Err(OAuthError::Disabled);
    }
    if !is_provider_allowed(enabled, allowed, provider) {
        return Err(OAuthError::ProviderNotAllowed);
    }
    if check_redirect && str_eq(provider, "openai-codex") && !redirect_configured {
        return Err(OAuthError::RedirectUriRequired);
    }
    Ok(())
}

/// A provider as eavs lists it: its name and whether it supports OAuth.
#[derive(Debug, Clone)]
pub struct ProviderOffer {
    pub name: String,
    pub oauth: bool,
}

/// Whether `connected` holds `provider`, names compared normalized.
pub open spec fn is_connected(connected: Seq<String>, provider: Seq<char>) -> bool {
    exists|i: int|
        0 <= i < connected.len() && normalized(#[trigger] connected[i]@) == normalized(provider)
}

/// The providers to offer: those eavs offers with OAuth that are allowed,
/// in eavs's order, each marked connected where the user has connected it.
pub open spec fn offered(
    allowed: Seq<String>,
    available: Seq<ProviderOffer>,
    connected: Seq<String>,
) -> Seq<(Seq<char>, Seq<char>, bool)>
    decreases available.len(),
{
    if available.len() == 0 {
        Seq::empty()
    } else {
        let prev = offered(allowed, available.drop_last(), connected);
        let p = available.last();
        if p.oauth && on_allow_list(allowed, p.name@) {
            prev.push((p.name@, display_name_of(p.name@), is_connected(connected, p.name@)))
        } else {
            prev
        }
    }
}

/// The view of a provider entry: id, name and whether it is connected.
pub open spec fn provider_info_view(p: OAuthProviderInfo) -> (Seq<char>, Seq<char>, bool) {
    (p.id@, p.name@, p.connected)
}

fn connected_to(connected: &Vec<String>, provider: &str) -> (r: bool)
    ensures
        r == is_connected(connected@, provider@),
{
    let wanted = normalize_provider(provider);
    let mut i: usize = 0;
    while i < connected.len()
        invariant
            0 <= i <= connected@.len(),
            wanted@ == normalized(provider@),
            forall|j: int| 0 <= j < i ==> normalized(#[trigger] connected@[j]@) != normalized(provider@),
        decreases connected.len() - i,
    {
        let p = normalize_provider(connected[i].as_str());
        if str_eq(p.as_str(), wanted.as_str()) {
            assert(normalized(connected@[i as int]@) == normalized(provider@));
            return true;
        }
        i += 1;
    }
    false
}

/// The answer to a user's request for the OAuth providers, from the list
/// eavs offers and the providers the user has connected.
pub fn oauth_providers_response(
    enabled: bool,
    allowed: &Vec<String>,
    available: &Vec<ProviderOffer>,
    connected: &Vec<String>,
) -> (res: OAuthProvidersResponse)
    ensures
        res.enabled == (enabled && allowed@.len() > 0),
        !res.enabled ==> res.providers@.len() == 0,
        res.enabled ==> res.providers@.map_values(|p: OAuthProviderInfo| provider_info_view(p))
            == offered(allowed@, available@, connected@),
{
    if !is_oauth_enabled(enabled, allowed) {
        return OAuthProvidersResponse { enabled: false, providers: Vec::new() };
    }
    let mut providers: Vec<OAuthProviderInfo> = Vec::new();
    let mut i: usize = 0;
    while i < available.len()
        invariant
            0 <= i <= available@.len(),
            enabled && allowed@.len() > 0,
            providers@.map_values(|p: OAuthProviderInfo| provider_info_view(p)) == offered(
                allowed@,
                available@.take(i as int),
                connected@,
            ),
        decreases available.len() - i,
    {
        let p = &available[i];
        proof {
            assert(available@.take(i + 1).drop_last() =~= available@.take(i as int));
            assert(available@.take(i + 1).last() == available@[i as int]);
        }
        if p.oauth && is_provider_allowed(enabled, allowed, p.name.as_str()) {
            let info = OAuthProviderInfo {
                id: to_owned_string(p.name.as_str()),
                name: provider_display_name(p.name.as_str()),
                connected: connected_to(connected, p.name.as_str()),
            };
            let ghost before = providers@;
            providers.push(info);
            proof {
                assert(providers@.map_values(|p: OAuthProviderInfo| provider_info_view(p)) =~= before.map_values(
                    |p: OAuthProviderInfo| provider_info_view(p),
                ).push(provider_info_view(info)));
            }
        }
        i += 1;
    }
    assert(available@.take(available@.len() as int) =~= available@);
    OAuthProvidersResponse { enabled: true, providers }
}

/// Whether a device-code poll finished: eavs reports the tokens stored.
pub fn poll_completed(status: &str) -> (r: bool)
    ensures
        r == (status@ == "stored"@),
{
    str_eq(status, "stored")
}

/// The name of the eavs key made for a user's OAuth connection.
pub fn oauth_key_name(user_id: &str) -> (r: String)
    ensures
        r@ == "oqto-user-"@ + user_id@ + "-oauth"@,
{
    let mut r = to_owned_string("oqto-user-");
    push_str(&mut r, user_id);
    push_str(&mut r, "-oauth");
    r
}

/// The name of a user's default eavs key.
pub fn default_key_name(user_id: &str) -> (r: String)
    ensures
        r@ == "oqto-user-"@ + user_id@,
{
    let mut r = to_owned_string("oqto-user-");
    push_str(&mut r, user_id);
    r
}

} // verus!
