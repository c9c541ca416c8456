use oqto::oauth::{
    check_provider_request, default_key_name, is_oauth_enabled, is_provider_allowed,
    normalize_provider, oauth_key_name, oauth_providers_response, poll_completed,
    provider_display_name, OAuthError, ProviderOffer,
};

#[test]
fn provider_names_are_normalized() {
    assert_eq!(normalize_provider("  AnThRoPiC "), "anthropic");
}

#[test]
fn known_providers_have_display_names() {
    assert_eq!(provider_display_name("anthropic"), "Anthropic");
    assert_eq!(provider_display_name("openai-codex"), "OpenAI (ChatGPT/Codex)");
    assert_eq!(provider_display_name("github-copilot"), "GitHub Copilot");
    assert_eq!(provider_display_name("google-gemini-cli"), "Google Gemini");
    assert_eq!(provider_display_name("google-antigravity"), "Google Antigravity");
    assert_eq!(provider_display_name("other"), "other");
}

fn allowed() -> Vec<String> {
    vec!["Anthropic".to_string(), "openai-codex".to_string()]
}

#[test]
fn providers_must_be_allowed() {
    assert!(is_oauth_enabled(true, &allowed()));
    assert!(!is_oauth_enabled(true, &vec![]));
    assert!(is_provider_allowed(true, &allowed(), " anthropic"));
    assert!(!is_provider_allowed(true, &allowed(), "github-copilot"));
    assert!(!is_provider_allowed(false, &allowed(), "anthropic"));
    assert_eq!(
        check_provider_request(false, &allowed(), "anthropic", true, true),
        Err(OAuthError::Disabled)
    );
    assert_eq!(
        check_provider_request(true, &allowed(), "github-copilot", false, false),
        Err(OAuthError::ProviderNotAllowed)
    );
    assert_eq!(
        check_provider_request(true, &allowed(), "openai-codex", true, false),
        Err(OAuthError::RedirectUriRequired)
    );
    assert_eq!(
        check_provider_request(true, &allowed(), "openai-codex", false, false),
        Ok(())
    );
}

#[test]
fn offered_providers_are_filtered_and_marked() {
    let available = vec![
        ProviderOffer { name: "anthropic".to_string(), oauth: true },
        ProviderOffer { name: "groq".to_string(), oauth: false },
        ProviderOffer { name: "openai-codex".to_string(), oauth: true },
        ProviderOffer { name: "github-copilot".to_string(), oauth: true },
    ];
    let connected = vec!["ANTHROPIC".to_string()];
    let r = oauth_providers_response(true, &allowed(), &available, &connected);
    assert!(r.enabled);
    assert_eq!(r.providers.len(), 2);
    assert_eq!(r.providers[0].id, "anthropic");
    assert_eq!(r.providers[0].name, "Anthropic");
    assert!(r.providers[0].connected);
    assert_eq!(r.providers[1].id, "openai-codex");
    assert!(!r.providers[1].connected);
    let off = oauth_providers_response(false, &allowed(), &available, &connected);
    assert!(!off.enabled && off.providers.is_empty());
}

#[test]
fn key_names_and_poll_status() {
    assert_eq!(oauth_key_name("u1"), "oqto-user-u1-oauth");
    assert_eq!(default_key_name("u1"), "oqto-user-u1");
    assert!(poll_completed("stored"));
    assert!(!poll_completed("pending"));
}
