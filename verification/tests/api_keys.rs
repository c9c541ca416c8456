use oqto::api_keys::{
    api_key_expiry, api_key_from_bytes, generate_api_key_attempt, hash_api_key, is_api_key,
    key_is_expired, map_row_to_list_item, normalize_expires_at, parse_scopes, parse_timestamp,
    plan_create_key, ApiKeyError, ApiKeyRow, CreateKeyError, DEFAULT_KEY_LIFETIME_SECS,
};

#[test]
fn api_keys_are_recognised_by_prefix() {
    assert!(is_api_key("octo_sk_abc"));
    assert!(!is_api_key("eyJhbGciOi"));
    assert!(!is_api_key("octo_s"));
}

#[test]
fn key_from_zero_bytes() {
    let (full, prefix) = api_key_from_bytes(&[0u8; 32]).unwrap();
    assert_eq!(full, format!("octo_sk_{}", "A".repeat(43)));
    assert_eq!(prefix, "AAAAAAAA");
}

#[test]
fn underscores_become_hyphens_and_bad_suffixes_are_rejected() {
    // 0xff bytes encode to "_" characters in URL-safe base64, which turn
    // into hyphens: a suffix of hyphens is rejected.
    assert_eq!(api_key_from_bytes(&[0xffu8; 32]), None);
    let mut bytes = [0u8; 32];
    bytes[3] = 0xff;
    bytes[4] = 0xff;
    bytes[5] = 0xff;
    // Four consecutive "_" inside: "--" appears, so the key is rejected.
    assert_eq!(api_key_from_bytes(&bytes), None);
    let mut one = [0u8; 32];
    one[2] = 0x3f;
    let (full, _) = api_key_from_bytes(&one).unwrap();
    assert!(full.starts_with("octo_sk_AAA-"));
}

#[test]
fn generated_keys_have_the_prefix() {
    let mut key = None;
    for _ in 0..100 {
        key = generate_api_key_attempt();
        if key.is_some() {
            break;
        }
    }
    let (full, prefix) = key.expect("a key within a hundred attempts");
    assert!(full.starts_with("octo_sk_"));
    assert_eq!(prefix.len(), 8);
    assert!(full[8..].starts_with(&prefix));
    assert!(!full[8..].contains("--"));
}

#[test]
fn keys_are_stored_as_sha256_hex() {
    assert_eq!(
        hash_api_key("abc"),
        "ba7816bf8f01cfea414140de5dae2223b00361a396177a9cb410ff61f20015ad"
    );
    assert_eq!(hash_api_key("abc").len(), 64);
}

#[test]
fn timestamps_are_read_in_both_stored_forms() {
    assert_eq!(parse_timestamp("2024-01-01T00:00:00Z"), Some((1704067200, 0)));
    assert_eq!(
        parse_timestamp("2024-01-01T02:00:00+02:00"),
        Some((1704067200, 0))
    );
    assert_eq!(parse_timestamp("2024-01-01 00:00:00"), Some((1704067200, 0)));
    assert_eq!(parse_timestamp("yesterday"), None);
}

#[test]
fn expiry_is_normalized_to_utc() {
    assert_eq!(
        normalize_expires_at("2024-01-01 00:00:00").unwrap(),
        "2024-01-01T00:00:00+00:00"
    );
    assert_eq!(
        normalize_expires_at("nope"),
        Err(ApiKeyError::InvalidExpiresAt {
            value: "nope".to_string()
        })
    );
}

#[test]
fn keys_without_expiry_last_a_day() {
    let now = 1_700_000_000;
    assert_eq!(api_key_expiry(None, now), Ok(now + DEFAULT_KEY_LIFETIME_SECS));
    assert_eq!(
        api_key_expiry(Some("garbage"), now),
        Ok(now + DEFAULT_KEY_LIFETIME_SECS)
    );
    assert_eq!(
        api_key_expiry(Some("2000-01-01T00:00:00Z"), now),
        Err(ApiKeyError::Expired)
    );
    assert_eq!(
        api_key_expiry(Some("2100-01-01T00:00:00Z"), now),
        Ok(4102444800)
    );
}

#[test]
fn expired_keys_are_detected() {
    assert!(key_is_expired(Some("2000-01-01T00:00:00Z"), (1_700_000_000, 0)));
    assert!(!key_is_expired(Some("2100-01-01T00:00:00Z"), (1_700_000_000, 0)));
    assert!(!key_is_expired(Some("bad"), (1_700_000_000, 0)));
    assert!(!key_is_expired(None, (1_700_000_000, 0)));
}

#[test]
fn scopes_are_the_string_elements() {
    assert_eq!(parse_scopes(r#"["read", 3, "write"]"#), vec!["read", "write"]);
    assert_eq!(parse_scopes("  "), Vec::<String>::new());
    assert_eq!(parse_scopes("{not json"), Vec::<String>::new());
}

#[test]
fn rows_become_list_items() {
    let item = map_row_to_list_item(ApiKeyRow {
        id: "k1".to_string(),
        user_id: "u1".to_string(),
        name: "ci".to_string(),
        key_prefix: "abcdefgh".to_string(),
        key_hash: "h".to_string(),
        scopes: r#"["read"]"#.to_string(),
        last_used_at: None,
        expires_at: Some("2100-01-01T00:00:00Z".to_string()),
        created_at: "2024-01-01T00:00:00Z".to_string(),
        revoked_at: None,
    });
    assert_eq!(item.id, "k1");
    assert_eq!(item.scopes, vec!["read"]);
    assert_eq!(item.expires_at.as_deref(), Some("2100-01-01T00:00:00Z"));
}

#[test]
fn key_creation_requests_are_checked() {
    assert_eq!(plan_create_key("  ", None), Err(CreateKeyError::NameRequired));
    let plan = plan_create_key(" omni-vanilla ", Some("2100-01-01 00:00:00")).unwrap();
    assert_eq!(plan.name, "omni-vanilla");
    assert!(plan.revoke_same_name);
    assert_eq!(plan.expires_at.as_deref(), Some("2100-01-01T00:00:00+00:00"));
    assert!(!plan_create_key("ci", None).unwrap().revoke_same_name);
    assert!(matches!(
        plan_create_key("ci", Some("bad")),
        Err(CreateKeyError::InvalidExpiresAt(_))
    ));
}
