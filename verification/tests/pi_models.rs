use oqto::pi_models::{
    models_from_config, models_from_response, models_value,
    cache_entry_fresh, combine_model_sources, disk_cache_entry_expired, merge_model_lists,
    model_enrichment, model_target_workdir, models_file_changed, ModelEnrichment, ModelEntry,
    MODEL_CACHE_TTL_SECS,
};

fn model(id: Option<&str>, tag: &str) -> ModelEntry {
    let mut value = serde_json::Map::new();
    if let Some(id) = id {
        value.insert("id".to_string(), serde_json::Value::String(id.to_string()));
    }
    value.insert("tag".to_string(), serde_json::Value::String(tag.to_string()));
    ModelEntry { id: id.map(|s| s.to_string()), value: serde_json::Value::Object(value) }
}

fn tags(models: &[ModelEntry]) -> Vec<String> {
    models.iter().map(|m| m.value["tag"].as_str().unwrap().to_string()).collect()
}

#[test]
fn merge_keeps_primary_and_adds_new_ids() {
    let primary = vec![model(Some("a"), "p-a"), model(None, "p-none"), model(Some("b"), "p-b")];
    let secondary = vec![
        model(Some("b"), "s-b"),
        model(Some("c"), "s-c"),
        model(None, "s-none"),
        model(Some("c"), "s-c2"),
    ];
    let merged = merge_model_lists(primary, secondary);
    assert_eq!(tags(&merged), vec!["p-a", "p-none", "p-b", "s-c", "s-c2"]);
}

#[test]
fn merge_with_empty_secondary_is_primary() {
    let merged = merge_model_lists(vec![model(Some("a"), "p-a"), model(None, "p-x")], vec![]);
    assert_eq!(tags(&merged), vec!["p-a", "p-x"]);
}

#[test]
fn sources_are_merged_fresh_then_session_then_provisioned() {
    let fresh = vec![model(Some("a"), "fresh-a")];
    let session = vec![model(Some("a"), "session-a"), model(Some("b"), "session-b")];
    let provisioned = vec![model(Some("b"), "disk-b"), model(Some("c"), "disk-c")];
    let all = combine_model_sources(fresh, session, provisioned);
    assert_eq!(tags(&all), vec!["fresh-a", "session-b", "disk-c"]);
}

#[test]
fn cached_lists_live_for_an_hour() {
    assert_eq!(MODEL_CACHE_TTL_SECS, 3600);
    assert!(cache_entry_fresh(10_000, 10_000 - 3600));
    assert!(!cache_entry_fresh(10_000, 10_000 - 3601));
    assert!(cache_entry_fresh(10, 20));
}

#[test]
fn disk_cache_entries_expire() {
    assert!(disk_cache_entry_expired(10_000, 0));
    assert!(disk_cache_entry_expired(10_000, 10_000 - 3601));
    assert!(!disk_cache_entry_expired(10_000, 10_000 - 3600));
    assert!(!disk_cache_entry_expired(5, 9));
}

#[test]
fn models_file_change_detection() {
    assert!(!models_file_changed(None, Some((5, 0))));
    assert!(!models_file_changed(None, None));
    assert!(models_file_changed(Some((5, 0)), None));
    assert!(models_file_changed(Some((5, 0)), Some((5, 1))));
    assert!(!models_file_changed(Some((5, 1)), Some((5, 1))));
}

#[test]
fn target_workdir_prefers_the_live_session() {
    assert_eq!(model_target_workdir(Some("/s"), Some("/r"), Some("/h"), "/d"), "/s");
    assert_eq!(model_target_workdir(None, Some("  /r  "), Some("/h"), "/d"), "/r");
    assert_eq!(model_target_workdir(None, Some("   "), Some("/h"), "/d"), "/h");
    assert_eq!(model_target_workdir(None, None, Some(""), "/d"), "/d");
    assert_eq!(model_target_workdir(None, None, None, "/d"), "/d");
}

#[test]
fn provisioned_models_get_provider_details_they_lack() {
    assert_eq!(
        model_enrichment("eavs", None, Some("http://eavs"), None, [false, false, false, false]),
        ModelEnrichment {
            provider: Some("eavs".to_string()),
            api: Some("openai-completions".to_string()),
            base_url: Some("http://eavs".to_string()),
            api_key_env: Some(String::new()),
        }
    );
    assert_eq!(
        model_enrichment("eavs", Some("anthropic-messages"), None, Some("KEY"), [true, false, true, false]),
        ModelEnrichment {
            provider: None,
            api: Some("anthropic-messages".to_string()),
            base_url: None,
            api_key_env: Some("KEY".to_string()),
        }
    );
}

#[test]
fn models_json_is_flattened_with_provider_details() {
    let content = r#"{
        "providers": {
            "eavs": {
                "api": "anthropic-messages",
                "baseUrl": "http://127.0.0.1:3033",
                "apiKey": "EAVS_API_KEY",
                "models": [
                    {"id": "sonnet-x", "name": "X"},
                    {"id": "y", "api": "custom"},
                    "not-an-object"
                ]
            },
            "local": {
                "models": [{"id": 7}]
            },
            "broken": {"models": "none"}
        }
    }"#;
    let models = models_from_config(content);
    assert_eq!(models.len(), 4);
    let first = &models[0].value;
    assert_eq!(models[0].id.as_deref(), Some("sonnet-x"));
    assert_eq!(first["provider"], "eavs");
    assert_eq!(first["api"], "anthropic-messages");
    assert_eq!(first["baseUrl"], "http://127.0.0.1:3033");
    assert_eq!(first["apiKeyEnv"], "EAVS_API_KEY");
    assert_eq!(models[1].value["api"], "custom");
    assert_eq!(models[2].value, serde_json::Value::String("not-an-object".to_string()));
    assert_eq!(models[2].id, None);
    assert_eq!(models[3].id, None);
    assert_eq!(models[3].value["provider"], "local");
    assert_eq!(models[3].value["api"], "openai-completions");
    assert_eq!(models[3].value["baseUrl"], "");
    assert_eq!(models[3].value["apiKeyEnv"], "");
}

#[test]
fn models_json_that_is_not_json_gives_no_models() {
    assert!(models_from_config("{not json").is_empty());
    assert!(models_from_config("[1, 2]").is_empty());
    assert!(models_from_config(r#"{"providers": []}"#).is_empty());
}

#[test]
fn pi_model_lists_are_read_from_the_response() {
    let wrapped: serde_json::Value =
        serde_json::from_str(r#"{"models": [{"id": "a"}, {"name": "no id"}]}"#).unwrap();
    let models = models_from_response(Some(wrapped));
    assert_eq!(models.len(), 2);
    assert_eq!(models[0].id.as_deref(), Some("a"));
    assert_eq!(models[1].id, None);
    let bare: serde_json::Value = serde_json::from_str(r#"[{"id": "b"}]"#).unwrap();
    let models = models_from_response(Some(bare));
    assert_eq!(models.len(), 1);
    assert_eq!(models[0].id.as_deref(), Some("b"));
    let other: serde_json::Value = serde_json::from_str(r#"{"models": 3}"#).unwrap();
    assert!(models_from_response(Some(other)).is_empty());
    assert!(models_from_response(None).is_empty());
    let back = models_value(models_from_config(r#"{"providers": {"p": {"models": [{"id": "x"}]}}}"#));
    assert_eq!(back.as_array().map(|a| a.len()), Some(1));
    assert_eq!(back[0]["id"], "x");
}
