use oqto::admin::{
    after_linux_user_step, CreateUserFollowUp,
    collect_sync_results, users_to_sync, SyncRefusal, SyncUser, SyncUserConfigsRequest,
    first_model, metrics_error,
    admin_stats, build_provider_toml, catalog_lookup_url, choose_ensure_call,
    delete_provider_config, env_key_name, is_platform_linux_user, needs_identity_update,
    read_eavs_key_from_env, remove_env_key, remove_toml_array_entries, remove_toml_section,
    set_env_key, sync_user_result, upsert_provider_config, usable_models_json_key,
    validate_provider_name, CatalogLookupQuery, EnsureCall, ModelEntryText, ProviderError,
    ProviderText, SessionBrief, SyncOutcomes,
};

#[test]
fn active_users_are_counted_once() {
    let sessions = vec![
        SessionBrief { user_id: "a".to_string(), running: true },
        SessionBrief { user_id: "b".to_string(), running: false },
        SessionBrief { user_id: "a".to_string(), running: true },
        SessionBrief { user_id: "c".to_string(), running: true },
    ];
    let stats = admin_stats(10, &sessions);
    assert_eq!(stats.total_users, 10);
    assert_eq!(stats.total_sessions, 4);
    assert_eq!(stats.running_sessions, 3);
    assert_eq!(stats.active_users, 2);
}

const CONFIG: &str = "[server]\nport = 1\n\n[providers.openai]\ntype = \"openai\"\n\n[[providers.openai.models]]\nid = \"gpt\"\n\n[providers.anthropic]\ntype = \"anthropic\"\n";

#[test]
fn a_provider_section_is_removed_with_its_models() {
    let out = remove_toml_section(CONFIG, "providers.openai");
    assert_eq!(
        out,
        "[server]\nport = 1\n\n[providers.anthropic]\ntype = \"anthropic\"\n"
    );
    assert!(!out.lines().any(|l| l.trim() == "[providers.openai]"));
}

#[test]
fn leftover_model_tables_are_removed() {
    let text = "a = 1\n[[providers.x.models]]\nid = \"m\"\n[other]\nb = 2";
    assert_eq!(
        remove_toml_array_entries(text, "providers.x.models"),
        "a = 1\n[other]\nb = 2\n"
    );
}

#[test]
fn provider_names_are_checked() {
    assert_eq!(validate_provider_name("open-ai_2"), Ok(()));
    assert_eq!(validate_provider_name("größe"), Ok(()));
    assert_eq!(validate_provider_name(""), Err(ProviderError::InvalidName));
    assert_eq!(
        validate_provider_name("bad name"),
        Err(ProviderError::InvalidName)
    );
}

#[test]
fn env_key_names_are_upper_snake() {
    assert_eq!(env_key_name("my-provider"), "MY_PROVIDER_API_KEY");
    assert_eq!(env_key_name("groq"), "GROQ_API_KEY");
}

fn provider() -> ProviderText {
    ProviderText {
        name: "my-ai".to_string(),
        type_: "openai".to_string(),
        api_key: Some("secret".to_string()),
        base_url: Some("http://x".to_string()),
        api_version: None,
        deployment: None,
        models: vec![ModelEntryText {
            id: "m1".to_string(),
            name: "Model One".to_string(),
            reasoning: true,
            input: vec!["text".to_string(), "image".to_string()],
            context_window: 128000,
            max_tokens: 0,
            cost_line: Some("cost = { input = 1, output = 2, cache_read = 0 }".to_string()),
            compat: vec!["a = true".to_string()],
        }],
    }
}

#[test]
fn provider_toml_lists_settings_and_models() {
    assert_eq!(
        build_provider_toml(&provider()),
        "\n[providers.my-ai]\ntype = \"openai\"\napi_key = \"env:MY_AI_API_KEY\"\nbase_url = \"http://x\"\n\n[[providers.my-ai.models]]\nid = \"m1\"\nname = \"Model One\"\nreasoning = true\ninput = [\"text\", \"image\"]\ncontext_window = 128000\ncost = { input = 1, output = 2, cache_read = 0 }\ncompat = { a = true }\n"
    );
}

#[test]
fn upserting_replaces_the_old_section() {
    let mut p = provider();
    p.name = "openai".to_string();
    p.api_key = None;
    p.base_url = None;
    p.models = vec![];
    let out = upsert_provider_config(CONFIG, &p);
    assert_eq!(
        out,
        "[server]\nport = 1\n\n[providers.anthropic]\ntype = \"anthropic\"\n\n[providers.openai]\ntype = \"openai\"\n"
    );
    assert_eq!(
        delete_provider_config(CONFIG, "anthropic"),
        "[server]\nport = 1\n\n[providers.openai]\ntype = \"openai\"\n\n[[providers.openai.models]]\nid = \"gpt\"\n\n"
    );
}

#[test]
fn env_file_keeps_one_assignment_per_key() {
    let env = "A_API_KEY=old\nB_API_KEY=b";
    assert_eq!(
        set_env_key(env, "A_API_KEY", "new"),
        "B_API_KEY=b\nA_API_KEY=new\n"
    );
    assert_eq!(set_env_key("", "A_API_KEY", "v"), "A_API_KEY=v\n");
    assert_eq!(remove_env_key(env, "A_API_KEY"), "B_API_KEY=b\n");
    assert_eq!(remove_env_key("A_API_KEY=x\n", "A_API_KEY"), "\n");
}

#[test]
fn legacy_env_key_is_read() {
    assert_eq!(
        read_eavs_key_from_env("# c\n  EAVS_API_KEY= k1 \nEAVS_API_KEY=k2"),
        Some("k1".to_string())
    );
    assert_eq!(
        read_eavs_key_from_env("EAVS_API_KEY=\nEAVS_API_KEY=k2\n"),
        Some("k2".to_string())
    );
    assert_eq!(read_eavs_key_from_env("OTHER=1"), None);
}

#[test]
fn only_literal_keys_are_usable() {
    assert_eq!(usable_models_json_key(" sk-1 "), Some("sk-1".to_string()));
    assert_eq!(usable_models_json_key("EAVS_API_KEY"), None);
    assert_eq!(usable_models_json_key("env:X"), None);
    assert_eq!(usable_models_json_key("not-needed"), None);
    assert_eq!(usable_models_json_key("  "), None);
}

#[test]
fn platform_users_have_the_prefix() {
    assert!(is_platform_linux_user("oqto_alice"));
    assert!(!is_platform_linux_user("admin"));
}

#[test]
fn stored_accounts_are_verified() {
    assert!(matches!(
        choose_ensure_call(Some("oqto_a"), Some(2001)),
        EnsureCall::WithVerification { ref linux_username, uid: 2001 } if linux_username == "oqto_a"
    ));
    assert!(matches!(choose_ensure_call(Some("oqto_a"), None), EnsureCall::Plain));
    assert!(needs_identity_update(None, None, "oqto_a", 2001));
    assert!(needs_identity_update(Some("oqto_a"), Some(2000), "oqto_a", 2001));
    assert!(!needs_identity_update(Some("oqto_a"), Some(2001), "oqto_a", 2001));
}

#[test]
fn sync_results_collect_errors() {
    let r = sync_user_result(
        "u1",
        None,
        SyncOutcomes {
            ensure: Ok("oqto_u1".to_string()),
            shell: Err("no zsh".to_string()),
            mmry: None,
            eavs: Some((true, Err("down".to_string()))),
        },
    );
    assert!(r.runner_configured && !r.shell_configured && !r.eavs_configured);
    assert_eq!(r.linux_username.as_deref(), Some("oqto_u1"));
    assert_eq!(
        r.error.as_deref(),
        Some("shell setup failed: no zsh; eavs models.json sync failed: down")
    );
    let r = sync_user_result(
        "u1",
        Some("old".to_string()),
        SyncOutcomes {
            ensure: Err("no usermgr".to_string()),
            shell: Ok(()),
            mmry: None,
            eavs: None,
        },
    );
    assert!(!r.runner_configured);
    assert_eq!(r.linux_username.as_deref(), Some("old"));
    assert_eq!(r.error.as_deref(), Some("runner provisioning failed: no usermgr"));
    let r = sync_user_result(
        "u1",
        None,
        SyncOutcomes {
            ensure: Ok("oqto_u1".to_string()),
            shell: Err("x".to_string()),
            mmry: Some(Err("y".to_string())),
            eavs: Some((false, Ok(()))),
        },
    );
    assert_eq!(r.error.as_deref(), Some("mmry config update failed: y"));
    assert!(r.eavs_configured && !r.mmry_configured);
}

#[test]
fn catalog_lookups_are_url_encoded() {
    let q = CatalogLookupQuery {
        model_id: "gpt 4/o".to_string(),
        provider: Some("open ai".to_string()),
    };
    assert_eq!(
        catalog_lookup_url("http://e", &q),
        "http://e/catalog/lookup?model_id=gpt%204%2Fo&provider=open%20ai"
    );
    let q = CatalogLookupQuery {
        model_id: "m-1".to_string(),
        provider: None,
    };
    assert_eq!(catalog_lookup_url("http://e", &q), "http://e/catalog/lookup?model_id=m-1");
}

#[test]
fn metrics_snapshot_error_joins_failures() {
    let none: Vec<String> = vec![];
    assert_eq!(metrics_error(None, Ok(&none)), None);
    let report = vec!["session a: gone".to_string(), "session b: slow".to_string()];
    assert_eq!(
        metrics_error(Some("no /proc"), Ok(&report)).as_deref(),
        Some("host_metrics: no /proc; session a: gone; session b: slow")
    );
    assert_eq!(
        metrics_error(None, Err("podman down")).as_deref(),
        Some("container_stats: podman down")
    );
}

#[test]
fn first_model_is_taken_from_the_first_provider_that_has_one() {
    let providers = vec![
        ("anthropic".to_string(), None),
        ("openai".to_string(), Some("gpt-5".to_string())),
        ("zai".to_string(), Some("glm".to_string())),
    ];
    assert_eq!(first_model(&providers), Some(("openai".to_string(), "gpt-5".to_string())));
    assert_eq!(first_model(&vec![("a".to_string(), None)]), None);
}

fn sync_user(id: &str) -> SyncUser {
    SyncUser { id: id.to_string(), linux_username: None, linux_uid: None }
}

#[test]
fn sync_needs_linux_users_and_an_existing_user() {
    let req_all = SyncUserConfigsRequest { user_id: None };
    let req_one = SyncUserConfigsRequest { user_id: Some("u9".to_string()) };
    let refused = users_to_sync(false, &req_all, None, vec![sync_user("a")]).unwrap_err();
    assert_eq!(refused, SyncRefusal::LinuxUsersDisabled);
    assert_eq!(refused.message(), "Linux user isolation is not enabled.");
    let missing = users_to_sync(true, &req_one, None, vec![]).unwrap_err();
    assert_eq!(missing, SyncRefusal::UserNotFound { user_id: "u9".to_string() });
    assert_eq!(missing.message(), "User u9 not found");
    let one = users_to_sync(true, &req_one, Some(sync_user("u9")), vec![]).unwrap();
    assert_eq!(one.len(), 1);
    assert_eq!(one[0].id, "u9");
    let all = users_to_sync(true, &req_all, None, vec![sync_user("a"), sync_user("b")]).unwrap();
    assert_eq!(all.iter().map(|u| u.id.as_str()).collect::<Vec<_>>(), vec!["a", "b"]);
}

#[test]
fn sync_records_every_user_in_order() {
    let users = vec![sync_user("a"), sync_user("b")];
    let outcomes = vec![
        SyncOutcomes { ensure: Err("no sudo".to_string()), shell: Ok(()), mmry: None, eavs: None },
        SyncOutcomes { ensure: Ok("oqto_b".to_string()), shell: Ok(()), mmry: None, eavs: None },
    ];
    let resp = collect_sync_results(&users, outcomes);
    assert_eq!(resp.results.len(), 2);
    assert_eq!(resp.results[0].user_id, "a");
    assert!(!resp.results[0].runner_configured);
    assert_eq!(resp.results[0].error.as_deref(), Some("runner provisioning failed: no sudo"));
    assert_eq!(resp.results[1].user_id, "b");
    assert!(resp.results[1].runner_configured);
    assert_eq!(resp.results[1].linux_username.as_deref(), Some("oqto_b"));
}

#[test]
fn a_failed_linux_account_rolls_the_user_back() {
    assert_eq!(
        after_linux_user_step("u1", Err("useradd failed".to_string()), true, false),
        CreateUserFollowUp::RollBack {
            user_id: "u1".to_string(),
            message: "Failed to create Linux user for isolation: useradd failed".to_string(),
        }
    );
}

#[test]
fn a_created_linux_account_is_kept_with_its_identity() {
    assert_eq!(
        after_linux_user_step("u1", Ok((2001, "oqto_u1".to_string())), true, false),
        CreateUserFollowUp::Keep {
            user_id: "u1".to_string(),
            linux_username: "oqto_u1".to_string(),
            linux_uid: 2001,
            write_mmry_config: true,
        }
    );
    assert_eq!(
        after_linux_user_step("u1", Ok((2001, "oqto_u1".to_string())), true, true),
        CreateUserFollowUp::Keep {
            user_id: "u1".to_string(),
            linux_username: "oqto_u1".to_string(),
            linux_uid: 2001,
            write_mmry_config: false,
        }
    );
}
