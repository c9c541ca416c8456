use oqto::mmry_config::{
    apply_mmry_settings, updated_mmry_config, MmryConfigError, mmry_config_relative_path, mmry_config_text, mmry_settings_wanted,
    TomlItem, TomlTable,
};

fn table<'a>(t: &'a TomlTable, key: &str) -> &'a TomlTable {
    match t.get(key) {
        Some(TomlItem::Table(sub)) => sub,
        other => panic!("expected a table under {key}, got {other:?}"),
    }
}

fn text<'a>(t: &'a TomlTable, key: &str) -> &'a str {
    match t.get(key) {
        Some(TomlItem::Text(s)) => s.as_str(),
        other => panic!("expected a string under {key}, got {other:?}"),
    }
}

fn int_at(t: &TomlTable, key: &str) -> i64 {
    match t.get(key) {
        Some(TomlItem::Integer(i)) => *i,
        other => panic!("expected an integer under {key}, got {other:?}"),
    }
}

fn boolean(t: &TomlTable, key: &str) -> bool {
    match t.get(key) {
        Some(TomlItem::Boolean(b)) => *b,
        other => panic!("expected a boolean under {key}, got {other:?}"),
    }
}

fn existing_config() -> TomlTable {
    let mut remote = TomlTable::new();
    remote.insert("api_key", TomlItem::Text("old-key".to_string()));
    remote.insert("extra", TomlItem::Integer(7));
    remote.insert("base_url", TomlItem::Text("http://old".to_string()));
    let mut emb = TomlTable::new();
    emb.insert("keep", TomlItem::Boolean(false));
    emb.insert("model", TomlItem::Text("old-model".to_string()));
    emb.insert("remote", TomlItem::Table(remote));
    let mut doc = TomlTable::new();
    doc.insert("embeddings", TomlItem::Table(emb));
    doc.insert("ratio", TomlItem::Other(toml::Value::Float(0.5)));
    doc.insert("name", TomlItem::Text("mine".to_string()));
    doc
}

#[test]
fn table_insert_replaces_and_remove_takes_out() {
    let mut t = TomlTable::new();
    t.insert("a", TomlItem::Integer(1));
    t.insert("b", TomlItem::Integer(2));
    t.insert("a", TomlItem::Integer(3));
    assert_eq!(int_at(&t, "a"), 3);
    assert!(t.contains_key("b"));
    assert!(matches!(t.remove("b"), Some(TomlItem::Integer(2))));
    assert!(!t.contains_key("b"));
    assert!(t.remove("b").is_none());
    assert_eq!(t.into_entries().len(), 1);
}

#[test]
fn settings_are_written_and_the_rest_kept() {
    let mut doc = existing_config();
    apply_mmry_settings(&mut doc, "http://host:8081", None, "all-MiniLM", 384, None);
    let emb = table(&doc, "embeddings");
    assert!(boolean(emb, "enabled"));
    assert_eq!(text(emb, "model"), "all-MiniLM");
    assert_eq!(int_at(emb, "dimension"), 384);
    assert!(!boolean(emb, "keep"));
    let remote = table(emb, "remote");
    assert_eq!(text(remote, "base_url"), "http://host:8081");
    assert!(!remote.contains_key("api_key"));
    assert_eq!(int_at(remote, "extra"), 7);
    assert_eq!(int_at(remote, "request_timeout_seconds"), 30);
    assert_eq!(int_at(remote, "max_batch_size"), 64);
    assert!(boolean(remote, "required"));
    assert_eq!(text(&doc, "name"), "mine");
    assert!(matches!(doc.get("ratio"), Some(TomlItem::Other(toml::Value::Float(f))) if *f == 0.5));
    assert!(!doc.contains_key("external_api"));
}

#[test]
fn api_key_and_port_are_written_when_given() {
    let mut doc = TomlTable::new();
    apply_mmry_settings(&mut doc, "http://host", Some("secret"), "m", 768, Some(48_123));
    let remote = table(table(&doc, "embeddings"), "remote");
    assert_eq!(text(remote, "api_key"), "secret");
    let api = table(&doc, "external_api");
    assert!(boolean(api, "enabled"));
    assert_eq!(text(api, "host"), "127.0.0.1");
    assert_eq!(int_at(api, "port"), 48_123);
}

#[test]
fn settings_only_with_a_host_url() {
    assert!(mmry_settings_wanted("http://host"));
    assert!(!mmry_settings_wanted("   "));
    assert!(!mmry_settings_wanted(""));
}

#[test]
fn written_file_starts_with_the_schema_line() {
    assert_eq!(
        mmry_config_text("[embeddings]\nenabled = true\n"),
        "# @schema ./config.schema.json\n[embeddings]\nenabled = true\n"
    );
}

#[test]
fn config_path_relative_to_home() {
    assert_eq!(
        mmry_config_relative_path("/home/oqto_alice/.config/mmry/config.toml", "oqto_alice"),
        ".config/mmry/config.toml"
    );
    assert_eq!(
        mmry_config_relative_path("/srv/alice/.config/mmry/config.toml", "oqto_alice"),
        ".config/mmry/config.toml"
    );
    assert_eq!(
        mmry_config_relative_path("/home/oqto_alice/x/config.toml", "oqto_alice"),
        "x/config.toml"
    );
}

fn reparsed(out: &str) -> toml::Table {
    let body = out
        .strip_prefix("# @schema ./config.schema.json\n")
        .expect("schema header");
    toml::from_str(body).unwrap()
}

#[test]
fn a_config_text_gets_the_settings() {
    let content = "name = \"mine\"\n\n[embeddings]\nmodel = \"old\"\nbatch = 3\n\n[embeddings.remote]\napi_key = \"stale\"\n";
    let out = updated_mmry_config(content, "http://host:8080", None, "nomic", 768, Some(48001)).unwrap();
    let t = reparsed(&out);
    assert_eq!(t["name"].as_str(), Some("mine"));
    let emb = t["embeddings"].as_table().unwrap();
    assert_eq!(emb["model"].as_str(), Some("nomic"));
    assert_eq!(emb["dimension"].as_integer(), Some(768));
    assert_eq!(emb["enabled"].as_bool(), Some(true));
    assert_eq!(emb["batch"].as_integer(), Some(3));
    let remote = emb["remote"].as_table().unwrap();
    assert_eq!(remote["base_url"].as_str(), Some("http://host:8080"));
    assert!(remote.get("api_key").is_none());
    assert_eq!(remote["request_timeout_seconds"].as_integer(), Some(30));
    assert_eq!(remote["max_batch_size"].as_integer(), Some(64));
    assert_eq!(remote["required"].as_bool(), Some(true));
    let api = t["external_api"].as_table().unwrap();
    assert_eq!(api["host"].as_str(), Some("127.0.0.1"));
    assert_eq!(api["port"].as_integer(), Some(48001));
    assert_eq!(api["enabled"].as_bool(), Some(true));
}

#[test]
fn config_texts_that_cannot_take_the_settings_are_reported() {
    assert_eq!(
        updated_mmry_config("= not toml", "http://h", None, "m", 8, None),
        Err(MmryConfigError::Unparsable)
    );
    assert_eq!(
        updated_mmry_config("embeddings = 3\n", "http://h", None, "m", 8, None),
        Err(MmryConfigError::UnexpectedShape)
    );
    assert_eq!(
        updated_mmry_config("external_api = \"x\"\n", "http://h", None, "m", 8, Some(1)),
        Err(MmryConfigError::UnexpectedShape)
    );
    assert!(updated_mmry_config("external_api = \"x\"\n", "http://h", Some("k"), "m", 8, None).is_ok());
}
