//! The memory service (mmry) settings written into a user's
//! `~/.config/mmry/config.toml`.
//!
//! The caller reads the file and writes back what [`updated_mmry_config`]
//! gives: the text is parsed with `toml`, edited by
//! [`apply_mmry_settings`] and serialized again here.
use vstd::prelude::*;
use vstd::string::StrSliceExecFns;
use crate::text::{push_str, str_eq, str_starts_with, starts_with, to_owned_string, trim, trimmed};

verus! {

#[verifier::external_type_specification]
#[verifier::external_body]
pub struct ExTomlValue(toml::Value);

/// A TOML value as the editor reads it. Arrays, floats and date-times are
/// carried through untouched.
#[derive(Debug)]
pub enum TomlItem {
    Table(TomlTable),
    Boolean(bool),
    Integer(i64),
    Text(String),
    Other(toml::Value),
}

/// A TOML table: each key at most once.
#[derive(Debug)]
pub struct TomlTable {
    entries: Vec<(String, TomlItem)>,
}

/// The map of keys to values that a list of entries holds, later entries
/// winning.
pub open spec fn entries_map(s: Seq<(String, TomlItem)>) -> Map<Seq<char>, TomlItem>
    decreases s.len(),
{
    if s.len() == 0 {
        Map::<Seq<char>, TomlItem>::empty()
    } else {
        entries_map(s.drop_last()).insert(s.last().0@, s.last().1)
    }
}

pub open spec fn unique_keys(s: Seq<(String, TomlItem)>) -> bool {
    forall|i: int, j: int| 0 <= i < j < s.len() ==> (#[trigger] s[i]).0@ != (#[trigger] s[j]).0@
}

proof fn lemma_entries_map(s: Seq<(String, TomlItem)>)
    requires
        unique_keys(s),
    ensures
        forall|i: int|
            0 <= i < s.len() ==> entries_map(s).contains_key((#[trigger] s[i]).0@) && entries_map(s)[s[i].0@]
                == s[i].1,
        forall|k: Seq<char>| #[trigger]
            entries_map(s).contains_key(k) ==> exists|i: int| 0 <= i < s.len() && (#[trigger] s[i]).0@ == k,
    decreases s.len(),
{
    if s.len() > 0 {
        let p = s.drop_last();
        assert(unique_keys(p)) by {
            assert forall|i: int, j: int| 0 <= i < j < p.len() implies (#[trigger] p[i]).0@ != (#[trigger] p[j]).0@ by {
                assert(p[i] == s[i] && p[j] == s[j]);
            }
        }
        lemma_entries_map(p);
        assert forall|i: int| 0 <= i < s.len() implies entries_map(s).contains_key((#[trigger] s[i]).0@)
            && entries_map(s)[s[i].0@] == s[i].1 by {
            if i < s.len() - 1 {
                assert(s[i] == p[i]);
                assert(s[i].0@ != s[s.len() - 1].0@);
            }
        }
        assert forall|k: Seq<char>| #[trigger] entries_map(s).contains_key(k) implies exists|i: int|
            0 <= i < s.len() && (#[trigger] s[i]).0@ == k by {
            if k == s.last().0@ {
                assert(s[s.len() - 1].0@ == k);
            } else {
                assert(entries_map(p).contains_key(k));
                let i = choose|i: int| 0 <= i < p.len() && (#[trigger] p[i]).0@ == k;
                assert(s[i] == p[i]);
            }
        }
    }
}

impl TomlTable {
    #[verifier::type_invariant]
    spec fn keys_unique(self) -> bool {
        unique_keys(self.entries@)
    }

    /// The table as a map from keys to values.
    pub closed spec fn view_map(self) -> Map<Seq<char>, TomlItem> {
        entries_map(self.entries@)
    }

    /// An empty table.
    pub fn new() -> (t: TomlTable)
        ensures
            t.view_map() == Map::<Seq<char>, TomlItem>::empty(),
    {
        TomlTable { entries: Vec::new() }
    }

    fn find(&self, key: &str) -> (r: Option<usize>)
        ensures
            match r {
                Some(i) => i < self.entries@.len() && self.entries@[i as int].0@ == key@,
                None => forall|i: int| 0 <= i < self.entries@.len() ==> (#[trigger] self.entries@[i]).0@ != key@,
            },
    {
        let mut i: usize = 0;
        while i < self.entries.len()
            invariant
                0 <= i <= self.entries@.len(),
                forall|j: int| 0 <= j < i ==> (#[trigger] self.entries@[j]).0@ != key@,
            decreases self.entries.len() - i,
        {
            if str_eq(self.entries[i].0.as_str(), key) {
                return Some(i);
            }
            i = i + 1;
        }
        None
    }

    /// Whether the table has the key.
    pub fn contains_key(&self, key: &str) -> (r: bool)
        ensures
            r == self.view_map().contains_key(key@),
    {
        proof {
            use_type_invariant(self);
            lemma_entries_map(self.entries@);
        }
        match self.find(key) {
            Some(i) => true,
            None => {
                proof {
                    if self.view_map().contains_key(key@) {
                        let i = choose|i: int| 0 <= i < self.entries@.len() && (#[trigger] self.entries@[i]).0@ == key@;
                    }
                }
                false
            },
        }
    }

    /// The value under a key.
    pub fn get(&self, key: &str) -> (r: Option<&TomlItem>)
        ensures
            match r {
                Some(v) => self.view_map().contains_key(key@) && *v == self.view_map()[key@],
                None => !self.view_map().contains_key(key@),
            },
    {
        proof {
            use_type_invariant(self);
            lemma_entries_map(self.entries@);
        }
        match self.find(key) {
            Some(i) => Some(&self.entries[i].1),
            None => {
                proof {
                    if self.view_map().contains_key(key@) {
                        let i = choose|i: int| 0 <= i < self.entries@.len() && (#[trigger] self.entries@[i]).0@ == key@;
                    }
                }
                None
            },
        }
    }

    /// Sets the value under a key, replacing any value it had.
    pub fn insert(&mut self, key: &str, value: TomlItem)
        ensures
            final(self).view_map() == old(self).view_map().insert(key@, value),
    {
        proof {
            use_type_invariant(&*self);
            lemma_entries_map(self.entries@);
        }
        let ghost old_entries = self.entries@;
        let found = self.find(key);
        let mut entries: Vec<(String, TomlItem)> = Vec::new();
        std::mem::swap(&mut entries, &mut self.entries);
        match found {
            Some(i) => {
                entries.set(i, (to_owned_string(key), value));
                proof {
                    let s = entries@;
                    assert(unique_keys(s)) by {
                        assert forall|a: int, b: int| 0 <= a < b < s.len() implies (#[trigger] s[a]).0@ != (
                        #[trigger] s[b]).0@ by {
                            assert(s[a].0@ == old_entries[a].0@);
                            assert(s[b].0@ == old_entries[b].0@);
                        }
                    }
                    lemma_entries_map(s);
                    let m = old_entries;
                    assert(entries_map(s) =~= entries_map(m).insert(key@, value)) by {
                        assert forall|k: Seq<char>| #[trigger] entries_map(s).contains_key(k) implies entries_map(
                            m,
                        ).insert(key@, value).contains_key(k) by {
                            let j = choose|j: int| 0 <= j < s.len() && (#[trigger] s[j]).0@ == k;
                            if j != i {
                                assert(s[j] == m[j]);
                            }
                        }
                        assert forall|k: Seq<char>| #[trigger] entries_map(m).insert(key@, value).contains_key(
                            k,
                        ) implies entries_map(s).contains_key(k) && entries_map(s)[k] == entries_map(m).insert(
                            key@,
                            value,
                        )[k] by {
                            if k == key@ {
                                assert(s[i as int].0@ == k);
                            } else {
                                let j = choose|j: int| 0 <= j < m.len() && (#[trigger] m[j]).0@ == k;
                                assert(j != i);
                                assert(s[j] == m[j]);
                            }
                        }
                    }
                }
            },
            None => {
                entries.push((to_owned_string(key), value));
                proof {
                    let s = entries@;
                    assert(s.drop_last() == old_entries);
                    assert(unique_keys(s)) by {
                        assert forall|a: int, b: int| 0 <= a < b < s.len() implies (#[trigger] s[a]).0@ != (
                        #[trigger] s[b]).0@ by {
                            if b < s.len() - 1 {
                                assert(s[a] == old_entries[a] && s[b] == old_entries[b]);
                            } else {
                                assert(s[a] == old_entries[a]);
                            }
                        }
                    }
                }
            },
        }
        self.entries = entries;
    }

    /// Removes a key; returns the value it had.
    pub fn remove(&mut self, key: &str) -> (r: Option<TomlItem>)
        ensures
            final(self).view_map() == old(self).view_map().remove(key@),
            match r {
                Some(v) => old(self).view_map().contains_key(key@) && v == old(self).view_map()[key@],
                None => !old(self).view_map().contains_key(key@),
            },
    {
        proof {
            use_type_invariant(&*self);
            lemma_entries_map(self.entries@);
        }
        let ghost m = self.entries@;
        match self.find(key) {
            Some(i) => {
                let mut entries: Vec<(String, TomlItem)> = Vec::new();
                std::mem::swap(&mut entries, &mut self.entries);
                let (_, v) = entries.remove(i);
                proof {
                    let s = entries@;
                    assert(s == m.remove(i as int));
                    assert(unique_keys(s)) by {
                        assert forall|a: int, b: int| 0 <= a < b < s.len() implies (#[trigger] s[a]).0@ != (
                        #[trigger] s[b]).0@ by {
                            let a2 = if a < i { a } else { a + 1 };
                            let b2 = if b < i { b } else { b + 1 };
                            assert(s[a] == m[a2] && s[b] == m[b2]);
                        }
                    }
                    lemma_entries_map(s);
                    assert(entries_map(s) =~= entries_map(m).remove(key@)) by {
                        assert forall|k: Seq<char>| #[trigger] entries_map(s).contains_key(k) implies entries_map(
                            m,
                        ).remove(key@).contains_key(k) && entries_map(s)[k] == entries_map(m).remove(key@)[k] by {
                            let j = choose|j: int| 0 <= j < s.len() && (#[trigger] s[j]).0@ == k;
                            let j2 = if j < i { j } else { j + 1 };
                            assert(s[j] == m[j2]);
                            assert(j2 != i);
                        }
                        assert forall|k: Seq<char>| #[trigger] entries_map(m).remove(key@).contains_key(
                            k,
                        ) implies entries_map(s).contains_key(k) by {
                            let j = choose|j: int| 0 <= j < m.len() && (#[trigger] m[j]).0@ == k;
                            assert(j != i);
                            let j2 = if j < i { j } else { j - 1 };
                            assert(s[j2] == m[j]);
                        }
                    }
                }
                self.entries = entries;
                Some(v)
            },
            None => {
                proof {
                    if entries_map(m).contains_key(key@) {
                        let j = choose|j: int| 0 <= j < m.len() && (#[trigger] m[j]).0@ == key@;
                    }
                    assert(entries_map(m).remove(key@) =~= entries_map(m));
                }
                None
            },
        }
    }

    /// The entries of the table, each key once, in no particular order.
    pub fn into_entries(self) -> (r: Vec<(String, TomlItem)>)
        ensures
            unique_keys(r@),
            entries_map(r@) == self.view_map(),
    {
        proof {
            use_type_invariant(&self);
        }
        self.entries
    }
}

/// Whether a key of a map holds a table.
pub open spec fn holds_table(m: Map<Seq<char>, TomlItem>, key: Seq<char>) -> bool {
    m.contains_key(key) ==> m[key] is Table
}

/// The map of the table under a key, or the empty map.
pub open spec fn sub_map(m: Map<Seq<char>, TomlItem>, key: Seq<char>) -> Map<Seq<char>, TomlItem> {
    if m.contains_key(key) && m[key] is Table {
        m[key]->Table_0.view_map()
    } else {
        Map::<Seq<char>, TomlItem>::empty()
    }
}

/// Takes the table under a key out of `t`, or an empty table when the key
/// is absent.
fn take_table(t: &mut TomlTable, key: &str) -> (r: TomlTable)
    requires
        holds_table(old(t).view_map(), key@),
    ensures
        final(t).view_map() == old(t).view_map().remove(key@),
        r.view_map() == sub_map(old(t).view_map(), key@),
{
    match t.remove(key) {
        Some(TomlItem::Table(sub)) => sub,
        Some(other) => {
            proof {
                assert(false);
            }
            TomlTable::new()
        },
        None => TomlTable::new(),
    }
}

/// Whether `m` holds a string equal to `v` under `key`.
pub open spec fn has_text(m: Map<Seq<char>, TomlItem>, key: Seq<char>, v: Seq<char>) -> bool {
    &&& m.contains_key(key)
    &&& (m[key] matches TomlItem::Text(s) && s@ == v)
}

/// Whether `b` is `a` with only the given keys changed.
pub open spec fn same_except(a: Map<Seq<char>, TomlItem>, b: Map<Seq<char>, TomlItem>, keys: Set<Seq<char>>) -> bool {
    forall|k: Seq<char>|
        !keys.contains(k) ==> (#[trigger] a.contains_key(k) == b.contains_key(k) && (a.contains_key(k) ==> a[k]
            == b[k]))
}

/// The remote embeddings settings: the host service's URL, its key or no
/// key, a 30 s timeout, batches of at most 64, and required.
pub open spec fn remote_settings_ok(
    old_remote: Map<Seq<char>, TomlItem>,
    remote: Map<Seq<char>, TomlItem>,
    base_url: Seq<char>,
    api_key: Option<Seq<char>>,
) -> bool {
    &&& has_text(remote, "base_url"@, base_url)
    &&& match api_key {
        Some(k) => has_text(remote, "api_key"@, k),
        None => !remote.contains_key("api_key"@),
    }
    &&& remote.contains_key("request_timeout_seconds"@)
    &&& remote["request_timeout_seconds"@] == TomlItem::Integer(30)
    &&& remote.contains_key("max_batch_size"@)
    &&& remote["max_batch_size"@] == TomlItem::Integer(64)
    &&& remote.contains_key("required"@)
    &&& remote["required"@] == TomlItem::Boolean(true)
    &&& same_except(
        old_remote,
        remote,
        set!["base_url"@, "api_key"@, "request_timeout_seconds"@, "max_batch_size"@, "required"@],
    )
}

/// The embeddings settings: enabled, with the default model and dimension,
/// and the remote settings.
pub open spec fn embeddings_settings_ok(
    old_emb: Map<Seq<char>, TomlItem>,
    emb: Map<Seq<char>, TomlItem>,
    base_url: Seq<char>,
    api_key: Option<Seq<char>>,
    model: Seq<char>,
    dimension: u16,
) -> bool {
    &&& emb.contains_key("enabled"@)
    &&& emb["enabled"@] == TomlItem::Boolean(true)
    &&& has_text(emb, "model"@, model)
    &&& emb.contains_key("dimension"@)
    &&& emb["dimension"@] == TomlItem::Integer(dimension as i64)
    &&& emb.contains_key("remote"@)
    &&& emb["remote"@] is Table
    &&& remote_settings_ok(sub_map(old_emb, "remote"@), emb["remote"@]->Table_0.view_map(), base_url, api_key)
    &&& same_except(old_emb, emb, set!["enabled"@, "model"@, "dimension"@, "remote"@])
}

/// The external API settings: enabled on 127.0.0.1 at the port.
pub open spec fn external_api_ok(old_api: Map<Seq<char>, TomlItem>, api: Map<Seq<char>, TomlItem>, port: u16) -> bool {
    &&& api.contains_key("enabled"@)
    &&& api["enabled"@] == TomlItem::Boolean(true)
    &&& has_text(api, "host"@, "127.0.0.1"@)
    &&& api.contains_key("port"@)
    &&& api["port"@] == TomlItem::Integer(port as i64)
    &&& same_except(old_api, api, set!["enabled"@, "host"@, "port"@])
}

pub open spec fn opt_str(o: Option<&str>) -> Option<Seq<char>> {
    match o {
        Some(s) => Some(s@),
        None => None,
    }
}

/// What the settings make of a config: `new` is `old` with the
/// embeddings settings written and, when a port was allocated, the
/// external API settings; every other key keeps its value.
pub open spec fn mmry_settings_applied(
    old: Map<Seq<char>, TomlItem>,
    new: Map<Seq<char>, TomlItem>,
    host_service_url: Seq<char>,
    host_api_key: Option<Seq<char>>,
    default_model: Seq<char>,
    dimension: u16,
    mmry_port: Option<u16>,
) -> bool {
    &&& new.contains_key("embeddings"@)
    &&& new["embeddings"@] is Table
    &&& embeddings_settings_ok(
        sub_map(old, "embeddings"@),
        new["embeddings"@]->Table_0.view_map(),
        host_service_url,
        host_api_key,
        default_model,
        dimension,
    )
    &&& match mmry_port {
        Some(port) => {
            &&& new.contains_key("external_api"@)
            &&& new["external_api"@] is Table
            &&& external_api_ok(sub_map(old, "external_api"@), new["external_api"@]->Table_0.view_map(), port)
            &&& same_except(old, new, set!["embeddings"@, "external_api"@])
        },
        None => same_except(old, new, set!["embeddings"@]),
    }
}

/// Whether a config can take the settings: `embeddings`,
/// `embeddings.remote` and, when a port is to be written, `external_api`
/// hold tables where they are present.
pub open spec fn mmry_shape_ok(m: Map<Seq<char>, TomlItem>, port_given: bool) -> bool {
    &&& holds_table(m, "embeddings"@)
    &&& holds_table(sub_map(m, "embeddings"@), "remote"@)
    &&& port_given ==> holds_table(m, "external_api"@)
}

/// Writes the memory service settings into a parsed `config.toml`: the
/// `[embeddings]` table with its `[embeddings.remote]` table, and, when a
/// port was allocated, the `[external_api]` table. Every other key keeps
/// its value. Where one of these keys holds something other than a table,
/// the settings cannot be written (the caller must not ask).
pub fn apply_mmry_settings(
    doc: &mut TomlTable,
    host_service_url: &str,
    host_api_key: Option<&str>,
    default_model: &str,
    dimension: u16,
    mmry_port: Option<u16>,
)
    requires
        mmry_shape_ok(old(doc).view_map(), mmry_port is Some),
    ensures
        mmry_settings_applied(
            old(doc).view_map(),
            final(doc).view_map(),
            host_service_url@,
            opt_str(host_api_key),
            default_model@,
            dimension,
            mmry_port,
        ),
{
    proof {
        lemma_setting_keys();
    }
    let ghost d0 = doc.view_map();
    let mut emb = take_table(doc, "embeddings");
    let ghost e0 = emb.view_map();
    let model = to_owned_string(default_model);
    let ghost model_item = TomlItem::Text(model);
    emb.insert("enabled", TomlItem::Boolean(true));
    emb.insert("model", TomlItem::Text(model));
    emb.insert("dimension", TomlItem::Integer(dimension as i64));
    let ghost e1 = emb.view_map();
    assert(e1.contains_key("remote"@) == e0.contains_key("remote"@));
    assert(e1.contains_key("remote"@) ==> e1["remote"@] == e0["remote"@]);
    let mut remote = take_table(&mut emb, "remote");
    let ghost r0 = remote.view_map();
    assert(r0 == sub_map(e0, "remote"@));
    let url = to_owned_string(host_service_url);
    let ghost url_item = TomlItem::Text(url);
    remote.insert("base_url", TomlItem::Text(url));
    let ghost key_item: Option<TomlItem> = None;
    match host_api_key {
        Some(key) => {
            let k = to_owned_string(key);
            proof {
                key_item = Some(TomlItem::Text(k));
            }
            remote.insert("api_key", TomlItem::Text(k));
        },
        None => {
            let _ = remote.remove("api_key");
        },
    }
    remote.insert("request_timeout_seconds", TomlItem::Integer(30));
    remote.insert("max_batch_size", TomlItem::Integer(64));
    remote.insert("required", TomlItem::Boolean(true));
    let ghost r1 = remote.view_map();
    assert(remote_settings_ok(r0, r1, host_service_url@, opt_str(host_api_key))) by {
        assert(r1["base_url"@] == url_item);
        match host_api_key {
            Some(key) => {
                assert(r1["api_key"@] == key_item->0);
            },
            None => {},
        }
    }
    let ghost remote_item = TomlItem::Table(remote);
    emb.insert("remote", TomlItem::Table(remote));
    let ghost e3 = emb.view_map();
    assert(embeddings_settings_ok(e0, e3, host_service_url@, opt_str(host_api_key), default_model@, dimension)) by {
        assert(e3["model"@] == model_item);
        assert(e3["remote"@] == remote_item);
    }
    let ghost emb_item = TomlItem::Table(emb);
    doc.insert("embeddings", TomlItem::Table(emb));
    let ghost d1 = doc.view_map();
    assert(d1["embeddings"@] == emb_item);
    assert(same_except(d0, d1, set!["embeddings"@]));
    match mmry_port {
        Some(port) => {
            assert(d1.contains_key("external_api"@) == d0.contains_key("external_api"@));
            assert(d1.contains_key("external_api"@) ==> d1["external_api"@] == d0["external_api"@]);
            let mut api = take_table(doc, "external_api");
            let ghost a0 = api.view_map();
            let host = to_owned_string("127.0.0.1");
            let ghost host_item = TomlItem::Text(host);
            api.insert("enabled", TomlItem::Boolean(true));
            api.insert("host", TomlItem::Text(host));
            api.insert("port", TomlItem::Integer(port as i64));
            let ghost a1 = api.view_map();
            assert(external_api_ok(a0, a1, port)) by {
                assert(a1["host"@] == host_item);
            }
            let ghost api_item = TomlItem::Table(api);
            doc.insert("external_api", TomlItem::Table(api));
            let ghost d2 = doc.view_map();
            assert(d2["external_api"@] == api_item);
            assert(d2["embeddings"@] == emb_item);
            assert(same_except(d0, d2, set!["embeddings"@, "external_api"@]));
        },
        None => {},
    }
}

/// The keys the settings write are distinct.
proof fn lemma_setting_keys()
    ensures
        "embeddings"@.len() == 10,
        "external_api"@.len() == 12,
        "enabled"@.len() == 7,
        "model"@.len() == 5,
        "dimension"@.len() == 9,
        "remote"@.len() == 6,
        "base_url"@.len() == 8,
        "api_key"@.len() == 7,
        "request_timeout_seconds"@.len() == 23,
        "max_batch_size"@.len() == 14,
        "required"@.len() == 8,
        "host"@.len() == 4,
        "port"@.len() == 4,
        "base_url"@ != "required"@,
        "host"@ != "port"@,
{
    reveal_strlit("embeddings");
    reveal_strlit("external_api");
    reveal_strlit("enabled");
    reveal_strlit("model");
    reveal_strlit("dimension");
    reveal_strlit("remote");
    reveal_strlit("base_url");
    reveal_strlit("api_key");
    reveal_strlit("request_timeout_seconds");
    reveal_strlit("max_batch_size");
    reveal_strlit("required");
    reveal_strlit("host");
    reveal_strlit("port");
    assert("base_url"@[0] != "required"@[0]);
    assert("host"@[0] != "port"@[0]);
}

/// Whether the memory service is configured at all: only when a host
/// service URL is set.
pub fn mmry_settings_wanted(host_service_url: &str) -> (r: bool)
    ensures
        r == (trim(host_service_url@).len() > 0),
{
    let t = trimmed(host_service_url);
    !t.as_str().is_empty()
}

/// The header line written above the settings.
pub const MMRY_SCHEMA_HEADER: &'static str = "# @schema ./config.schema.json\n";

/// The text of the written file: the schema header, then the serialized
/// settings.
pub fn mmry_config_text(serialized: &str) -> (res: String)
    ensures
        res@ == MMRY_SCHEMA_HEADER@ + serialized@,
{
    let mut out = to_owned_string(MMRY_SCHEMA_HEADER);
    push_str(&mut out, serialized);
    out
}

/// The path of the config file below the user's home, as the user manager
/// writes files: the path with `/home/<user>/` taken off, or
/// `.config/mmry/config.toml` when it does not start so.
pub fn mmry_config_relative_path(config_path: &str, linux_username: &str) -> (res: String)
    ensures
        starts_with(config_path@, "/home/"@ + linux_username@ + "/"@) ==> res@ == config_path@.skip(
            ("/home/"@ + linux_username@ + "/"@).len() as int,
        ),
        !starts_with(config_path@, "/home/"@ + linux_username@ + "/"@) ==> res@ == ".config/mmry/config.toml"@,
{
    let mut prefix = to_owned_string("/home/");
    push_str(&mut prefix, linux_username);
    push_str(&mut prefix, "/");
    if str_starts_with(config_path, prefix.as_str()) {
        let v = crate::text::chars_of(config_path);
        let n = prefix.as_str().unicode_len();
        let res = crate::text::string_from_range(&v, n, v.len());
        assert(v@.subrange(n as int, v@.len() as int) == config_path@.skip(n as int));
        res
    } else {
        to_owned_string(".config/mmry/config.toml")
    }
}


// ---------------------------------------------------------------------------
// Reading and writing the file
// ---------------------------------------------------------------------------

/// What `toml::from_str::<toml::Table>` reads from a text, as the editor's
/// map of keys to values; `None` where the text is not a TOML document.
pub uninterp spec fn toml_table(content: Seq<char>) -> Option<Map<Seq<char>, TomlItem>>;

/// What `toml::to_string_pretty` writes for a table given by its map of
/// keys to values; `None` where serialization fails.
pub uninterp spec fn toml_text(table: Map<Seq<char>, TomlItem>) -> Option<Seq<char>>;

/// A TOML value in the editor's shape: one arm per variant.
#[verifier::external_body]
fn item_of(value: toml::Value) -> TomlItem {
    match value {
        toml::Value::Table(t) => TomlItem::Table(
            TomlTable { entries: t.into_iter().map(|(k, v)| (k, item_of(v))).collect() },
        ),
        toml::Value::Boolean(b) => TomlItem::Boolean(b),
        toml::Value::Integer(i) => TomlItem::Integer(i),
        toml::Value::String(s) => TomlItem::Text(s),
        other => TomlItem::Other(other),
    }
}

/// An editor's value back as a TOML value: one arm per variant.
#[verifier::external_body]
fn value_of(item: TomlItem) -> toml::Value {
    match item {
        TomlItem::Table(t) => toml::Value::Table(
            t.entries.into_iter().map(|(k, i)| (k, value_of(i))).collect(),
        ),
        TomlItem::Boolean(b) => toml::Value::Boolean(b),
        TomlItem::Integer(i) => toml::Value::Integer(i),
        TomlItem::Text(s) => toml::Value::String(s),
        TomlItem::Other(v) => v,
    }
}

/// Wraps `toml::from_str::<toml::Table>`: the parsed document, converted
/// value by value into the editor's shape, is the named reading of the
/// text; `None` where it does not parse.
#[verifier::external_body]
fn parse_toml_table(content: &str) -> (r: Option<TomlTable>)
    ensures
        match r {
            Some(t) => toml_table(content@) == Some(t.view_map()),
            None => toml_table(content@) is None,
        },
{
    match toml::from_str::<toml::Table>(content) {
        Ok(t) => Some(TomlTable { entries: t.into_iter().map(|(k, v)| (k, item_of(v))).collect() }),
        Err(_) => None,
    }
}

/// Wraps `toml::to_string_pretty` on the table converted value by value
/// back to a `toml::Table`: the text is the named serialization of the
/// table's map; `None` where serialization fails.
#[verifier::external_body]
fn serialize_toml_table(t: TomlTable) -> (r: Option<String>)
    ensures
        match r {
            Some(text) => toml_text(t.view_map()) == Some(text@),
            None => toml_text(t.view_map()) is None,
        },
{
    let table: toml::Table = t.entries.into_iter().map(|(k, i)| (k, value_of(i))).collect();
    toml::to_string_pretty(&table).ok()
}

/// Why the settings could not be written into a config text.
#[derive(Debug, Clone, PartialEq, Eq, Structural)]
pub enum MmryConfigError {
    /// The text is not a TOML document.
    Unparsable,
    /// `embeddings`, `embeddings.remote` or (with a port) `external_api`
    /// holds something other than a table.
    UnexpectedShape,
    /// The edited table could not be serialized.
    Unserializable,
}

/// Whether a parsed config can take the settings.
pub fn mmry_shape_holds(doc: &TomlTable, port_given: bool) -> (r: bool)
    ensures
        r == mmry_shape_ok(doc.view_map(), port_given),
{
    match doc.get("embeddings") {
        Some(TomlItem::Table(emb)) => match emb.get("remote") {
            Some(TomlItem::Table(_)) | None => {},
            Some(_) => return false,
        },
        None => {},
        Some(_) => return false,
    }
    if port_given {
        match doc.get("external_api") {
            Some(TomlItem::Table(_)) | None => {},
            Some(_) => return false,
        }
    }
    true
}

/// The new text of an mmry `config.toml` whose text is `content`: the
/// document read, the settings applied, written back under the schema
/// header. An unreadable text, a config that cannot take the settings and
/// a failed serialization are each reported.
pub fn updated_mmry_config(
    content: &str,
    host_service_url: &str,
    host_api_key: Option<&str>,
    default_model: &str,
    dimension: u16,
    mmry_port: Option<u16>,
) -> (r: Result<String, MmryConfigError>)
    ensures
        match toml_table(content@) {
            None => r == Err::<String, MmryConfigError>(MmryConfigError::Unparsable),
            Some(m) => if !mmry_shape_ok(m, mmry_port is Some) {
                r == Err::<String, MmryConfigError>(MmryConfigError::UnexpectedShape)
            } else {
                exists|d: Map<Seq<char>, TomlItem>|
                    #![trigger toml_text(d)]
                    mmry_settings_applied(
                        m,
                        d,
                        host_service_url@,
                        opt_str(host_api_key),
                        default_model@,
                        dimension,
                        mmry_port,
                    ) && match toml_text(d) {
                        Some(text) => r matches Ok(out) && out@ == MMRY_SCHEMA_HEADER@ + text,
                        None => r == Err::<String, MmryConfigError>(MmryConfigError::Unserializable),
                    }
            },
        },
{
    let mut doc = match parse_toml_table(content) {
        Some(t) => t,
        None => return Err(MmryConfigError::Unparsable),
    };
    if !mmry_shape_holds(&doc, mmry_port.is_some()) {
        return Err(MmryConfigError::UnexpectedShape);
    }
    apply_mmry_settings(&mut doc, host_service_url, host_api_key, default_model, dimension, mmry_port);
    let ghost d = doc.view_map();
    match serialize_toml_table(doc) {
        Some(text) => {
            let out = mmry_config_text(text.as_str());
            assert(toml_text(d) == Some(text@));
            Ok(out)
        },
        None => {
            assert(toml_text(d) is None);
            Err(MmryConfigError::Unserializable)
        },
    }
}

} // verus!
