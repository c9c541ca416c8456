//! The model list offered to a Pi session.
//!
//! Models come from up to three sources (a fresh Pi process, the live
//! session, and the provisioned `models.json`); they are merged by model
//! id and cached per working directory for an hour. The caller fetches
//! the lists and keeps the cache; this module holds the merge and the
//! cache and workdir decisions.
use vstd::prelude::*;
use crate::json::{
    json_array, json_array_value, json_as_str, json_elements, json_entries, json_field, json_get, json_members,
    json_parsed, json_set_string, json_with_string, parse_json, string_member,
};
use crate::text::{str_eq, to_owned_string, trim, trimmed};

verus! {

/// How long a cached model list stays valid, in seconds.
pub const MODEL_CACHE_TTL_SECS: u64 = 3600;

/// One model of a model list: its `id` where it is a string, and the
/// model's JSON as it came.
#[derive(Debug)]
pub struct ModelEntry {
    pub id: Option<String>,
    pub value: serde_json::Value,
}

/// Whether some model of the list has the id.
pub open spec fn has_id(models: Seq<ModelEntry>, id: Seq<char>) -> bool {
    exists|j: int| 0 <= j < models.len() && (#[trigger] models[j]).id is Some && models[j].id->0@ == id
}

/// The models of `secondary` that a merge adds to `primary`: those with
/// an id that no model of `primary` has, in order.
pub open spec fn added_models(secondary: Seq<ModelEntry>, primary: Seq<ModelEntry>) -> Seq<ModelEntry>
    decreases secondary.len(),
{
    if secondary.len() == 0 {
        Seq::<ModelEntry>::empty()
    } else {
        let rest = added_models(secondary.drop_last(), primary);
        let m = secondary.last();
        match m.id {
            Some(id) => if !has_id(primary, id@) {
                rest.push(m)
            } else {
                rest
            },
            None => rest,
        }
    }
}

fn id_among(models: &Vec<ModelEntry>, count: usize, id: &str) -> (r: bool)
    requires
        count <= models@.len(),
    ensures
        r == has_id(models@.take(count as int), id@),
{
    let ghost pre = models@.take(count as int);
    let mut j: usize = 0;
    while j < count
        invariant
            0 <= j <= count,
            count <= models@.len(),
            pre == models@.take(count as int),
            forall|q: int| 0 <= q < j ==> !((#[trigger] pre[q]).id is Some && pre[q].id->0@ == id@),
        decreases count - j,
    {
        match &models[j].id {
            Some(x) => {
                if str_eq(x.as_str(), id) {
                    assert(pre[j as int] == models@[j as int]);
                    return true;
                }
            },
            None => {},
        }
        assert(pre[j as int] == models@[j as int]);
        j = j + 1;
    }
    false
}

/// Merges two model lists: all of `primary`, then each model of
/// `secondary` whose id no model of `primary` has. Models of `secondary`
/// without an id are left out.
pub fn merge_model_lists(primary: Vec<ModelEntry>, secondary: Vec<ModelEntry>) -> (res: Vec<ModelEntry>)
    ensures
        res@ == primary@ + added_models(secondary@, primary@),
{
    let ghost prim = primary@;
    let ghost sec = secondary@;
    let plen = primary.len();
    let slen = secondary.len();
    let mut merged = primary;
    let mut rest = secondary;
    let mut i: usize = 0;
    while rest.len() > 0
        invariant
            plen == prim.len(),
            slen == sec.len(),
            rest@ == sec.skip(i as int),
            i <= sec.len(),
            merged@ == prim + added_models(sec.take(i as int), prim),
        decreases rest.len(),
    {
        assert(sec.take(i + 1).drop_last() == sec.take(i as int));
        assert(merged@.take(plen as int) == prim);
        let m = rest.remove(0);
        assert(m == sec[i as int]);
        assert(rest@ == sec.skip(i + 1));
        let keep = match &m.id {
            Some(id) => !id_among(&merged, plen, id.as_str()),
            None => false,
        };
        if keep {
            merged.push(m);
        }
        i = i + 1;
    }
    assert(sec.take(i as int) == sec);
    merged
}

/// The model list of a session: the freshly fetched list first, then the
/// live session's, then the provisioned one, each adding only models with
/// ids not yet present.
pub fn combine_model_sources(fresh: Vec<ModelEntry>, session: Vec<ModelEntry>, provisioned: Vec<ModelEntry>) -> (res:
    Vec<ModelEntry>)
    ensures
        res@ == (fresh@ + added_models(session@, fresh@)) + added_models(
            provisioned@,
            fresh@ + added_models(session@, fresh@),
        ),
{
    let first = merge_model_lists(fresh, session);
    merge_model_lists(first, provisioned)
}

/// Whether a cached list written at `cached_at` is still served at `now`
/// (both in seconds since the epoch): its age is at most the TTL.
pub fn cache_entry_fresh(now: u64, cached_at: u64) -> (r: bool)
    ensures
        r == (if now >= cached_at {
            now - cached_at <= MODEL_CACHE_TTL_SECS
        } else {
            true
        }),
{
    let age: u64 = if now >= cached_at {
        now - cached_at
    } else {
        0
    };
    age <= MODEL_CACHE_TTL_SECS
}

/// Whether a cache file read at start-up is dropped: it has no write time,
/// or it is older than the TTL.
pub fn disk_cache_entry_expired(now: u64, cached_at: u64) -> (r: bool)
    ensures
        r == (cached_at == 0 || (now >= cached_at && now - cached_at > MODEL_CACHE_TTL_SECS)),
{
    let age: u64 = if now >= cached_at {
        now - cached_at
    } else {
        0
    };
    cached_at == 0 || age > MODEL_CACHE_TTL_SECS
}

/// Whether `models.json` changed since it was last read, given the
/// modification time recorded then and the one seen now (seconds and
/// nanoseconds since the epoch): never before a first read; when the file
/// vanished; when the time differs.
pub fn models_file_changed(stored: Option<(u64, u32)>, current: Option<(u64, u32)>) -> (r: bool)
    ensures
        r == match (stored, current) {
            (None, _) => false,
            (Some(_), None) => true,
            (Some(a), Some(b)) => a != b,
        },
{
    match (stored, current) {
        (None, _) => false,
        (Some(_), None) => true,
        (Some(a), Some(b)) => a.0 != b.0 || a.1 != b.1,
    }
}

/// The working directory a model list is cached under.
pub open spec fn target_workdir(
    session_cwd: Option<Seq<char>>,
    requested: Option<Seq<char>>,
    recorded: Option<Seq<char>>,
    default_cwd: Seq<char>,
) -> Seq<char> {
    match session_cwd {
        Some(c) => c,
        None => if requested is Some && trim(requested->0).len() > 0 {
            trim(requested->0)
        } else if recorded is Some && recorded->0.len() > 0 {
            recorded->0
        } else {
            default_cwd
        },
    }
}

pub open spec fn opt_str(o: Option<&str>) -> Option<Seq<char>> {
    match o {
        Some(s) => Some(s@),
        None => None,
    }
}

/// The working directory a model request is served for: the live
/// session's; else the requested one, trimmed, when not blank; else the
/// one the history records for the session, when not empty; else the
/// default.
pub fn model_target_workdir(
    session_cwd: Option<&str>,
    requested: Option<&str>,
    recorded: Option<&str>,
    default_cwd: &str,
) -> (res: String)
    ensures
        res@ == target_workdir(opt_str(session_cwd), opt_str(requested), opt_str(recorded), default_cwd@),
{
    match session_cwd {
        Some(c) => to_owned_string(c),
        None => {
            match requested {
                Some(r) => {
                    let t = trimmed(r);
                    if !t.as_str().is_empty() {
                        return t;
                    }
                },
                None => {},
            }
            match recorded {
                Some(h) => {
                    if !h.is_empty() {
                        return to_owned_string(h);
                    }
                },
                None => {},
            }
            to_owned_string(default_cwd)
        },
    }
}


/// The fields added to a model read from `models.json`, each `None` when
/// the model sets it itself.
#[derive(Debug, Clone, PartialEq, Eq)]
pub struct ModelEnrichment {
    /// `provider`: the provider's name.
    pub provider: Option<String>,
    /// `api`: the provider's API.
    pub api: Option<String>,
    /// `baseUrl`: the provider's base URL.
    pub base_url: Option<String>,
    /// `apiKeyEnv`: the provider's key variable.
    pub api_key_env: Option<String>,
}

pub open spec fn added(present: bool, value: Seq<char>, field: Option<String>) -> bool {
    if present {
        field is None
    } else {
        field is Some && field->0@ == value
    }
}

/// The fields added to a model read from `models.json` so that it can be
/// shown and routed: its provider's name, API (default
/// `openai-completions`), base URL and key variable (default empty), each
/// only where the model does not set it itself. `present` tells, in that
/// order, which of `provider`, `api`, `baseUrl` and `apiKeyEnv` the model
/// has.
pub fn model_enrichment(
    provider: &str,
    api: Option<&str>,
    base_url: Option<&str>,
    api_key: Option<&str>,
    present: [bool; 4],
) -> (res: ModelEnrichment)
    ensures
        added(present[0], provider@, res.provider),
        added(
            present[1],
            match api {
                Some(a) => a@,
                None => "openai-completions"@,
            },
            res.api,
        ),
        added(
            present[2],
            match base_url {
                Some(u) => u@,
                None => Seq::<char>::empty(),
            },
            res.base_url,
        ),
        added(
            present[3],
            match api_key {
                Some(k) => k@,
                None => Seq::<char>::empty(),
            },
            res.api_key_env,
        ),
{
    ModelEnrichment {
        provider: if present[0] {
            None
        } else {
            Some(to_owned_string(provider))
        },
        api: if present[1] {
            None
        } else {
            Some(
                match api {
                    Some(a) => to_owned_string(a),
                    None => to_owned_string("openai-completions"),
                },
            )
        },
        base_url: if present[2] {
            None
        } else {
            Some(
                match base_url {
                    Some(u) => to_owned_string(u),
                    None => String::new(),
                },
            )
        },
        api_key_env: if present[3] {
            None
        } else {
            Some(
                match api_key {
                    Some(k) => to_owned_string(k),
                    None => String::new(),
                },
            )
        },
    }
}

// ---------------------------------------------------------------------------
// The provisioned models.json
// ---------------------------------------------------------------------------

/// `s`, or `default` where it is absent.
pub open spec fn or_default(s: Option<Seq<char>>, default: Seq<char>) -> Seq<char> {
    match s {
        Some(v) => v,
        None => default,
    }
}

/// `v` with the string `s` under `key` where the model `orig` lacks `key`.
pub open spec fn add_missing(orig: serde_json::Value, v: serde_json::Value, key: Seq<char>, s: Seq<char>) -> serde_json::Value {
    if json_field(orig, key) is Some {
        v
    } else {
        json_with_string(v, key, s)
    }
}

/// A model of `models.json` with its provider's details added where it
/// lacks them: the provider's name, API (default `openai-completions`),
/// base URL and key variable (default empty). A model that is not an
/// object stays as it is.
pub open spec fn enriched_model(
    m: serde_json::Value,
    provider: Seq<char>,
    api: Option<Seq<char>>,
    base_url: Option<Seq<char>>,
    api_key: Option<Seq<char>>,
) -> serde_json::Value {
    if json_entries(m) is Some {
        let v1 = add_missing(m, m, "provider"@, provider);
        let v2 = add_missing(m, v1, "api"@, or_default(api, "openai-completions"@));
        let v3 = add_missing(m, v2, "baseUrl"@, or_default(base_url, Seq::empty()));
        add_missing(m, v3, "apiKeyEnv"@, or_default(api_key, Seq::empty()))
    } else {
        m
    }
}

/// The models one provider entry of `models.json` lists, each enriched
/// with the provider's details; none where `models` is not an array.
pub open spec fn provider_entry_models(name: Seq<char>, cfg: serde_json::Value) -> Seq<serde_json::Value> {
    let api = string_member(json_field(cfg, "api"@));
    let base_url = string_member(json_field(cfg, "baseUrl"@));
    let api_key = string_member(json_field(cfg, "apiKey"@));
    match json_field(cfg, "models"@) {
        Some(ms) => match json_array(ms) {
            Some(a) => a.map_values(|m: serde_json::Value| enriched_model(m, name, api, base_url, api_key)),
            None => Seq::empty(),
        },
        None => Seq::empty(),
    }
}

/// The models of the provider entries, provider after provider.
pub open spec fn provider_models(entries: Seq<(Seq<char>, serde_json::Value)>) -> Seq<serde_json::Value>
    decreases entries.len(),
{
    if entries.len() == 0 {
        Seq::empty()
    } else {
        provider_models(entries.drop_last()) + provider_entry_models(entries.last().0, entries.last().1)
    }
}

/// The models of a `models.json` text: the models of every provider under
/// `providers`, in order; none where the text is not JSON or has no
/// provider object.
pub open spec fn config_models(content: Seq<char>) -> Seq<serde_json::Value> {
    match json_parsed(content) {
        Some(c) => match json_field(c, "providers"@) {
            Some(p) => match json_entries(p) {
                Some(es) => provider_models(es),
                None => Seq::empty(),
            },
            None => Seq::empty(),
        },
        None => Seq::empty(),
    }
}

/// Whether an entry's id is the model's `id` where that is a string.
pub open spec fn entry_id_ok(e: ModelEntry) -> bool {
    match e.id {
        Some(s) => string_member(json_field(e.value, "id"@)) == Some(s@),
        None => string_member(json_field(e.value, "id"@)) is None,
    }
}

/// A model list entry for a model: its `id` where it is a string.
pub fn model_entry(value: serde_json::Value) -> (e: ModelEntry)
    ensures
        e.value == value,
        entry_id_ok(e),
{
    let id = match json_get(&value, "id") {
        Some(v) => match json_as_str(v) {
            Some(s) => Some(to_owned_string(s)),
            None => None,
        },
        None => None,
    };
    ModelEntry { id, value }
}

/// Whether a JSON value is an object.
fn is_json_object(v: &serde_json::Value) -> (r: bool)
    ensures
        r == (json_entries(*v) is Some),
{
    json_members(v).is_some()
}

fn opt_to_str(o: Option<&serde_json::Value>) -> (r: Option<&str>)
    ensures
        match r {
            Some(s) => match o {
                Some(v) => string_member(Some(*v)) == Some(s@),
                None => false,
            },
            None => match o {
                Some(v) => string_member(Some(*v)) is None,
                None => true,
            },
        },
{
    match o {
        Some(v) => json_as_str(v),
        None => None,
    }
}

/// A model of `models.json` with its provider's details added where it
/// lacks them.
pub fn enrich_model(
    model: serde_json::Value,
    provider: &str,
    api: Option<&str>,
    base_url: Option<&str>,
    api_key: Option<&str>,
) -> (r: serde_json::Value)
    ensures
        r == enriched_model(model, provider@, opt_str(api), opt_str(base_url), opt_str(api_key)),
{
    if !is_json_object(&model) {
        return model;
    }
    let ghost m = model;
    let present = [
        json_get(&model, "provider").is_some(),
        json_get(&model, "api").is_some(),
        json_get(&model, "baseUrl").is_some(),
        json_get(&model, "apiKeyEnv").is_some(),
    ];
    let add = model_enrichment(provider, api, base_url, api_key, present);
    let mut v = model;
    if let Some(p) = add.provider {
        json_set_string(&mut v, "provider", p);
    }
    let ghost v1 = v;
    assert(v1 == add_missing(m, m, "provider"@, provider@));
    if let Some(a) = add.api {
        json_set_string(&mut v, "api", a);
    }
    let ghost v2 = v;
    assert(v2 == add_missing(m, v1, "api"@, or_default(opt_str(api), "openai-completions"@)));
    if let Some(b) = add.base_url {
        json_set_string(&mut v, "baseUrl", b);
    }
    let ghost v3 = v;
    assert(v3 == add_missing(m, v2, "baseUrl"@, or_default(opt_str(base_url), Seq::empty())));
    if let Some(k) = add.api_key_env {
        json_set_string(&mut v, "apiKeyEnv", k);
    }
    v
}

/// The models of a `models.json` text (as oqto provisions it), flattened
/// over the providers in order, each enriched with its provider's
/// details; a text that is not JSON gives no models.
pub fn models_from_config(content: &str) -> (r: Vec<ModelEntry>)
    ensures
        r@.map_values(|e: ModelEntry| e.value) == config_models(content@),
        forall|k: int| 0 <= k < r@.len() ==> entry_id_ok(#[trigger] r@[k]),
{
    let mut out: Vec<ModelEntry> = Vec::new();
    proof {
        assert(out@.map_values(|e: ModelEntry| e.value) =~= Seq::<serde_json::Value>::empty());
    }
    let config = match parse_json(content) {
        Some(c) => c,
        None => return out,
    };
    let providers = match json_get(&config, "providers") {
        Some(p) => p,
        None => return out,
    };
    let entries = match json_members(providers) {
        Some(es) => es,
        None => return out,
    };
    let ghost es = entries@.map_values(|e: (String, serde_json::Value)| (e.0@, e.1));
    let mut i: usize = 0;
    while i < entries.len()
        invariant
            i <= entries@.len(),
            es == entries@.map_values(|e: (String, serde_json::Value)| (e.0@, e.1)),
            config_models(content@) == provider_models(es),
            out@.map_values(|e: ModelEntry| e.value) == provider_models(es.take(i as int)),
            forall|k: int| 0 <= k < out@.len() ==> entry_id_ok(#[trigger] out@[k]),
        decreases entries.len() - i,
    {
        let name = entries[i].0.as_str();
        let cfg = &entries[i].1;
        let api = opt_to_str(json_get(cfg, "api"));
        let base_url = opt_to_str(json_get(cfg, "baseUrl"));
        let api_key = opt_to_str(json_get(cfg, "apiKey"));
        let ghost before = out@.map_values(|e: ModelEntry| e.value);
        let ghost here = provider_entry_models(name@, *cfg);
        let models = match json_get(cfg, "models") {
            Some(ms) => json_elements(ms),
            None => None,
        };
        let mut rest = match models {
            Some(a) => a,
            None => Vec::new(),
        };
        let ghost all = rest@;
        proof {
            assert(here =~= all.map_values(
                |m: serde_json::Value| enriched_model(m, name@, opt_str(api), opt_str(base_url), opt_str(api_key)),
            ));
        }
        let mut j: usize = 0;
        let total = rest.len();
        while rest.len() > 0
            invariant
                j <= all.len(),
                all.len() == total,
                rest@ == all.skip(j as int),
                here == all.map_values(
                    |m: serde_json::Value| enriched_model(m, name@, opt_str(api), opt_str(base_url), opt_str(api_key)),
                ),
                out@.map_values(|e: ModelEntry| e.value) == before + here.take(j as int),
                forall|k: int| 0 <= k < out@.len() ==> entry_id_ok(#[trigger] out@[k]),
            decreases rest.len(),
        {
            let m = rest.remove(0);
            assert(m == all[j as int]);
            assert(rest@ =~= all.skip(j + 1));
            let e = model_entry(enrich_model(m, name, api, base_url, api_key));
            let ghost prev = out@;
            out.push(e);
            proof {
                assert(out@.map_values(|e: ModelEntry| e.value) =~= prev.map_values(|e: ModelEntry| e.value).push(
                    e.value,
                ));
                assert(here.take(j + 1) =~= here.take(j as int).push(here[j as int]));
                assert forall|k: int| 0 <= k < out@.len() implies entry_id_ok(#[trigger] out@[k]) by {
                    if k < prev.len() {
                        assert(out@[k] == prev[k]);
                    }
                }
            }
            j += 1;
        }
        proof {
            assert(j == all.len());
            assert(here.take(j as int) =~= here);
            assert(es.take(i + 1).drop_last() =~= es.take(i as int));
            assert(es.take(i + 1).last() == es[i as int]);
            assert(es[i as int] == (name@, *cfg));
        }
        i += 1;
    }
    proof {
        assert(es.take(entries@.len() as int) =~= es);
    }
    out
}

// ---------------------------------------------------------------------------
// Model lists Pi reports
// ---------------------------------------------------------------------------

/// The elements of a JSON array; nothing for any other value.
pub open spec fn array_or_empty(v: serde_json::Value) -> Seq<serde_json::Value> {
    match json_array(v) {
        Some(a) => a,
        None => Seq::empty(),
    }
}

/// The models of a Pi response's data: its `models` member where it has
/// one, else the data itself, as a JSON array; nothing without data.
pub open spec fn response_models(data: Option<serde_json::Value>) -> Seq<serde_json::Value> {
    match data {
        Some(d) => match json_field(d, "models"@) {
            Some(inner) => array_or_empty(inner),
            None => array_or_empty(d),
        },
        None => Seq::empty(),
    }
}

/// The entries of a JSON model list: one per element of an array, each
/// with its string `id`; anything but an array is no models.
pub fn entries_of(value: &serde_json::Value) -> (r: Vec<ModelEntry>)
    ensures
        r@.map_values(|e: ModelEntry| e.value) == array_or_empty(*value),
        forall|k: int| 0 <= k < r@.len() ==> entry_id_ok(#[trigger] r@[k]),
{
    let mut out: Vec<ModelEntry> = Vec::new();
    let mut rest = match json_elements(value) {
        Some(a) => a,
        None => {
            assert(out@.map_values(|e: ModelEntry| e.value) =~= array_or_empty(*value));
            return out;
        },
    };
    let ghost all = rest@;
    let total = rest.len();
    let mut j: usize = 0;
    while rest.len() > 0
        invariant
            all == array_or_empty(*value),
            all.len() == total,
            j <= all.len(),
            rest@ == all.skip(j as int),
            out@.map_values(|e: ModelEntry| e.value) == all.take(j as int),
            forall|k: int| 0 <= k < out@.len() ==> entry_id_ok(#[trigger] out@[k]),
        decreases rest.len(),
    {
        let m = rest.remove(0);
        assert(m == all[j as int]);
        assert(rest@ =~= all.skip(j + 1));
        let ghost prev = out@;
        out.push(model_entry(m));
        proof {
            assert(out@.map_values(|e: ModelEntry| e.value) =~= prev.map_values(|e: ModelEntry| e.value).push(
                all[j as int],
            ));
            assert(all.take(j + 1) =~= all.take(j as int).push(all[j as int]));
            assert forall|k: int| 0 <= k < out@.len() implies entry_id_ok(#[trigger] out@[k]) by {
                if k < prev.len() {
                    assert(out@[k] == prev[k]);
                }
            }
        }
        j += 1;
    }
    assert(all.take(j as int) =~= all);
    out
}

/// The models of a Pi response's data: its `models` member, or the data
/// itself when it has none.
pub fn models_from_response(data: Option<serde_json::Value>) -> (r: Vec<ModelEntry>)
    ensures
        r@.map_values(|e: ModelEntry| e.value) == response_models(data),
        forall|k: int| 0 <= k < r@.len() ==> entry_id_ok(#[trigger] r@[k]),
{
    match data {
        Some(d) => match json_get(&d, "models") {
            Some(inner) => entries_of(inner),
            None => entries_of(&d),
        },
        None => {
            let out: Vec<ModelEntry> = Vec::new();
            assert(out@.map_values(|e: ModelEntry| e.value) =~= Seq::<serde_json::Value>::empty());
            out
        },
    }
}

/// A model list back as a JSON array, in order.
pub fn models_value(models: Vec<ModelEntry>) -> (r: serde_json::Value)
    ensures
        json_array(r) == Some(models@.map_values(|e: ModelEntry| e.value)),
{
    let ghost want = models@.map_values(|e: ModelEntry| e.value);
    let mut rest = models;
    let mut values: Vec<serde_json::Value> = Vec::new();
    let total = rest.len();
    let mut j: usize = 0;
    while rest.len() > 0
        invariant
            want.len() == total,
            j <= want.len(),
            rest@.map_values(|e: ModelEntry| e.value) == want.skip(j as int),
            rest@.len() == want.len() - j,
            values@ == want.take(j as int),
        decreases rest.len(),
    {
        let ghost before = rest@;
        let e = rest.remove(0);
        assert(e.value == before.map_values(|e: ModelEntry| e.value)[0]);
        assert(rest@.map_values(|e: ModelEntry| e.value) =~= before.map_values(|e: ModelEntry| e.value).skip(1));
        assert(want.skip(j as int).skip(1) =~= want.skip(j + 1));
        assert(want.take(j + 1) =~= want.take(j as int).push(want[j as int]));
        values.push(e.value);
        j += 1;
    }
    assert(want.take(j as int) =~= want);
    json_array_value(values)
}

} // verus!
