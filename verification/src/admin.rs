//! Administration: statistics, the eavs provider configuration (a TOML
//! file and an env file, edited as text), and the per-user configuration
//! sync.
use vstd::prelude::*;
use vstd::utf8::encode_utf8;
use vstd::string::StringSliceAdditionalSpecFns;
use crate::num::{decimal, decimal_string};
use crate::text::{
    chars_of, ends_with, is_alphanumeric, line_bounds, lines, push_char, push_str, range_eq,
    range_starts_with, starts_with, str_eq, str_starts_with, to_owned_string, to_uppercase, trim,
    trim_bounds, trim_end, trim_str, unicode_alphanumeric, uppercase,
};

verus! {

// ---------------------------------------------------------------------------
// Responses
// ---------------------------------------------------------------------------

/// Admin stats response for status bar.
#[derive(Debug, Clone)]
pub struct AdminStatsResponse {
    pub total_users: i64,
    pub active_users: i64,
    pub total_sessions: i64,
    pub running_sessions: i64,
}

/// How many orphan local sessions a cleanup cleared.
#[derive(Debug, Clone)]
pub struct LocalCleanupResponse {
    pub cleared: usize,
}

/// Which users to sync: one, or all where absent.
#[derive(Debug, Clone)]
pub struct SyncUserConfigsRequest {
    pub user_id: Option<String>,
}

/// What the configuration sync did for one user.
#[derive(Debug, Clone)]
pub struct SyncUserConfigResult {
    pub user_id: String,
    pub linux_username: Option<String>,
    pub runner_configured: bool,
    pub shell_configured: bool,
    pub mmry_configured: bool,
    pub eavs_configured: bool,
    pub error: Option<String>,
}

/// What the configuration sync did, user by user.
#[derive(Debug, Clone)]
pub struct SyncUserConfigsResponse {
    pub results: Vec<SyncUserConfigResult>,
}

/// The providers configured in eavs.
#[derive(Debug, Clone)]
pub struct EavsProvidersResponse {
    pub providers: Vec<EavsProviderSummary>,
    pub eavs_url: String,
}

/// One eavs provider and its models.
#[derive(Debug, Clone)]
pub struct EavsProviderSummary {
    pub name: String,
    pub type_: String,
    pub pi_api: Option<String>,
    pub has_api_key: bool,
    pub model_count: usize,
    pub models: Vec<EavsModelSummary>,
}

/// One model of an eavs provider.
#[derive(Debug, Clone)]
pub struct EavsModelSummary {
    pub id: String,
    pub name: String,
    pub reasoning: bool,
}

/// A model catalog lookup.
#[derive(Debug, Clone)]
pub struct CatalogLookupQuery {
    pub model_id: String,
    pub provider: Option<String>,
}

// ---------------------------------------------------------------------------
// Statistics
// ---------------------------------------------------------------------------

/// A session as the statistics see it: its owner and whether it runs.
#[derive(Debug, Clone)]
pub struct SessionBrief {
    pub user_id: String,
    pub running: bool,
}

/// The owners of the running sessions among `sessions`.
pub open spec fn running_owners(sessions: Seq<SessionBrief>) -> Set<Seq<char>> {
    Set::new(|u: Seq<char>| exists|i: int| 0 <= i < sessions.len() && (#[trigger] sessions[i]).running && sessions[i].user_id@ == u)
}

/// The number of running sessions among `sessions`.
pub open spec fn running_count(sessions: Seq<SessionBrief>) -> nat
    decreases sessions.len(),
{
    if sessions.len() == 0 {
        0
    } else {
        running_count(sessions.drop_last()) + if sessions.last().running {
            1nat
        } else {
            0nat
        }
    }
}

proof fn lemma_running_count_bound(sessions: Seq<SessionBrief>)
    ensures
        running_count(sessions) <= sessions.len(),
    decreases sessions.len(),
{
    if sessions.len() > 0 {
        lemma_running_count_bound(sessions.drop_last());
    }
}

/// The status bar statistics: all sessions, the running ones, and the
/// number of distinct users with a running session.
pub fn admin_stats(total_users: i64, sessions: &Vec<SessionBrief>) -> (r: AdminStatsResponse)
    requires
        sessions@.len() <= i64::MAX,
    ensures
        r.total_users == total_users,
        r.total_sessions == sessions@.len(),
        r.running_sessions == running_count(sessions@),
        r.active_users == running_owners(sessions@).len(),
{
    let mut running: i64 = 0;
    let mut owners: Vec<String> = Vec::new();
    let mut i: usize = 0;
    while i < sessions.len()
        invariant
            0 <= i <= sessions@.len(),
            sessions@.len() <= i64::MAX,
            running == running_count(sessions@.take(i as int)),
            running_count(sessions@.take(i as int)) <= i,
            owners@.len() <= i,
            owners@.map_values(|s: String| s@).no_duplicates(),
            owners@.map_values(|s: String| s@).to_set() == running_owners(sessions@.take(i as int)),
        decreases sessions.len() - i,
    {
        let s = &sessions[i];
        let ghost before = owners@.map_values(|s: String| s@);
        proof {
            let t = sessions@.take(i + 1);
            assert(t.drop_last() =~= sessions@.take(i as int));
            assert(t.last() == sessions@[i as int]);
        }
        if s.running {
            running = running + 1;
            let mut seen = false;
            let mut j: usize = 0;
            while j < owners.len()
                invariant
                    0 <= j <= owners@.len(),
                    seen == exists|k: int| 0 <= k < j && (#[trigger] owners@[k])@ == s.user_id@,
                decreases owners.len() - j,
            {
                if str_eq(owners[j].as_str(), s.user_id.as_str()) {
                    seen = true;
                }
                j += 1;
            }
            if !seen {
                owners.push(to_owned_string(s.user_id.as_str()));
                proof {
                    let after = owners@.map_values(|s: String| s@);
                    assert(after =~= before.push(s.user_id@));
                    assert forall|k: int| 0 <= k < before.len() implies before[k] != s.user_id@ by {
                        assert(before[k] == owners@[k]@);
                    }
                }
            }
            proof {
                let t = sessions@.take(i + 1);
                let after = owners@.map_values(|s: String| s@);
                assert(after.to_set() =~= running_owners(t)) by {
                    assert forall|u: Seq<char>| after.to_set().contains(u) implies running_owners(t).contains(u) by {
                        let k = choose|k: int| 0 <= k < after.len() && after[k] == u;
                        if k < before.len() {
                            assert(before.to_set().contains(u));
                            let w = choose|w: int| 0 <= w < i && (#[trigger] sessions@.take(i as int)[w]).running && sessions@.take(i as int)[w].user_id@ == u;
                            assert(t[w] == sessions@.take(i as int)[w]);
                        } else {
                            assert(t[i as int] == sessions@[i as int]);
                        }
                    }
                    assert forall|u: Seq<char>| running_owners(t).contains(u) implies after.to_set().contains(u) by {
                        let w = choose|w: int| 0 <= w < t.len() && (#[trigger] t[w]).running && t[w].user_id@ == u;
                        if w < i {
                            assert(sessions@.take(i as int)[w] == t[w]);
                            assert(running_owners(sessions@.take(i as int)).contains(u));
                            assert(before.to_set().contains(u));
                            let k = choose|k: int| 0 <= k < before.len() && before[k] == u;
                            assert(after[k] == u);
                        } else if seen {
                            let k = choose|k: int| 0 <= k < owners@.len() && (#[trigger] owners@[k])@ == s.user_id@;
                            assert(after[k] == u);
                        } else {
                            assert(after[after.len() - 1] == u);
                        }
                    }
                }
            }
        } else {
            proof {
                let t = sessions@.take(i + 1);
                assert(running_owners(t) =~= running_owners(sessions@.take(i as int))) by {
                    assert forall|u: Seq<char>| running_owners(t).contains(u) implies running_owners(sessions@.take(i as int)).contains(u) by {
                        let w = choose|w: int| 0 <= w < t.len() && (#[trigger] t[w]).running && t[w].user_id@ == u;
                        assert(sessions@.take(i as int)[w] == t[w]);
                    }
                    assert forall|u: Seq<char>| running_owners(sessions@.take(i as int)).contains(u) implies running_owners(t).contains(u) by {
                        let w = choose|w: int| 0 <= w < i && (#[trigger] sessions@.take(i as int)[w]).running && sessions@.take(i as int)[w].user_id@ == u;
                        assert(t[w] == sessions@.take(i as int)[w]);
                    }
                }
            }
        }
        i += 1;
    }
    proof {
        assert(sessions@.take(sessions@.len() as int) =~= sessions@);
        owners@.map_values(|s: String| s@).unique_seq_to_set();
    }
    AdminStatsResponse {
        total_users,
        active_users: owners.len() as i64,
        total_sessions: sessions.len() as i64,
        running_sessions: running,
    }
}

// ---------------------------------------------------------------------------
// Editing the eavs TOML configuration
// ---------------------------------------------------------------------------

/// Lines joined back, each ended by `\n`.
pub open spec fn join_lines(ls: Seq<Seq<char>>) -> Seq<char>
    decreases ls.len(),
{
    if ls.len() == 0 {
        Seq::<char>::empty()
    } else {
        join_lines(ls.drop_last()) + ls.last() + seq!['\n']
    }
}

/// `[section]`.
pub open spec fn section_header(section: Seq<char>) -> Seq<char> {
    seq!['['] + section + seq![']']
}

/// `[[section.`, the start of the section's array tables.
pub open spec fn section_array_prefix(section: Seq<char>) -> Seq<char> {
    seq!['[', '['] + section + seq!['.']
}

/// The lines kept when `[section]` and its array tables are removed, and
/// whether the last line was inside the removed block. A line, trimmed,
/// that is the header or starts an array table of the section opens the
/// block; any other table header closes it.
pub open spec fn kept_outside_section(ls: Seq<Seq<char>>, section: Seq<char>) -> (Seq<Seq<char>>, bool)
    decreases ls.len(),
{
    if ls.len() == 0 {
        (Seq::empty(), false)
    } else {
        let (kept, skipping) = kept_outside_section(ls.drop_last(), section);
        let l = ls.last();
        let t = trim(l);
        if t == section_header(section) || starts_with(t, section_array_prefix(section)) {
            (kept, true)
        } else if skipping && !(starts_with(t, seq!['[']) && !starts_with(t, section_array_prefix(section))) {
            (kept, true)
        } else {
            (kept.push(l), false)
        }
    }
}

/// Remove a `[section]` block, and the `[[section.*]]` tables, from a TOML
/// string: from the header until the next other table header or the end.
pub fn remove_toml_section(content: &str, section: &str) -> (res: String)
    ensures
        res@ == join_lines(kept_outside_section(lines(content@), section@).0),
{
    let v = chars_of(content);
    let ls = line_bounds(&v);
    let mut header_s = to_owned_string("[");
    push_str(&mut header_s, section);
    push_char(&mut header_s, ']');
    let header = chars_of(header_s.as_str());
    let mut prefix_s = to_owned_string("[[");
    push_str(&mut prefix_s, section);
    push_char(&mut prefix_s, '.');
    let prefix = chars_of(prefix_s.as_str());
    let open_bracket = chars_of("[");
    proof {
        reveal_strlit("[");
        reveal_strlit("[[");
        assert(header@ =~= section_header(section@));
        assert(prefix@ =~= section_array_prefix(section@));
        assert(open_bracket@ =~= seq!['[']);
    }
    let ghost all = lines(v@);
    let mut result = String::new();
    let mut skipping = false;
    let mut k: usize = 0;
    while k < ls.len()
        invariant
            all == lines(v@),
            v@ == content@,
            ls@.len() == all.len(),
            header@ == section_header(section@),
            prefix@ == section_array_prefix(section@),
            open_bracket@ == seq!['['],
            forall|j: int|
                0 <= j < ls@.len() ==> {
                    &&& (#[trigger] ls@[j]).0 <= ls@[j].1 <= v@.len()
                    &&& v@.subrange(ls@[j].0 as int, ls@[j].1 as int) == all[j]
                },
            0 <= k <= ls@.len(),
            result@ == join_lines(kept_outside_section(all.take(k as int), section@).0),
            skipping == kept_outside_section(all.take(k as int), section@).1,
        decreases ls.len() - k,
    {
        let (a, b) = ls[k];
        let (ta, tb) = trim_bounds(&v, a, b);
        let ghost l = all[k as int];
        proof {
            let t = all.take(k + 1);
            assert(t.drop_last() =~= all.take(k as int));
            assert(t.last() == l);
        }
        if range_eq(&v, ta, tb, &header) || range_starts_with(&v, ta, tb, &prefix) {
            skipping = true;
        } else if skipping && !(range_starts_with(&v, ta, tb, &open_bracket) && !range_starts_with(
            &v,
            ta,
            tb,
            &prefix,
        )) {
            skipping = true;
        } else {
            let mut i = a;
            while i < b
                invariant
                    a <= i <= b <= v@.len(),
                    result@ == join_lines(kept_outside_section(all.take(k as int), section@).0)
                        + v@.subrange(a as int, i as int),
                decreases b - i,
            {
                push_char(&mut result, v[i]);
                assert(v@.subrange(a as int, i + 1) =~= v@.subrange(a as int, i as int).push(v@[i as int]));
                i += 1;
            }
            push_char(&mut result, '\n');
            skipping = false;
            proof {
                let kept = kept_outside_section(all.take(k as int), section@).0;
                assert(join_lines(kept.push(l)) == join_lines(kept) + l + seq!['\n']) by {
                    assert(kept.push(l).drop_last() =~= kept);
                }
            }
        }
        k += 1;
    }
    assert(all.take(all.len() as int) =~= all);
    result
}

/// Every kept line is outside the section: none of them, trimmed, is the
/// section's header or starts one of its array tables.
pub proof fn law_section_removed(ls: Seq<Seq<char>>, section: Seq<char>)
    ensures
        forall|i: int|
            0 <= i < kept_outside_section(ls, section).0.len() ==> {
                let t = trim(#[trigger] kept_outside_section(ls, section).0[i]);
                t != section_header(section) && !starts_with(t, section_array_prefix(section))
            },
    decreases ls.len(),
{
    if ls.len() > 0 {
        law_section_removed(ls.drop_last(), section);
        let prev = kept_outside_section(ls.drop_last(), section).0;
        let cur = kept_outside_section(ls, section).0;
        assert forall|i: int| 0 <= i < cur.len() implies {
            let t = trim(#[trigger] cur[i]);
            t != section_header(section) && !starts_with(t, section_array_prefix(section))
        } by {
            if i < prev.len() {
                assert(cur[i] == prev[i]);
            }
        }
    }
}

/// `[[name]]`.
pub open spec fn array_header(name: Seq<char>) -> Seq<char> {
    seq!['[', '['] + name + seq![']', ']']
}

/// The lines kept when the `[[name]]` tables are removed: a line, trimmed,
/// that is the header opens a removed table, and any table header closes it.
pub open spec fn kept_outside_array(ls: Seq<Seq<char>>, name: Seq<char>) -> (Seq<Seq<char>>, bool)
    decreases ls.len(),
{
    if ls.len() == 0 {
        (Seq::empty(), false)
    } else {
        let (kept, skipping) = kept_outside_array(ls.drop_last(), name);
        let l = ls.last();
        let t = trim(l);
        if t == array_header(name) {
            (kept, true)
        } else if skipping && !starts_with(t, seq!['[']) {
            (kept, true)
        } else {
            (kept.push(l), false)
        }
    }
}

/// Remove leftover TOML array-of-table entries (`[[name]]`) that might
/// survive a section removal (e.g., `[[providers.NAME.models]]`).
pub fn remove_toml_array_entries(content: &str, array_name: &str) -> (res: String)
    ensures
        res@ == join_lines(kept_outside_array(lines(content@), array_name@).0),
{
    let v = chars_of(content);
    let ls = line_bounds(&v);
    let mut header_s = to_owned_string("[[");
    push_str(&mut header_s, array_name);
    push_str(&mut header_s, "]]");
    let header = chars_of(header_s.as_str());
    let open_bracket = chars_of("[");
    proof {
        reveal_strlit("[");
        reveal_strlit("[[");
        reveal_strlit("]]");
        assert(header@ =~= array_header(array_name@));
        assert(open_bracket@ =~= seq!['[']);
    }
    let ghost all = lines(v@);
    let mut result = String::new();
    let mut skipping = false;
    let mut k: usize = 0;
    while k < ls.len()
        invariant
            all == lines(v@),
            v@ == content@,
            ls@.len() == all.len(),
            header@ == array_header(array_name@),
            open_bracket@ == seq!['['],
            forall|j: int|
                0 <= j < ls@.len() ==> {
                    &&& (#[trigger] ls@[j]).0 <= ls@[j].1 <= v@.len()
                    &&& v@.subrange(ls@[j].0 as int, ls@[j].1 as int) == all[j]
                },
            0 <= k <= ls@.len(),
            result@ == join_lines(kept_outside_array(all.take(k as int), array_name@).0),
            skipping == kept_outside_array(all.take(k as int), array_name@).1,
        decreases ls.len() - k,
    {
        let (a, b) = ls[k];
        let (ta, tb) = trim_bounds(&v, a, b);
        let ghost l = all[k as int];
        proof {
            let t = all.take(k + 1);
            assert(t.drop_last() =~= all.take(k as int));
            assert(t.last() == l);
        }
        if range_eq(&v, ta, tb, &header) {
            skipping = true;
        } else if skipping && !range_starts_with(&v, ta, tb, &open_bracket) {
            skipping = true;
        } else {
            let mut i = a;
            while i < b
                invariant
                    a <= i <= b <= v@.len(),
                    result@ == join_lines(kept_outside_array(all.take(k as int), array_name@).0)
                        + v@.subrange(a as int, i as int),
                decreases b - i,
            {
                push_char(&mut result, v[i]);
                assert(v@.subrange(a as int, i + 1) =~= v@.subrange(a as int, i as int).push(v@[i as int]));
                i += 1;
            }
            push_char(&mut result, '\n');
            skipping = false;
            proof {
                let kept = kept_outside_array(all.take(k as int), array_name@).0;
                assert(join_lines(kept.push(l)) == join_lines(kept) + l + seq!['\n']) by {
                    assert(kept.push(l).drop_last() =~= kept);
                }
            }
        }
        k += 1;
    }
    assert(all.take(all.len() as int) =~= all);
    result
}

/// No kept line, trimmed, is a `[[name]]` header.
pub proof fn law_array_entries_removed(ls: Seq<Seq<char>>, name: Seq<char>)
    ensures
        forall|i: int|
            0 <= i < kept_outside_array(ls, name).0.len() ==> trim(
                #[trigger] kept_outside_array(ls, name).0[i],
            ) != array_header(name),
    decreases ls.len(),
{
    if ls.len() > 0 {
        law_array_entries_removed(ls.drop_last(), name);
        let prev = kept_outside_array(ls.drop_last(), name).0;
        let cur = kept_outside_array(ls, name).0;
        assert forall|i: int| 0 <= i < cur.len() implies trim(#[trigger] cur[i]) != array_header(name) by {
            if i < prev.len() {
                assert(cur[i] == prev[i]);
            }
        }
    }
}


// ---------------------------------------------------------------------------
// Adding and deleting eavs providers
// ---------------------------------------------------------------------------

/// Why a provider change is refused.
#[derive(Debug, Clone, Copy, PartialEq, Eq, Structural)]
pub enum ProviderError {
    /// Provider name must be alphanumeric with - or _.
    InvalidName,
}

/// A character allowed in a provider name.
pub open spec fn provider_name_char(c: char) -> bool {
    unicode_alphanumeric(c) || c == '_' || c == '-'
}

/// Check a provider name: not empty, alphanumeric with `-` or `_`.
pub fn validate_provider_name(name: &str) -> (r: Result<(), ProviderError>)
    ensures
        r is Ok <==> (name@.len() > 0 && forall|i: int|
            0 <= i < name@.len() ==> provider_name_char(#[trigger] name@[i])),
        r is Err ==> r == Err::<(), _>(ProviderError::InvalidName),
{
    let v = chars_of(name);
    if v.len() == 0 {
        return Err(ProviderError::InvalidName);
    }
    let mut i: usize = 0;
    while i < v.len()
        invariant
            v@ == name@,
            0 <= i <= v@.len(),
            forall|j: int| 0 <= j < i ==> provider_name_char(#[trigger] v@[j]),
        decreases v.len() - i,
    {
        let c = v[i];
        if !(is_alphanumeric(c) || c == '_' || c == '-') {
            return Err(ProviderError::InvalidName);
        }
        i += 1;
    }
    Ok(())
}

/// `-` turned into `_`.
pub open spec fn hyphens_to_underscores(s: Seq<char>) -> Seq<char> {
    s.map_values(|c: char| if c == '-' { '_' } else { c })
}

/// The env variable that holds a provider's API key: the name in Unicode
/// uppercase, `-` as `_`, then `_API_KEY`.
pub open spec fn env_key_name_of(provider: Seq<char>) -> Seq<char> {
    hyphens_to_underscores(uppercase(provider)) + "_API_KEY"@
}

/// The env variable that holds a provider's API key.
pub fn env_key_name(provider: &str) -> (r: String)
    ensures
        r@ == env_key_name_of(provider@),
{
    let up = to_uppercase(provider);
    let v = chars_of(up.as_str());
    let mut r = String::new();
    let mut i: usize = 0;
    while i < v.len()
        invariant
            0 <= i <= v@.len(),
            r@ == hyphens_to_underscores(v@.take(i as int)),
        decreases v.len() - i,
    {
        let c = if v[i] == '-' {
            '_'
        } else {
            v[i]
        };
        push_char(&mut r, c);
        assert(hyphens_to_underscores(v@.take(i + 1)) =~= hyphens_to_underscores(v@.take(i as int)).push(c));
        i += 1;
    }
    assert(v@.take(v@.len() as int) =~= v@);
    push_str(&mut r, "_API_KEY");
    r
}

/// A model to list under a provider. The cost line and the compat entries
/// arrive as TOML text: the costs are floating-point numbers and the compat
/// flags JSON values, both written by the caller.
#[derive(Debug, Clone)]
pub struct ModelEntryText {
    pub id: String,
    pub name: String,
    pub reasoning: bool,
    pub input: Vec<String>,
    pub context_window: u64,
    pub max_tokens: u64,
    /// `cost = { ... }`, where any cost is above zero.
    pub cost_line: Option<String>,
    /// `key = value` for each compat flag.
    pub compat: Vec<String>,
}

/// A provider to add or replace.
#[derive(Debug, Clone)]
pub struct ProviderText {
    pub name: String,
    pub type_: String,
    pub api_key: Option<String>,
    pub base_url: Option<String>,
    pub api_version: Option<String>,
    pub deployment: Option<String>,
    pub models: Vec<ModelEntryText>,
}

/// `items` separated by `sep`.
pub open spec fn join_with(items: Seq<Seq<char>>, sep: Seq<char>) -> Seq<char>
    decreases items.len(),
{
    if items.len() == 0 {
        Seq::<char>::empty()
    } else if items.len() == 1 {
        items[0]
    } else {
        join_with(items.drop_last(), sep) + sep + items.last()
    }
}

/// `"s"`.
pub open spec fn quoted(s: Seq<char>) -> Seq<char> {
    seq!['"'] + s + seq!['"']
}

/// `true` or `false`.
pub open spec fn bool_text(b: bool) -> Seq<char> {
    if b {
        "true"@
    } else {
        "false"@
    }
}

/// `key = "value"` and a newline, where the value is given.
pub open spec fn opt_string_line(key: Seq<char>, value: Option<String>) -> Seq<char> {
    match value {
        Some(v) => key + " = "@ + quoted(v@) + seq!['\n'],
        None => Seq::<char>::empty(),
    }
}

/// The head of a model's table: id, name and reasoning.
pub open spec fn model_head(provider: Seq<char>, m: ModelEntryText) -> Seq<char> {
    "\n[[providers."@ + provider + ".models]]\nid = "@ + quoted(m.id@) + "\nname = "@ + quoted(
        m.name@,
    ) + "\nreasoning = "@ + bool_text(m.reasoning) + seq!['\n']
}

/// `input = ["a", "b"]`, where the model has input modalities.
pub open spec fn model_input(m: ModelEntryText) -> Seq<char> {
    if m.input@.len() > 0 {
        "input = ["@ + join_with(m.input@.map_values(|s: String| quoted(s@)), ", "@) + "]\n"@
    } else {
        Seq::<char>::empty()
    }
}

/// `key = n`, where `n` is above zero.
pub open spec fn count_line(key: Seq<char>, n: u64) -> Seq<char> {
    if n > 0 {
        key + " = "@ + decimal(n as nat) + seq!['\n']
    } else {
        Seq::<char>::empty()
    }
}

/// The cost line, where there is one.
pub open spec fn model_cost(m: ModelEntryText) -> Seq<char> {
    match m.cost_line {
        Some(c) => c@ + seq!['\n'],
        None => Seq::<char>::empty(),
    }
}

/// `compat = { ... }`, where the model has compat flags.
pub open spec fn model_compat(m: ModelEntryText) -> Seq<char> {
    if m.compat@.len() > 0 {
        "compat = { "@ + join_with(m.compat@.map_values(|s: String| s@), ", "@) + " }\n"@
    } else {
        Seq::<char>::empty()
    }
}

/// The TOML of one model of a provider.
pub open spec fn model_toml(provider: Seq<char>, m: ModelEntryText) -> Seq<char> {
    model_head(provider, m) + model_input(m) + count_line("context_window"@, m.context_window)
        + count_line("max_tokens"@, m.max_tokens) + model_cost(m) + model_compat(m)
}

/// The TOML of the models, in order.
pub open spec fn models_toml(provider: Seq<char>, ms: Seq<ModelEntryText>) -> Seq<char>
    decreases ms.len(),
{
    if ms.len() == 0 {
        Seq::<char>::empty()
    } else {
        models_toml(provider, ms.drop_last()) + model_toml(provider, ms.last())
    }
}

/// The TOML section of a provider: its table, the key reference, the
/// optional settings, and one array table per model.
pub open spec fn provider_toml(p: ProviderText) -> Seq<char> {
    "\n[providers."@ + p.name@ + "]\ntype = "@ + quoted(p.type_@) + seq!['\n'] + (if p.api_key is Some {
        "api_key = \"env:"@ + env_key_name_of(p.name@) + "\"\n"@
    } else {
        Seq::<char>::empty()
    }) + opt_string_line("base_url"@, p.base_url) + opt_string_line("api_version"@, p.api_version)
        + opt_string_line("deployment"@, p.deployment) + models_toml(p.name@, p.models@)
}

fn push_quoted(s: &mut String, v: &str)
    ensures
        final(s)@ == old(s)@ + quoted(v@),
{
    push_char(s, '"');
    push_str(s, v);
    push_char(s, '"');
}

fn push_opt_line(s: &mut String, key: &str, value: &Option<String>)
    ensures
        final(s)@ == old(s)@ + opt_string_line(key@, *value),
{
    if let Some(v) = value {
        push_str(s, key);
        push_str(s, " = ");
        push_quoted(s, v.as_str());
        push_char(s, '\n');
    }
}

fn push_joined(s: &mut String, items: &Vec<String>, quote: bool)
    ensures
        quote ==> final(s)@ == old(s)@ + join_with(items@.map_values(|x: String| quoted(x@)), ", "@),
        !quote ==> final(s)@ == old(s)@ + join_with(items@.map_values(|x: String| x@), ", "@),
{
    let ghost start = s@;
    let ghost texts = if quote {
        items@.map_values(|x: String| quoted(x@))
    } else {
        items@.map_values(|x: String| x@)
    };
    let mut i: usize = 0;
    while i < items.len()
        invariant
            0 <= i <= items@.len(),
            texts == (if quote {
                items@.map_values(|x: String| quoted(x@))
            } else {
                items@.map_values(|x: String| x@)
            }),
            s@ == start + join_with(texts.take(i as int), ", "@),
        decreases items.len() - i,
    {
        let ghost prev = s@;
        if i > 0 {
            push_str(s, ", ");
        }
        if quote {
            push_quoted(s, items[i].as_str());
        } else {
            push_str(s, items[i].as_str());
        }
        proof {
            let t = texts.take(i + 1);
            assert(t.drop_last() =~= texts.take(i as int));
            assert(t.last() == texts[i as int]);
            if i == 0 {
                assert(t.len() == 1);
                assert(join_with(t, ", "@) == t[0]);
                assert(texts.take(0) =~= Seq::<Seq<char>>::empty());
            }
        }
        i += 1;
    }
    assert(texts.take(items@.len() as int) =~= texts);
}

fn push_model_head(s: &mut String, provider: &str, m: &ModelEntryText)
    ensures
        final(s)@ == old(s)@ + model_head(provider@, *m),
{
    let ghost start = s@;
    push_str(s, "\n[[providers.");
    push_str(s, provider);
    push_str(s, ".models]]\nid = ");
    push_quoted(s, m.id.as_str());
    push_str(s, "\nname = ");
    push_quoted(s, m.name.as_str());
    push_str(s, "\nreasoning = ");
    if m.reasoning {
        push_str(s, "true");
    } else {
        push_str(s, "false");
    }
    push_char(s, '\n');
    assert(s@ =~= start + model_head(provider@, *m));
}

fn push_count_line(s: &mut String, key: &str, n: u64)
    ensures
        final(s)@ == old(s)@ + count_line(key@, n),
{
    if n > 0 {
        let ghost start = s@;
        push_str(s, key);
        push_str(s, " = ");
        let d = decimal_string(n);
        push_str(s, d.as_str());
        push_char(s, '\n');
        assert(s@ =~= start + count_line(key@, n));
    }
}

fn push_model_input(s: &mut String, m: &ModelEntryText)
    ensures
        final(s)@ == old(s)@ + model_input(*m),
{
    let ghost a = s@;
    if m.input.len() > 0 {
        push_str(s, "input = [");
        push_joined(s, &m.input, true);
        push_str(s, "]\n");
    }
    assert(s@ =~= a + model_input(*m));
}

fn push_model_cost(s: &mut String, m: &ModelEntryText)
    ensures
        final(s)@ == old(s)@ + model_cost(*m),
{
    let ghost c = s@;
    if let Some(cl) = &m.cost_line {
        push_str(s, cl.as_str());
        push_char(s, '\n');
    }
    assert(s@ =~= c + model_cost(*m));
}

fn push_model_compat(s: &mut String, m: &ModelEntryText)
    ensures
        final(s)@ == old(s)@ + model_compat(*m),
{
    let ghost d = s@;
    if m.compat.len() > 0 {
        push_str(s, "compat = { ");
        push_joined(s, &m.compat, false);
        push_str(s, " }\n");
    }
    assert(s@ =~= d + model_compat(*m));
}

fn push_model(s: &mut String, provider: &str, m: &ModelEntryText)
    ensures
        final(s)@ == old(s)@ + model_toml(provider@, *m),
{
    let ghost start = s@;
    push_model_head(s, provider, m);
    push_model_input(s, m);
    push_count_line(s, "context_window", m.context_window);
    push_count_line(s, "max_tokens", m.max_tokens);
    push_model_cost(s, m);
    push_model_compat(s, m);
    proof {
        reveal_strlit("context_window");
        reveal_strlit("max_tokens");
    }
    assert(s@ =~= start + model_toml(provider@, *m));
}

/// Build the TOML section of a provider.
pub fn build_provider_toml(p: &ProviderText) -> (r: String)
    ensures
        r@ == provider_toml(*p),
{
    let mut s = to_owned_string("\n[providers.");
    push_str(&mut s, p.name.as_str());
    push_str(&mut s, "]\ntype = ");
    push_quoted(&mut s, p.type_.as_str());
    push_char(&mut s, '\n');
    if p.api_key.is_some() {
        let key = env_key_name(p.name.as_str());
        push_str(&mut s, "api_key = \"env:");
        push_str(&mut s, key.as_str());
        push_str(&mut s, "\"\n");
    }
    push_opt_line(&mut s, "base_url", &p.base_url);
    push_opt_line(&mut s, "api_version", &p.api_version);
    push_opt_line(&mut s, "deployment", &p.deployment);
    let ghost head = s@;
    let mut i: usize = 0;
    while i < p.models.len()
        invariant
            0 <= i <= p.models@.len(),
            s@ == head + models_toml(p.name@, p.models@.take(i as int)),
        decreases p.models.len() - i,
    {
        push_model(&mut s, p.name.as_str(), &p.models[i]);
        proof {
            let t = p.models@.take(i + 1);
            assert(t.drop_last() =~= p.models@.take(i as int));
            assert(t.last() == p.models@[i as int]);
        }
        i += 1;
    }
    proof {
        assert(p.models@.take(p.models@.len() as int) =~= p.models@);
        reveal_strlit("\n[providers.");
        assert(s@ =~= provider_toml(*p));
    }
    s
}

/// The configuration after adding or replacing a provider: the provider's
/// section and its model tables removed, trailing whitespace trimmed, a
/// newline, then the new section.
pub open spec fn upserted_config(config: Seq<char>, p: ProviderText) -> Seq<char> {
    let section = "providers."@ + p.name@;
    let without_section = join_lines(kept_outside_section(lines(config), section).0);
    let without_models = join_lines(
        kept_outside_array(lines(without_section), section + ".models"@).0,
    );
    trim_end(without_models) + seq!['\n'] + provider_toml(p)
}

/// The eavs configuration with a provider added or replaced.
pub fn upsert_provider_config(config: &str, p: &ProviderText) -> (r: String)
    ensures
        r@ == upserted_config(config@, *p),
{
    let mut section = to_owned_string("providers.");
    push_str(&mut section, p.name.as_str());
    let without_section = remove_toml_section(config, section.as_str());
    let mut models = to_owned_string(section.as_str());
    push_str(&mut models, ".models");
    let without_models = remove_toml_array_entries(without_section.as_str(), models.as_str());
    let v = chars_of(without_models.as_str());
    let mut end = v.len();
    assert(v@.take(v@.len() as int) =~= v@);
    while end > 0 && crate::text::is_whitespace(v[end - 1])
        invariant
            0 <= end <= v@.len(),
            trim_end(v@) == trim_end(v@.take(end as int)),
        decreases end,
    {
        assert(v@.take(end as int).drop_last() =~= v@.take(end - 1));
        end -= 1;
    }
    let mut r = crate::text::string_from_range(&v, 0, end);
    assert(v@.subrange(0, end as int) =~= v@.take(end as int));
    push_char(&mut r, '\n');
    let toml = build_provider_toml(p);
    push_str(&mut r, toml.as_str());
    r
}

/// The configuration after deleting a provider: its section removed.
pub fn delete_provider_config(config: &str, name: &str) -> (r: String)
    ensures
        r@ == join_lines(kept_outside_section(lines(config@), "providers."@ + name@).0),
{
    let mut section = to_owned_string("providers.");
    push_str(&mut section, name);
    remove_toml_section(config, section.as_str())
}

// ---------------------------------------------------------------------------
// The eavs env file
// ---------------------------------------------------------------------------

/// The lines that do not start with `prefix`, in order.
pub open spec fn lines_without_prefix(ls: Seq<Seq<char>>, prefix: Seq<char>) -> Seq<Seq<char>>
    decreases ls.len(),
{
    if ls.len() == 0 {
        ls
    } else if starts_with(ls.last(), prefix) {
        lines_without_prefix(ls.drop_last(), prefix)
    } else {
        lines_without_prefix(ls.drop_last(), prefix).push(ls.last())
    }
}

/// The env file without the lines that assign `key`, joined by `\n`.
pub open spec fn env_without_key(env: Seq<char>, key: Seq<char>) -> Seq<char> {
    join_with(lines_without_prefix(lines(env), key + seq!['=']), seq!['\n'])
}

fn env_lines_without(env: &str, key: &str) -> (r: String)
    ensures
        r@ == env_without_key(env@, key@),
{
    let v = chars_of(env);
    let ls = line_bounds(&v);
    let mut p = to_owned_string(key);
    push_char(&mut p, '=');
    let pv = chars_of(p.as_str());
    let ghost all = lines(v@);
    let ghost prefix = key@ + seq!['='];
    assert(pv@ =~= prefix);
    let mut r = String::new();
    let mut any = false;
    let mut k: usize = 0;
    while k < ls.len()
        invariant
            all == lines(v@),
            v@ == env@,
            pv@ == prefix,
            prefix == key@ + seq!['='],
            ls@.len() == all.len(),
            forall|j: int|
                0 <= j < ls@.len() ==> {
                    &&& (#[trigger] ls@[j]).0 <= ls@[j].1 <= v@.len()
                    &&& v@.subrange(ls@[j].0 as int, ls@[j].1 as int) == all[j]
                },
            0 <= k <= ls@.len(),
            any == (lines_without_prefix(all.take(k as int), prefix).len() > 0),
            r@ == join_with(lines_without_prefix(all.take(k as int), prefix), seq!['\n']),
        decreases ls.len() - k,
    {
        let (a, b) = ls[k];
        let ghost l = all[k as int];
        proof {
            let t = all.take(k + 1);
            assert(t.drop_last() =~= all.take(k as int));
            assert(t.last() == l);
        }
        if !range_starts_with(&v, a, b, &pv) {
            let ghost before = lines_without_prefix(all.take(k as int), prefix);
            if any {
                push_char(&mut r, '\n');
            }
            let mut i = a;
            let ghost mid = r@;
            while i < b
                invariant
                    a <= i <= b <= v@.len(),
                    r@ == mid + v@.subrange(a as int, i as int),
                decreases b - i,
            {
                push_char(&mut r, v[i]);
                assert(v@.subrange(a as int, i + 1) =~= v@.subrange(a as int, i as int).push(v@[i as int]));
                i += 1;
            }
            proof {
                let after = before.push(l);
                assert(after.drop_last() =~= before);
                if before.len() == 0 {
                    assert(after.len() == 1);
                    assert(join_with(after, seq!['\n']) == after[0]);
                }
            }
            any = true;
        }
        k += 1;
    }
    assert(all.take(all.len() as int) =~= all);
    r
}

/// The env file after storing a provider's key: the old assignment
/// dropped, a newline added where the rest does not end with one, then
/// `KEY=value`.
pub open spec fn env_with_key(env: Seq<char>, key: Seq<char>, value: Seq<char>) -> Seq<char> {
    let kept = env_without_key(env, key);
    (if kept.len() > 0 && kept.last() != '\n' {
        kept.push('\n')
    } else {
        kept
    }) + key + seq!['='] + value + seq!['\n']
}

/// Store a provider's API key in the env file's text.
pub fn set_env_key(env: &str, key: &str, value: &str) -> (r: String)
    ensures
        r@ == env_with_key(env@, key@, value@),
{
    let mut r = env_lines_without(env, key);
    let v = chars_of(r.as_str());
    if v.len() > 0 && v[v.len() - 1] != '\n' {
        push_char(&mut r, '\n');
    }
    push_str(&mut r, key);
    push_char(&mut r, '=');
    push_str(&mut r, value);
    push_char(&mut r, '\n');
    r
}

/// The env file after deleting a provider's key: the assignment dropped,
/// trailing whitespace trimmed, and one newline at the end.
pub fn remove_env_key(env: &str, key: &str) -> (r: String)
    ensures
        r@ == trim_end(env_without_key(env@, key@)) + seq!['\n'],
{
    let kept = env_lines_without(env, key);
    let v = chars_of(kept.as_str());
    let mut end = v.len();
    assert(v@.take(v@.len() as int) =~= v@);
    while end > 0 && crate::text::is_whitespace(v[end - 1])
        invariant
            0 <= end <= v@.len(),
            trim_end(v@) == trim_end(v@.take(end as int)),
        decreases end,
    {
        assert(v@.take(end as int).drop_last() =~= v@.take(end - 1));
        end -= 1;
    }
    let mut r = crate::text::string_from_range(&v, 0, end);
    assert(v@.subrange(0, end as int) =~= v@.take(end as int));
    push_char(&mut r, '\n');
    r
}

/// After a key is stored, the env file assigns it exactly once, in its
/// last line.
pub proof fn law_env_key_stored_once(env: Seq<char>, key: Seq<char>, value: Seq<char>)
    ensures
        ({
            let kept = lines_without_prefix(lines(env), key + seq!['=']);
            forall|i: int| 0 <= i < kept.len() ==> !starts_with(#[trigger] kept[i], key + seq!['='])
        }),
{
    lemma_lines_without_prefix(lines(env), key + seq!['=']);
}

proof fn lemma_lines_without_prefix(ls: Seq<Seq<char>>, prefix: Seq<char>)
    ensures
        forall|i: int|
            0 <= i < lines_without_prefix(ls, prefix).len() ==> !starts_with(
                #[trigger] lines_without_prefix(ls, prefix)[i],
                prefix,
            ),
    decreases ls.len(),
{
    if ls.len() > 0 {
        lemma_lines_without_prefix(ls.drop_last(), prefix);
        let prev = lines_without_prefix(ls.drop_last(), prefix);
        let cur = lines_without_prefix(ls, prefix);
        assert forall|i: int| 0 <= i < cur.len() implies !starts_with(#[trigger] cur[i], prefix) by {
            if i < prev.len() {
                assert(cur[i] == prev[i]);
            }
        }
    }
}

/// `EAVS_API_KEY=`.
pub open spec fn eavs_key_prefix() -> Seq<char> {
    "EAVS_API_KEY="@
}

/// The first non-empty `EAVS_API_KEY=` value among trimmed lines.
pub open spec fn eavs_key_in(ls: Seq<Seq<char>>) -> Option<Seq<char>>
    decreases ls.len(),
{
    if ls.len() == 0 {
        None
    } else {
        let t = trim(ls[0]);
        if starts_with(t, eavs_key_prefix()) && trim(t.skip(eavs_key_prefix().len() as int)).len() > 0 {
            Some(trim(t.skip(eavs_key_prefix().len() as int)))
        } else {
            eavs_key_in(ls.drop_first())
        }
    }
}

/// Read the eavs virtual key from the text of a legacy `eavs.env` file.
pub fn read_eavs_key_from_env(contents: &str) -> (r: Option<String>)
    ensures
        match r {
            Some(k) => eavs_key_in(lines(contents@)) == Some(k@),
            None => eavs_key_in(lines(contents@)) is None,
        },
{
    let v = chars_of(contents);
    let ls = line_bounds(&v);
    let pv = chars_of("EAVS_API_KEY=");
    proof {
        reveal_strlit("EAVS_API_KEY=");
    }
    let ghost all = lines(v@);
    assert(all.skip(0) =~= all);
    let mut k: usize = 0;
    while k < ls.len()
        invariant
            all == lines(v@),
            v@ == contents@,
            pv@ == eavs_key_prefix(),
            ls@.len() == all.len(),
            forall|j: int|
                0 <= j < ls@.len() ==> {
                    &&& (#[trigger] ls@[j]).0 <= ls@[j].1 <= v@.len()
                    &&& v@.subrange(ls@[j].0 as int, ls@[j].1 as int) == all[j]
                },
            0 <= k <= ls@.len(),
            eavs_key_in(all) == eavs_key_in(all.skip(k as int)),
        decreases ls.len() - k,
    {
        let (a, b) = ls[k];
        let (ta, tb) = trim_bounds(&v, a, b);
        let ghost t = v@.subrange(ta as int, tb as int);
        proof {
            assert(all.skip(k as int)[0] == all[k as int]);
            assert(all.skip(k as int).drop_first() =~= all.skip(k + 1));
        }
        if range_starts_with(&v, ta, tb, &pv) {
            let (va, vb) = trim_bounds(&v, ta + pv.len(), tb);
            assert(t.skip(pv@.len() as int) =~= v@.subrange(ta + pv@.len(), tb as int));
            if vb > va {
                return Some(crate::text::string_from_range(&v, va, vb));
            }
        }
        k += 1;
    }
    None
}

/// A key found in a provider's `apiKey` of models.json, where it is a
/// literal: trimmed, not empty, not `EAVS_API_KEY`, not an `env:`
/// reference and not `not-needed`.
pub open spec fn usable_key(key: Seq<char>) -> Option<Seq<char>> {
    let k = trim(key);
    if k.len() > 0 && k != "EAVS_API_KEY"@ && !starts_with(k, "env:"@) && k != "not-needed"@ {
        Some(k)
    } else {
        None
    }
}

/// The key of a provider's `apiKey` value, where it is a literal key.
pub fn usable_models_json_key(key: &str) -> (r: Option<String>)
    ensures
        match r {
            Some(k) => usable_key(key@) == Some(k@),
            None => usable_key(key@) is None,
        },
{
    let k = trim_str(key);
    if !k.is_empty() && !str_eq(k, "EAVS_API_KEY") && !str_starts_with(k, "env:") && !str_eq(
        k,
        "not-needed",
    ) {
        Some(to_owned_string(k))
    } else {
        None
    }
}

// ---------------------------------------------------------------------------
// Per-user configuration sync
// ---------------------------------------------------------------------------

/// Where a user's files live under their home directory.
pub fn models_json_path(home: &str) -> (r: String)
    ensures
        r@ == home@ + "/.pi/agent/models.json"@,
{
    let mut r = to_owned_string(home);
    push_str(&mut r, "/.pi/agent/models.json");
    r
}

/// The legacy eavs env file of a user.
pub fn eavs_env_path(home: &str) -> (r: String)
    ensures
        r@ == home@ + "/.config/oqto/eavs.env"@,
{
    let mut r = to_owned_string(home);
    push_str(&mut r, "/.config/oqto/eavs.env");
    r
}

/// The directory of a user's Pi agent files.
pub fn pi_agent_dir(home: &str) -> (r: String)
    ensures
        r@ == home@ + "/.pi/agent"@,
{
    let mut r = to_owned_string(home);
    push_str(&mut r, "/.pi/agent");
    r
}

/// Whether a Linux user belongs to the platform (`oqto_` prefix); only
/// those get their models synced.
pub fn is_platform_linux_user(name: &str) -> (r: bool)
    ensures
        r == starts_with(name@, "oqto_"@),
{
    str_starts_with(name, "oqto_")
}

/// How the sync makes sure a user's Linux account exists.
#[derive(Debug, Clone)]
pub enum EnsureCall {
    /// The stored account is checked against its stored UID.
    WithVerification { linux_username: String, uid: u32 },
    /// The account is found or created from the user ID.
    Plain,
}

/// The sync checks the stored account where both its name and UID are
/// known (the UID as a `u32`), and otherwise ensures one from the user ID.
pub fn choose_ensure_call(linux_username: Option<&str>, linux_uid: Option<i64>) -> (r: EnsureCall)
    ensures
        match (linux_username, linux_uid) {
            (Some(n), Some(u)) => r matches EnsureCall::WithVerification { linux_username, uid }
                && linux_username@ == n@ && uid == u as u32,
            _ => r is Plain,
        },
{
    match (linux_username, linux_uid) {
        (Some(n), Some(u)) => EnsureCall::WithVerification { linux_username: to_owned_string(n), uid: u as u32 },
        _ => EnsureCall::Plain,
    }
}

/// Whether the stored account name and UID differ from the ensured ones,
/// so the database needs an update.
pub fn needs_identity_update(
    stored_name: Option<&str>,
    stored_uid: Option<i64>,
    name: &str,
    uid: u32,
) -> (r: bool)
    ensures
        r == (!(stored_name matches Some(s) && s@ == name@) || stored_uid != Some(uid as i64)),
{
    let same_name = match stored_name {
        Some(s) => str_eq(s, name),
        None => false,
    };
    !same_name || stored_uid != Some(uid as i64)
}

/// An error message added to what is already there, after `; `.
pub open spec fn appended(existing: Option<Seq<char>>, msg: Seq<char>) -> Option<Seq<char>> {
    match existing {
        Some(e) => Some(e + "; "@ + msg),
        None => Some(msg),
    }
}

/// The view of an optional string.
pub open spec fn opt_view(o: Option<String>) -> Option<Seq<char>> {
    match o {
        Some(s) => Some(s@),
        None => None,
    }
}

fn append_error(existing: Option<String>, msg: String) -> (r: Option<String>)
    ensures
        opt_view(r) == appended(opt_view(existing), msg@),
{
    match existing {
        Some(e) => {
            let mut e = e;
            push_str(&mut e, "; ");
            push_str(&mut e, msg.as_str());
            Some(e)
        },
        None => Some(msg),
    }
}

fn prefixed(prefix: &str, msg: &str) -> (r: String)
    ensures
        r@ == prefix@ + msg@,
{
    let mut r = to_owned_string(prefix);
    push_str(&mut r, msg);
    r
}

/// What happened to one user during the sync, step by step. Each step that
/// ran carries its error text where it failed.
pub struct SyncOutcomes {
    /// The Linux account (its name), or why it could not be ensured.
    pub ensure: Result<String, String>,
    /// Shell dotfiles, where the account was ensured.
    pub shell: Result<(), String>,
    /// The mmry configuration, where mmry runs per user.
    pub mmry: Option<Result<(), String>>,
    /// eavs: whether a key was already there (so only models.json was
    /// synced) and how that went, where eavs is configured.
    pub eavs: Option<(bool, Result<(), String>)>,
}

/// The error of a user's sync, after the account was ensured: shell and
/// eavs failures accumulate, an mmry failure replaces what came before it.
pub open spec fn sync_error(o: SyncOutcomes) -> Option<Seq<char>> {
    let after_shell = match o.shell {
        Ok(_) => None,
        Err(e) => appended(None, "shell setup failed: "@ + e@),
    };
    let after_mmry = match o.mmry {
        Some(Err(e)) => Some("mmry config update failed: "@ + e@),
        _ => after_shell,
    };
    match o.eavs {
        Some((true, Err(e))) => appended(after_mmry, "eavs models.json sync failed: "@ + e@),
        Some((false, Err(e))) => appended(after_mmry, "eavs provisioning failed: "@ + e@),
        _ => after_mmry,
    }
}

/// Whether `r` records one user's sync: the user, and for a failed
/// account step only that failure (keeping the stored account name); for a
/// good one the account name, each step's success, and the collected
/// error.
pub open spec fn sync_record(
    user_id: Seq<char>,
    stored_linux_username: Option<Seq<char>>,
    o: SyncOutcomes,
    r: SyncUserConfigResult,
) -> bool {
    &&& r.user_id@ == user_id
    &&& match o.ensure {
        Err(e) => {
            &&& opt_view(r.linux_username) == stored_linux_username
            &&& !r.runner_configured && !r.shell_configured && !r.mmry_configured && !r.eavs_configured
            &&& opt_view(r.error) == Some("runner provisioning failed: "@ + e@)
        },
        Ok(name) => {
            &&& opt_view(r.linux_username) == Some(name@)
            &&& r.runner_configured
            &&& r.shell_configured == o.shell is Ok
            &&& r.mmry_configured == (o.mmry matches Some(Ok(_)))
            &&& r.eavs_configured == (o.eavs matches Some((_, Ok(_))))
            &&& opt_view(r.error) == sync_error(o)
        },
    }
}

/// The record of one user's configuration sync.
pub fn sync_user_result(user_id: &str, stored_linux_username: Option<String>, o: SyncOutcomes) -> (r:
    SyncUserConfigResult)
    ensures
        sync_record(user_id@, opt_view(stored_linux_username), o, r),
{
    let SyncOutcomes { ensure, shell, mmry, eavs } = o;
    let ghost o_ghost = SyncOutcomes { ensure, shell, mmry, eavs };
    match ensure {
        Err(e) => SyncUserConfigResult {
            user_id: to_owned_string(user_id),
            linux_username: stored_linux_username,
            runner_configured: false,
            shell_configured: false,
            mmry_configured: false,
            eavs_configured: false,
            error: Some(prefixed("runner provisioning failed: ", e.as_str())),
        },
        Ok(name) => {
            let mut error: Option<String> = None;
            let shell_configured = match &shell {
                Ok(_) => true,
                Err(e) => {
                    error = append_error(error, prefixed("shell setup failed: ", e.as_str()));
                    false
                },
            };
            let mmry_configured = match &mmry {
                Some(Ok(_)) => true,
                Some(Err(e)) => {
                    error = Some(prefixed("mmry config update failed: ", e.as_str()));
                    false
                },
                None => false,
            };
            let eavs_configured = match &eavs {
                Some((_, Ok(_))) => true,
                Some((true, Err(e))) => {
                    error = append_error(error, prefixed("eavs models.json sync failed: ", e.as_str()));
                    false
                },
                Some((false, Err(e))) => {
                    error = append_error(error, prefixed("eavs provisioning failed: ", e.as_str()));
                    false
                },
                None => false,
            };
            SyncUserConfigResult {
                user_id: to_owned_string(user_id),
                linux_username: Some(name),
                runner_configured: true,
                shell_configured,
                mmry_configured,
                eavs_configured,
                error,
            }
        },
    }
}

// ---------------------------------------------------------------------------
// Syncing all users
// ---------------------------------------------------------------------------

/// Why a configuration sync is refused before any user is touched.
#[derive(Debug, Clone, PartialEq, Eq)]
pub enum SyncRefusal {
    /// Linux user isolation is not configured (a bad request).
    LinuxUsersDisabled,
    /// The requested user does not exist (not found).
    UserNotFound { user_id: String },
}

impl SyncRefusal {
    /// The message the refusal is answered with.
    pub fn message(&self) -> (m: String)
        ensures
            match self {
                SyncRefusal::LinuxUsersDisabled => m@ == "Linux user isolation is not enabled."@,
                SyncRefusal::UserNotFound { user_id } => m@ == "User "@ + user_id@ + " not found"@,
            },
    {
        match self {
            SyncRefusal::LinuxUsersDisabled => to_owned_string("Linux user isolation is not enabled."),
            SyncRefusal::UserNotFound { user_id } => {
                let mut m = to_owned_string("User ");
                push_str(&mut m, user_id.as_str());
                push_str(&mut m, " not found");
                m
            },
        }
    }
}

/// A stored user as the sync reads it.
#[derive(Debug, Clone)]
pub struct SyncUser {
    pub id: String,
    pub linux_username: Option<String>,
    pub linux_uid: Option<i64>,
}

/// Which users a sync covers, or why it is refused: without Linux user
/// isolation it is refused; with a user id, that user, refused when it
/// does not exist (`found` is the lookup of that id); without one, every
/// stored user (`all`) in order.
pub fn users_to_sync(
    linux_users_configured: bool,
    request: &SyncUserConfigsRequest,
    found: Option<SyncUser>,
    all: Vec<SyncUser>,
) -> (res: Result<Vec<SyncUser>, SyncRefusal>)
    ensures
        !linux_users_configured ==> res == Err::<Vec<SyncUser>, SyncRefusal>(SyncRefusal::LinuxUsersDisabled),
        linux_users_configured ==> match request.user_id {
            Some(id) => match found {
                Some(u) => res matches Ok(v) && v@ == seq![u],
                None => res matches Err(SyncRefusal::UserNotFound { user_id }) && user_id@ == id@,
            },
            None => res matches Ok(v) && v@ == all@,
        },
{
    if !linux_users_configured {
        return Err(SyncRefusal::LinuxUsersDisabled);
    }
    match &request.user_id {
        Some(id) => match found {
            Some(u) => {
                let v = vec![u];
                Ok(v)
            },
            None => Err(SyncRefusal::UserNotFound { user_id: to_owned_string(id.as_str()) }),
        },
        None => Ok(all),
    }
}

fn clone_opt_string(o: &Option<String>) -> (r: Option<String>)
    ensures
        opt_view(r) == opt_view(*o),
{
    match o {
        Some(s) => Some(to_owned_string(s.as_str())),
        None => None,
    }
}

/// The response of a sync: one record per user, in order, each from that
/// user's step outcomes; a failed user does not stop the others.
pub fn collect_sync_results(users: &Vec<SyncUser>, outcomes: Vec<SyncOutcomes>) -> (res: SyncUserConfigsResponse)
    requires
        outcomes@.len() == users@.len(),
    ensures
        res.results@.len() == users@.len(),
        forall|i: int|
            0 <= i < users@.len() ==> sync_record(
                users@[i].id@,
                opt_view(users@[i].linux_username),
                outcomes@[i],
                #[trigger] res.results@[i],
            ),
{
    let ghost outs = outcomes@;
    let mut rest = outcomes;
    let mut results: Vec<SyncUserConfigResult> = Vec::new();
    let mut i: usize = 0;
    while i < users.len()
        invariant
            outs.len() == users@.len(),
            i <= users@.len(),
            rest@ == outs.skip(i as int),
            results@.len() == i,
            forall|j: int|
                0 <= j < i ==> sync_record(
                    users@[j].id@,
                    opt_view(users@[j].linux_username),
                    outs[j],
                    #[trigger] results@[j],
                ),
        decreases users.len() - i,
    {
        let o = rest.remove(0);
        assert(o == outs[i as int]);
        assert(rest@ == outs.skip(i + 1));
        let u = &users[i];
        let r = sync_user_result(u.id.as_str(), clone_opt_string(&u.linux_username), o);
        results.push(r);
        i = i + 1;
    }
    SyncUserConfigsResponse { results }
}

/// The mmry step runs where mmry is enabled and runs one instance per user.
pub fn mmry_sync_applies(enabled: bool, single_user: bool) -> (r: bool)
    ensures
        r == (enabled && !single_user),
{
    enabled && !single_user
}

// ---------------------------------------------------------------------------
// Creating a user
// ---------------------------------------------------------------------------

/// What user creation does once the Linux account step has answered.
#[derive(Debug, Clone, PartialEq, Eq)]
pub enum CreateUserFollowUp {
    /// The Linux account exists: its name and UID are stored on the user,
    /// the user's mmry config is written where per-user mmry runs, and the
    /// shell is provisioned.
    Keep { user_id: String, linux_username: String, linux_uid: u32, write_mmry_config: bool },
    /// The Linux account could not be made: the new user is deleted again
    /// and the request fails with an internal error carrying `message`.
    RollBack { user_id: String, message: String },
}

/// The step after the Linux account of a newly stored user was ensured:
/// `outcome` is what `ensure_user` answered, its error rendered as text.
/// A failure rolls the user back; a success keeps it with the account's
/// identity.
pub fn after_linux_user_step(
    user_id: &str,
    outcome: Result<(u32, String), String>,
    mmry_enabled: bool,
    mmry_single_user: bool,
) -> (r: CreateUserFollowUp)
    ensures
        match outcome {
            Ok((uid, name)) => r matches CreateUserFollowUp::Keep {
                user_id: id,
                linux_username,
                linux_uid,
                write_mmry_config,
            } && id@ == user_id@ && linux_username@ == name@ && linux_uid == uid
                && write_mmry_config == (mmry_enabled && !mmry_single_user),
            Err(e) => r matches CreateUserFollowUp::RollBack { user_id: id, message } && id@
                == user_id@ && message@ == "Failed to create Linux user for isolation: "@ + e@,
        },
{
    match outcome {
        Ok((uid, name)) => CreateUserFollowUp::Keep {
            user_id: to_owned_string(user_id),
            linux_username: name,
            linux_uid: uid,
            write_mmry_config: mmry_sync_applies(mmry_enabled, mmry_single_user),
        },
        Err(e) => {
            let mut message = to_owned_string("Failed to create Linux user for isolation: ");
            push_str(&mut message, e.as_str());
            CreateUserFollowUp::RollBack { user_id: to_owned_string(user_id), message }
        },
    }
}

// ---------------------------------------------------------------------------
// Catalog lookup
// ---------------------------------------------------------------------------

/// A byte `urlencoding::encode` leaves as it is: ASCII alphanumerics and
/// `-`, `.`, `_`, `~`.
pub open spec fn url_safe_byte(b: u8) -> bool {
    (48 <= b <= 57) || (65 <= b <= 90) || (97 <= b <= 122) || b == 45 || b == 46 || b == 95 || b == 126
}

/// An uppercase hexadecimal digit.
pub open spec fn upper_hex_digit(n: u8) -> char {
    if n < 10 {
        (48 + n) as char
    } else {
        (55 + n) as char
    }
}

/// Percent-encoding of bytes: safe bytes as themselves, every other byte
/// as `%` and two uppercase hex digits.
pub open spec fn percent_encoded(bytes: Seq<u8>) -> Seq<char>
    decreases bytes.len(),
{
    if bytes.len() == 0 {
        Seq::<char>::empty()
    } else {
        let b = bytes.last();
        percent_encoded(bytes.drop_last()) + if url_safe_byte(b) {
            seq![b as char]
        } else {
            seq!['%', upper_hex_digit(b / 16), upper_hex_digit(b % 16)]
        }
    }
}

/// What `urlencoding::encode` gives for a string: the percent-encoding of
/// its UTF-8 bytes.
pub open spec fn url_encoded(s: Seq<char>) -> Seq<char> {
    percent_encoded(encode_utf8(s))
}

/// Wraps `urlencoding::encode`: every byte of the string's UTF-8 form but
/// ASCII alphanumerics and `-_.~` is written as `%XX` (uppercase hex).
#[verifier::external_body]
fn url_encode(s: &str) -> (r: String)
    ensures
        r@ == url_encoded(s@),
{
    urlencoding::encode(s).into_owned()
}

/// The URL of the eavs catalog lookup for a model.
pub fn catalog_lookup_url(base_url: &str, query: &CatalogLookupQuery) -> (r: String)
    ensures
        r@ == base_url@ + "/catalog/lookup?model_id="@ + url_encoded(query.model_id@) + match query.provider {
            Some(p) => "&provider="@ + url_encoded(p@),
            None => Seq::<char>::empty(),
        },
{
    let mut r = to_owned_string(base_url);
    push_str(&mut r, "/catalog/lookup?model_id=");
    let m = url_encode(query.model_id.as_str());
    push_str(&mut r, m.as_str());
    if let Some(p) = &query.provider {
        push_str(&mut r, "&provider=");
        let e = url_encode(p.as_str());
        push_str(&mut r, e.as_str());
    }
    r
}

/// The first model named in a `models.json`: for each provider in order,
/// given with the id of its first model where that model has one, the
/// first provider that gives one.
pub open spec fn first_model_of(providers: Seq<(String, Option<String>)>) -> Option<(Seq<char>, Seq<char>)>
    decreases providers.len(),
{
    if providers.len() == 0 {
        None
    } else {
        match providers[0].1 {
            Some(id) => Some((providers[0].0@, id@)),
            None => first_model_of(providers.drop_first()),
        }
    }
}

/// The provider and id of the first model a `models.json` lists.
pub fn first_model(providers: &Vec<(String, Option<String>)>) -> (res: Option<(String, String)>)
    ensures
        match res {
            Some((p, m)) => first_model_of(providers@) == Some((p@, m@)),
            None => first_model_of(providers@) is None,
        },
{
    let mut k: usize = 0;
    assert(providers@.skip(0) == providers@);
    while k < providers.len()
        invariant
            0 <= k <= providers@.len(),
            first_model_of(providers@) == first_model_of(providers@.skip(k as int)),
        decreases providers.len() - k,
    {
        assert(providers@.skip(k as int).drop_first() == providers@.skip(k + 1));
        assert(providers@.skip(k as int)[0] == providers@[k as int]);
        match &providers[k].1 {
            Some(id) => {
                return Some((to_owned_string(providers[k].0.as_str()), to_owned_string(id.as_str())));
            },
            None => {},
        }
        k = k + 1;
    }
    None
}

// ---------------------------------------------------------------------------
// Metrics snapshot errors
// ---------------------------------------------------------------------------

/// The error messages of a metrics snapshot: the host metrics failure,
/// then the container stats errors (the report's own, or the failure to
/// collect it).
pub open spec fn metrics_errors(host_error: Option<Seq<char>>, containers: Result<Seq<Seq<char>>, Seq<char>>) -> Seq<
    Seq<char>,
> {
    let host = match host_error {
        Some(e) => seq!["host_metrics: "@ + e],
        None => Seq::<Seq<char>>::empty(),
    };
    match containers {
        Ok(errs) => host + errs,
        Err(e) => host.push("container_stats: "@ + e),
    }
}

fn join_strings(items: &Vec<String>, sep: &str) -> (res: String)
    ensures
        res@ == join_with(items@.map_values(|x: String| x@), sep@),
{
    let ghost texts = items@.map_values(|x: String| x@);
    let mut out = String::new();
    let mut i: usize = 0;
    while i < items.len()
        invariant
            0 <= i <= items@.len(),
            texts == items@.map_values(|x: String| x@),
            out@ == join_with(texts.take(i as int), sep@),
        decreases items.len() - i,
    {
        assert(texts.take(i + 1).drop_last() == texts.take(i as int));
        if i > 0 {
            push_str(&mut out, sep);
        }
        push_str(&mut out, items[i].as_str());
        i = i + 1;
    }
    assert(texts.take(items@.len() as int) == texts);
    out
}

/// The error of a metrics snapshot: `None` when nothing failed, otherwise
/// the messages joined by `"; "`.
pub fn metrics_error(host_error: Option<&str>, containers: Result<&Vec<String>, &str>) -> (res: Option<String>)
    ensures
        ({
            let errs = metrics_errors(
                match host_error {
                    Some(e) => Some(e@),
                    None => None,
                },
                match containers {
                    Ok(v) => Ok(v@.map_values(|x: String| x@)),
                    Err(e) => Err(e@),
                },
            );
            match res {
                None => errs.len() == 0,
                Some(r) => errs.len() > 0 && r@ == join_with(errs, "; "@),
            }
        }),
{
    let mut errors: Vec<String> = Vec::new();
    match host_error {
        Some(e) => {
            let mut m = to_owned_string("host_metrics: ");
            push_str(&mut m, e);
            errors.push(m);
        },
        None => {},
    }
    let ghost head = errors@.map_values(|x: String| x@);
    let ghost host_part = match host_error {
        Some(e) => seq!["host_metrics: "@ + e@],
        None => Seq::<Seq<char>>::empty(),
    };
    assert(head =~= host_part);
    match containers {
        Ok(v) => {
            let ghost vv = v@.map_values(|x: String| x@);
            let mut i: usize = 0;
            while i < v.len()
                invariant
                    0 <= i <= v@.len(),
                    vv == v@.map_values(|x: String| x@),
                    errors@.map_values(|x: String| x@) == head + vv.take(i as int),
                decreases v.len() - i,
            {
                let ghost before = errors@;
                errors.push(to_owned_string(v[i].as_str()));
                assert(errors@.map_values(|x: String| x@) =~= head + vv.take(i + 1)) by {
                    assert(errors@ == before.push(errors@.last()));
                    assert(before.push(errors@.last()).map_values(|x: String| x@) =~= before.map_values(
                        |x: String| x@,
                    ).push(errors@.last()@));
                    assert(vv.take(i + 1) =~= vv.take(i as int).push(vv[i as int]));
                }
                i = i + 1;
            }
            assert(vv.take(v@.len() as int) == vv);
        },
        Err(e) => {
            let mut m = to_owned_string("container_stats: ");
            push_str(&mut m, e);
            let ghost before = errors@;
            errors.push(m);
            assert(errors@.map_values(|x: String| x@) =~= head.push("container_stats: "@ + e@)) by {
                assert(errors@ == before.push(errors@.last()));
            }
        },
    }
    assert(errors@.map_values(|x: String| x@) == metrics_errors(
        match host_error {
            Some(e) => Some(e@),
            None => None,
        },
        match containers {
            Ok(v) => Ok(v@.map_values(|x: String| x@)),
            Err(e) => Err(e@),
        },
    ));
    if errors.len() == 0 {
        None
    } else {
        Some(join_strings(&errors, "; "))
    }
}

} // verus!

