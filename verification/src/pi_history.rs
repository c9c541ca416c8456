//! Matching Pi's own session log against the messages being persisted.
//!
//! Pi writes each session as a JSONL file. Before messages are stored in
//! the history service, each is given the position of its entry in that
//! file, found by a key made of the message's role, timestamp, text and
//! tool identity. The caller reads and parses the file; this module holds
//! the keys and the matching.
use vstd::prelude::*;
use crate::admin::join_with;
use crate::api_keys::{parse_rfc3339, rfc3339_instant};
use crate::text::{str_eq, to_lowercase, to_owned_string, trim, trimmed, lowercase, push_str};

verus! {

/// One block of a structured message content: its `type`, and its `text`
/// and `thinking` strings where they are strings. A block that is not an
/// object has no type.
#[derive(Debug, Clone)]
pub struct ContentBlock {
    pub kind: Option<String>,
    pub text: Option<String>,
    pub thinking: Option<String>,
}

/// The `content` of a Pi message.
#[derive(Debug, Clone)]
pub enum MessageContent {
    /// A plain string.
    Text(String),
    /// An array of blocks.
    Blocks(Vec<ContentBlock>),
    /// Anything else.
    Other,
}

/// What the matcher reads of a Pi message.
#[derive(Debug, Clone)]
pub struct HistoryMessage {
    pub role: String,
    pub content: MessageContent,
    pub timestamp: Option<u64>,
    pub tool_call_id: Option<String>,
    pub tool_name: Option<String>,
}

pub open spec fn opt_chars(o: Option<String>) -> Option<Seq<char>> {
    match o {
        Some(s) => Some(s@),
        None => None,
    }
}

/// The text a block contributes: its `text` for a text block, its
/// `thinking` for a thinking block.
pub open spec fn block_text(b: ContentBlock) -> Option<Seq<char>> {
    match b.kind {
        Some(k) => if k@ == "text"@ {
            opt_chars(b.text)
        } else if k@ == "thinking"@ {
            opt_chars(b.thinking)
        } else {
            None
        },
        None => None,
    }
}

/// The trimmed, non-empty texts of the blocks, in order.
pub open spec fn signature_pieces(blocks: Seq<ContentBlock>) -> Seq<Seq<char>>
    decreases blocks.len(),
{
    if blocks.len() == 0 {
        Seq::<Seq<char>>::empty()
    } else {
        let rest = signature_pieces(blocks.drop_last());
        match block_text(blocks.last()) {
            Some(t) => if trim(t).len() > 0 {
                rest.push(trim(t))
            } else {
                rest
            },
            None => rest,
        }
    }
}

/// The text by which a message is recognised: a string content trimmed,
/// the block texts joined by newlines, or nothing.
pub open spec fn signature_of(content: MessageContent) -> Seq<char> {
    match content {
        MessageContent::Text(t) => trim(t@),
        MessageContent::Blocks(bs) => join_with(signature_pieces(bs@), "\n"@),
        MessageContent::Other => Seq::<char>::empty(),
    }
}

fn block_piece(b: &ContentBlock) -> (res: Option<String>)
    ensures
        match block_text(*b) {
            Some(t) => if trim(t).len() > 0 {
                res is Some && res->0@ == trim(t)
            } else {
                res is None
            },
            None => res is None,
        },
{
    let chosen: Option<&String> = match &b.kind {
        Some(k) => if str_eq(k.as_str(), "text") {
            b.text.as_ref()
        } else if str_eq(k.as_str(), "thinking") {
            b.thinking.as_ref()
        } else {
            None
        },
        None => None,
    };
    match chosen {
        Some(t) => {
            let s = trimmed(t.as_str());
            if !s.as_str().is_empty() {
                Some(s)
            } else {
                None
            }
        },
        None => None,
    }
}

/// The signature text of a message content.
pub fn message_signature(content: &MessageContent) -> (res: String)
    ensures
        res@ == signature_of(*content),
{
    match content {
        MessageContent::Text(t) => trimmed(t.as_str()),
        MessageContent::Blocks(blocks) => {
            let mut out = String::new();
            let mut any = false;
            let mut i: usize = 0;
            while i < blocks.len()
                invariant
                    0 <= i <= blocks@.len(),
                    any == (signature_pieces(blocks@.take(i as int)).len() > 0),
                    out@ == join_with(signature_pieces(blocks@.take(i as int)), "\n"@),
                decreases blocks.len() - i,
            {
                assert(blocks@.take(i + 1).drop_last() == blocks@.take(i as int));
                let piece = block_piece(&blocks[i]);
                match piece {
                    Some(p) => {
                        if any {
                            push_str(&mut out, "\n");
                        }
                        push_str(&mut out, p.as_str());
                        proof {
                            let ps = signature_pieces(blocks@.take(i as int));
                            assert(ps.push(p@).drop_last() == ps);
                        }
                        any = true;
                    },
                    None => {},
                }
                i = i + 1;
            }
            assert(blocks@.take(blocks@.len() as int) == blocks@);
            out
        },
        MessageContent::Other => String::new(),
    }
}

/// The key by which a log entry and a message are matched.
#[derive(Debug, Clone)]
pub struct JsonlMessageKey {
    pub role: String,
    pub timestamp: Option<u64>,
    pub content: String,
    pub tool_call_id: Option<String>,
    pub tool_name: Option<String>,
}

/// A key as plain values: role, timestamp, content, tool call id, tool name.
pub type KeyView = (Seq<char>, Option<u64>, Seq<char>, Option<Seq<char>>, Option<Seq<char>>);

impl View for JsonlMessageKey {
    type V = KeyView;

    open spec fn view(&self) -> KeyView {
        (self.role@, self.timestamp, self.content@, opt_chars(self.tool_call_id), opt_chars(self.tool_name))
    }
}

/// A key with its timestamp left out.
pub open spec fn loose(k: KeyView) -> KeyView {
    (k.0, None, k.2, k.3, k.4)
}

/// The key of a message under a given timestamp.
pub open spec fn key_of(m: HistoryMessage, timestamp: Option<u64>) -> KeyView {
    (lowercase(m.role@), timestamp, signature_of(m.content), opt_chars(m.tool_call_id), opt_chars(m.tool_name))
}

fn clone_opt(o: &Option<String>) -> (res: Option<String>)
    ensures
        opt_chars(res) == opt_chars(*o),
{
    match o {
        Some(s) => Some(to_owned_string(s.as_str())),
        None => None,
    }
}

fn opt_eq(a: &Option<String>, b: &Option<String>) -> (r: bool)
    ensures
        r == (opt_chars(*a) == opt_chars(*b)),
{
    match (a, b) {
        (Some(x), Some(y)) => str_eq(x.as_str(), y.as_str()),
        (None, None) => true,
        _ => false,
    }
}

/// Builds the key of a message: its role lowercased, the given timestamp,
/// its signature text and its tool identity.
pub fn build_jsonl_key(message: &HistoryMessage, timestamp: Option<u64>) -> (res: JsonlMessageKey)
    ensures
        res@ == key_of(*message, timestamp),
{
    JsonlMessageKey {
        role: to_lowercase(message.role.as_str()),
        timestamp,
        content: message_signature(&message.content),
        tool_call_id: clone_opt(&message.tool_call_id),
        tool_name: clone_opt(&message.tool_name),
    }
}

fn keys_match(a: &JsonlMessageKey, b: &JsonlMessageKey, ignore_time: bool) -> (r: bool)
    ensures
        r == (if ignore_time {
            loose(a@) == loose(b@)
        } else {
            a@ == b@
        }),
{
    let same_time = ignore_time || match (a.timestamp, b.timestamp) {
        (Some(x), Some(y)) => x == y,
        (None, None) => true,
        _ => false,
    };
    same_time && str_eq(a.role.as_str(), b.role.as_str()) && str_eq(a.content.as_str(), b.content.as_str())
        && opt_eq(&a.tool_call_id, &b.tool_call_id) && opt_eq(&a.tool_name, &b.tool_name)
}

/// The milliseconds since the epoch of an RFC 3339 timestamp, for a
/// timestamp that reads and is not before the epoch.
pub open spec fn entry_millis(timestamp: Option<Seq<char>>) -> Option<u64> {
    match timestamp {
        None => None,
        Some(t) => match rfc3339_instant(t) {
            None => None,
            Some(inst) => {
                let m = inst.0 * 1000 + inst.1 / 1_000_000;
                if 0 <= m <= i64::MAX {
                    Some(m as u64)
                } else {
                    None
                }
            },
        },
    }
}

/// Reads an entry's timestamp as milliseconds since the epoch; `None` when
/// it is absent, does not read, or lies before the epoch. (The instants
/// chrono reads all lie well inside the `i64` millisecond range.)
pub fn parse_entry_timestamp(timestamp: Option<&str>) -> (res: Option<u64>)
    ensures
        res == entry_millis(match timestamp {
            Some(t) => Some(t@),
            None => None,
        }),
{
    match timestamp {
        None => None,
        Some(t) => match parse_rfc3339(t) {
            None => None,
            Some((secs, nanos)) => {
                let sub: i64 = (nanos / 1_000_000) as i64;
                match secs.checked_mul(1000) {
                    None => None,
                    Some(ms) => match ms.checked_add(sub) {
                        None => None,
                        Some(m) => if m >= 0 {
                            Some(m as u64)
                        } else {
                            None
                        },
                    },
                }
            },
        },
    }
}

/// A line of a session log as far as the matcher reads it.
#[derive(Debug, Clone)]
pub struct JsonlLine {
    pub entry_type: String,
    pub message: Option<HistoryMessage>,
    pub timestamp: Option<String>,
}

/// A message entry of a session log: its position among the message
/// entries, and its key.
#[derive(Debug, Clone)]
pub struct JsonlMessageEntry {
    pub idx: i32,
    pub key: JsonlMessageKey,
}

/// The key a message line gives: its message's own timestamp, else the
/// line's.
pub open spec fn line_key(line: JsonlLine) -> KeyView {
    let m = line.message->0;
    key_of(
        m,
        match m.timestamp {
            Some(t) => Some(t),
            None => entry_millis(opt_chars(line.timestamp)),
        },
    )
}

pub open spec fn is_message_line(line: JsonlLine) -> bool {
    line.entry_type@ == "message"@ && line.message is Some
}

/// The keys of the message lines of a log, in order.
pub open spec fn message_keys(lines: Seq<JsonlLine>) -> Seq<KeyView>
    decreases lines.len(),
{
    if lines.len() == 0 {
        Seq::<KeyView>::empty()
    } else if is_message_line(lines.last()) {
        message_keys(lines.drop_last()).push(line_key(lines.last()))
    } else {
        message_keys(lines.drop_last())
    }
}

proof fn lemma_message_keys_len(lines: Seq<JsonlLine>)
    ensures
        message_keys(lines).len() <= lines.len(),
    decreases lines.len(),
{
    if lines.len() > 0 {
        lemma_message_keys_len(lines.drop_last());
    }
}

/// The message entries of a parsed session log: each line of type
/// `message` that holds a message, numbered from 0 in order.
pub fn jsonl_message_entries(lines: &Vec<JsonlLine>) -> (res: Vec<JsonlMessageEntry>)
    requires
        message_keys(lines@).len() <= i32::MAX,
    ensures
        res@.len() == message_keys(lines@).len(),
        forall|k: int|
            0 <= k < res@.len() ==> (#[trigger] res@[k]).idx == k && res@[k].key@ == message_keys(lines@)[k],
{
    let mut res: Vec<JsonlMessageEntry> = Vec::new();
    let mut idx: i32 = 0;
    let mut i: usize = 0;
    while i < lines.len()
        invariant
            0 <= i <= lines@.len(),
            message_keys(lines@).len() <= i32::MAX,
            idx == res@.len(),
            res@.len() == message_keys(lines@.take(i as int)).len(),
            forall|k: int|
                0 <= k < res@.len() ==> (#[trigger] res@[k]).idx == k && res@[k].key@ == message_keys(
                    lines@.take(i as int),
                )[k],
        decreases lines.len() - i,
    {
        assert(lines@.take(i + 1).drop_last() == lines@.take(i as int));
        proof {
            lemma_message_keys_prefix(lines@, i as int + 1);
        }
        let line = &lines[i];
        if str_eq(line.entry_type.as_str(), "message") {
            match &line.message {
                Some(message) => {
                    let entry_ts = parse_entry_timestamp(
                        match &line.timestamp {
                            Some(t) => Some(t.as_str()),
                            None => None,
                        },
                    );
                    let ts = match message.timestamp {
                        Some(t) => Some(t),
                        None => entry_ts,
                    };
                    let key = build_jsonl_key(message, ts);
                    res.push(JsonlMessageEntry { idx, key });
                    idx = idx + 1;
                },
                None => {},
            }
        }
        i = i + 1;
    }
    assert(lines@.take(lines@.len() as int) == lines@);
    res
}

proof fn lemma_message_keys_prefix(lines: Seq<JsonlLine>, n: int)
    requires
        0 <= n <= lines.len(),
    ensures
        message_keys(lines.take(n)).len() <= message_keys(lines).len(),
    decreases lines.len() - n,
{
    if n < lines.len() {
        lemma_message_keys_prefix(lines, n + 1);
        assert(lines.take(n + 1).drop_last() == lines.take(n));
    } else {
        assert(lines.take(n) == lines);
    }
}

/// A line of a session log as the title lookup reads it.
#[derive(Debug, Clone)]
pub struct SessionInfoLine {
    pub entry_type: String,
    pub name: Option<String>,
}

/// The name of the last `session_info` line that carries one.
pub open spec fn last_session_name(lines: Seq<SessionInfoLine>) -> Option<Seq<char>>
    decreases lines.len(),
{
    if lines.len() == 0 {
        None
    } else if lines.last().entry_type@ == "session_info"@ && lines.last().name is Some {
        Some(lines.last().name->0@)
    } else {
        last_session_name(lines.drop_last())
    }
}

/// The session's title as Pi's log records it: the name of the last
/// `session_info` line that has one.
pub fn session_name_from_lines(lines: &Vec<SessionInfoLine>) -> (res: Option<String>)
    ensures
        opt_chars(res) == last_session_name(lines@),
{
    let mut last: Option<String> = None;
    let mut i: usize = 0;
    while i < lines.len()
        invariant
            0 <= i <= lines@.len(),
            opt_chars(last) == last_session_name(lines@.take(i as int)),
        decreases lines.len() - i,
    {
        assert(lines@.take(i + 1).drop_last() == lines@.take(i as int));
        let line = &lines[i];
        if str_eq(line.entry_type.as_str(), "session_info") {
            match &line.name {
                Some(n) => {
                    last = Some(to_owned_string(n.as_str()));
                },
                None => {},
            }
        }
        i = i + 1;
    }
    assert(lines@.take(lines@.len() as int) == lines@);
    last
}

// ---------------------------------------------------------------------------
// Matching
// ---------------------------------------------------------------------------

/// An entry as plain values: its index and key.
pub open spec fn entry_views(entries: Seq<JsonlMessageEntry>) -> Seq<(i32, KeyView)> {
    entries.map_values(|e: JsonlMessageEntry| (e.idx, e.key@))
}

/// Whether an entry's key matches a wanted key, exactly or without the
/// timestamp.
pub open spec fn entry_matches(entry: (i32, KeyView), want: KeyView, ignore_time: bool) -> bool {
    if ignore_time {
        loose(entry.1) == loose(want)
    } else {
        entry.1 == want
    }
}

/// The first position from `from` on whose entry matches and is not yet
/// taken.
pub open spec fn first_free(
    entries: Seq<(i32, KeyView)>,
    taken: Set<int>,
    want: KeyView,
    ignore_time: bool,
    from: int,
) -> Option<int>
    decreases entries.len() - from,
{
    if from < 0 || from >= entries.len() {
        None
    } else if !taken.contains(from) && entry_matches(entries[from], want, ignore_time) {
        Some(from)
    } else {
        first_free(entries, taken, want, ignore_time, from + 1)
    }
}

/// The indices given to the messages, with the positions taken so far by
/// exact matches and by matches without timestamp. Each message takes the
/// first entry with its exact key not yet taken that way; failing that,
/// the first entry with its key without timestamp not yet taken that way.
pub open spec fn resolve_state(entries: Seq<(i32, KeyView)>, wanted: Seq<KeyView>) -> (
    Seq<Option<i32>>,
    Set<int>,
    Set<int>,
)
    decreases wanted.len(),
{
    if wanted.len() == 0 {
        (Seq::<Option<i32>>::empty(), Set::<int>::empty(), Set::<int>::empty())
    } else {
        let prev = resolve_state(entries, wanted.drop_last());
        let want = wanted.last();
        match first_free(entries, prev.1, want, false, 0) {
            Some(p) => (prev.0.push(Some(entries[p].0)), prev.1.insert(p), prev.2),
            None => match first_free(entries, prev.2, want, true, 0) {
                Some(p) => (prev.0.push(Some(entries[p].0)), prev.1, prev.2.insert(p)),
                None => (prev.0.push(None), prev.1, prev.2),
            },
        }
    }
}

/// The key each message is looked up by: its own timestamp.
pub open spec fn wanted_keys(messages: Seq<HistoryMessage>) -> Seq<KeyView> {
    messages.map_values(|m: HistoryMessage| key_of(m, m.timestamp))
}

proof fn lemma_first_free(
    entries: Seq<(i32, KeyView)>,
    taken: Set<int>,
    want: KeyView,
    ignore_time: bool,
    from: int,
)
    requires
        from >= 0,
    ensures
        match first_free(entries, taken, want, ignore_time, from) {
            Some(p) => from <= p < entries.len() && !taken.contains(p) && entry_matches(
                entries[p],
                want,
                ignore_time,
            ),
            None => true,
        },
    decreases entries.len() - from,
{
    if from < entries.len() {
        lemma_first_free(entries, taken, want, ignore_time, from + 1);
    }
}

proof fn lemma_resolve_len(entries: Seq<(i32, KeyView)>, wanted: Seq<KeyView>)
    ensures
        resolve_state(entries, wanted).0.len() == wanted.len(),
        forall|p: int| resolve_state(entries, wanted).1.contains(p) ==> 0 <= p < entries.len(),
        forall|p: int| resolve_state(entries, wanted).2.contains(p) ==> 0 <= p < entries.len(),
    decreases wanted.len(),
{
    if wanted.len() > 0 {
        let prev = resolve_state(entries, wanted.drop_last());
        lemma_resolve_len(entries, wanted.drop_last());
        lemma_first_free(entries, prev.1, wanted.last(), false, 0);
        lemma_first_free(entries, prev.2, wanted.last(), true, 0);
    }
}

fn find_free(entries: &Vec<JsonlMessageEntry>, taken: &Vec<bool>, want: &JsonlMessageKey, ignore_time: bool) -> (res: Option<usize>)
    requires
        taken@.len() == entries@.len(),
    ensures
        match first_free(
            entry_views(entries@),
            Set::new(|p: int| 0 <= p < taken@.len() && taken@[p]),
            want@,
            ignore_time,
            0,
        ) {
            Some(p) => res == Some(p as usize),
            None => res is None,
        },
{
    let ghost ev = entry_views(entries@);
    let ghost set = Set::new(|p: int| 0 <= p < taken@.len() && taken@[p]);
    let mut p: usize = 0;
    while p < entries.len()
        invariant
            0 <= p <= entries@.len(),
            taken@.len() == entries@.len(),
            ev == entry_views(entries@),
            set == Set::new(|q: int| 0 <= q < taken@.len() && taken@[q]),
            first_free(ev, set, want@, ignore_time, 0) == first_free(ev, set, want@, ignore_time, p as int),
        decreases entries.len() - p,
    {
        let m = keys_match(&entries[p].key, want, ignore_time);
        assert(ev[p as int] == (entries@[p as int].idx, entries@[p as int].key@));
        if !taken[p] && m {
            return Some(p);
        }
        p = p + 1;
    }
    None
}

/// Gives each message the index of its entry in the session log, or
/// `None` when no entry is left for it. A message takes the first entry
/// with its exact key that no message took that way before; failing that,
/// the first entry whose key matches without the timestamp that no
/// message took that way before.
pub fn resolve_message_indices(entries: &Vec<JsonlMessageEntry>, messages: &Vec<HistoryMessage>) -> (res: Vec<Option<i32>>)
    ensures
        res@ == resolve_state(entry_views(entries@), wanted_keys(messages@)).0,
{
    let ghost ev = entry_views(entries@);
    let n = entries.len();
    let mut exact: Vec<bool> = Vec::new();
    let mut loose_taken: Vec<bool> = Vec::new();
    let mut k: usize = 0;
    while k < n
        invariant
            0 <= k <= n,
            n == entries@.len(),
            exact@.len() == k,
            loose_taken@.len() == k,
            forall|q: int| 0 <= q < k ==> !exact@[q] && !loose_taken@[q],
        decreases n - k,
    {
        exact.push(false);
        loose_taken.push(false);
        k = k + 1;
    }
    assert(Set::new(|p: int| 0 <= p < exact@.len() && exact@[p]) == Set::<int>::empty());
    assert(Set::new(|p: int| 0 <= p < loose_taken@.len() && loose_taken@[p]) == Set::<int>::empty());
    let mut res: Vec<Option<i32>> = Vec::new();
    let mut i: usize = 0;
    while i < messages.len()
        invariant
            0 <= i <= messages@.len(),
            n == entries@.len(),
            ev == entry_views(entries@),
            exact@.len() == n,
            loose_taken@.len() == n,
            res@ == resolve_state(ev, wanted_keys(messages@).take(i as int)).0,
            Set::new(|p: int| 0 <= p < exact@.len() && exact@[p]) == resolve_state(
                ev,
                wanted_keys(messages@).take(i as int),
            ).1,
            Set::new(|p: int| 0 <= p < loose_taken@.len() && loose_taken@[p]) == resolve_state(
                ev,
                wanted_keys(messages@).take(i as int),
            ).2,
        decreases messages.len() - i,
    {
        let ghost wk = wanted_keys(messages@);
        let ghost prev = resolve_state(ev, wk.take(i as int));
        assert(wk.take(i + 1).drop_last() == wk.take(i as int));
        assert(wk.take(i + 1).last() == wk[i as int]);
        let message = &messages[i];
        let key = build_jsonl_key(message, message.timestamp);
        assert(key@ == wk[i as int]);
        proof {
            lemma_first_free(ev, prev.1, key@, false, 0);
            lemma_first_free(ev, prev.2, key@, true, 0);
        }
        match find_free(entries, &exact, &key, false) {
            Some(p) => {
                let ghost before = exact@;
                exact.set(p, true);
                assert(Set::new(|q: int| 0 <= q < exact@.len() && exact@[q]) == prev.1.insert(p as int));
                res.push(Some(entries[p].idx));
            },
            None => match find_free(entries, &loose_taken, &key, true) {
                Some(p) => {
                    loose_taken.set(p, true);
                    assert(Set::new(|q: int| 0 <= q < loose_taken@.len() && loose_taken@[q]) == prev.2.insert(
                        p as int,
                    ));
                    res.push(Some(entries[p].idx));
                },
                None => {
                    res.push(None);
                },
            },
        }
        i = i + 1;
    }
    assert(wanted_keys(messages@).take(messages@.len() as int) == wanted_keys(messages@));
    res
}

/// Every index given to a message is that of a log entry whose key is the
/// message's key, at least once the timestamps are left out.
pub proof fn law_resolved_index_matches(entries: Seq<(i32, KeyView)>, wanted: Seq<KeyView>, i: int)
    requires
        0 <= i < wanted.len(),
        resolve_state(entries, wanted).0[i] is Some,
    ensures
        exists|p: int|
            0 <= p < entries.len() && entries[p].0 == resolve_state(entries, wanted).0[i]->0 && loose(
                #[trigger] entries[p].1,
            ) == loose(wanted[i]),
    decreases wanted.len(),
{
    let prev = resolve_state(entries, wanted.drop_last());
    lemma_resolve_len(entries, wanted.drop_last());
    if i < wanted.len() - 1 {
        assert(resolve_state(entries, wanted).0[i] == prev.0[i]);
        assert(wanted.drop_last()[i] == wanted[i]);
        law_resolved_index_matches(entries, wanted.drop_last(), i);
    } else {
        lemma_first_free(entries, prev.1, wanted.last(), false, 0);
        lemma_first_free(entries, prev.2, wanted.last(), true, 0);
        match first_free(entries, prev.1, wanted.last(), false, 0) {
            Some(p) => {
                assert(entries[p].1 == wanted[i]);
            },
            None => match first_free(entries, prev.2, wanted.last(), true, 0) {
                Some(p) => {
                    assert(loose(entries[p].1) == loose(wanted[i]));
                },
                None => {},
            },
        }
    }
}

/// How many of the given indices are present.
pub open spec fn count_given(res: Seq<Option<i32>>) -> nat
    decreases res.len(),
{
    if res.len() == 0 {
        0
    } else {
        count_given(res.drop_last()) + if res.last() is Some {
            1nat
        } else {
            0nat
        }
    }
}

/// No log entry is handed out twice by the same kind of match: the
/// positions taken, exactly or without timestamp, are as many as the
/// indices given.
pub proof fn law_entries_taken_once(entries: Seq<(i32, KeyView)>, wanted: Seq<KeyView>)
    ensures
        resolve_state(entries, wanted).1.finite(),
        resolve_state(entries, wanted).2.finite(),
        resolve_state(entries, wanted).1.len() + resolve_state(entries, wanted).2.len() == count_given(
            resolve_state(entries, wanted).0,
        ),
    decreases wanted.len(),
{
    if wanted.len() > 0 {
        law_entries_taken_once(entries, wanted.drop_last());
        let prev = resolve_state(entries, wanted.drop_last());
        let cur = resolve_state(entries, wanted);
        lemma_first_free(entries, prev.1, wanted.last(), false, 0);
        lemma_first_free(entries, prev.2, wanted.last(), true, 0);
        assert(cur.0.drop_last() == prev.0);
    }
}


// ---------------------------------------------------------------------------
// Persisting a turn
// ---------------------------------------------------------------------------

/// Whether message positions must be continued from the history's last
/// one: when the log could not be matched, or some message found no entry.
pub fn needs_index_fallback(indices: &Option<Vec<Option<i32>>>) -> (r: bool)
    ensures
        r == match indices {
            None => true,
            Some(v) => exists|k: int| 0 <= k < v@.len() && (#[trigger] v@[k]) is None,
        },
{
    match indices {
        None => true,
        Some(v) => {
            let mut k: usize = 0;
            while k < v.len()
                invariant
                    0 <= k <= v@.len(),
                    *indices == Some(*v),
                    forall|j: int| 0 <= j < k ==> (#[trigger] v@[j]) is Some,
                decreases v.len() - k,
            {
                let item = v[k];
                if item.is_none() {
                    assert(v@[k as int] is None);
                    assert(exists|q: int| 0 <= q < v@.len() && (#[trigger] v@[q]) is None);
                    return true;
                }
                k = k + 1;
            }
            false
        },
    }
}

/// The number of messages the history holds, given its last position, as
/// the persister counts them.
pub open spec fn existing_count(max_idx: i32) -> usize {
    (max_idx + 1) as usize
}

/// Whether Pi now holds fewer messages than the history already has (its
/// context was compacted): then only the record's details are updated and
/// the messages are left as they are.
pub fn compaction_detected(message_count: usize, existing_max_idx: Option<i32>) -> (r: bool)
    requires
        existing_max_idx matches Some(m) ==> m < i32::MAX,
    ensures
        r == match existing_max_idx {
            Some(m) => message_count < existing_count(m),
            None => false,
        },
{
    match existing_max_idx {
        Some(m) => {
            let existing: usize = (m + 1) as usize;
            message_count < existing
        },
        None => false,
    }
}

/// The position a message is stored at: its log position; else the
/// fallback start plus its place; else its place.
pub open spec fn stored_index(log_index: Option<i32>, fallback_start: Option<i32>, i: int) -> int {
    match log_index {
        Some(x) => x as int,
        None => match fallback_start {
            Some(b) => b + i,
            None => i,
        },
    }
}

/// The stored positions of `count` messages.
pub fn message_positions(indices: &Option<Vec<Option<i32>>>, fallback_start: Option<i32>, count: usize) -> (res: Vec<
    i32,
>)
    requires
        count <= i32::MAX + 1,
        fallback_start matches Some(b) ==> b + count <= i32::MAX + 1,
    ensures
        res@.len() == count,
        forall|i: int|
            0 <= i < count ==> (#[trigger] res@[i]) as int == stored_index(
                match indices {
                    Some(v) => if i < v@.len() {
                        v@[i]
                    } else {
                        None
                    },
                    None => None,
                },
                fallback_start,
                i,
            ),
{
    let mut res: Vec<i32> = Vec::new();
    let mut i: usize = 0;
    while i < count
        invariant
            0 <= i <= count,
            count <= i32::MAX + 1,
            fallback_start matches Some(b) ==> b + count <= i32::MAX + 1,
            res@.len() == i,
            forall|j: int|
                0 <= j < i ==> (#[trigger] res@[j]) as int == stored_index(
                    match indices {
                        Some(v) => if j < v@.len() {
                            v@[j]
                        } else {
                            None
                        },
                        None => None,
                    },
                    fallback_start,
                    j,
                ),
        decreases count - i,
    {
        let log_index: Option<i32> = match indices {
            Some(v) => if i < v.len() {
                v[i]
            } else {
                None
            },
            None => None,
        };
        let idx: i32 = match log_index {
            Some(x) => x,
            None => match fallback_start {
                Some(b) => b + (i as i32),
                None => i as i32,
            },
        };
        res.push(idx);
        i = i + 1;
    }
    res
}

/// Whether a role is the user's.
pub open spec fn is_user_role(role: Seq<char>) -> bool {
    role == "user"@ || role == "human"@
}

/// The place of the last user message, which carries the client's id.
pub fn last_user_position(roles: &Vec<String>) -> (r: Option<usize>)
    ensures
        match r {
            Some(p) => p < roles@.len() && is_user_role(roles@[p as int]@) && forall|j: int|
                p < j < roles@.len() ==> !is_user_role((#[trigger] roles@[j])@),
            None => forall|j: int| 0 <= j < roles@.len() ==> !is_user_role((#[trigger] roles@[j])@),
        },
{
    let mut k: usize = roles.len();
    while k > 0
        invariant
            0 <= k <= roles@.len(),
            forall|j: int| k <= j < roles@.len() ==> !is_user_role((#[trigger] roles@[j])@),
        decreases k,
    {
        let r = roles[k - 1].as_str();
        if str_eq(r, "user") || str_eq(r, "human") {
            return Some(k - 1);
        }
        k = k - 1;
    }
    None
}

/// Token counts of one message's usage.
#[derive(Debug, Clone, Copy, PartialEq, Eq)]
pub struct TokenUsage {
    pub input: u64,
    pub output: u64,
    pub cache_read: u64,
    pub cache_write: u64,
}

/// Token totals of a turn.
#[derive(Debug, Clone, Copy, PartialEq, Eq)]
pub struct TokenDelta {
    pub tokens_in: i64,
    pub tokens_out: i64,
    pub cache_read: i64,
    pub cache_write: i64,
}

/// The sum of one count over the usages present.
pub open spec fn usage_sum(usages: Seq<Option<TokenUsage>>, field: int) -> int
    decreases usages.len(),
{
    if usages.len() == 0 {
        0
    } else {
        usage_sum(usages.drop_last(), field) + match usages.last() {
            Some(u) => if field == 0 {
                u.input as int
            } else if field == 1 {
                u.output as int
            } else if field == 2 {
                u.cache_read as int
            } else {
                u.cache_write as int
            },
            None => 0,
        }
    }
}

proof fn lemma_usage_sum_mono(usages: Seq<Option<TokenUsage>>, n: int, field: int)
    requires
        0 <= n <= usages.len(),
    ensures
        0 <= usage_sum(usages.take(n), field) <= usage_sum(usages, field),
    decreases usages.len() - n,
{
    lemma_usage_sum_nonneg(usages.take(n), field);
    if n < usages.len() {
        lemma_usage_sum_mono(usages, n + 1, field);
        assert(usages.take(n + 1).drop_last() == usages.take(n));
        assert(usage_sum(usages.take(n), field) <= usage_sum(usages.take(n + 1), field));
    } else {
        assert(usages.take(n) == usages);
    }
}

proof fn lemma_usage_sum_nonneg(usages: Seq<Option<TokenUsage>>, field: int)
    ensures
        usage_sum(usages, field) >= 0,
    decreases usages.len(),
{
    if usages.len() > 0 {
        lemma_usage_sum_nonneg(usages.drop_last(), field);
    }
}

/// The token totals of a turn's messages, or `None` when no message
/// reports usage. (The turn's cost, a float, is summed by the caller.)
pub fn token_delta(usages: &Vec<Option<TokenUsage>>) -> (res: Option<TokenDelta>)
    requires
        usage_sum(usages@, 0) <= i64::MAX,
        usage_sum(usages@, 1) <= i64::MAX,
        usage_sum(usages@, 2) <= i64::MAX,
        usage_sum(usages@, 3) <= i64::MAX,
    ensures
        match res {
            None => forall|k: int| 0 <= k < usages@.len() ==> (#[trigger] usages@[k]) is None,
            Some(d) => (exists|k: int| 0 <= k < usages@.len() && (#[trigger] usages@[k]) is Some) && d.tokens_in
                == usage_sum(usages@, 0) && d.tokens_out == usage_sum(usages@, 1) && d.cache_read == usage_sum(
                usages@,
                2,
            ) && d.cache_write == usage_sum(usages@, 3),
        },
{
    let mut d = TokenDelta { tokens_in: 0, tokens_out: 0, cache_read: 0, cache_write: 0 };
    let mut saw = false;
    let mut i: usize = 0;
    while i < usages.len()
        invariant
            0 <= i <= usages@.len(),
            usage_sum(usages@, 0) <= i64::MAX,
            usage_sum(usages@, 1) <= i64::MAX,
            usage_sum(usages@, 2) <= i64::MAX,
            usage_sum(usages@, 3) <= i64::MAX,
            d.tokens_in == usage_sum(usages@.take(i as int), 0),
            d.tokens_out == usage_sum(usages@.take(i as int), 1),
            d.cache_read == usage_sum(usages@.take(i as int), 2),
            d.cache_write == usage_sum(usages@.take(i as int), 3),
            saw == exists|k: int| 0 <= k < i && (#[trigger] usages@[k]) is Some,
        decreases usages.len() - i,
    {
        assert(usages@.take(i + 1).drop_last() == usages@.take(i as int));
        assert(usages@.take(i + 1).last() == usages@[i as int]);
        proof {
            lemma_usage_sum_nonneg(usages@.take(i as int), 0);
            lemma_usage_sum_nonneg(usages@.take(i as int), 1);
            lemma_usage_sum_nonneg(usages@.take(i as int), 2);
            lemma_usage_sum_nonneg(usages@.take(i as int), 3);
            lemma_usage_sum_mono(usages@, i + 1, 0);
            lemma_usage_sum_mono(usages@, i + 1, 1);
            lemma_usage_sum_mono(usages@, i + 1, 2);
            lemma_usage_sum_mono(usages@, i + 1, 3);
        }
        match usages[i] {
            Some(u) => {
                assert(usages@[i as int] == Some(u));
                assert(usage_sum(usages@.take(i + 1), 0) == usage_sum(usages@.take(i as int), 0) + u.input as int);
                assert(usage_sum(usages@.take(i + 1), 1) == usage_sum(usages@.take(i as int), 1) + u.output as int);
                assert(usage_sum(usages@.take(i + 1), 2) == usage_sum(usages@.take(i as int), 2) + u.cache_read as int);
                assert(usage_sum(usages@.take(i + 1), 3) == usage_sum(usages@.take(i as int), 3) + u.cache_write as int);
                saw = true;
                d.tokens_in = d.tokens_in + (u.input as i64);
                d.tokens_out = d.tokens_out + (u.output as i64);
                d.cache_read = d.cache_read + (u.cache_read as i64);
                d.cache_write = d.cache_write + (u.cache_write as i64);
            },
            None => {},
        }
        i = i + 1;
    }
    assert(usages@.take(usages@.len() as int) == usages@);
    if saw {
        Some(d)
    } else {
        None
    }
}

/// Token totals kept in a history record's metadata: those recorded so
/// far (absent ones counting as zero) plus the turn's.
pub fn merged_token_stats(existing: [Option<i64>; 4], delta: TokenDelta) -> (res: TokenDelta)
    requires
        i64::MIN <= (match existing[0] {
            Some(v) => v as int,
            None => 0,
        }) + delta.tokens_in <= i64::MAX,
        i64::MIN <= (match existing[1] {
            Some(v) => v as int,
            None => 0,
        }) + delta.tokens_out <= i64::MAX,
        i64::MIN <= (match existing[2] {
            Some(v) => v as int,
            None => 0,
        }) + delta.cache_read <= i64::MAX,
        i64::MIN <= (match existing[3] {
            Some(v) => v as int,
            None => 0,
        }) + delta.cache_write <= i64::MAX,
    ensures
        res.tokens_in == (match existing[0] {
            Some(v) => v as int,
            None => 0,
        }) + delta.tokens_in,
        res.tokens_out == (match existing[1] {
            Some(v) => v as int,
            None => 0,
        }) + delta.tokens_out,
        res.cache_read == (match existing[2] {
            Some(v) => v as int,
            None => 0,
        }) + delta.cache_read,
        res.cache_write == (match existing[3] {
            Some(v) => v as int,
            None => 0,
        }) + delta.cache_write,
{
    let a: i64 = match existing[0] {
        Some(v) => v,
        None => 0,
    };
    let b: i64 = match existing[1] {
        Some(v) => v,
        None => 0,
    };
    let c: i64 = match existing[2] {
        Some(v) => v,
        None => 0,
    };
    let d: i64 = match existing[3] {
        Some(v) => v,
        None => 0,
    };
    TokenDelta {
        tokens_in: a + delta.tokens_in,
        tokens_out: b + delta.tokens_out,
        cache_read: c + delta.cache_read,
        cache_write: d + delta.cache_write,
    }
}

} // verus!
