//! Decisions of the task that reads a Pi process's output.
//!
//! The reader follows each session's Pi process: it keeps the tail of its
//! stderr for crash reports, routes responses to whoever waits for them,
//! adopts Pi's own session id as the history key once it is known, keeps
//! the history's title in step, and paces incremental persistence while a
//! turn streams. The reading, the history calls and the timers stay with
//! the caller; the decisions are here.
use vstd::prelude::*;
use crate::admin::join_with;
use crate::text::{push_str, str_eq, to_owned_string, trim, trimmed};

verus! {

/// How many stderr lines are kept.
pub const STDERR_RING_CAPACITY: usize = 50;

/// How many of the kept stderr lines a crash report quotes.
pub const STDERR_TAIL_LINES: usize = 20;

/// The least time between two incremental persists, in nanoseconds.
pub const INCREMENTAL_PERSIST_INTERVAL_NS: u128 = 5_000_000_000;

/// The request id of the state requests the reader itself sends.
pub const STATE_REQUEST_ID: &'static str = "get_state";

/// The request id of the message requests behind incremental persistence.
pub const INCREMENTAL_PERSIST_ID: &'static str = "_incremental_persist";

pub open spec fn strs(v: Seq<String>) -> Seq<Seq<char>> {
    v.map_values(|s: String| s@)
}

/// The kept stderr lines after one more line: blank lines are skipped;
/// when the buffer is full its oldest line goes.
pub open spec fn ring_after(ring: Seq<Seq<char>>, line: Seq<char>) -> Seq<Seq<char>> {
    if trim(line).len() == 0 {
        ring
    } else if ring.len() >= STDERR_RING_CAPACITY {
        ring.skip(1).push(line)
    } else {
        ring.push(line)
    }
}

/// Keeps a stderr line in the ring buffer.
pub fn remember_stderr_line(ring: &mut Vec<String>, line: &str)
    ensures
        strs(final(ring)@) == ring_after(strs(old(ring)@), line@),
{
    let t = trimmed(line);
    if t.as_str().is_empty() {
        return;
    }
    let ghost before = strs(ring@);
    if ring.len() >= STDERR_RING_CAPACITY {
        let ghost r0 = ring@;
        ring.remove(0);
        assert(strs(ring@) =~= before.skip(1)) by {
            assert(ring@ == r0.remove(0));
        }
    }
    let ghost mid = ring@;
    ring.push(to_owned_string(line));
    assert(strs(ring@) =~= strs(mid).push(line@)) by {
        assert(ring@ == mid.push(ring@.last()));
    }
}

/// The ring never holds more lines than its capacity.
pub proof fn law_ring_bounded(ring: Seq<Seq<char>>, line: Seq<char>)
    requires
        ring.len() <= STDERR_RING_CAPACITY,
    ensures
        ring_after(ring, line).len() <= STDERR_RING_CAPACITY,
        trim(line).len() > 0 ==> ring_after(ring, line).last() == line,
{
}

/// The last `n` lines, or all when there are fewer.
pub open spec fn last_lines(lines: Seq<Seq<char>>, n: nat) -> Seq<Seq<char>> {
    if lines.len() > n {
        lines.skip(lines.len() - n)
    } else {
        lines
    }
}

/// The error reported when the Pi process exits: with the last stderr
/// lines when there are any.
pub open spec fn exit_message(stderr: Seq<Seq<char>>) -> Seq<char> {
    if stderr.len() == 0 {
        "Agent process exited"@
    } else {
        "Agent process exited. Last stderr output:\n"@ + join_with(last_lines(stderr, STDERR_TAIL_LINES as nat), "\n"@)
    }
}

/// The error message of a process exit, quoting the last stderr lines.
pub fn exit_error_message(stderr: &Vec<String>) -> (res: String)
    ensures
        res@ == exit_message(strs(stderr@)),
{
    if stderr.len() == 0 {
        return to_owned_string("Agent process exited");
    }
    let start: usize = if stderr.len() > STDERR_TAIL_LINES {
        stderr.len() - STDERR_TAIL_LINES
    } else {
        0
    };
    let ghost all = strs(stderr@);
    let ghost tail = last_lines(all, STDERR_TAIL_LINES as nat);
    assert(tail =~= all.skip(start as int));
    let mut out = to_owned_string("Agent process exited. Last stderr output:\n");
    let ghost head = out@;
    let mut i: usize = start;
    while i < stderr.len()
        invariant
            start <= i <= stderr@.len(),
            all == strs(stderr@),
            tail == all.skip(start as int),
            out@ == head + join_with(tail.take(i - start), "\n"@),
        decreases stderr.len() - i,
    {
        assert(tail.take(i - start + 1).drop_last() == tail.take(i - start));
        assert(tail.take(i - start + 1).last() == stderr@[i as int]@);
        if i > start {
            push_str(&mut out, "\n");
        }
        push_str(&mut out, stderr[i].as_str());
        i = i + 1;
    }
    assert(tail.take(stderr@.len() - start) == tail);
    out
}

/// What the reader does with a response from Pi.
#[derive(Debug, Clone, PartialEq, Eq)]
pub struct ResponseHandling {
    /// Read the session id and title out of a state snapshot.
    pub inspect_state: bool,
    /// Persist the messages of an incremental-persistence request.
    pub incremental: bool,
    /// Hand the response to the caller waiting under this id.
    pub deliver_to: Option<String>,
}

/// How a response with the given id is handled: state snapshots are read
/// and still delivered; incremental-persistence answers are the reader's
/// own and go nowhere else; any other response with an id goes to its
/// waiter.
pub fn response_handling(id: Option<&str>, has_data: bool) -> (res: ResponseHandling)
    ensures
        res.inspect_state == (id is Some && id->0@ == STATE_REQUEST_ID@ && has_data),
        res.incremental == (id is Some && id->0@ == INCREMENTAL_PERSIST_ID@),
        match res.deliver_to {
            Some(d) => id is Some && id->0@ != INCREMENTAL_PERSIST_ID@ && d@ == id->0@,
            None => id is None || id->0@ == INCREMENTAL_PERSIST_ID@,
        },
{
    proof {
        reveal_strlit("get_state");
        reveal_strlit("_incremental_persist");
        assert(STATE_REQUEST_ID@.len() == 9);
        assert(INCREMENTAL_PERSIST_ID@.len() == 20);
    }
    match id {
        None => ResponseHandling { inspect_state: false, incremental: false, deliver_to: None },
        Some(i) => {
            if str_eq(i, INCREMENTAL_PERSIST_ID) {
                ResponseHandling { inspect_state: false, incremental: true, deliver_to: None }
            } else {
                ResponseHandling {
                    inspect_state: str_eq(i, STATE_REQUEST_ID) && has_data,
                    incremental: false,
                    deliver_to: Some(to_owned_string(i)),
                }
            }
        },
    }
}

/// What adopting Pi's own session id asks of the caller.
#[derive(Debug, Clone, PartialEq, Eq)]
pub struct Rekey {
    /// The history record kept under the old key moves to the new one.
    pub migrate_from: Option<String>,
    /// Pi's id becomes an alias of the session's own id.
    pub alias: bool,
    /// The history record under the new key is made sure of.
    pub ensure_conversation: bool,
}

/// The reader's own state for one session.
#[derive(Debug, Clone)]
pub struct ReaderState {
    /// Whether Pi's own session id has been adopted.
    pub native_id_known: bool,
    /// The key of the session's history record.
    pub external_id: String,
    /// The title last written to the history.
    pub last_synced_title: String,
    /// Whether Pi has sent an event yet.
    pub first_event_seen: bool,
    /// Whether an incremental persist is under way.
    pub persist_in_flight: bool,
    /// When the last incremental persist was started (nanoseconds on the
    /// caller's monotonic clock).
    pub last_persist_ns: u128,
}

impl ReaderState {
    /// The state of a fresh session: keyed by its own id, nothing seen.
    pub fn new(session_id: &str, now_ns: u128) -> (s: ReaderState)
        ensures
            !s.native_id_known,
            s.external_id@ == session_id@,
            s.last_synced_title@ == Seq::<char>::empty(),
            !s.first_event_seen,
            !s.persist_in_flight,
            s.last_persist_ns == now_ns,
    {
        ReaderState {
            native_id_known: false,
            external_id: to_owned_string(session_id),
            last_synced_title: String::new(),
            first_event_seen: false,
            persist_in_flight: false,
            last_persist_ns: now_ns,
        }
    }

    /// A state snapshot named Pi's session id: the first non-empty one is
    /// adopted as the history key. The old record is migrated when the key
    /// changes and a history service is there; Pi's id becomes an alias
    /// when it differs from the session's id.
    pub fn on_native_id(&mut self, session_id: &str, pi_session_id: &str, has_history: bool) -> (res: Option<Rekey>)
        ensures
            !adopts_native_id(old(self).native_id_known, pi_session_id@) ==> (res is None && *final(self) == *old(
                self,
            )),
            adopts_native_id(old(self).native_id_known, pi_session_id@) ==> ({
                &&& res is Some
                &&& final(self).native_id_known
                &&& final(self).external_id@ == pi_session_id@
                &&& final(self).last_synced_title == old(self).last_synced_title
                &&& final(self).first_event_seen == old(self).first_event_seen
                &&& final(self).persist_in_flight == old(self).persist_in_flight
                &&& final(self).last_persist_ns == old(self).last_persist_ns
                &&& match res->0.migrate_from {
                    Some(m) => has_history && old(self).external_id@ != pi_session_id@ && m@ == old(
                        self,
                    ).external_id@,
                    None => !has_history || old(self).external_id@ == pi_session_id@,
                }
                &&& res->0.alias == (pi_session_id@ != session_id@)
                &&& res->0.ensure_conversation == has_history
            }),
    {
        if self.native_id_known || pi_session_id.is_empty() {
            return None;
        }
        let changed = !str_eq(self.external_id.as_str(), pi_session_id);
        let migrate_from = if changed && has_history {
            Some(to_owned_string(self.external_id.as_str()))
        } else {
            None
        };
        self.native_id_known = true;
        self.external_id = to_owned_string(pi_session_id);
        Some(Rekey {
            migrate_from,
            alias: !str_eq(pi_session_id, session_id),
            ensure_conversation: has_history,
        })
    }

    /// A title arrived: it is written to the history when it is not empty
    /// and differs from the title written last.
    pub fn on_title(&mut self, title: &str) -> (sync: bool)
        ensures
            sync == title_sync(old(self).last_synced_title@, title@),
            sync ==> final(self).last_synced_title@ == title@,
            !sync ==> final(self).last_synced_title == old(self).last_synced_title,
            final(self).native_id_known == old(self).native_id_known,
            final(self).external_id == old(self).external_id,
            final(self).first_event_seen == old(self).first_event_seen,
            final(self).persist_in_flight == old(self).persist_in_flight,
            final(self).last_persist_ns == old(self).last_persist_ns,
    {
        if title.is_empty() || str_eq(self.last_synced_title.as_str(), title) {
            return false;
        }
        self.last_synced_title = to_owned_string(title);
        true
    }

    /// Pi sent an event: on the first one the reader asks for a state
    /// snapshot, to learn Pi's session id before any turn ends.
    pub fn on_event(&mut self) -> (request_state: bool)
        ensures
            request_state == !old(self).first_event_seen,
            final(self).first_event_seen,
            final(self).native_id_known == old(self).native_id_known,
            final(self).external_id == old(self).external_id,
            final(self).last_synced_title == old(self).last_synced_title,
            final(self).persist_in_flight == old(self).persist_in_flight,
            final(self).last_persist_ns == old(self).last_persist_ns,
    {
        let first = !self.first_event_seen;
        self.first_event_seen = true;
        first
    }

    /// A turn ended at `now_ns`: an incremental persist starts when a
    /// history service is there, none is under way, and the last one
    /// started at least the interval ago.
    pub fn on_turn_end(&mut self, now_ns: u128, has_history: bool) -> (start: bool)
        ensures
            start == turn_end_start(old(self).persist_in_flight, old(self).last_persist_ns, now_ns, has_history),
            start ==> final(self).persist_in_flight && final(self).last_persist_ns == now_ns,
            !start ==> *final(self) == *old(self),
    {
        let elapsed: u128 = if now_ns >= self.last_persist_ns {
            now_ns - self.last_persist_ns
        } else {
            0
        };
        if elapsed >= INCREMENTAL_PERSIST_INTERVAL_NS && has_history && !self.persist_in_flight {
            self.last_persist_ns = now_ns;
            self.persist_in_flight = true;
            true
        } else {
            false
        }
    }

    /// The request for an incremental persist could not be sent.
    pub fn on_persist_request_failed(&mut self)
        ensures
            !final(self).persist_in_flight,
            final(self).last_persist_ns == old(self).last_persist_ns,
            final(self).first_event_seen == old(self).first_event_seen,
            final(self).native_id_known == old(self).native_id_known,
            final(self).external_id == old(self).external_id,
            final(self).last_synced_title == old(self).last_synced_title,
    {
        self.persist_in_flight = false;
    }

    /// The messages for an incremental persist arrived: they are persisted
    /// when the request succeeded, there are any, and a history service is
    /// there. Either way the persist is no longer under way.
    pub fn on_incremental_messages(&mut self, success: bool, message_count: usize, has_history: bool) -> (persist:
        bool)
        ensures
            persist == (success && message_count > 0 && has_history),
            !final(self).persist_in_flight,
            final(self).last_persist_ns == old(self).last_persist_ns,
            final(self).first_event_seen == old(self).first_event_seen,
            final(self).native_id_known == old(self).native_id_known,
            final(self).external_id == old(self).external_id,
            final(self).last_synced_title == old(self).last_synced_title,
    {
        self.persist_in_flight = false;
        success && message_count > 0 && has_history
    }
}

/// Whether the messages of a finished turn are persisted before the turn's
/// events go out: when there are any and a history service is there.
pub fn persist_on_agent_end(message_count: usize, has_history: bool) -> (r: bool)
    ensures
        r == (message_count > 0 && has_history),
{
    message_count > 0 && has_history
}

/// Whether a state snapshot naming `pi_session_id` makes the reader adopt
/// it.
pub open spec fn adopts_native_id(known: bool, pi_session_id: Seq<char>) -> bool {
    !known && pi_session_id.len() > 0
}

/// Whether a title is written to the history.
pub open spec fn title_sync(last_synced: Seq<char>, title: Seq<char>) -> bool {
    title.len() > 0 && title != last_synced
}

/// Whether a turn end starts an incremental persist.
pub open spec fn turn_end_start(in_flight: bool, last_ns: u128, now_ns: u128, has_history: bool) -> bool {
    has_history && !in_flight && now_ns >= last_ns && now_ns - last_ns >= INCREMENTAL_PERSIST_INTERVAL_NS
}

/// Pi's session id is adopted at most once: once adopted, no later
/// snapshot rekeys the history.
pub proof fn law_native_id_adopted_once(pi_session_id: Seq<char>, later: Seq<char>)
    ensures
        adopts_native_id(false, pi_session_id) ==> !adopts_native_id(true, later),
{
}

/// A title is written once per change: the same title arriving again is
/// not written again.
pub proof fn law_title_written_once(last_synced: Seq<char>, title: Seq<char>)
    ensures
        title_sync(last_synced, title) ==> !title_sync(title, title),
{
}

/// At most one incremental persist is under way: after a turn end starts
/// one, the next turn end before its answer starts none.
pub proof fn law_one_persist_under_way(last_ns: u128, now1: u128, now2: u128, has_history: bool)
    ensures
        turn_end_start(false, last_ns, now1, has_history) ==> !turn_end_start(true, now1, now2, has_history),
{
}

} // verus!
