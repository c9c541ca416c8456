use oqto::pi_reader::{
    exit_error_message, persist_on_agent_end, remember_stderr_line, response_handling,
    ReaderState, Rekey, ResponseHandling, STDERR_RING_CAPACITY,
};

#[test]
fn stderr_ring_keeps_the_last_lines() {
    let mut ring: Vec<String> = Vec::new();
    remember_stderr_line(&mut ring, "   ");
    assert!(ring.is_empty());
    for i in 0..60 {
        remember_stderr_line(&mut ring, &format!("line {i}"));
    }
    assert_eq!(ring.len(), STDERR_RING_CAPACITY);
    assert_eq!(ring[0], "line 10");
    assert_eq!(ring[49], "line 59");
}

#[test]
fn exit_message_quotes_the_last_twenty_lines() {
    assert_eq!(exit_error_message(&vec![]), "Agent process exited");
    let two = vec!["a".to_string(), "b".to_string()];
    assert_eq!(exit_error_message(&two), "Agent process exited. Last stderr output:\na\nb");
    let many: Vec<String> = (0..25).map(|i| format!("l{i}")).collect();
    let expected = format!(
        "Agent process exited. Last stderr output:\n{}",
        (5..25).map(|i| format!("l{i}")).collect::<Vec<_>>().join("\n")
    );
    assert_eq!(exit_error_message(&many), expected);
}

#[test]
fn responses_are_routed_by_id() {
    assert_eq!(
        response_handling(Some("get_state"), true),
        ResponseHandling { inspect_state: true, incremental: false, deliver_to: Some("get_state".to_string()) }
    );
    assert_eq!(
        response_handling(Some("get_state"), false),
        ResponseHandling { inspect_state: false, incremental: false, deliver_to: Some("get_state".to_string()) }
    );
    assert_eq!(
        response_handling(Some("_incremental_persist"), true),
        ResponseHandling { inspect_state: false, incremental: true, deliver_to: None }
    );
    assert_eq!(
        response_handling(Some("req-7"), true),
        ResponseHandling { inspect_state: false, incremental: false, deliver_to: Some("req-7".to_string()) }
    );
    assert_eq!(
        response_handling(None, true),
        ResponseHandling { inspect_state: false, incremental: false, deliver_to: None }
    );
}

#[test]
fn native_session_id_is_adopted_once() {
    let mut s = ReaderState::new("oqto-1", 0);
    assert_eq!(s.on_native_id("oqto-1", "", true), None);
    assert_eq!(
        s.on_native_id("oqto-1", "pi-abc", true),
        Some(Rekey { migrate_from: Some("oqto-1".to_string()), alias: true, ensure_conversation: true })
    );
    assert_eq!(s.external_id, "pi-abc");
    assert!(s.native_id_known);
    assert_eq!(s.on_native_id("oqto-1", "pi-other", true), None);
    assert_eq!(s.external_id, "pi-abc");
}

#[test]
fn native_id_equal_to_the_session_id_needs_no_migration() {
    let mut s = ReaderState::new("same", 0);
    assert_eq!(
        s.on_native_id("same", "same", true),
        Some(Rekey { migrate_from: None, alias: false, ensure_conversation: true })
    );
    let mut t = ReaderState::new("oqto-2", 0);
    assert_eq!(
        t.on_native_id("oqto-2", "pi-x", false),
        Some(Rekey { migrate_from: None, alias: true, ensure_conversation: false })
    );
}

#[test]
fn titles_are_written_once_per_change() {
    let mut s = ReaderState::new("s", 0);
    assert!(!s.on_title(""));
    assert!(s.on_title("Fix the build"));
    assert!(!s.on_title("Fix the build"));
    assert!(s.on_title("Fix the tests"));
    assert_eq!(s.last_synced_title, "Fix the tests");
}

#[test]
fn first_event_asks_for_state() {
    let mut s = ReaderState::new("s", 0);
    assert!(s.on_event());
    assert!(!s.on_event());
}

#[test]
fn incremental_persists_are_paced_and_single() {
    let sec: u128 = 1_000_000_000;
    let mut s = ReaderState::new("s", 0);
    assert!(!s.on_turn_end(4 * sec, true));
    assert!(s.on_turn_end(5 * sec, true));
    assert!(s.persist_in_flight);
    assert!(!s.on_turn_end(20 * sec, true));
    assert!(s.on_incremental_messages(true, 3, true));
    assert!(!s.persist_in_flight);
    assert!(!s.on_turn_end(9 * sec, true));
    assert!(s.on_turn_end(10 * sec, true));
    s.on_persist_request_failed();
    assert!(!s.persist_in_flight);
    assert!(!s.on_turn_end(30 * sec, false));
    assert!(!s.on_incremental_messages(true, 0, true));
    assert!(!s.on_incremental_messages(false, 2, true));
}

#[test]
fn finished_turns_are_persisted_when_there_is_history() {
    assert!(persist_on_agent_end(2, true));
    assert!(!persist_on_agent_end(0, true));
    assert!(!persist_on_agent_end(2, false));
}
