use oqto::pi_history::{
    compaction_detected, last_user_position, message_positions, needs_index_fallback,
    merged_token_stats, token_delta, TokenDelta, TokenUsage,
    build_jsonl_key, jsonl_message_entries, message_signature, parse_entry_timestamp,
    resolve_message_indices, session_name_from_lines, ContentBlock, HistoryMessage, JsonlLine,
    MessageContent, SessionInfoLine,
};

fn block(kind: Option<&str>, text: Option<&str>, thinking: Option<&str>) -> ContentBlock {
    ContentBlock {
        kind: kind.map(|s| s.to_string()),
        text: text.map(|s| s.to_string()),
        thinking: thinking.map(|s| s.to_string()),
    }
}

fn text_message(role: &str, text: &str, timestamp: Option<u64>) -> HistoryMessage {
    HistoryMessage {
        role: role.to_string(),
        content: MessageContent::Text(text.to_string()),
        timestamp,
        tool_call_id: None,
        tool_name: None,
    }
}

fn message_line(message: HistoryMessage, timestamp: Option<&str>) -> JsonlLine {
    JsonlLine {
        entry_type: "message".to_string(),
        message: Some(message),
        timestamp: timestamp.map(|s| s.to_string()),
    }
}

#[test]
fn signature_of_plain_text_is_trimmed() {
    assert_eq!(message_signature(&MessageContent::Text("  hello \n".to_string())), "hello");
}

#[test]
fn signature_joins_text_and_thinking_blocks() {
    let content = MessageContent::Blocks(vec![
        block(Some("text"), Some("  first "), None),
        block(Some("tool_use"), Some("ignored"), None),
        block(Some("thinking"), None, Some("second")),
        block(Some("text"), Some("   "), None),
        block(None, Some("no type"), None),
        block(Some("text"), Some("third"), None),
    ]);
    assert_eq!(message_signature(&content), "first\nsecond\nthird");
}

#[test]
fn signature_of_other_content_is_empty() {
    assert_eq!(message_signature(&MessageContent::Other), "");
    assert_eq!(message_signature(&MessageContent::Blocks(vec![])), "");
}

#[test]
fn key_lowercases_the_role() {
    let mut m = text_message("Assistant", " Hi ", Some(5));
    m.tool_call_id = Some("call_1".to_string());
    let key = build_jsonl_key(&m, Some(7));
    assert_eq!(key.role, "assistant");
    assert_eq!(key.timestamp, Some(7));
    assert_eq!(key.content, "Hi");
    assert_eq!(key.tool_call_id.as_deref(), Some("call_1"));
    assert_eq!(key.tool_name, None);
}

#[test]
fn entry_timestamps_read_as_milliseconds() {
    assert_eq!(parse_entry_timestamp(Some("2024-01-01T00:00:00.123Z")), Some(1_704_067_200_123));
    assert_eq!(parse_entry_timestamp(Some("2024-01-01T01:00:00+01:00")), Some(1_704_067_200_000));
    assert_eq!(parse_entry_timestamp(Some("not a time")), None);
    assert_eq!(parse_entry_timestamp(Some("1969-12-31T23:59:59Z")), None);
    assert_eq!(parse_entry_timestamp(None), None);
}

#[test]
fn message_entries_are_numbered_in_order() {
    let lines = vec![
        JsonlLine { entry_type: "session".to_string(), message: None, timestamp: None },
        message_line(text_message("user", "one", None), Some("2024-01-01T00:00:00Z")),
        JsonlLine { entry_type: "message".to_string(), message: None, timestamp: None },
        message_line(text_message("assistant", "two", Some(42)), Some("2024-01-01T00:00:00Z")),
        JsonlLine {
            entry_type: "model_change".to_string(),
            message: Some(text_message("user", "x", None)),
            timestamp: None,
        },
    ];
    let entries = jsonl_message_entries(&lines);
    assert_eq!(entries.len(), 2);
    assert_eq!(entries[0].idx, 0);
    assert_eq!(entries[0].key.content, "one");
    assert_eq!(entries[0].key.timestamp, Some(1_704_067_200_000));
    assert_eq!(entries[1].idx, 1);
    assert_eq!(entries[1].key.timestamp, Some(42));
}

#[test]
fn session_title_is_the_last_named_session_info() {
    let lines = vec![
        SessionInfoLine { entry_type: "session_info".to_string(), name: Some("first".to_string()) },
        SessionInfoLine { entry_type: "message".to_string(), name: Some("not a title".to_string()) },
        SessionInfoLine { entry_type: "session_info".to_string(), name: Some("second".to_string()) },
        SessionInfoLine { entry_type: "session_info".to_string(), name: None },
    ];
    assert_eq!(session_name_from_lines(&lines).as_deref(), Some("second"));
    assert_eq!(session_name_from_lines(&vec![]), None);
}

fn entries_for(messages: Vec<HistoryMessage>) -> Vec<oqto::pi_history::JsonlMessageEntry> {
    let lines: Vec<JsonlLine> = messages.into_iter().map(|m| message_line(m, None)).collect();
    jsonl_message_entries(&lines)
}

#[test]
fn messages_take_their_exact_entries_first() {
    let entries = entries_for(vec![
        text_message("user", "hello", Some(1)),
        text_message("assistant", "hi", Some(2)),
        text_message("user", "hello", Some(3)),
    ]);
    let messages = vec![
        text_message("user", "hello", Some(3)),
        text_message("user", "hello", Some(1)),
        text_message("assistant", "hi", Some(2)),
    ];
    assert_eq!(resolve_message_indices(&entries, &messages), vec![Some(2), Some(0), Some(1)]);
}

#[test]
fn messages_fall_back_to_keys_without_timestamp() {
    let entries = entries_for(vec![
        text_message("user", "hello", Some(1)),
        text_message("user", "hello", Some(5)),
    ]);
    let messages = vec![
        text_message("user", "hello", Some(99)),
        text_message("user", "hello", None),
        text_message("user", "hello", Some(98)),
        text_message("user", "bye", None),
    ];
    assert_eq!(resolve_message_indices(&entries, &messages), vec![Some(0), Some(1), None, None]);
}

#[test]
fn exact_and_loose_matches_draw_from_separate_queues() {
    let entries = entries_for(vec![text_message("user", "hello", Some(1))]);
    let messages = vec![text_message("user", "hello", Some(1)), text_message("user", "hello", Some(7))];
    // The exact match and the match without timestamp each hand out the entry once.
    assert_eq!(resolve_message_indices(&entries, &messages), vec![Some(0), Some(0)]);
}

#[test]
fn resolved_indices_point_at_matching_entries() {
    let entry_messages = vec![
        text_message("user", "a", Some(1)),
        text_message("assistant", "b", Some(2)),
        text_message("user", "a", Some(3)),
        text_message("user", "c", Some(4)),
    ];
    let entries = entries_for(entry_messages.clone());
    let messages = vec![
        text_message("user", "c", Some(10)),
        text_message("user", "a", Some(3)),
        text_message("user", "a", Some(11)),
        text_message("assistant", "b", None),
        text_message("user", "z", None),
    ];
    let res = resolve_message_indices(&entries, &messages);
    assert_eq!(res.len(), messages.len());
    for (m, r) in messages.iter().zip(res.iter()) {
        if let Some(idx) = r {
            let e = &entries[*idx as usize];
            let k = build_jsonl_key(m, None);
            assert_eq!(e.key.role, k.role);
            assert_eq!(e.key.content, k.content);
        }
    }
    assert_eq!(res, vec![Some(3), Some(2), Some(0), Some(1), None]);
}

#[test]
fn fallback_positions_are_needed_for_unmatched_messages() {
    assert!(needs_index_fallback(&None));
    assert!(needs_index_fallback(&Some(vec![Some(0), None])));
    assert!(!needs_index_fallback(&Some(vec![Some(0), Some(1)])));
    assert!(!needs_index_fallback(&Some(vec![])));
}

#[test]
fn compaction_is_detected_by_a_shorter_message_list() {
    assert!(compaction_detected(3, Some(9)));
    assert!(!compaction_detected(10, Some(9)));
    assert!(!compaction_detected(11, Some(9)));
    assert!(!compaction_detected(0, None));
}

#[test]
fn stored_positions_prefer_the_log() {
    let indices = Some(vec![Some(4), None, Some(9)]);
    assert_eq!(message_positions(&indices, Some(20), 4), vec![4, 21, 9, 23]);
    assert_eq!(message_positions(&indices, None, 4), vec![4, 1, 9, 3]);
    assert_eq!(message_positions(&None, None, 3), vec![0, 1, 2]);
    assert_eq!(message_positions(&None, Some(7), 2), vec![7, 8]);
}

#[test]
fn client_id_goes_on_the_last_user_message() {
    let roles: Vec<String> = ["user", "assistant", "human", "toolResult"].iter().map(|s| s.to_string()).collect();
    assert_eq!(last_user_position(&roles), Some(2));
    let none: Vec<String> = vec!["assistant".to_string()];
    assert_eq!(last_user_position(&none), None);
}

#[test]
fn token_totals_sum_reported_usage() {
    let u = |a: u64, b: u64, c: u64, d: u64| TokenUsage { input: a, output: b, cache_read: c, cache_write: d };
    assert_eq!(token_delta(&vec![None, None]), None);
    assert_eq!(
        token_delta(&vec![Some(u(10, 5, 1, 0)), None, Some(u(3, 2, 0, 4))]),
        Some(TokenDelta { tokens_in: 13, tokens_out: 7, cache_read: 1, cache_write: 4 })
    );
}

#[test]
fn recorded_token_stats_accumulate() {
    let delta = TokenDelta { tokens_in: 10, tokens_out: 5, cache_read: 2, cache_write: 1 };
    assert_eq!(
        merged_token_stats([Some(100), None, Some(3), Some(0)], delta),
        TokenDelta { tokens_in: 110, tokens_out: 5, cache_read: 5, cache_write: 1 }
    );
}
