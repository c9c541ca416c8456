use oqto::history::{parse_role, token_count, tool_output_value, Role, ToolOutput};

#[test]
fn legacy_roles_are_mapped() {
    assert_eq!(parse_role("user"), Role::User);
    assert_eq!(parse_role("Human"), Role::User);
    assert_eq!(parse_role("ASSISTANT"), Role::Assistant);
    assert_eq!(parse_role("bot"), Role::Assistant);
    assert_eq!(parse_role("system"), Role::System);
    assert_eq!(parse_role("Tool_Result"), Role::Tool);
    assert_eq!(parse_role("function"), Role::Tool);
    assert_eq!(parse_role("narrator"), Role::User);
}

#[test]
fn token_counts_are_never_negative() {
    assert_eq!(token_count(Some(42)), 42);
    assert_eq!(token_count(Some(-5)), 0);
    assert_eq!(token_count(None), 0);
}

#[test]
fn tool_outputs_are_json_where_they_parse() {
    match tool_output_value("{\"ok\": true}") {
        ToolOutput::Json(v) => assert_eq!(v["ok"], true),
        other => panic!("unexpected {other:?}"),
    }
    match tool_output_value("plain text") {
        ToolOutput::Text(s) => assert_eq!(s, "plain text"),
        other => panic!("unexpected {other:?}"),
    }
}
