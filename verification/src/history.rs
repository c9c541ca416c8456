//! Reading legacy chat history: roles and token counts as the canonical
//! message format has them.
use vstd::prelude::*;
use crate::json::{json_parsed, json_parses, parse_json};
use crate::text::{all_ascii, ascii_lower, str_eq, to_lowercase, lowercase, to_owned_string};

verus! {

/// The author of a canonical message.
#[derive(Debug, Clone, Copy, PartialEq, Eq, Structural)]
pub enum Role {
    User,
    Assistant,
    System,
    Tool,
}

/// The role a legacy role name stands for, compared in Unicode lowercase;
/// unknown names are taken as the user.
pub open spec fn role_of(name: Seq<char>) -> Role {
    let n = lowercase(name);
    if n == "user"@ || n == "human"@ {
        Role::User
    } else if n == "assistant"@ || n == "agent"@ || n == "ai"@ || n == "bot"@ {
        Role::Assistant
    } else if n == "system"@ {
        Role::System
    } else if n == "tool"@ || n == "function"@ || n == "toolresult"@ || n == "tool_result"@ {
        Role::Tool
    } else {
        Role::User
    }
}

/// Every legacy role name the history knows maps to its role, in any
/// letter case: `tool`, `function`, `toolresult` and `tool_result` are
/// tool results; `assistant`, `agent`, `ai` and `bot` the assistant;
/// `system` the system; `user` and `human` the user.
pub proof fn law_legacy_role_names(n: Seq<char>)
    ensures
        ({
            let l = lowercase(n);
            &&& (l == "tool"@ || l == "function"@ || l == "toolresult"@ || l == "tool_result"@) ==> role_of(n)
                == Role::Tool
            &&& (l == "assistant"@ || l == "agent"@ || l == "ai"@ || l == "bot"@) ==> role_of(n) == Role::Assistant
            &&& l == "system"@ ==> role_of(n) == Role::System
            &&& (l == "user"@ || l == "human"@) ==> role_of(n) == Role::User
            &&& !(l == "tool"@ || l == "function"@ || l == "toolresult"@ || l == "tool_result"@ || l == "assistant"@
                || l == "agent"@ || l == "ai"@ || l == "bot"@ || l == "system"@) ==> role_of(n) == Role::User
        }),
        all_ascii(n) ==> ({
            let l = n.map_values(|c: char| ascii_lower(c));
            &&& (l == "tool"@ || l == "function"@ || l == "toolresult"@ || l == "tool_result"@) ==> role_of(n)
                == Role::Tool
            &&& (l == "assistant"@ || l == "agent"@ || l == "ai"@ || l == "bot"@) ==> role_of(n) == Role::Assistant
        }),
{
    reveal_strlit("tool");
    reveal_strlit("function");
    reveal_strlit("toolresult");
    reveal_strlit("tool_result");
    reveal_strlit("assistant");
    reveal_strlit("agent");
    reveal_strlit("ai");
    reveal_strlit("bot");
    reveal_strlit("system");
    reveal_strlit("user");
    reveal_strlit("human");
    let l = lowercase(n);
    assert("tool"@.len() == 4 && "tool"@[0] == 't');
    assert("function"@.len() == 8 && "function"@[0] == 'f');
    assert("toolresult"@.len() == 10 && "toolresult"@[0] == 't');
    assert("tool_result"@.len() == 11 && "tool_result"@[0] == 't');
    assert("assistant"@.len() == 9 && "assistant"@[0] == 'a');
    assert("agent"@.len() == 5 && "agent"@[0] == 'a');
    assert("ai"@.len() == 2 && "ai"@[0] == 'a');
    assert("bot"@.len() == 3 && "bot"@[0] == 'b');
    assert("system"@.len() == 6 && "system"@[0] == 's');
    assert("user"@.len() == 4 && "user"@[0] == 'u');
    assert("human"@.len() == 5 && "human"@[0] == 'h');
    if l.len() > 0 {
        assert(l[0] == l[0]);
    }
}

/// Parse a legacy role name.
pub fn parse_role(role: &str) -> (r: Role)
    ensures
        r == role_of(role@),
{
    let lowered = to_lowercase(role);
    let n = lowered.as_str();
    if str_eq(n, "user") || str_eq(n, "human") {
        Role::User
    } else if str_eq(n, "assistant") || str_eq(n, "agent") || str_eq(n, "ai") || str_eq(n, "bot") {
        Role::Assistant
    } else if str_eq(n, "system") {
        Role::System
    } else if str_eq(n, "tool") || str_eq(n, "function") || str_eq(n, "toolresult") || str_eq(
        n,
        "tool_result",
    ) {
        Role::Tool
    } else {
        Role::User
    }
}

/// A legacy token count as a canonical one: absent counts as zero, and a
/// negative count as zero.
pub fn token_count(n: Option<i64>) -> (r: u64)
    ensures
        r == match n {
            Some(v) => if v > 0 {
                v as int
            } else {
                0
            },
            None => 0,
        },
{
    match n {
        Some(v) => if v > 0 {
            v as u64
        } else {
            0
        },
        None => 0,
    }
}

/// The output of a tool call as history keeps it: the JSON it holds, or
/// the text itself where it is not JSON.
#[derive(Debug)]
pub enum ToolOutput {
    Json(serde_json::Value),
    Text(String),
}

/// A legacy tool output: parsed as JSON where it is JSON, kept as text
/// otherwise.
pub fn tool_output_value(output: &str) -> (r: ToolOutput)
    ensures
        r is Json <==> json_parses(output@),
        r matches ToolOutput::Json(v) ==> json_parsed(output@) == Some(v),
        r matches ToolOutput::Text(s) ==> s@ == output@,
{
    match parse_json(output) {
        Some(v) => ToolOutput::Json(v),
        None => ToolOutput::Text(to_owned_string(output)),
    }
}

} // verus!
