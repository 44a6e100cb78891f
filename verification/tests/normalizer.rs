use agent_core::agent::{collect_response, convert_event_to_output};
use agent_core::clock::Timestamp;
use agent_core::engine::EngineEvent;
use agent_core::error::{AgentError, OutputError};
use agent_core::json::{JsonNumber, JsonValue};
use agent_core::messages::{OutputData, OutputMessage};
use agent_core::plan::UpdatePlanArgs;

fn obj(members: Vec<(&str, JsonValue)>) -> JsonValue {
    JsonValue::Object(members.into_iter().map(|(k, v)| (k.to_string(), v)).collect())
}

fn text(s: &str) -> JsonValue {
    JsonValue::Text(s.to_string())
}

fn msg(data: OutputData) -> OutputMessage {
    OutputMessage { turn_id: 1, data, timestamp: Timestamp { secs: 0, nanos: 0 } }
}

#[test]
fn answers_and_reasoning_pass_through() {
    let e = EngineEvent::AgentMessage { message: "full".to_string() };
    assert!(matches!(convert_event_to_output(&e), Some(OutputData::Primary { content }) if content == "full"));
    let e = EngineEvent::AgentMessageDelta { delta: "part".to_string() };
    assert!(matches!(convert_event_to_output(&e), Some(OutputData::PrimaryDelta { content }) if content == "part"));
    let e = EngineEvent::AgentReasoning { text: "think".to_string() };
    assert!(matches!(convert_event_to_output(&e), Some(OutputData::Reasoning { content }) if content == "think"));
    let e = EngineEvent::AgentReasoningDelta { delta: "th".to_string() };
    assert!(matches!(convert_event_to_output(&e), Some(OutputData::ReasoningDelta { content }) if content == "th"));
    let e = EngineEvent::AgentReasoningRawContent { text: "raw".to_string() };
    assert!(matches!(convert_event_to_output(&e), Some(OutputData::Reasoning { content }) if content == "raw"));
    let e = EngineEvent::AgentReasoningRawContentDelta { delta: "r".to_string() };
    assert!(matches!(convert_event_to_output(&e), Some(OutputData::ReasoningDelta { content }) if content == "r"));
}

#[test]
fn lifecycle_events() {
    assert!(matches!(convert_event_to_output(&EngineEvent::TaskStarted), Some(OutputData::Start)));
    assert!(matches!(
        convert_event_to_output(&EngineEvent::TaskComplete),
        Some(OutputData::Completed)
    ));
    assert!(matches!(
        convert_event_to_output(&EngineEvent::ShutdownComplete),
        Some(OutputData::Completed)
    ));
}

#[test]
fn errors_become_general_errors() {
    let e = EngineEvent::Error { message: "boom".to_string() };
    assert!(matches!(
        convert_event_to_output(&e),
        Some(OutputData::Error { error: OutputError::General { message } }) if message == "boom"
    ));
    let e = EngineEvent::StreamError { message: "retry".to_string() };
    assert!(matches!(
        convert_event_to_output(&e),
        Some(OutputData::Error { error: OutputError::General { message } }) if message == "retry"
    ));
    assert!(matches!(
        convert_event_to_output(&EngineEvent::TurnAborted),
        Some(OutputData::Error { error: OutputError::General { message } }) if message == "Turn was aborted"
    ));
}

#[test]
fn bookkeeping_is_dropped() {
    assert!(convert_event_to_output(&EngineEvent::TokenCount).is_none());
    assert!(convert_event_to_output(&EngineEvent::SessionConfigured).is_none());
    assert!(convert_event_to_output(&EngineEvent::ConversationHistory).is_none());
    assert!(convert_event_to_output(&EngineEvent::McpListToolsResponse).is_none());
    assert!(convert_event_to_output(&EngineEvent::GetHistoryEntryResponse).is_none());
    assert!(convert_event_to_output(&EngineEvent::Other).is_none());
    let args = UpdatePlanArgs { explanation: None, plan: vec![] };
    assert!(convert_event_to_output(&EngineEvent::PlanUpdate { args }).is_none());
}

#[test]
fn command_events_become_tool_events() {
    let e = EngineEvent::ExecCommandBegin { command: vec!["ls".to_string(), "-l".to_string()] };
    match convert_event_to_output(&e) {
        Some(OutputData::ToolStart { tool_name, arguments }) => {
            assert_eq!(tool_name, "exec_command");
            assert_eq!(
                arguments,
                obj(vec![("command", JsonValue::Array(vec![text("ls"), text("-l")]))])
            );
        }
        _ => panic!("expected the start of a tool"),
    }
    let e = EngineEvent::ExecCommandEnd { exit_code: -2, call_id: "c1".to_string() };
    match convert_event_to_output(&e) {
        Some(OutputData::ToolComplete { tool_name, result }) => {
            assert_eq!(tool_name, "exec_command");
            assert_eq!(
                result,
                obj(vec![
                    ("exit_code", JsonValue::Number(JsonNumber::NegInt(-2))),
                    ("call_id", text("c1")),
                ])
            );
        }
        _ => panic!("expected the end of a tool"),
    }
    let e = EngineEvent::ExecCommandEnd { exit_code: 0, call_id: "c2".to_string() };
    match convert_event_to_output(&e) {
        Some(OutputData::ToolComplete { result, .. }) => {
            assert_eq!(
                result,
                obj(vec![
                    ("exit_code", JsonValue::Number(JsonNumber::PosInt(0))),
                    ("call_id", text("c2")),
                ])
            );
        }
        _ => panic!("expected the end of a tool"),
    }
}

#[test]
fn mcp_events_become_tool_events() {
    let e = EngineEvent::McpToolCallBegin {
        server: "files".to_string(),
        tool: "read".to_string(),
        arguments: Some(obj(vec![("path", text("/tmp/a"))])),
    };
    match convert_event_to_output(&e) {
        Some(OutputData::ToolStart { tool_name, arguments }) => {
            assert_eq!(tool_name, "read");
            assert_eq!(
                arguments,
                obj(vec![
                    ("server", text("files")),
                    ("arguments", obj(vec![("path", text("/tmp/a"))])),
                ])
            );
        }
        _ => panic!("expected the start of a tool"),
    }
    let e = EngineEvent::McpToolCallBegin {
        server: "files".to_string(),
        tool: "list".to_string(),
        arguments: None,
    };
    match convert_event_to_output(&e) {
        Some(OutputData::ToolStart { arguments, .. }) => {
            assert_eq!(arguments, obj(vec![("server", text("files")), ("arguments", JsonValue::Null)]));
        }
        _ => panic!("expected the start of a tool"),
    }
    let e = EngineEvent::McpToolCallEnd {
        server: "files".to_string(),
        tool: "read".to_string(),
        success: true,
        result: obj(vec![("Ok", text("content"))]),
    };
    match convert_event_to_output(&e) {
        Some(OutputData::ToolComplete { tool_name, result }) => {
            assert_eq!(tool_name, "read");
            assert_eq!(
                result,
                obj(vec![
                    ("server", text("files")),
                    ("success", JsonValue::Bool(true)),
                    ("result", obj(vec![("Ok", text("content"))])),
                ])
            );
        }
        _ => panic!("expected the end of a tool"),
    }
}

#[test]
fn search_and_patch_events_become_tool_events() {
    let e = EngineEvent::WebSearchBegin { query: "verus".to_string() };
    match convert_event_to_output(&e) {
        Some(OutputData::ToolStart { tool_name, arguments }) => {
            assert_eq!(tool_name, "web_search");
            assert_eq!(arguments, obj(vec![("query", text("verus"))]));
        }
        _ => panic!("expected the start of a tool"),
    }
    let e = EngineEvent::PatchApplyBegin { changes_count: 3 };
    match convert_event_to_output(&e) {
        Some(OutputData::ToolStart { tool_name, arguments }) => {
            assert_eq!(tool_name, "apply_patch");
            assert_eq!(
                arguments,
                obj(vec![("changes_count", JsonValue::Number(JsonNumber::PosInt(3)))])
            );
        }
        _ => panic!("expected the start of a tool"),
    }
    let e = EngineEvent::PatchApplyEnd { success: false };
    match convert_event_to_output(&e) {
        Some(OutputData::ToolComplete { tool_name, result }) => {
            assert_eq!(tool_name, "apply_patch");
            assert_eq!(
                result,
                obj(vec![
                    ("success", JsonValue::Bool(false)),
                    ("message", text("Patch application finished")),
                ])
            );
        }
        _ => panic!("expected the end of a tool"),
    }
}

#[test]
fn command_output_is_decoded_lossily() {
    let e = EngineEvent::ExecCommandOutputDelta { chunk: b"ok\n".to_vec() };
    assert!(matches!(
        convert_event_to_output(&e),
        Some(OutputData::ToolOutput { tool_name, output }) if tool_name == "exec_command" && output == "ok\n"
    ));
    let e = EngineEvent::ExecCommandOutputDelta { chunk: vec![b'a', 0xff, b'b'] };
    assert!(matches!(
        convert_event_to_output(&e),
        Some(OutputData::ToolOutput { output, .. }) if output == "a\u{fffd}b"
    ));
}

#[test]
fn engine_event_terminal_kinds() {
    assert!(EngineEvent::TaskComplete.ends_turn());
    assert!(EngineEvent::TurnAborted.ends_turn());
    assert!(!EngineEvent::ShutdownComplete.ends_turn());
    assert!(!EngineEvent::Error { message: "x".to_string() }.ends_turn());
    assert!(!EngineEvent::TokenCount.ends_turn());
}

#[test]
fn fragments_joined_equal_the_whole_answer() {
    let fragments = vec![
        msg(OutputData::Start),
        msg(OutputData::primary_delta("Hel")),
        msg(OutputData::reasoning_delta("hmm")),
        msg(OutputData::primary_delta("lo, ")),
        msg(OutputData::primary_delta("world")),
        msg(OutputData::Completed),
    ];
    let whole = vec![
        msg(OutputData::Start),
        msg(OutputData::primary("Hello, world")),
        msg(OutputData::Completed),
    ];
    assert_eq!(collect_response(&fragments), Ok("Hello, world".to_string()));
    assert_eq!(collect_response(&fragments), collect_response(&whole));
}

#[test]
fn collected_answer_is_trimmed_and_stops_at_completed() {
    let outputs = vec![
        msg(OutputData::primary("  \n answer \t")),
        msg(OutputData::Completed),
        msg(OutputData::primary("ignored")),
    ];
    assert_eq!(collect_response(&outputs), Ok("answer".to_string()));
    assert_eq!(collect_response(&vec![]), Ok(String::new()));
    let open = vec![msg(OutputData::primary_delta(" open "))];
    assert_eq!(collect_response(&open), Ok("open".to_string()));
    let blank = vec![msg(OutputData::primary("   ")), msg(OutputData::Completed)];
    assert_eq!(collect_response(&blank), Ok(String::new()));
}

#[test]
fn first_error_fails_the_query() {
    let outputs = vec![
        msg(OutputData::primary_delta("partial")),
        msg(OutputData::error(OutputError::General { message: "it \"broke\"".to_string() })),
        msg(OutputData::Completed),
    ];
    assert_eq!(
        collect_response(&outputs),
        Err(AgentError::Execution {
            message: "Query failed: General { message: \"it \\\"broke\\\"\" }".to_string()
        })
    );
}
