use agent_core::dict::Dictionary;
use agent_core::json::{JsonNumber, JsonValue};
use agent_core::agent::Agent;
use agent_core::config::AgentConfig;
use agent_core::error::AgentError;
use agent_core::session::SessionManager;
use agent_core::utils::debug::dump_agent_state;
use agent_core::text::{decimal, join};
use agent_core::utils::performance::MemoryStats;
use agent_core::utils::processing::{
    clean_output, count_tokens, extract_structured_data, format_code, markdown_to_html,
    truncate_text,
};

#[test]
fn decimal_numerals() {
    assert_eq!(decimal(0), "0");
    assert_eq!(decimal(7), "7");
    assert_eq!(decimal(10), "10");
    assert_eq!(decimal(1234567890), "1234567890");
    assert_eq!(decimal(u64::MAX), "18446744073709551615");
    assert_eq!(join("a", "bc"), "abc");
}

#[test]
fn cleaning_trims_unicode_whitespace() {
    assert_eq!(clean_output("  a b \n"), "a b");
    assert_eq!(clean_output("\u{2003}x\u{00a0}"), "x");
    assert_eq!(clean_output(" \t\n"), "");
    assert_eq!(clean_output(""), "");
    assert_eq!(clean_output("x"), "x");
}

#[test]
fn code_and_markdown_pass_through() {
    assert_eq!(format_code(" fn main() {} "), " fn main() {} ");
    assert_eq!(markdown_to_html("# title"), "# title");
}

#[test]
fn token_counts() {
    assert_eq!(count_tokens(""), 0);
    assert_eq!(count_tokens("a"), 1);
    assert_eq!(count_tokens("abcd"), 1);
    assert_eq!(count_tokens("abcde"), 2);
    assert_eq!(count_tokens("abcdefgh"), 2);
    assert_eq!(count_tokens("é"), 1);
    assert_eq!(count_tokens("ééé"), 2);
}

#[test]
fn memory_stats_are_unknown() {
    let m = MemoryStats::current();
    assert_eq!(m.bytes, 0);
    assert_eq!(m.formatted, "Unknown");
}

#[test]
fn session_manager_can_be_made() {
    let _a = SessionManager::new();
    let _b = SessionManager::default();
}

#[test]
fn dictionary_keeps_one_value_for_each_key() {
    let mut d: Dictionary<String> = Dictionary::new();
    assert!(d.is_empty());
    assert_eq!(d.len(), 0);
    d.insert("a".to_string(), "1".to_string());
    d.insert("b".to_string(), "2".to_string());
    d.insert("a".to_string(), "3".to_string());
    assert_eq!(d.len(), 2);
    assert!(!d.is_empty());
    assert!(d.contains_key(&"a".to_string()));
    assert!(!d.contains_key(&"c".to_string()));
    assert_eq!(d.get(&"a".to_string()), Some(&"3".to_string()));
    assert_eq!(d.get(&"c".to_string()), None);
    assert_eq!(d.entry(0), (&"a".to_string(), &"3".to_string()));
    assert_eq!(d.entry(1), (&"b".to_string(), &"2".to_string()));
    let c = d.duplicate();
    assert_eq!(c.len(), 2);
    assert_eq!(c.get(&"b".to_string()), Some(&"2".to_string()));
    let f = Dictionary::from_entries(vec![
        ("x".to_string(), "1".to_string()),
        ("y".to_string(), "2".to_string()),
        ("x".to_string(), "3".to_string()),
    ]);
    assert_eq!(f.len(), 2);
    assert_eq!(f.get(&"x".to_string()), Some(&"3".to_string()));
}

#[test]
fn json_values_copy_deeply() {
    let v = JsonValue::Object(vec![
        ("n".to_string(), JsonValue::Number(JsonNumber::Decimal("1.5".to_string()))),
        ("l".to_string(), JsonValue::Array(vec![JsonValue::Null, JsonValue::Bool(false)])),
        ("o".to_string(), JsonValue::Object(vec![("t".to_string(), JsonValue::text("x"))])),
    ]);
    assert_eq!(v.duplicate(), v);
    assert_eq!(v.clone(), v);
    assert_eq!(JsonValue::integer(5), JsonValue::Number(JsonNumber::PosInt(5)));
    assert_eq!(JsonValue::integer(0), JsonValue::Number(JsonNumber::PosInt(0)));
    assert_eq!(JsonValue::integer(-5), JsonValue::Number(JsonNumber::NegInt(-5)));
    assert_eq!(JsonValue::text("a"), JsonValue::Text("a".to_string()));
}

#[test]
fn truncation_cuts_at_the_last_space() {
    assert_eq!(truncate_text("hi", 8), "hi");
    assert_eq!(truncate_text("exactly8", 8), "exactly8");
    assert_eq!(truncate_text("hello world", 8), "hello...");
    assert_eq!(truncate_text("one two three four", 12), "one two...");
    assert_eq!(truncate_text("helloworld", 8), "hello...");
    assert_eq!(truncate_text("ab", 1), "...");
    assert_eq!(truncate_text(" leading", 4), "...");
    assert_eq!(truncate_text("h\u{e9}llo w\u{f6}rld", 7), "h\u{e9}llo...");
    assert_eq!(truncate_text("", 0), "");
    assert_eq!(truncate_text("abc", 0), "...");
}

#[test]
fn session_manager_keeps_nothing() {
    let agent = Agent::new(AgentConfig::builder().build(None).unwrap()).unwrap();
    let m = SessionManager::new();
    assert_eq!(m.save_state(&agent), Ok(()));
    assert_eq!(m.list_sessions().unwrap().len(), 0);
    assert_eq!(m.delete_session("any"), Ok(()));
    assert_eq!(
        m.restore_state().err(),
        Some(AgentError::Generic { message: "Session restoration not yet implemented".to_string() })
    );
    assert_eq!(dump_agent_state(&agent), "Agent state dump not yet implemented");
}

#[test]
fn structured_data_is_read_as_json() {
    let v = extract_structured_data("{\"a\": [1, true, null], \"b\": \"x\"}").unwrap();
    assert_eq!(v["a"][0], serde_json::Value::from(1));
    assert_eq!(v["a"][1], serde_json::Value::Bool(true));
    assert_eq!(v["a"][2], serde_json::Value::Null);
    assert_eq!(v["b"], serde_json::Value::String("x".to_string()));
    assert_eq!(extract_structured_data(" 12 "), Some(serde_json::Value::from(12)));
    assert_eq!(extract_structured_data("not json"), None);
    assert_eq!(extract_structured_data("{\"a\": "), None);
    assert_eq!(extract_structured_data(""), None);
}
