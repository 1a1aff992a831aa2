use nexsh::available_models::{list_available_models, model_choice, select_model};
use nexsh::config::{config_from_json, config_to_json};
use nexsh::session::{
    classify_input, loop_action, setup_config, LoopAction, NexSh, ReadFailure, ReplyAction,
    ShellInput, HELP_TEXT,
};
use nexsh::text::{format_u64, parse_usize, trim};
use nexsh::types::{Message, NexShConfig, DEFAULT_MODEL};

fn session(limit: usize) -> NexSh {
    let mut c = NexShConfig::default();
    c.max_context_messages = limit;
    NexSh::new(c, Vec::new())
}

fn roles_and_contents(s: &NexSh) -> Vec<(String, String)> {
    s.messages().iter().map(|m| (m.role.clone(), m.content.clone())).collect()
}

#[test]
fn command_reply_runs_and_records_output() {
    let mut s = session(100);
    s.record_request("show memory usage", 1);
    let raw = r#"{"message":"Displaying memory","command":"free -h","dangerous":false,"category":"system"}"#;
    let (p, a) = s.process_reply(raw, 2).ok().unwrap();
    assert_eq!(a, ReplyAction::Run);
    assert_eq!(p.command, "free -h");
    s.record_output("Mem: 1G\n", 3);
    assert_eq!(
        roles_and_contents(&s),
        vec![
            ("user".to_string(), "show memory usage".to_string()),
            ("model".to_string(), "Command:free -h, message:Displaying memory".to_string()),
            ("model".to_string(), "Command output:\nMem: 1G\n".to_string()),
        ]
    );
}

#[test]
fn empty_command_is_conversation_only() {
    let mut s = session(100);
    s.record_request("hello", 1);
    let raw = r#"{"message":"Hi there","command":"","dangerous":false,"category":"other"}"#;
    let (_, a) = s.process_reply(raw, 2).ok().unwrap();
    assert_eq!(a, ReplyAction::Conversation);
    assert_eq!(
        roles_and_contents(&s),
        vec![
            ("user".to_string(), "hello".to_string()),
            ("model".to_string(), "Hi there".to_string()),
        ]
    );
}

#[test]
fn dangerous_command_goes_to_gate() {
    let mut s = session(100);
    let raw = r#"{"message":"Deleting","command":"rm -rf /tmp/x","dangerous":true,"category":"file"}"#;
    let (_, a) = s.process_reply(raw, 2).ok().unwrap();
    assert_eq!(a, ReplyAction::Confirm);
}

#[test]
fn malformed_reply_leaves_context_unchanged() {
    let mut s = session(100);
    s.record_request("x", 1);
    assert!(s.process_reply("not json", 2).is_err());
    assert_eq!(s.messages().len(), 1);
}

#[test]
fn empty_output_adds_no_turn() {
    let mut s = session(100);
    s.record_output("", 1);
    assert_eq!(s.messages().len(), 0);
}

#[test]
fn session_respects_context_bound() {
    let mut s = session(2);
    s.add_message("user", "A", 1);
    s.add_message("model", "B", 2);
    s.add_message("user", "C", 3);
    assert_eq!(
        roles_and_contents(&s),
        vec![("model".to_string(), "B".to_string()), ("user".to_string(), "C".to_string())]
    );
    s.clear_context();
    assert!(s.messages().is_empty());
}

#[test]
fn new_session_trims_loaded_turns() {
    let mut c = NexShConfig::default();
    c.max_context_messages = 1;
    let turns = vec![
        Message { role: "user".to_string(), content: "a".to_string(), timestamp: 1 },
        Message { role: "model".to_string(), content: "b".to_string(), timestamp: 2 },
    ];
    let s = NexSh::new(c, turns);
    assert_eq!(roles_and_contents(&s), vec![("model".to_string(), "b".to_string())]);
}

#[test]
fn set_model_changes_only_the_model() {
    let mut s = session(100);
    s.set_model("gemini-1.5-pro");
    assert_eq!(s.config().model_name(), "gemini-1.5-pro");
    assert_eq!(s.config().history_size, 1000);
}

#[test]
fn setup_needed_without_key() {
    let s = session(100);
    assert!(s.needs_setup());
    assert_eq!(s.help_text(), HELP_TEXT);
}

#[test]
fn lines_are_classified() {
    assert_eq!(classify_input("  "), ShellInput::Empty);
    assert_eq!(classify_input("exit"), ShellInput::Exit);
    assert_eq!(classify_input(" quit "), ShellInput::Exit);
    assert_eq!(classify_input("clear"), ShellInput::Clear);
    assert_eq!(classify_input("init"), ShellInput::Init);
    assert_eq!(classify_input("help"), ShellInput::Help);
    assert_eq!(classify_input("models"), ShellInput::Models);
    assert_eq!(classify_input("list files"), ShellInput::Request);
}

#[test]
fn model_list_and_selection() {
    assert_eq!(
        list_available_models(),
        vec!["gemini-2.0-flash", "gemini-2.0-pro", "gemini-1.5-flash", "gemini-1.5-pro"]
    );
    assert_eq!(select_model(""), "gemini-2.0-flash");
    assert_eq!(select_model("2"), "gemini-2.0-pro");
    assert_eq!(select_model(" 4 "), "gemini-1.5-pro");
    assert_eq!(select_model("9"), "gemini-2.0-flash");
    assert_eq!(select_model("0"), "gemini-2.0-flash");
    assert_eq!(select_model("gemini-1.5"), "gemini-1.5-flash");
    assert_eq!(select_model("gpt"), "gemini-2.0-flash");
}

#[test]
fn setup_applies_answers() {
    let current = NexShConfig::default();
    let c = setup_config(&current, "  secret  ", Some("500"), Some("oops"), "3");
    assert_eq!(c.api_key, "secret");
    assert_eq!(c.history_size, 500);
    assert_eq!(c.max_context_messages, 100);
    assert_eq!(c.model.as_deref(), Some("gemini-1.5-flash"));
    let d = setup_config(&c, "   ", None, Some("7"), "");
    assert_eq!(d.api_key, "secret");
    assert_eq!(d.history_size, 500);
    assert_eq!(d.max_context_messages, 7);
    assert_eq!(d.model.as_deref(), Some("gemini-2.0-flash"));
}

#[test]
fn config_defaults() {
    let c = NexShConfig::default();
    assert_eq!(c.api_key, "");
    assert_eq!(c.history_size, 1000);
    assert_eq!(c.max_context_messages, 100);
    assert_eq!(c.model.as_deref(), Some(DEFAULT_MODEL));
}

#[test]
fn config_round_trips() {
    let c = NexShConfig {
        api_key: "k\"ey\\with\nodd chars".to_string(),
        history_size: 42,
        max_context_messages: 7,
        model: Some("gemini-1.5-pro".to_string()),
    };
    let back = config_from_json(&config_to_json(&c)).ok().unwrap();
    assert_eq!(back.api_key, c.api_key);
    assert_eq!(back.history_size, c.history_size);
    assert_eq!(back.max_context_messages, c.max_context_messages);
    assert_eq!(back.model, c.model);
}

#[test]
fn config_missing_members_take_defaults() {
    let c = config_from_json(r#"{"api_key":"abc"}"#).ok().unwrap();
    assert_eq!(c.api_key, "abc");
    assert_eq!(c.history_size, 1000);
    assert_eq!(c.max_context_messages, 100);
    assert_eq!(c.model.as_deref(), Some("gemini-2.0-flash"));
}

#[test]
fn malformed_config_is_an_error() {
    assert!(config_from_json("{api_key:").is_err());
}

#[test]
fn numerals() {
    assert_eq!(parse_usize("42"), Some(42));
    assert_eq!(parse_usize("+7"), Some(7));
    assert_eq!(parse_usize("+"), None);
    assert_eq!(parse_usize(""), None);
    assert_eq!(parse_usize("-1"), None);
    assert_eq!(parse_usize("1a"), None);
    assert_eq!(parse_usize("18446744073709551615"), Some(usize::MAX));
    assert_eq!(parse_usize("18446744073709551616"), None);
    assert_eq!(format_u64(0), "0");
    assert_eq!(format_u64(1234567890), "1234567890");
    assert_eq!(trim("\u{3000} a b \t\n"), "a b");
}

#[test]
fn config_text_is_exact() {
    let c = NexShConfig {
        api_key: "a\"b".to_string(),
        history_size: 10,
        max_context_messages: 3,
        model: None,
    };
    assert_eq!(
        config_to_json(&c),
        "{\n  \"api_key\": \"a\\\"b\",\n  \"history_size\": 10,\n  \"max_context_messages\": 3,\n  \"model\": null\n}"
    );
    let back = config_from_json(&config_to_json(&c)).ok().unwrap();
    assert_eq!(back.model.as_deref(), Some("gemini-2.0-flash"));
}

#[test]
fn config_member_of_wrong_type_takes_default() {
    let c = config_from_json(r#"{"history_size":"big","max_context_messages":-3,"model":5}"#)
        .ok()
        .unwrap();
    assert_eq!(c.history_size, 1000);
    assert_eq!(c.max_context_messages, 100);
    assert_eq!(c.model.as_deref(), Some("gemini-2.0-flash"));
}

#[test]
fn loop_decides_from_reads() {
    assert_eq!(loop_action(Ok("")), LoopAction::Idle);
    assert_eq!(loop_action(Ok(" exit")), LoopAction::Close);
    assert_eq!(loop_action(Ok("quit")), LoopAction::Close);
    assert_eq!(loop_action(Ok("clear")), LoopAction::Clear);
    assert_eq!(loop_action(Ok("init")), LoopAction::Setup);
    assert_eq!(loop_action(Ok("help")), LoopAction::Help);
    assert_eq!(loop_action(Ok("models")), LoopAction::ChooseModel);
    assert_eq!(loop_action(Ok("show disk usage")), LoopAction::Dispatch);
    assert_eq!(loop_action(Err(ReadFailure::Interrupted)), LoopAction::Hint);
    assert_eq!(loop_action(Err(ReadFailure::EndOfInput)), LoopAction::Close);
    assert_eq!(loop_action(Err(ReadFailure::Other)), LoopAction::Close);
}

#[test]
fn default_config_text_matches_pretty_layout() {
    let c = NexShConfig::default();
    assert_eq!(
        config_to_json(&c),
        "{\n  \"api_key\": \"\",\n  \"history_size\": 1000,\n  \"max_context_messages\": 100,\n  \"model\": \"gemini-2.0-flash\"\n}"
    );
}

#[test]
fn config_text_escapes_controls() {
    let c = NexShConfig {
        api_key: "\u{1}\u{8}\t\n\u{c}\r\u{1f}\\é".to_string(),
        history_size: 1,
        max_context_messages: 1,
        model: Some("m".to_string()),
    };
    let text = config_to_json(&c);
    assert!(text.starts_with("{\n  \"api_key\": \"\\u0001\\b\\t\\n\\f\\r\\u001f\\\\é\",\n"));
    let back = config_from_json(&text).ok().unwrap();
    assert_eq!(back.api_key, c.api_key);
}

#[test]
fn zero_sizes_in_config_take_defaults() {
    let c = config_from_json(r#"{"history_size":0,"max_context_messages":0}"#).ok().unwrap();
    assert_eq!(c.history_size, 1000);
    assert_eq!(c.max_context_messages, 100);
}

#[test]
fn zero_answers_in_setup_keep_current() {
    let current = NexShConfig::default();
    let c = setup_config(&current, "", Some("0"), Some(" 0 "), "1");
    assert_eq!(c.history_size, 1000);
    assert_eq!(c.max_context_messages, 100);
}

#[test]
fn blank_model_answer_cancels() {
    assert_eq!(model_choice("   "), None);
    assert_eq!(model_choice(""), None);
    assert_eq!(model_choice("2"), Some("gemini-2.0-pro"));
    assert_eq!(model_choice("gemini-1.5-p"), Some("gemini-1.5-pro"));
}
