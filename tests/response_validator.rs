use nexsh::types::Category;
use nexsh::validator::{strip_fences, validate_response, Field, ResponseFault};

const BARE: &str =
    r#"{"message":"Displaying memory","command":"free -h","dangerous":false,"category":"system"}"#;

#[test]
fn fenced_reply_parses_like_bare_one() {
    let fenced = format!("```json\n{}\n```", BARE);
    let a = validate_response(&fenced).ok().unwrap();
    let b = validate_response(BARE).ok().unwrap();
    assert_eq!(a.message, b.message);
    assert_eq!(a.command, b.command);
    assert_eq!(a.dangerous, b.dangerous);
    assert_eq!(a.category, b.category);
    assert_eq!(a.message, "Displaying memory");
    assert_eq!(a.command, "free -h");
    assert!(!a.dangerous);
    assert_eq!(a.category, Category::System);
}

#[test]
fn bare_reply_is_left_as_is() {
    assert_eq!(strip_fences(BARE), BARE);
    assert_eq!(strip_fences(strip_fences(BARE)), BARE);
}

#[test]
fn strips_one_marker_at_each_end() {
    assert_eq!(strip_fences("  ```json\n{}\n```  "), "{}");
    assert_eq!(strip_fences("```\n{}\n```"), "{}");
    assert_eq!(strip_fences("```json```json{}``````"), "```json{}```");
}

#[test]
fn fence_inside_content_is_kept() {
    let reply = r#"{"message":"use ``` for code","command":"","dangerous":false,"category":"text"}"#;
    let fenced = format!("```json\n{}\n```", reply);
    assert_eq!(strip_fences(&fenced), reply);
    let p = validate_response(&fenced).ok().unwrap();
    assert_eq!(p.message, "use ``` for code");
    assert_eq!(p.category, Category::Text);
}

#[test]
fn not_json_is_a_syntax_fault_with_raw_text() {
    let e = validate_response("sorry, I cannot help").err().unwrap();
    assert_eq!(e.raw, "sorry, I cannot help");
    assert!(matches!(e.fault, ResponseFault::Syntax(_)));
    assert!(e.diagnostic().starts_with("invalid JSON: "));
}

#[test]
fn missing_member_is_reported() {
    let e = validate_response(r#"{"message":"m","dangerous":false,"category":"file"}"#)
        .err()
        .unwrap();
    assert!(matches!(e.fault, ResponseFault::Missing(Field::Command)));
    assert_eq!(e.diagnostic(), "missing field: command");
}

#[test]
fn wrong_member_type_counts_as_missing() {
    let e = validate_response(r#"{"message":"m","command":"ls","dangerous":"no","category":"file"}"#)
        .err()
        .unwrap();
    assert!(matches!(e.fault, ResponseFault::Missing(Field::Dangerous)));
}

#[test]
fn unknown_category_is_refused() {
    let e = validate_response(r#"{"message":"m","command":"ls","dangerous":false,"category":"misc"}"#)
        .err()
        .unwrap();
    match e.fault {
        ResponseFault::UnknownCategory(c) => assert_eq!(c, "misc"),
        _ => panic!("expected an unknown category"),
    }
}

#[test]
fn every_category_name_is_accepted() {
    for (name, cat) in [
        ("system", Category::System),
        ("file", Category::File),
        ("network", Category::Network),
        ("package", Category::Package),
        ("text", Category::Text),
        ("process", Category::Process),
        ("other", Category::Other),
    ] {
        assert_eq!(Category::parse(name), Some(cat));
        assert_eq!(cat.as_str(), name);
    }
    assert_eq!(Category::parse("System"), None);
}

#[test]
fn diagnostics_name_the_fault() {
    let e = validate_response(r#"{"message":"m","command":"ls","dangerous":false,"category":"misc"}"#)
        .err()
        .unwrap();
    assert_eq!(e.diagnostic(), "unknown category: misc");
    let e = validate_response(r#"{"command":"ls"}"#).err().unwrap();
    assert_eq!(e.diagnostic(), "missing field: message");
}

#[test]
fn surrounding_whitespace_is_ignored() {
    let p = validate_response("\n\t {\"message\":\"m\",\"command\":\"\",\"dangerous\":true,\"category\":\"process\"}  \n")
        .ok()
        .unwrap();
    assert!(p.dangerous);
    assert_eq!(p.category, Category::Process);
    assert!(!p.has_command());
}

#[test]
fn fences_with_outer_whitespace_and_no_gap() {
    let a = validate_response(&format!("  \n```{}```\n ", BARE)).ok().unwrap();
    assert_eq!(a.command, "free -h");
    assert_eq!(strip_fences(&format!(" ```json {} ``` ", BARE)), BARE);
    assert_eq!(strip_fences(&format!("\t{}\n", BARE)), BARE);
}
