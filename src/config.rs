//! The configuration record as persisted: read with defaults for what is
//! absent, written back whole.
use crate::text::{decimal, format_u64};
use crate::types::{NexShConfig, DEFAULT_HISTORY_SIZE, DEFAULT_MAX_CONTEXT_MESSAGES, DEFAULT_MODEL};
use crate::validator::{
    json_parses, json_str_field, json_str_member, json_syntax_error, json_u64_field,
    json_u64_member,
};
use vstd::prelude::*;

verus! {

/// Lower-case hexadecimal digits, in order.
pub const HEX_DIGITS: &'static str = "0123456789abcdef";

/// How one character is written inside a JSON string: quote and backslash
/// are escaped, the five named controls get their short escapes, the other
/// controls below U+0020 a `\u00` escape with lower-case hex digits, and
/// every other character stands as it is.
pub open spec fn json_char_escape(c: char) -> Seq<char> {
    let u = c as u32;
    if c == '"' {
        seq!['\\', '"']
    } else if c == '\\' {
        seq!['\\', '\\']
    } else if u == 8 {
        seq!['\\', 'b']
    } else if u == 9 {
        seq!['\\', 't']
    } else if u == 10 {
        seq!['\\', 'n']
    } else if u == 12 {
        seq!['\\', 'f']
    } else if u == 13 {
        seq!['\\', 'r']
    } else if u < 32 {
        seq!['\\', 'u', '0', '0', HEX_DIGITS@[(u / 16) as int], HEX_DIGITS@[(u % 16) as int]]
    } else {
        seq![c]
    }
}

/// The characters of `s`, each escaped for a JSON string.
pub open spec fn json_escaped(s: Seq<char>) -> Seq<char>
    decreases s.len(),
{
    if s.len() == 0 {
        Seq::<char>::empty()
    } else {
        json_escaped(s.drop_last()) + json_char_escape(s.last())
    }
}

/// The JSON string literal that denotes `s`.
pub open spec fn json_quoted(s: Seq<char>) -> Seq<char> {
    seq!['"'] + json_escaped(s) + seq!['"']
}

/// Relies on `serde_json::to_string` on a `str`: the string in quotes, each
/// character escaped by serde_json's escape table (serialising a string
/// into a `Vec` cannot fail).
#[verifier::external_body]
pub(crate) fn json_string_literal(s: &str) -> (r: String)
    ensures
        r@ == json_quoted(s@),
{
    serde_json::to_string(s).unwrap_or_default()
}

/// A string member read with a default.
pub open spec fn str_or(text: Seq<char>, key: Seq<char>, default: Seq<char>) -> Seq<char> {
    match json_str_member(text, key) {
        Some(v) => v,
        None => default,
    }
}

/// A size member read with a default: absent, of the wrong JSON type, or
/// zero, the default stands.
pub open spec fn size_or(text: Seq<char>, key: Seq<char>, default: usize) -> usize {
    match json_u64_member(text, key) {
        Some(v) => if (v as usize) > 0 {
            v as usize
        } else {
            default
        },
        None => default,
    }
}

/// What `config_from_json` reads from `text` that parses: each member, or
/// its default when absent or of the wrong JSON type.
pub open spec fn config_read(text: Seq<char>, c: NexShConfig) -> bool {
    &&& c.api_key@ == str_or(text, "api_key"@, ""@)
    &&& c.history_size == size_or(text, "history_size"@, DEFAULT_HISTORY_SIZE)
    &&& c.max_context_messages == size_or(
        text,
        "max_context_messages"@,
        DEFAULT_MAX_CONTEXT_MESSAGES,
    )
    &&& c.model matches Some(m) && m@ == str_or(text, "model"@, DEFAULT_MODEL@)
}

fn str_member_or(text: &str, key: &str, default: &str) -> (r: String)
    ensures
        r@ == str_or(text@, key@, default@),
{
    match json_str_field(text, key) {
        Some(v) => v,
        None => String::from_str(default),
    }
}

fn size_member_or(text: &str, key: &str, default: usize) -> (r: usize)
    ensures
        r == size_or(text@, key@, default),
{
    match json_u64_field(text, key) {
        Some(v) => if (v as usize) > 0 {
            v as usize
        } else {
            default
        },
        None => default,
    }
}

/// Reads a persisted configuration; a record that is not JSON is an error
/// that carries the parser's message.
pub fn config_from_json(text: &str) -> (r: Result<NexShConfig, String>)
    ensures
        r is Ok <==> json_parses(text@),
        r matches Ok(c) ==> config_read(text@, c),
        r matches Ok(c) ==> c.history_size > 0 && c.max_context_messages > 0,
{
    if let Some(e) = json_syntax_error(text) {
        return Err(e);
    }
    Ok(
        NexShConfig {
            api_key: str_member_or(text, "api_key", ""),
            history_size: size_member_or(text, "history_size", DEFAULT_HISTORY_SIZE),
            max_context_messages: size_member_or(
                text,
                "max_context_messages",
                DEFAULT_MAX_CONTEXT_MESSAGES,
            ),
            model: Some(str_member_or(text, "model", DEFAULT_MODEL)),
        },
    )
}

/// The text `config_to_json` writes for `c`: one member per line, indented
/// by two spaces, as `serde_json::to_string_pretty` lays out a record.
pub open spec fn config_json(c: NexShConfig) -> Seq<char> {
    "{\n  \"api_key\": "@ + json_quoted(c.api_key@) + ",\n  \"history_size\": "@ + decimal(
        c.history_size as nat,
    ) + ",\n  \"max_context_messages\": "@ + decimal(c.max_context_messages as nat)
        + ",\n  \"model\": "@ + match c.model {
        Some(m) => json_quoted(m@),
        None => "null"@,
    } + "\n}"@
}

/// Writes a configuration as a JSON record.
pub fn config_to_json(c: &NexShConfig) -> (r: String)
    ensures
        r@ == config_json(*c),
{
    let model = match &c.model {
        Some(m) => json_string_literal(m.as_str()),
        None => String::from_str("null"),
    };
    String::from_str("{\n  \"api_key\": ").concat(json_string_literal(c.api_key.as_str()).as_str()).concat(
        ",\n  \"history_size\": ",
    ).concat(format_u64(c.history_size as u64).as_str()).concat(
        ",\n  \"max_context_messages\": ",
    ).concat(format_u64(c.max_context_messages as u64).as_str()).concat(",\n  \"model\": ").concat(
        model.as_str(),
    ).concat("\n}")
}

} // verus!
