//! Turns the model's raw reply into a `GeminiResponse`, or into a typed
//! failure that keeps the raw text for display.
use crate::text::{
    all_ws, ends_with, has_prefix, has_suffix, is_ws, lemma_trimmed_padded, starts_with, trim,
    trim_start, trimmed,
};
use crate::types::{Category, GeminiResponse};
use vstd::prelude::*;

verus! {

/// Opening fence that names the language.
pub const FENCE_JSON: &'static str = "```json";

/// Bare fence marker.
pub const FENCE: &'static str = "```";

/// Whether `text` is a single well-formed JSON document.
pub uninterp spec fn json_parses(text: Seq<char>) -> bool;

/// The string member `key` of the JSON object in `text`, if there is one.
pub uninterp spec fn json_str_member(text: Seq<char>, key: Seq<char>) -> Option<Seq<char>>;

/// The boolean member `key` of the JSON object in `text`, if there is one.
pub uninterp spec fn json_bool_member(text: Seq<char>, key: Seq<char>) -> Option<bool>;

/// The non-negative integer member `key` of the JSON object in `text`, if
/// there is one that fits in 64 bits.
pub uninterp spec fn json_u64_member(text: Seq<char>, key: Seq<char>) -> Option<u64>;

/// Relies on `serde_json::from_str::<serde_json::Value>`: `None` exactly when
/// the text parses, else the parser's message.
#[verifier::external_body]
pub(crate) fn json_syntax_error(text: &str) -> (r: Option<String>)
    ensures
        r is None <==> json_parses(text@),
{
    match serde_json::from_str::<serde_json::Value>(text) {
        Ok(_) => None,
        Err(e) => Some(e.to_string()),
    }
}

/// Relies on `serde_json::from_str`, `Value::get` and `Value::as_str`: the
/// member `key` of a parsed object, when it is a JSON string.
#[verifier::external_body]
pub(crate) fn json_str_field(text: &str, key: &str) -> (r: Option<String>)
    ensures
        r is None <==> json_str_member(text@, key@) is None,
        r matches Some(s) ==> json_str_member(text@, key@) == Some(s@),
        r is Some ==> json_parses(text@),
{
    match serde_json::from_str::<serde_json::Value>(text) {
        Ok(v) => v.get(key).and_then(serde_json::Value::as_str).map(String::from),
        Err(_) => None,
    }
}

/// Relies on `serde_json::from_str`, `Value::get` and `Value::as_bool`: the
/// member `key` of a parsed object, when it is a JSON boolean.
#[verifier::external_body]
pub(crate) fn json_bool_field(text: &str, key: &str) -> (r: Option<bool>)
    ensures
        r == json_bool_member(text@, key@),
        r is Some ==> json_parses(text@),
{
    match serde_json::from_str::<serde_json::Value>(text) {
        Ok(v) => v.get(key).and_then(serde_json::Value::as_bool),
        Err(_) => None,
    }
}

/// Relies on `serde_json::from_str`, `Value::get` and `Value::as_u64`: the
/// member `key` of a parsed object, when it is an integer in `u64`.
#[verifier::external_body]
pub(crate) fn json_u64_field(text: &str, key: &str) -> (r: Option<u64>)
    ensures
        r == json_u64_member(text@, key@),
        r is Some ==> json_parses(text@),
{
    match serde_json::from_str::<serde_json::Value>(text) {
        Ok(v) => v.get(key).and_then(serde_json::Value::as_u64),
        Err(_) => None,
    }
}

/// The reply with surrounding whitespace, one opening fence marker and one
/// closing fence marker removed.
pub open spec fn strip_fences_spec(s: Seq<char>) -> Seq<char> {
    let t = trimmed(s);
    let a = if has_prefix(t, FENCE_JSON@) {
        t.subrange(FENCE_JSON@.len() as int, t.len() as int)
    } else if has_prefix(t, FENCE@) {
        t.subrange(FENCE@.len() as int, t.len() as int)
    } else {
        t
    };
    let b = if has_suffix(a, FENCE@) {
        a.subrange(0, a.len() - FENCE@.len())
    } else {
        a
    };
    trimmed(b)
}

pub fn strip_fences(raw: &str) -> (r: &str)
    ensures
        r@ == strip_fences_spec(raw@),
{
    let t = trim(raw);
    let n = t.unicode_len();
    let a = if starts_with(t, FENCE_JSON) {
        t.substring_char(FENCE_JSON.unicode_len(), n)
    } else if starts_with(t, FENCE) {
        t.substring_char(FENCE.unicode_len(), n)
    } else {
        t
    };
    let m = a.unicode_len();
    let b = if ends_with(a, FENCE) {
        a.substring_char(0, m - FENCE.unicode_len())
    } else {
        a
    };
    trim(b)
}

/// A reply with no surrounding whitespace and no fence marker at either end.
pub open spec fn is_bare(t: Seq<char>) -> bool {
    &&& trimmed(t) == t
    &&& !has_prefix(t, FENCE@)
    &&& !has_suffix(t, FENCE@)
}

/// Cleaning leaves a bare reply as it is.
pub proof fn lemma_strip_fences_bare(t: Seq<char>)
    requires
        is_bare(t),
    ensures
        strip_fences_spec(t) == t,
{
    reveal_strlit("```");
    reveal_strlit("```json");
    if has_prefix(t, FENCE_JSON@) {
        assert(t.subrange(0, 3) =~= FENCE@) by {
            assert forall|i: int| 0 <= i < 3 implies t.subrange(0, 3)[i] == FENCE@[i] by {
                assert(t.subrange(0, 7)[i] == FENCE_JSON@[i]);
            }
        }
    }
}

/// A bare reply with whitespace around it cleans to itself.
pub proof fn lemma_strip_fences_padded_bare(w1: Seq<char>, c: Seq<char>, w2: Seq<char>)
    requires
        all_ws(w1),
        all_ws(w2),
        is_bare(c),
    ensures
        strip_fences_spec(w1 + c + w2) == c,
{
    lemma_trimmed_padded(w1, c, w2);
    lemma_strip_fences_bare(c);
}

/// A trimmed reply `c` between one opening marker (`` ```json ``, or a bare
/// `` ``` `` whose following text does not read as `json`), padding, and one
/// closing marker cleans back to exactly `c`, whatever fence markers `c`
/// itself holds.
pub proof fn lemma_strip_fences_one_pair(
    opener: Seq<char>,
    w1: Seq<char>,
    c: Seq<char>,
    w2: Seq<char>,
)
    requires
        opener == FENCE_JSON@ || (opener == FENCE@ && !has_prefix(
            w1 + c + w2 + FENCE@,
            "json"@,
        )),
        all_ws(w1),
        all_ws(w2),
        trimmed(c) == c,
    ensures
        trimmed(opener + w1 + c + w2 + FENCE@) == opener + w1 + c + w2 + FENCE@,
        strip_fences_spec(opener + w1 + c + w2 + FENCE@) == c,
{
    reveal_strlit("```");
    reveal_strlit("```json");
    reveal_strlit("json");
    let s = opener + w1 + c + w2 + FENCE@;
    let inner = w1 + c + w2;
    assert(s =~= opener + (inner + FENCE@));
    assert(s[0] == '`');
    assert(s.last() == '`');
    assert(!is_ws('`'));
    assert(trim_start(s) == s);
    assert(trimmed(s) == s);
    assert(s.subrange(0, opener.len() as int) =~= opener);
    let a = s.subrange(opener.len() as int, s.len() as int);
    assert(a =~= inner + FENCE@);
    if opener == FENCE@ && has_prefix(s, FENCE_JSON@) {
        assert((inner + FENCE@).subrange(0, 4) =~= "json"@) by {
            assert forall|i: int| 0 <= i < 4 implies (inner + FENCE@).subrange(0, 4)[i]
                == "json"@[i] by {
                assert(s.subrange(0, 7)[3 + i] == FENCE_JSON@[3 + i]);
                assert(s[3 + i] == (inner + FENCE@)[i]);
            }
        }
        assert(inner + FENCE@ =~= w1 + c + w2 + FENCE@);
        assert(false);
    }
    assert(a.subrange(a.len() - 3, a.len() as int) =~= FENCE@);
    assert(a.subrange(0, a.len() - 3) =~= inner);
    lemma_trimmed_padded(w1, c, w2);
}

/// A reply wrapped once in fences, with whitespace inside and outside them,
/// cleans to the trimmed content `c`; no fence marker inside `c` is taken.
pub proof fn lemma_strip_fences_wrapped(
    w1: Seq<char>,
    opener: Seq<char>,
    g1: Seq<char>,
    c: Seq<char>,
    g2: Seq<char>,
    w2: Seq<char>,
)
    requires
        opener == FENCE_JSON@ || (opener == FENCE@ && !has_prefix(
            g1 + c + g2 + FENCE@,
            "json"@,
        )),
        all_ws(w1),
        all_ws(g1),
        all_ws(g2),
        all_ws(w2),
        trimmed(c) == c,
    ensures
        strip_fences_spec(w1 + (opener + g1 + c + g2 + FENCE@) + w2) == c,
{
    let x = opener + g1 + c + g2 + FENCE@;
    lemma_strip_fences_one_pair(opener, g1, c, g2);
    lemma_trimmed_padded(w1, x, w2);
}

/// A reply wrapped once in fences is judged exactly as the bare reply it
/// wraps: it validates to the same `GeminiResponse`, with the same members.
pub proof fn lemma_wrapped_reply_validates_as_bare(
    w1: Seq<char>,
    opener: Seq<char>,
    g1: Seq<char>,
    c: Seq<char>,
    g2: Seq<char>,
    w2: Seq<char>,
    p: GeminiResponse,
)
    requires
        opener == FENCE_JSON@ || (opener == FENCE@ && !has_prefix(
            g1 + c + g2 + FENCE@,
            "json"@,
        )),
        all_ws(w1),
        all_ws(g1),
        all_ws(g2),
        all_ws(w2),
        is_bare(c),
    ensures
        strip_fences_spec(w1 + (opener + g1 + c + g2 + FENCE@) + w2) == strip_fences_spec(c),
        validated(w1 + (opener + g1 + c + g2 + FENCE@) + w2, Ok(p)) <==> validated(c, Ok(p)),
{
    lemma_strip_fences_wrapped(w1, opener, g1, c, g2, w2);
    lemma_strip_fences_bare(c);
}

/// A member that a reply must carry.
#[derive(Clone, Copy, Debug, PartialEq, Eq, Structural)]
pub enum Field {
    Message,
    Command,
    Dangerous,
    Category,
}

impl Field {
    pub open spec fn key_spec(self) -> Seq<char> {
        match self {
            Field::Message => "message"@,
            Field::Command => "command"@,
            Field::Dangerous => "dangerous"@,
            Field::Category => "category"@,
        }
    }

    pub fn key(&self) -> (r: &'static str)
        ensures
            r@ == self.key_spec(),
    {
        match self {
            Field::Message => "message",
            Field::Command => "command",
            Field::Dangerous => "dangerous",
            Field::Category => "category",
        }
    }
}

/// Why a reply was refused.
#[derive(Clone, Debug)]
pub enum ResponseFault {
    /// The text is not JSON; the parser's message.
    Syntax(String),
    /// A required member is absent or of the wrong JSON type.
    Missing(Field),
    /// The category is outside the fixed set; the name given.
    UnknownCategory(String),
}

/// A reply that does not fit the schema, with the text as received.
#[derive(Clone, Debug)]
pub struct MalformedResponse {
    pub raw: String,
    pub fault: ResponseFault,
}

impl MalformedResponse {
    /// A line that says what was wrong.
    pub fn diagnostic(&self) -> (r: String)
        ensures
            r@ == match self.fault {
                ResponseFault::Syntax(e) => "invalid JSON: "@ + e@,
                ResponseFault::Missing(f) => "missing field: "@ + f.key_spec(),
                ResponseFault::UnknownCategory(c) => "unknown category: "@ + c@,
            },
    {
        match &self.fault {
            ResponseFault::Syntax(e) => String::from_str("invalid JSON: ").concat(e.as_str()),
            ResponseFault::Missing(f) => String::from_str("missing field: ").concat(f.key()),
            ResponseFault::UnknownCategory(c) => String::from_str("unknown category: ").concat(
                c.as_str(),
            ),
        }
    }
}

/// The first required member that the cleaned reply `t` lacks.
pub open spec fn first_missing(t: Seq<char>) -> Option<Field> {
    if json_str_member(t, "message"@) is None {
        Some(Field::Message)
    } else if json_str_member(t, "command"@) is None {
        Some(Field::Command)
    } else if json_bool_member(t, "dangerous"@) is None {
        Some(Field::Dangerous)
    } else if json_str_member(t, "category"@) is None {
        Some(Field::Category)
    } else {
        None
    }
}

/// Whether the cleaned reply `t` fits the schema.
pub open spec fn reply_conforms(t: Seq<char>) -> bool {
    &&& json_parses(t)
    &&& first_missing(t) is None
    &&& Category::parse_spec(json_str_member(t, "category"@).unwrap()) is Some
}

/// What `validate_response` promises of `raw` and its result.
pub open spec fn validated(raw: Seq<char>, r: Result<GeminiResponse, MalformedResponse>) -> bool {
    let t = strip_fences_spec(raw);
    &&& r is Ok <==> reply_conforms(t)
    &&& r matches Ok(p) ==> {
        &&& json_str_member(t, "message"@) == Some(p.message@)
        &&& json_str_member(t, "command"@) == Some(p.command@)
        &&& json_bool_member(t, "dangerous"@) == Some(p.dangerous)
        &&& Category::parse_spec(json_str_member(t, "category"@).unwrap()) == Some(p.category)
    }
    &&& r matches Err(e) ==> {
        &&& e.raw@ == raw
        &&& e.fault is Syntax <==> !json_parses(t)
        &&& e.fault is Missing <==> (json_parses(t) && first_missing(t) is Some)
        &&& e.fault matches ResponseFault::Missing(f) ==> first_missing(t) == Some(f)
        &&& e.fault matches ResponseFault::UnknownCategory(c) ==> json_str_member(t, "category"@)
            == Some(c@)
    }
}

/// Strips fences and decodes the reply; refuses a reply that is not JSON,
/// lacks a member, or names an unknown category.
pub fn validate_response(raw: &str) -> (r: Result<GeminiResponse, MalformedResponse>)
    ensures
        validated(raw@, r),
{
    let t = strip_fences(raw);
    if let Some(e) = json_syntax_error(t) {
        return Err(MalformedResponse { raw: String::from_str(raw), fault: ResponseFault::Syntax(e) });
    }
    let message = json_str_field(t, Field::Message.key());
    let command = json_str_field(t, Field::Command.key());
    let dangerous = json_bool_field(t, Field::Dangerous.key());
    let category = json_str_field(t, Field::Category.key());
    let missing = if message.is_none() {
        Some(Field::Message)
    } else if command.is_none() {
        Some(Field::Command)
    } else if dangerous.is_none() {
        Some(Field::Dangerous)
    } else if category.is_none() {
        Some(Field::Category)
    } else {
        None
    };
    match (message, command, dangerous, category) {
        (Some(message), Some(command), Some(dangerous), Some(name)) => {
            match Category::parse(name.as_str()) {
                Some(category) => Ok(GeminiResponse { message, command, dangerous, category }),
                None => Err(
                    MalformedResponse {
                        raw: String::from_str(raw),
                        fault: ResponseFault::UnknownCategory(name),
                    },
                ),
            }
        },
        _ => Err(
            MalformedResponse {
                raw: String::from_str(raw),
                fault: ResponseFault::Missing(missing.unwrap()),
            },
        ),
    }
}

} // verus!
