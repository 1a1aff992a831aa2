//! The body of a request to the model, as JSON text: the reply schema, the
//! system instruction, and the conversation turns in order.
use crate::config::{json_quoted, json_string_literal};
use crate::types::Message;
use vstd::prelude::*;

verus! {

/// The body up to the system instruction's text: the reply must be JSON
/// with the four members, and the category one of the fixed names.
pub const REQUEST_HEAD: &'static str = "{\"generationConfig\":{\"responseMimeType\":\"application/json\",\"responseSchema\":{\"type\":\"OBJECT\",\"required\":[\"message\",\"command\",\"dangerous\",\"category\"],\"properties\":{\"message\":{\"type\":\"STRING\",\"description\":\"Clear, concise message with relevant emoji\"},\"command\":{\"type\":\"STRING\",\"description\":\"Shell command to execute, empty if no action needed\"},\"dangerous\":{\"type\":\"BOOLEAN\",\"description\":\"True if command could be potentially harmful\"},\"category\":{\"type\":\"STRING\",\"description\":\"Classification of the command type\",\"enum\":[\"system\",\"file\",\"network\",\"package\",\"text\",\"process\",\"other\"]}}}},\"systemInstruction\":{\"parts\":[{\"text\":";

/// The body between the system instruction's text and the first turn.
pub const REQUEST_MIDDLE: &'static str = "}],\"role\":\"user\"},\"contents\":[";

/// The end of the body.
pub const REQUEST_TAIL: &'static str = "]}";

/// One turn as request content: its text as the single part, and its role.
pub open spec fn turn_json(m: Message) -> Seq<char> {
    "{\"parts\":[{\"text\":"@ + json_quoted(m.content@) + "}],\"role\":"@ + json_quoted(m.role@)
        + "}"@
}

/// The turns as request contents, separated by commas, oldest first.
pub open spec fn turns_json(ms: Seq<Message>) -> Seq<char>
    decreases ms.len(),
{
    if ms.len() == 0 {
        Seq::<char>::empty()
    } else if ms.len() == 1 {
        turn_json(ms[0])
    } else {
        turns_json(ms.drop_last()) + ","@ + turn_json(ms.last())
    }
}

/// The whole body for the system instruction `system` and the turns `ms`.
pub open spec fn request_json_spec(system: Seq<char>, ms: Seq<Message>) -> Seq<char> {
    REQUEST_HEAD@ + json_quoted(system) + REQUEST_MIDDLE@ + turns_json(ms) + REQUEST_TAIL@
}

fn turn_to_json(m: &Message) -> (r: String)
    ensures
        r@ == turn_json(*m),
{
    String::from_str("{\"parts\":[{\"text\":").concat(
        json_string_literal(m.content.as_str()).as_str(),
    ).concat("}],\"role\":").concat(json_string_literal(m.role.as_str()).as_str()).concat("}")
}

/// Writes the request body for the system instruction `system` and the
/// conversation `turns`.
pub fn request_json(system: &str, turns: &Vec<Message>) -> (r: String)
    ensures
        r@ == request_json_spec(system@, turns@),
{
    let mut body = String::from_str(REQUEST_HEAD).concat(json_string_literal(system).as_str()).concat(
        REQUEST_MIDDLE,
    );
    let ghost head = body@;
    let mut i: usize = 0;
    while i < turns.len()
        invariant
            i <= turns@.len(),
            head == REQUEST_HEAD@ + json_quoted(system@) + REQUEST_MIDDLE@,
            body@ == head + turns_json(turns@.subrange(0, i as int)),
        decreases turns.len() - i,
    {
        let ghost before = turns@.subrange(0, i as int);
        assert(turns@.subrange(0, i + 1).drop_last() =~= before);
        if i > 0 {
            body = body.concat(",");
        }
        body = body.concat(turn_to_json(&turns[i]).as_str());
        proof {
            if i == 0 {
                assert(before =~= Seq::<Message>::empty());
                assert(turns_json(before) =~= Seq::<char>::empty());
            }
        }
        assert(body@ =~= head + turns_json(turns@.subrange(0, i + 1)));
        i = i + 1;
    }
    assert(turns@.subrange(0, i as int) =~= turns@);
    body.concat(REQUEST_TAIL)
}

/// The body of a request with one user turn of text `text` and nothing else.
pub open spec fn single_turn_json_spec(text: Seq<char>) -> Seq<char> {
    "{\"contents\":[{\"parts\":[{\"text\":"@ + json_quoted(text) + "}],\"role\":\"user\"}]}"@
}

/// Writes the body of a one-turn request, as for an explanation.
pub fn single_turn_json(text: &str) -> (r: String)
    ensures
        r@ == single_turn_json_spec(text@),
{
    String::from_str("{\"contents\":[{\"parts\":[{\"text\":").concat(
        json_string_literal(text).as_str(),
    ).concat("}],\"role\":\"user\"}]}")
}

} // verus!
