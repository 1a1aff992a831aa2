use gemini_client_rs::types::GenerateContentRequest;
use nexsh::prompt::system_instruction;
use nexsh::request::{request_json, single_turn_json};
use nexsh::types::Message;

fn turn(role: &str, content: &str) -> Message {
    Message { role: role.to_string(), content: content.to_string(), timestamp: 0 }
}

#[test]
fn request_body_carries_turns_in_order() {
    let turns = vec![turn("user", "list \"files\""), turn("model", "Command:ls, message:ok")];
    let body = request_json("sys\ntext", &turns);
    let v: serde_json::Value = serde_json::from_str(&body).unwrap();
    assert_eq!(v["systemInstruction"]["parts"][0]["text"], "sys\ntext");
    assert_eq!(v["contents"][0]["role"], "user");
    assert_eq!(v["contents"][0]["parts"][0]["text"], "list \"files\"");
    assert_eq!(v["contents"][1]["role"], "model");
    assert_eq!(v["contents"][1]["parts"][0]["text"], "Command:ls, message:ok");
    assert_eq!(v["contents"].as_array().unwrap().len(), 2);
    assert_eq!(
        v["generationConfig"]["responseSchema"]["required"],
        serde_json::Value::from(vec!["message", "command", "dangerous", "category"])
    );
    assert_eq!(v["generationConfig"]["responseSchema"]["properties"]["category"]["enum"][6], "other");
}

#[test]
fn request_body_decodes_for_the_client() {
    let turns = vec![turn("user", "hello")];
    let body = request_json(&system_instruction("linux"), &turns);
    let r: GenerateContentRequest = serde_json::from_str(&body).unwrap();
    assert_eq!(r.contents.len(), 1);
    assert!(r.system_instruction.is_some());
    assert!(r.generation_config.is_some());
}

#[test]
fn empty_conversation_has_no_contents() {
    let body = request_json("s", &Vec::new());
    let v: serde_json::Value = serde_json::from_str(&body).unwrap();
    assert_eq!(v["contents"].as_array().unwrap().len(), 0);
}

#[test]
fn one_turn_body_for_explanations() {
    let body = single_turn_json("why\tdid it fail?");
    assert_eq!(body, "{\"contents\":[{\"parts\":[{\"text\":\"why\\tdid it fail?\"}],\"role\":\"user\"}]}");
    let r: GenerateContentRequest = serde_json::from_str(&body).unwrap();
    assert_eq!(r.contents.len(), 1);
}
