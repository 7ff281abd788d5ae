use cli_chat::request_body;
use cli_chat::Role;
use cli_chat::Transcript;

#[test]
fn body_has_model_messages_and_temperature() {
    let mut t = Transcript::new(b"S".to_vec());
    t.push_user(b"U".to_vec());
    let body = request_body(b"m", &t);
    let expected = "{\"model\":\"m\",\"messages\":[{\"role\":\"system\",\"content\":\"S\"},{\"role\":\"user\",\"content\":\"U\"}],\"temperature\":0.8}";
    assert_eq!(body, expected.as_bytes().to_vec());
}

#[test]
fn body_escapes_quotes_backslashes_and_controls() {
    let t = Transcript::new(b"a\"b\\c\nd\te\x01f".to_vec());
    let body = request_body(b"m", &t);
    let expected = "{\"model\":\"m\",\"messages\":[{\"role\":\"system\",\"content\":\"a\\\"b\\\\c\\nd\\te\\u0001f\"}],\"temperature\":0.8}";
    assert_eq!(body, expected.as_bytes().to_vec());
}

#[test]
fn body_round_trips_through_a_json_parser() {
    let mut t = Transcript::new(b"sys \"prompt\"\nwith lines".to_vec());
    t.push_user("caf\u{e9} query".as_bytes().to_vec());
    t.push_assistant(b"reply\r\n\x1b[0m".to_vec());
    let body = request_body("g\u{00fc}m".as_bytes(), &t);
    let v: serde_json::Value = serde_json::from_slice(&body).expect("body must be valid JSON");
    assert_eq!(v["model"].as_str().unwrap(), "g\u{00fc}m");
    assert_eq!(v["temperature"].as_f64().unwrap(), 0.8);
    let msgs = v["messages"].as_array().unwrap();
    assert_eq!(msgs.len(), 3);
    assert_eq!(msgs[0]["role"].as_str().unwrap(), "system");
    assert_eq!(msgs[0]["content"].as_str().unwrap(), "sys \"prompt\"\nwith lines");
    assert_eq!(msgs[1]["role"].as_str().unwrap(), "user");
    assert_eq!(msgs[1]["content"].as_str().unwrap(), "caf\u{e9} query");
    assert_eq!(msgs[2]["role"].as_str().unwrap(), "assistant");
    assert_eq!(msgs[2]["content"].as_str().unwrap(), "reply\r\n\x1b[0m");
}

#[test]
fn transcript_roles_are_recorded_in_order() {
    let mut t = Transcript::new_chat();
    t.push_user(b"q".to_vec());
    t.push_assistant(b"a".to_vec());
    assert_eq!(t.len(), 3);
    assert_eq!(t.get(0).role, Role::System);
    assert_eq!(t.get(1).role, Role::User);
    assert_eq!(t.get(2).role, Role::Assistant);
}

#[test]
fn fixed_prompts_seed_the_transcripts() {
    let chat = Transcript::new_chat();
    assert_eq!(
        chat.get(0).content,
        b"You are a command line expert. Give me a precise CLI command for the query I ask you. Keep it concise, just give me the exact command to run (no explanations).".to_vec()
    );
    let analysis = Transcript::new_analysis(b"some logs".to_vec());
    assert_eq!(analysis.len(), 2);
    assert_eq!(
        analysis.get(0).content,
        b"You are a computer science expert. Analyze the following logs and find the issues and potential bugs. Keep it concise and to the point.".to_vec()
    );
    assert_eq!(analysis.get(1).role, Role::User);
    assert_eq!(analysis.get(1).content, b"some logs".to_vec());
}
