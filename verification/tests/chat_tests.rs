use cli_chat::chat_turn;
use cli_chat::is_exit_command;
use cli_chat::note_reply;
use cli_chat::request_body;
use cli_chat::Role;
use cli_chat::Transcript;
use cli_chat::TurnAction;

#[test]
fn exit_is_recognized_in_any_case() {
    assert!(is_exit_command(b"exit"));
    assert!(is_exit_command(b"Exit"));
    assert!(is_exit_command(b"EXIT"));
    assert!(is_exit_command(b"eXiT"));
    assert!(is_exit_command(b"  exit  "));
    assert!(is_exit_command(b"\texit\n"));
}

#[test]
fn other_lines_are_not_exit() {
    assert!(!is_exit_command(b"quit"));
    assert!(!is_exit_command(b"exits"));
    assert!(!is_exit_command(b"e x i t"));
    assert!(!is_exit_command(b""));
    assert!(!is_exit_command(b"exit now"));
}

#[test]
fn exit_turn_sends_nothing_and_keeps_the_transcript() {
    for line in ["EXIT", "Exit", "exit"] {
        let mut t = Transcript::new_chat();
        let a = chat_turn(&mut t, b"m", line.as_bytes().to_vec());
        assert!(matches!(a, TurnAction::Exit));
        assert_eq!(t.len(), 1);
    }
}

#[test]
fn ordinary_turn_appends_user_message_and_builds_the_body() {
    let mut t = Transcript::new_chat();
    let a = chat_turn(&mut t, b"m", b"list files".to_vec());
    assert_eq!(t.len(), 2);
    assert_eq!(t.get(1).role, Role::User);
    assert_eq!(t.get(1).content, b"list files".to_vec());
    match a {
        TurnAction::Send(body) => assert_eq!(body, request_body(b"m", &t)),
        TurnAction::Exit => panic!("a non-exit line must send"),
    }
}

#[test]
fn a_present_reply_joins_the_transcript() {
    let mut t = Transcript::new_chat();
    t.push_user(b"q".to_vec());
    note_reply(&mut t, Some(b"ls -la".to_vec()));
    assert_eq!(t.len(), 3);
    assert_eq!(t.get(2).role, Role::Assistant);
    assert_eq!(t.get(2).content, b"ls -la".to_vec());
}

#[test]
fn an_absent_reply_changes_nothing() {
    let mut t = Transcript::new_chat();
    t.push_user(b"q".to_vec());
    note_reply(&mut t, None);
    assert_eq!(t.len(), 2);
}
