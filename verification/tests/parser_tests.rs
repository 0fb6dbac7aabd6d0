use rust_chat::message::{SystemKind, UiMessage};
use rust_chat::parser::{parse_message, parse_online_line};

fn kind_of(m: &UiMessage) -> Option<SystemKind> {
    match m {
        UiMessage::System(kind, _) => Some(*kind),
        _ => None,
    }
}

#[test]
fn error_prefix_is_error() {
    let m = parse_message("Error: nickname taken".to_string());
    assert!(matches!(m, UiMessage::Error(ref s) if s == "Error: nickname taken"));
}

#[test]
fn read_error_prefix_is_error() {
    let m = parse_message("[read error] connection reset".to_string());
    assert!(matches!(m, UiMessage::Error(ref s) if s == "[read error] connection reset"));
}

#[test]
fn disconnected_line_is_notice() {
    let m = parse_message("[disconnected]".to_string());
    assert_eq!(kind_of(&m), Some(SystemKind::Disconnected));
}

#[test]
fn disconnected_needs_exact_line() {
    let m = parse_message("[disconnected] ".to_string());
    assert!(matches!(m, UiMessage::Raw(_)));
}

#[test]
fn online_prefix_is_notice() {
    let m = parse_message("Online (2): alice, bob".to_string());
    assert_eq!(kind_of(&m), Some(SystemKind::Online));
}

#[test]
fn join_and_leave_suffixes() {
    assert_eq!(
        kind_of(&parse_message("alice has joined the room".to_string())),
        Some(SystemKind::Join)
    );
    assert_eq!(
        kind_of(&parse_message("bob has left the room".to_string())),
        Some(SystemKind::Leave)
    );
}

#[test]
fn connected_and_info_lines() {
    assert_eq!(kind_of(&parse_message("Connected.".to_string())), Some(SystemKind::Connected));
    for line in ["Type messages and press Enter.", "Commands: /who, /quit", "Press Esc to quit."] {
        assert_eq!(kind_of(&parse_message(line.to_string())), Some(SystemKind::Info));
    }
}

#[test]
fn chat_line_splits_at_first_separator() {
    let m = parse_message("alice: hi: there".to_string());
    match m {
        UiMessage::Chat { from, body } => {
            assert_eq!(from, "alice");
            assert_eq!(body, "hi: there");
        }
        _ => panic!("expected a chat message"),
    }
}

#[test]
fn chat_with_unicode_text() {
    let m = parse_message("Zoë: ¿qué tal? 🙂".to_string());
    match m {
        UiMessage::Chat { from, body } => {
            assert_eq!(from, "Zoë");
            assert_eq!(body, "¿qué tal? 🙂");
        }
        _ => panic!("expected a chat message"),
    }
}

#[test]
fn empty_sender_or_body_is_raw() {
    assert!(matches!(parse_message(": hello".to_string()), UiMessage::Raw(_)));
    assert!(matches!(parse_message("alice: ".to_string()), UiMessage::Raw(_)));
    assert!(matches!(parse_message("no separator here".to_string()), UiMessage::Raw(_)));
    assert!(matches!(parse_message(String::new()), UiMessage::Raw(_)));
}

#[test]
fn earlier_rules_win() {
    let m = parse_message("Error: alice has joined the room".to_string());
    assert!(matches!(m, UiMessage::Error(_)));
    let m = parse_message("Online (1): bob has left the room".to_string());
    assert_eq!(kind_of(&m), Some(SystemKind::Online));
    let m = parse_message("carol: bob has left the room".to_string());
    assert_eq!(kind_of(&m), Some(SystemKind::Leave));
}

#[test]
fn scroll_help_line_is_chat() {
    let m = parse_message("Scroll: ↑ ↓ PgUp PgDn End".to_string());
    assert!(matches!(m, UiMessage::Chat { .. }));
}

#[test]
fn online_line_lists_users() {
    let (count, users) = parse_online_line("Online (2): alice, bob").unwrap();
    assert_eq!(count, 2);
    assert_eq!(users, vec!["alice".to_string(), "bob".to_string()]);
}

#[test]
fn online_line_blank_list_is_empty() {
    assert_eq!(parse_online_line("Online (0): "), Some((0, Vec::new())));
    assert_eq!(parse_online_line("Online (0): \t  "), Some((0, Vec::new())));
}

#[test]
fn online_line_keeps_empty_pieces() {
    let (_, users) = parse_online_line("Online (3): a, , b, ").unwrap();
    assert_eq!(users, vec!["a", "", "b", ""]);
    let (_, users) = parse_online_line("Online (1):  x ").unwrap();
    assert_eq!(users, vec![" x "]);
}

#[test]
fn online_line_count_rules() {
    assert_eq!(parse_online_line("Online (+3): a").map(|p| p.0), Some(3));
    assert_eq!(parse_online_line("Online (007): a").map(|p| p.0), Some(7));
    assert_eq!(parse_online_line("Online (x): a"), None);
    assert_eq!(parse_online_line("Online (): a"), None);
    assert_eq!(parse_online_line("Online (+): a"), None);
    assert_eq!(parse_online_line("Online (-1): a"), None);
    assert_eq!(parse_online_line("Online ( 1): a"), None);
    assert_eq!(parse_online_line("Online (99999999999999999999999999): a"), None);
}

#[test]
fn online_line_shape_rules() {
    assert_eq!(parse_online_line("online (1): a"), None);
    assert_eq!(parse_online_line("Online (1) a"), None);
    assert_eq!(parse_online_line("Online (1):a"), None);
    assert_eq!(parse_online_line("x Online (1): a"), None);
}

#[test]
fn online_line_is_shown_as_online_notice() {
    let line = "Online (2): alice, bob";
    assert!(parse_online_line(line).is_some());
    match parse_message(line.to_string()) {
        UiMessage::System(SystemKind::Online, text) => assert_eq!(text, line),
        _ => panic!("expected an online notice"),
    }
}

#[test]
fn message_keeps_the_line() {
    for line in ["alice: hi", "Error: x", "plain", "bob has left the room", ": x"] {
        let text = match parse_message(line.to_string()) {
            UiMessage::System(_, b) | UiMessage::Error(b) | UiMessage::Raw(b) => b,
            UiMessage::Chat { from, body } => format!("{from}: {body}"),
        };
        assert_eq!(text, line);
    }
}

#[test]
fn users_join_back_to_list() {
    let list = "alice, bob, , carol";
    let (_, users) = parse_online_line(&format!("Online (4): {list}")).unwrap();
    assert_eq!(users.join(", "), list);
}

#[test]
fn online_line_round_trip() {
    let users = vec!["alice".to_string(), " bob ".to_string(), "".to_string(), "c,d".to_string()];
    let line = format!("Online ({}): {}", 42usize, users.join(", "));
    assert_eq!(parse_online_line(&line), Some((42, users)));
    assert_eq!(parse_online_line("Online (0): "), Some((0, Vec::new())));
}
