use rust_chat::app::{App, MAX_HISTORY};
use rust_chat::message::{SystemKind, UiMessage};
use rust_chat::screen::max_scroll;
use rust_chat::parser::parse_message;
use rust_chat::session::{
    disconnected_line, read_error_line, is_quit_command, normalize_handle, outgoing_line, FrameGeometry, KeyInput, KeyOutcome,
};

fn app() -> App {
    App::new("127.0.0.1:42069".to_string(), "alice".to_string())
}

fn geometry(height: u16, max: u16) -> FrameGeometry {
    FrameGeometry { message_area_height: height, max_scroll: max }
}

#[test]
fn new_app_is_empty_and_live() {
    let a = app();
    assert_eq!(a.addr, "127.0.0.1:42069");
    assert_eq!(a.nick, "alice");
    assert!(a.messages.is_empty());
    assert!(a.input.is_empty());
    assert!(!a.should_quit);
    assert_eq!(a.scroll, 0);
    assert!(a.auto_scroll);
    assert_eq!(a.online_count, None);
    assert!(a.online_users.is_empty());
}

#[test]
fn history_is_bounded_and_keeps_newest() {
    let mut a = app();
    for i in 0..(MAX_HISTORY + 5) {
        a.push_message(UiMessage::Raw(i.to_string()));
    }
    assert_eq!(a.messages.len(), MAX_HISTORY);
    assert!(matches!(&a.messages[0], UiMessage::Raw(s) if s == "5"));
    assert!(matches!(a.messages.last(), Some(UiMessage::Raw(s)) if s == "1004"));
}

#[test]
fn history_below_bound_keeps_all() {
    let mut a = app();
    a.push_message(UiMessage::Raw("one".to_string()));
    a.push_message(UiMessage::Error("two".to_string()));
    assert_eq!(a.messages.len(), 2);
}

#[test]
fn scroll_up_saturates_and_leaves_live_mode() {
    let mut a = app();
    a.scroll = 3;
    a.scroll_up(5);
    assert_eq!(a.scroll, 0);
    assert!(!a.auto_scroll);
    a.scroll = 10;
    a.scroll_up(4);
    assert_eq!(a.scroll, 6);
}

#[test]
fn scroll_down_stops_at_max_and_goes_live() {
    let mut a = app();
    a.auto_scroll = false;
    a.scroll = 2;
    a.scroll_down(3, 10);
    assert_eq!(a.scroll, 5);
    assert!(!a.auto_scroll);
    a.scroll_down(100, 10);
    assert_eq!(a.scroll, 10);
    assert!(a.auto_scroll);
    a.auto_scroll = false;
    a.scroll = u16::MAX - 1;
    a.scroll_down(5, u16::MAX);
    assert_eq!(a.scroll, u16::MAX);
    assert!(a.auto_scroll);
}

#[test]
fn scroll_up_then_down_returns() {
    let mut a = app();
    a.scroll = 7;
    a.scroll_up(3);
    a.scroll_down(3, 9);
    assert_eq!(a.scroll, 7);
}

#[test]
fn scroll_to_bottom_goes_live() {
    let mut a = app();
    a.auto_scroll = false;
    a.scroll_to_bottom(12);
    assert_eq!(a.scroll, 12);
    assert!(a.auto_scroll);
}

#[test]
fn clamp_scroll_in_both_modes() {
    let mut a = app();
    a.scroll = 4;
    a.clamp_scroll(9);
    assert_eq!(a.scroll, 9);
    a.auto_scroll = false;
    a.scroll = 20;
    a.clamp_scroll(9);
    assert_eq!(a.scroll, 9);
    a.clamp_scroll(9);
    assert_eq!(a.scroll, 9);
    a.scroll = 3;
    a.clamp_scroll(9);
    assert_eq!(a.scroll, 3);
}

#[test]
fn max_scroll_values() {
    assert_eq!(max_scroll(10, 5), 7);
    assert_eq!(max_scroll(3, 5), 0);
    assert_eq!(max_scroll(0, 0), 0);
    assert_eq!(max_scroll(4, 1), 4);
    assert_eq!(max_scroll(100_000, 0), u16::MAX);
    assert_eq!(max_scroll(65_537, 2), u16::MAX);
}

#[test]
fn receive_line_updates_online_list_and_history() {
    let mut a = app();
    a.receive_line("Online (2): alice, bob".to_string());
    assert_eq!(a.online_count, Some(2));
    assert_eq!(a.online_users, vec!["alice".to_string(), "bob".to_string()]);
    assert!(matches!(&a.messages[0], UiMessage::System(SystemKind::Online, _)));
    a.receive_line("bob: hey".to_string());
    assert_eq!(a.online_count, Some(2));
    assert!(matches!(&a.messages[1], UiMessage::Chat { .. }));
}

#[test]
fn welcome_notices_in_order() {
    let mut a = app();
    a.push_welcome();
    let texts: Vec<String> = a
        .messages
        .iter()
        .map(|m| match m {
            UiMessage::System(_, t) => t.clone(),
            _ => panic!("expected notices"),
        })
        .collect();
    assert_eq!(
        texts,
        vec![
            "Connected.",
            "Type messages and press Enter.",
            "Commands: /who, /quit",
            "Scroll: ↑ ↓ PgUp PgDn End",
            "Press Esc to quit."
        ]
    );
    assert!(matches!(&a.messages[0], UiMessage::System(SystemKind::Connected, _)));
}

#[test]
fn prepare_frame_clamps() {
    let mut a = app();
    for i in 0..30 {
        a.push_message(UiMessage::Raw(i.to_string()));
    }
    let g = a.prepare_frame(24);
    assert_eq!(g.message_area_height, 19);
    assert_eq!(g.max_scroll, 13);
    assert_eq!(a.scroll, 13);
    let g = a.prepare_frame(3);
    assert_eq!(g.message_area_height, 0);
    assert_eq!(g.max_scroll, 30);
}

#[test]
fn enter_sends_trimmed_line_and_clears() {
    let mut a = app();
    for c in "  hello there ".chars() {
        a.handle_key(KeyInput::Char(c), geometry(10, 0));
    }
    let out = a.handle_key(KeyInput::Enter, geometry(10, 0));
    assert!(matches!(out, KeyOutcome::Send(ref t) if t == "hello there\n"));
    assert!(a.input.is_empty());
}

#[test]
fn enter_on_blank_line_just_clears() {
    let mut a = app();
    a.input = "   ".to_string();
    let out = a.handle_key(KeyInput::Enter, geometry(10, 0));
    assert!(matches!(out, KeyOutcome::Continue));
    assert!(a.input.is_empty());
}

#[test]
fn enter_quit_sends_and_stops() {
    let mut a = app();
    a.input = " /quit ".to_string();
    let out = a.handle_key(KeyInput::Enter, geometry(10, 0));
    assert!(matches!(out, KeyOutcome::SendAndQuit(ref t) if t == "/quit\n"));
    assert_eq!(a.input, " /quit ");
}

#[test]
fn esc_sends_quit() {
    let mut a = app();
    a.input = "draft".to_string();
    let out = a.handle_key(KeyInput::Esc, geometry(10, 0));
    assert!(matches!(out, KeyOutcome::SendAndQuit(ref t) if t == "/quit\n"));
    assert_eq!(a.input, "draft");
}

#[test]
fn backspace_and_chars_edit_input() {
    let mut a = app();
    a.handle_key(KeyInput::Backspace, geometry(10, 0));
    assert!(a.input.is_empty());
    a.handle_key(KeyInput::Char('é'), geometry(10, 0));
    a.handle_key(KeyInput::Char('x'), geometry(10, 0));
    a.handle_key(KeyInput::Backspace, geometry(10, 0));
    assert_eq!(a.input, "é");
    a.handle_key(KeyInput::Other, geometry(10, 0));
    assert_eq!(a.input, "é");
}

#[test]
fn paging_moves_by_panel_height() {
    let mut a = app();
    a.scroll = 20;
    a.auto_scroll = true;
    a.handle_key(KeyInput::PageUp, geometry(10, 40));
    assert_eq!(a.scroll, 12);
    assert!(!a.auto_scroll);
    a.handle_key(KeyInput::PageDown, geometry(2, 40));
    assert_eq!(a.scroll, 13);
    a.handle_key(KeyInput::Up, geometry(10, 40));
    assert_eq!(a.scroll, 12);
    a.handle_key(KeyInput::Down, geometry(10, 13));
    assert_eq!(a.scroll, 13);
    assert!(a.auto_scroll);
    a.auto_scroll = false;
    a.handle_key(KeyInput::End, geometry(10, 30));
    assert_eq!(a.scroll, 30);
    assert!(a.auto_scroll);
}

#[test]
fn handle_rules() {
    assert_eq!(normalize_handle("  alice \n"), Some("alice".to_string()));
    assert_eq!(normalize_handle(" \t\n"), None);
    assert_eq!(normalize_handle(""), None);
}

#[test]
fn quit_command_and_wire_lines() {
    assert!(is_quit_command("/quit"));
    assert!(is_quit_command("  /quit\n"));
    assert!(!is_quit_command("/quit now"));
    assert!(!is_quit_command("/QUIT"));
    assert_eq!(outgoing_line("hi"), "hi\n");
    assert_eq!(outgoing_line(""), "\n");
}

#[test]
fn connection_notices_are_classified() {
    let m = parse_message(disconnected_line());
    assert!(matches!(m, UiMessage::System(SystemKind::Disconnected, ref t) if t == "[disconnected]"));
    let m = parse_message(read_error_line("connection reset by peer"));
    assert!(matches!(m, UiMessage::Error(ref t) if t == "[read error] connection reset by peer"));
    let m = parse_message(read_error_line(""));
    assert!(matches!(m, UiMessage::Error(_)));
}
